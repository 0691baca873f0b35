//! The hybrid KEM+AEAD pipeline and the symmetric AES-GCM pipeline.
//!
//! The KEM-derived 32-byte secret is used directly as the AEAD key, with no
//! key-derivation step: the wire format fixes this construction.

use vstd::prelude::*;

use crate::provider::{
    aead_seal, aes_open, aes_seal, b64_encode, b64_of, kem_encapsulate, kem_shared_of,
    random_bytes,
};
use crate::utils::{decode_b64, decode_b64_len, is_b64_len};

verus! {

/// The plaintext limit of one AES-GCM call, in bytes.
pub const AEAD_MAX_LEN: u64 = 68719476736;

/// What the hybrid pipeline emits: everything base64.
pub struct AsymmetricEncrypted {
    pub encrypted_data: String,
    pub cipher_text: String,
    pub iv: String,
    pub algorithm: String,
}

/// What the symmetric pipeline emits: everything base64.
pub struct SymmetricEncrypted {
    pub encrypted_data: String,
    pub iv: String,
    pub algorithm: String,
}

/// The symmetric fields decrypt to `out` under the 32-byte key: each field
/// is canonical base64 and the sealed bytes are the AES-GCM sealing of
/// `out`'s UTF-8 bytes under that key and nonce.
pub open spec fn sym_decrypts_to(
    enc_b64: Seq<char>,
    iv_b64: Seq<char>,
    key_b64: Seq<char>,
    out: Seq<char>,
) -> bool {
    exists|kb: Seq<u8>, ivb: Seq<u8>|
        #![trigger aead_seal(kb, ivb, vstd::utf8::encode_utf8(out))]
        key_b64 == b64_of(kb) && kb.len() == 32 && iv_b64 == b64_of(ivb) && ivb.len() == 12
            && enc_b64 == b64_of(aead_seal(kb, ivb, vstd::utf8::encode_utf8(out)))
}

/// The hybrid fields decrypt to `out` under the private key: the AEAD key
/// is the shared secret that decapsulation derives from the KEM ciphertext.
pub open spec fn asym_decrypts_to(
    enc_b64: Seq<char>,
    ct_b64: Seq<char>,
    iv_b64: Seq<char>,
    sk_b64: Seq<char>,
    out: Seq<char>,
) -> bool {
    exists|skb: Seq<u8>, ctb: Seq<u8>, ivb: Seq<u8>|
        #![trigger kem_shared_of(skb, ctb), b64_of(ivb)]
        sk_b64 == b64_of(skb) && skb.len() == 2400 && ct_b64 == b64_of(ctb) && ctb.len() == 1088
            && iv_b64 == b64_of(ivb) && ivb.len() == 12 && enc_b64 == b64_of(
            aead_seal(kem_shared_of(skb, ctb), ivb, vstd::utf8::encode_utf8(out)),
        )
}

/// The sealed field is base64 of the AES-GCM sealing of the data's UTF-8
/// bytes under some 32-byte secret and the 12-byte nonce behind the IV
/// field; the sealed bytes are 16 longer than the data.
pub open spec fn hybrid_sealed(enc_b64: Seq<char>, iv_b64: Seq<char>, data: Seq<char>) -> bool {
    exists|secret: Seq<u8>, ivb: Seq<u8>|
        #![trigger aead_seal(secret, ivb, vstd::utf8::encode_utf8(data))]
        secret.len() == 32 && ivb.len() == 12 && iv_b64 == b64_of(ivb) && enc_b64 == b64_of(
            aead_seal(secret, ivb, vstd::utf8::encode_utf8(data)),
        ) && aead_seal(secret, ivb, vstd::utf8::encode_utf8(data)).len() == vstd::utf8::encode_utf8(
            data,
        ).len() + 16
}

/// The sealed field is base64 of exactly the data's UTF-8 length plus the
/// 16-byte tag.
pub open spec fn sealed_len_ok(enc_b64: Seq<char>, data: Seq<char>) -> bool {
    exists|encb: Seq<u8>|
        enc_b64 == b64_of(encb) && encb.len() == vstd::utf8::encode_utf8(data).len() + 16
}

/// Hybrid encryption: encapsulate against the public key, draw a fresh
/// 12-byte IV, seal the data under the shared secret.  Absent when the
/// public key is not base64 of 1184 bytes or the data is oversized.
pub fn encrypt(data: &str, public_key_b64: &str) -> (r: Option<AsymmetricEncrypted>)
    ensures
        r matches Some(enc) ==> (is_b64_len(public_key_b64@, 1184) && enc.algorithm@ == "AES-GCM"@
            && is_b64_len(enc.iv@, 12) && is_b64_len(enc.cipher_text@, 1088) && hybrid_sealed(
            enc.encrypted_data@,
            enc.iv@,
            data@,
        ) && sealed_len_ok(enc.encrypted_data@, data@)),
        r is None <==> (!is_b64_len(public_key_b64@, 1184) || vstd::utf8::encode_utf8(
            data@,
        ).len() > AEAD_MAX_LEN),
{
    let pk = match decode_b64_len(public_key_b64, 1184) {
        Some(v) => v,
        None => {
            return None;
        },
    };
    let pt = data.as_bytes();
    if pt.len() as u64 > AEAD_MAX_LEN {
        return None;
    }
    let (kem_ct, shared) = kem_encapsulate(pk.as_slice());
    let iv = random_bytes(12);
    let sealed = aes_seal(shared.as_slice(), iv.as_slice(), pt);
    Some(
        AsymmetricEncrypted {
            encrypted_data: b64_encode(sealed.as_slice()),
            cipher_text: b64_encode(kem_ct.as_slice()),
            iv: b64_encode(iv.as_slice()),
            algorithm: "AES-GCM".to_owned(),
        },
    )
}

/// Hybrid decryption: decapsulate the KEM ciphertext with the private key,
/// then open the sealed data.  Whenever the fields are the sealing of some
/// text under the decapsulated secret, that text is returned.
pub fn decrypt(
    encrypted_data_b64: &str,
    cipher_text_b64: &str,
    iv_b64: &str,
    private_key_b64: &str,
) -> (r: Option<String>)
    ensures
        forall|out: Seq<char>|
            #[trigger] asym_decrypts_to(
                encrypted_data_b64@,
                cipher_text_b64@,
                iv_b64@,
                private_key_b64@,
                out,
            ) && vstd::utf8::encode_utf8(out).len() <= AEAD_MAX_LEN ==> (r matches Some(p) && p@
                == out),
        r is Some ==> (is_b64_len(private_key_b64@, 2400) && is_b64_len(cipher_text_b64@, 1088)
            && is_b64_len(iv_b64@, 12)),
{
    let sk = match decode_b64_len(private_key_b64, 2400) {
        Some(v) => v,
        None => {
            return None;
        },
    };
    let ct = match decode_b64_len(cipher_text_b64, 1088) {
        Some(v) => v,
        None => {
            return None;
        },
    };
    let iv = match decode_b64_len(iv_b64, 12) {
        Some(v) => v,
        None => {
            return None;
        },
    };
    let enc = match decode_b64(encrypted_data_b64) {
        Some(v) => v,
        None => {
            return None;
        },
    };
    let shared = crate::provider::kem_decapsulate(sk.as_slice(), ct.as_slice());
    let opened = match aes_open(shared.as_slice(), iv.as_slice(), enc.as_slice()) {
        Some(v) => v,
        None => {
            return None;
        },
    };
    let ghost opened_view = opened@;
    match crate::provider::bytes_to_string(opened) {
        Some(s) => {
            proof {
                assert forall|out: Seq<char>|
                    asym_decrypts_to(
                        encrypted_data_b64@,
                        cipher_text_b64@,
                        iv_b64@,
                        private_key_b64@,
                        out,
                    ) && vstd::utf8::encode_utf8(out).len() <= AEAD_MAX_LEN implies s@
                    == out by {
                    vstd::utf8::encode_utf8_decode_utf8(out);
                    vstd::utf8::encode_utf8_decode_utf8(s@);
                }
            }
            Some(s)
        },
        None => {
            proof {
                assert forall|out: Seq<char>|
                    asym_decrypts_to(
                        encrypted_data_b64@,
                        cipher_text_b64@,
                        iv_b64@,
                        private_key_b64@,
                        out,
                    ) && vstd::utf8::encode_utf8(out).len() <= AEAD_MAX_LEN implies false by {
                    vstd::utf8::encode_utf8_valid_utf8(out);
                }
            }
            None
        },
    }
}

/// Symmetric encryption: draw a fresh 12-byte IV and seal the data under
/// the 32-byte key.  Absent when the key is not base64 of 32 bytes or the
/// data is oversized.
pub fn encrypt_with_symmetric_key(data: &str, key_b64: &str) -> (r: Option<SymmetricEncrypted>)
    ensures
        r matches Some(enc) ==> (is_b64_len(key_b64@, 32) && enc.algorithm@ == "AES-GCM"@
            && is_b64_len(enc.iv@, 12) && sym_decrypts_to(
            enc.encrypted_data@,
            enc.iv@,
            key_b64@,
            data@,
        ) && sealed_len_ok(enc.encrypted_data@, data@)),
        r is None <==> (!is_b64_len(key_b64@, 32) || vstd::utf8::encode_utf8(data@).len()
            > AEAD_MAX_LEN),
{
    let key = match decode_b64_len(key_b64, 32) {
        Some(v) => v,
        None => {
            return None;
        },
    };
    let pt = data.as_bytes();
    if pt.len() as u64 > AEAD_MAX_LEN {
        return None;
    }
    let iv = random_bytes(12);
    let sealed = aes_seal(key.as_slice(), iv.as_slice(), pt);
    Some(
        SymmetricEncrypted {
            encrypted_data: b64_encode(sealed.as_slice()),
            iv: b64_encode(iv.as_slice()),
            algorithm: "AES-GCM".to_owned(),
        },
    )
}

/// Symmetric decryption.  Whenever the fields are the sealing of some text
/// under the key, that text is returned.
pub fn decrypt_with_symmetric_key(
    encrypted_data_b64: &str,
    iv_b64: &str,
    key_b64: &str,
) -> (r: Option<String>)
    ensures
        forall|out: Seq<char>|
            #[trigger] sym_decrypts_to(encrypted_data_b64@, iv_b64@, key_b64@, out)
                && vstd::utf8::encode_utf8(out).len() <= AEAD_MAX_LEN ==> (r matches Some(p) && p@
                == out),
        r is Some ==> (is_b64_len(key_b64@, 32) && is_b64_len(iv_b64@, 12)),
{
    let key = match decode_b64_len(key_b64, 32) {
        Some(v) => v,
        None => {
            return None;
        },
    };
    let iv = match decode_b64_len(iv_b64, 12) {
        Some(v) => v,
        None => {
            return None;
        },
    };
    let enc = match decode_b64(encrypted_data_b64) {
        Some(v) => v,
        None => {
            return None;
        },
    };
    let opened = match aes_open(key.as_slice(), iv.as_slice(), enc.as_slice()) {
        Some(v) => v,
        None => {
            return None;
        },
    };
    match crate::provider::bytes_to_string(opened) {
        Some(s) => {
            proof {
                assert forall|out: Seq<char>|
                    sym_decrypts_to(encrypted_data_b64@, iv_b64@, key_b64@, out)
                        && vstd::utf8::encode_utf8(out).len() <= AEAD_MAX_LEN implies s@
                    == out by {
                    vstd::utf8::encode_utf8_decode_utf8(out);
                    vstd::utf8::encode_utf8_decode_utf8(s@);
                }
            }
            Some(s)
        },
        None => {
            proof {
                assert forall|out: Seq<char>|
                    sym_decrypts_to(encrypted_data_b64@, iv_b64@, key_b64@, out)
                        && vstd::utf8::encode_utf8(out).len() <= AEAD_MAX_LEN implies false by {
                    vstd::utf8::encode_utf8_valid_utf8(out);
                }
            }
            None
        },
    }
}

} // verus!

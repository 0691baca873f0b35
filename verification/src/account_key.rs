//! The account key: an ML-KEM-768 pair generated under a master key's
//! signature, used to wrap data for a user's account.

use vstd::prelude::*;

use crate::crypto::{asym_decrypts_to, decrypt, encrypt, hybrid_sealed, sealed_len_ok, AEAD_MAX_LEN};
use crate::json::{jparse, json_text, jv_get_str, jv_opt_str, parse_json, str_eq};
use crate::keyutils::is_valid_kem_key;
use crate::master_key::{is_valid_master_key_private, is_valid_master_key_public, master_key_valid, sign_master_key};
use crate::provider::now_millis;
use crate::signature::sign_obj87_ok;
use crate::types::{enc_data_jv, key_field_of, kv4_jv, AccountKey, EncryptedData};
use crate::utils::{is_b64, is_b64_len, key_hash, key_hash_of};

verus! {

/// An account-key record text: the expected tag, the ML-KEM-768 algorithm
/// string, and a key of the expected decoded length.
pub open spec fn account_key_valid(s: Seq<char>, want_kt: Seq<char>, want_len: int) -> bool {
    jparse(s) matches Some(v) && AccountKey::shape(v) && jv_get_str(v, "keyType"@) == Some(want_kt)
        && jv_get_str(v, "algorithm"@) == Some("ML-KEM-768"@) && (jv_get_str(v, "key"@)
        matches Some(k) && is_b64_len(k, want_len))
}

/// Generates an account key pair and signs the public record with the
/// master key: (public text, private text, envelope text).  The signer's
/// key hash is the hash of the whole master public record text.
pub fn generate_account_key(master_public_json: &str, master_private_json: &str) -> (r: Option<
    (String, String, String),
>)
    ensures
        r is Some <==> (master_key_valid(master_public_json@, "masterKeyPublic"@, 2592)
            && master_key_valid(master_private_json@, "masterKeyPrivate"@, 4896)),
        r matches Some(t) ==> exists|pk_b64: Seq<char>, sk_b64: Seq<char>, ts: u64|
            #![trigger kv4_jv("accountKeyPublic"@, pk_b64, "ML-KEM-768"@, ts), kv4_jv("accountKeyPrivate"@, sk_b64, "ML-KEM-768"@, ts)]
            t.0@ == json_text(kv4_jv("accountKeyPublic"@, pk_b64, "ML-KEM-768"@, ts)) && t.1@
                == json_text(kv4_jv("accountKeyPrivate"@, sk_b64, "ML-KEM-768"@, ts)) && is_b64_len(
                pk_b64,
                1184,
            ) && is_b64_len(sk_b64, 2400) && sign_obj87_ok(
                t.2@,
                key_field_of(master_private_json@),
                vstd::utf8::encode_utf8(t.0@),
                key_hash_of(master_public_json@),
                "masterKey"@,
            ),
        r matches Some(t) ==> (account_key_valid(t.0@, "accountKeyPublic"@, 1184)
            && account_key_valid(t.1@, "accountKeyPrivate"@, 2400)),
{
    if !is_valid_master_key_public(master_public_json) {
        return None;
    }
    if !is_valid_master_key_private(master_private_json) {
        return None;
    }
    let (pub_b64, priv_b64) = crate::keyutils::generate_kem_key_pair();
    let timestamp = now_millis();
    let pub_obj = AccountKey {
        key_type: "accountKeyPublic".to_owned(),
        key: pub_b64,
        algorithm: "ML-KEM-768".to_owned(),
        timestamp,
    };
    let priv_obj = AccountKey {
        key_type: "accountKeyPrivate".to_owned(),
        key: priv_b64,
        algorithm: "ML-KEM-768".to_owned(),
        timestamp,
    };
    let pub_json = pub_obj.to_text();
    let priv_json = priv_obj.to_text();
    let mh = key_hash(master_public_json);
    let sign = match sign_master_key(master_private_json, pub_json.as_str(), mh.as_str()) {
        Some(s) => s,
        None => {
            return None;
        },
    };
    proof {
        assert(pub_obj.jv() == kv4_jv("accountKeyPublic"@, pub_obj.key@, "ML-KEM-768"@, timestamp));
        assert(priv_obj.jv() == kv4_jv(
            "accountKeyPrivate"@,
            priv_obj.key@,
            "ML-KEM-768"@,
            timestamp,
        ));
        crate::json::lemma_jparse_inverts_json_text(pub_obj.jv());
        crate::json::lemma_jparse_inverts_json_text(priv_obj.jv());
        crate::types::lemma_kv4_fields("accountKeyPublic"@, pub_obj.key@, "ML-KEM-768"@, timestamp);
        crate::types::lemma_kv4_fields(
            "accountKeyPrivate"@,
            priv_obj.key@,
            "ML-KEM-768"@,
            timestamp,
        );
    }
    Some((pub_json, priv_json, sign))
}

/// Validates an account public-key record.
pub fn is_valid_account_key_public(json: &str) -> (r: bool)
    ensures
        r == account_key_valid(json@, "accountKeyPublic"@, 1184),
{
    let parsed = match parse_json(json) {
        Some(v) => v,
        None => {
            return false;
        },
    };
    let ak = match AccountKey::from_json(&parsed) {
        Some(k) => k,
        None => {
            return false;
        },
    };
    str_eq(ak.key_type.as_str(), "accountKeyPublic") && str_eq(ak.algorithm.as_str(), "ML-KEM-768")
        && is_valid_kem_key(ak.key.as_str(), true)
}

/// Validates an account private-key record.
pub fn is_valid_account_key_private(json: &str) -> (r: bool)
    ensures
        r == account_key_valid(json@, "accountKeyPrivate"@, 2400),
{
    let parsed = match parse_json(json) {
        Some(v) => v,
        None => {
            return false;
        },
    };
    let ak = match AccountKey::from_json(&parsed) {
        Some(k) => k,
        None => {
            return false;
        },
    };
    str_eq(ak.key_type.as_str(), "accountKeyPrivate") && str_eq(ak.algorithm.as_str(), "ML-KEM-768")
        && is_valid_kem_key(ak.key.as_str(), false)
}

/// The envelope fields that `encrypt_data_account_key` emits decrypt to
/// `out` under the private key text of the matching pair.
pub open spec fn account_env_decrypts_to(sk_b64: Seq<char>, env_s: Seq<char>, out: Seq<char>) -> bool {
    jparse(env_s) matches Some(ev) && EncryptedData::shape(ev) && (jv_opt_str(ev, "cipherText"@)
        matches Some(Some(ct)) && asym_decrypts_to(
        jv_get_str(ev, "encryptedData"@).unwrap(),
        ct,
        jv_get_str(ev, "iv"@).unwrap(),
        sk_b64,
        out,
    ))
}

/// The envelope text is what account-key encryption of `data` under the
/// key record emits: the `accountKey` envelope whose key hash is the hash
/// of the whole key record text, whose KEM ciphertext is 1088 bytes, and
/// whose sealed field is the AES-GCM sealing of `data` under some 32-byte
/// secret and the envelope's own 12-byte IV.
pub open spec fn account_envelope_for(env: Seq<char>, key_s: Seq<char>, data: Seq<char>) -> bool {
    exists|enc_b64: Seq<char>, iv_b64: Seq<char>, ct_b64: Seq<char>|
        #![trigger enc_data_jv("accountKey"@, key_hash_of(key_s), enc_b64, iv_b64, Some("AES-GCM"@), Some(ct_b64))]
        env == json_text(
            enc_data_jv(
                "accountKey"@,
                key_hash_of(key_s),
                enc_b64,
                iv_b64,
                Some("AES-GCM"@),
                Some(ct_b64),
            ),
        ) && is_b64_len(iv_b64, 12) && is_b64_len(ct_b64, 1088) && hybrid_sealed(
            enc_b64,
            iv_b64,
            data,
        ) && sealed_len_ok(enc_b64, data)
}

/// Encrypts data under the account public key: the envelope carries the
/// hybrid pipeline's output and the hash of the whole key record text.
pub fn encrypt_data_account_key(key_json: &str, data: &str) -> (r: Option<String>)
    ensures
        r is Some <==> (account_key_valid(key_json@, "accountKeyPublic"@, 1184)
            && vstd::utf8::encode_utf8(data@).len() <= AEAD_MAX_LEN),
        r matches Some(t) ==> account_envelope_for(t@, key_json@, data@),
        r matches Some(t) ==> enc_data_account_valid(t@),
{
    if !is_valid_account_key_public(key_json) {
        return None;
    }
    let parsed = match parse_json(key_json) {
        Some(v) => v,
        None => {
            return None;
        },
    };
    let ak = match AccountKey::from_json(&parsed) {
        Some(k) => k,
        None => {
            return None;
        },
    };
    let enc = match encrypt(data, ak.key.as_str()) {
        Some(e) => e,
        None => {
            return None;
        },
    };
    let kh = key_hash(key_json);
    let ed = EncryptedData {
        key_type: "accountKey".to_owned(),
        key_hash: kh,
        encrypted_data: enc.encrypted_data,
        iv: enc.iv,
        algorithm: Some(enc.algorithm),
        cipher_text: Some(enc.cipher_text),
    };
    let text = ed.to_text();
    proof {
        assert(ed.jv() == enc_data_jv(
            "accountKey"@,
            ed.key_hash@,
            ed.encrypted_data@,
            ed.iv@,
            Some("AES-GCM"@),
            Some(ed.cipher_text.unwrap()@),
        ));
        crate::json::lemma_jparse_inverts_json_text(ed.jv());
        crate::types::lemma_enc_data_fields(
            "accountKey"@,
            ed.key_hash@,
            ed.encrypted_data@,
            ed.iv@,
            Some("AES-GCM"@),
            Some(ed.cipher_text.unwrap()@),
        );
    }
    Some(text)
}

/// An account encrypted envelope is structurally valid: the `accountKey`
/// tag, algorithm `AES-GCM`, a 32-byte key hash, a 12-byte IV, decodable
/// sealed data, and a decodable KEM ciphertext.
pub open spec fn enc_data_account_valid(s: Seq<char>) -> bool {
    jparse(s) matches Some(v) && EncryptedData::shape(v) && jv_get_str(v, "keyType"@) == Some(
        "accountKey"@,
    ) && jv_opt_str(v, "algorithm"@) == Some(Some("AES-GCM"@)) && (jv_get_str(v, "keyHash"@)
        matches Some(h) && is_b64_len(h, 32)) && (jv_get_str(v, "iv"@) matches Some(iv)
        && is_b64_len(iv, 12)) && (jv_get_str(v, "encryptedData"@) matches Some(e) && is_b64(e)) && (
    jv_opt_str(v, "cipherText"@) matches Some(Some(c)) && is_b64(c))
}

/// Validates an account encrypted envelope.
pub fn is_valid_encrypted_data_account_key(json: &str) -> (r: bool)
    ensures
        r == enc_data_account_valid(json@),
{
    let parsed = match parse_json(json) {
        Some(v) => v,
        None => {
            return false;
        },
    };
    let ed = match EncryptedData::from_json(&parsed) {
        Some(e) => e,
        None => {
            return false;
        },
    };
    if !str_eq(ed.key_type.as_str(), "accountKey") {
        return false;
    }
    let alg_ok = match &ed.algorithm {
        Some(a) => str_eq(a.as_str(), "AES-GCM"),
        None => false,
    };
    if !alg_ok {
        return false;
    }
    if crate::utils::decode_b64_len(ed.key_hash.as_str(), 32).is_none() {
        return false;
    }
    if crate::utils::decode_b64_len(ed.iv.as_str(), 12).is_none() {
        return false;
    }
    if crate::utils::decode_b64(ed.encrypted_data.as_str()).is_none() {
        return false;
    }
    match &ed.cipher_text {
        Some(c) => crate::utils::decode_b64(c.as_str()).is_some(),
        None => false,
    }
}

/// Decrypts an account envelope with the account private key.  Whenever
/// the envelope's fields are the hybrid sealing of some text under the
/// decapsulated secret, that text is returned.
pub fn decrypt_data_account_key(key_json: &str, encrypted_json: &str) -> (r: Option<String>)
    ensures
        r is Some ==> (account_key_valid(key_json@, "accountKeyPrivate"@, 2400)
            && enc_data_account_valid(encrypted_json@)),
        forall|out: Seq<char>|
            account_key_valid(key_json@, "accountKeyPrivate"@, 2400) && enc_data_account_valid(
                encrypted_json@,
            ) && #[trigger] account_env_decrypts_to(key_field_of(key_json@), encrypted_json@, out)
                && vstd::utf8::encode_utf8(out).len() <= AEAD_MAX_LEN ==> (r matches Some(p) && p@
                == out),
{
    if !is_valid_account_key_private(key_json) {
        return None;
    }
    if !is_valid_encrypted_data_account_key(encrypted_json) {
        return None;
    }
    let parsed = match parse_json(key_json) {
        Some(v) => v,
        None => {
            return None;
        },
    };
    let ak = match AccountKey::from_json(&parsed) {
        Some(k) => k,
        None => {
            return None;
        },
    };
    let eparsed = match parse_json(encrypted_json) {
        Some(v) => v,
        None => {
            return None;
        },
    };
    let ed = match EncryptedData::from_json(&eparsed) {
        Some(e) => e,
        None => {
            return None;
        },
    };
    let ct = match &ed.cipher_text {
        Some(c) => c,
        None => {
            return None;
        },
    };
    decrypt(ed.encrypted_data.as_str(), ct.as_str(), ed.iv.as_str(), ak.key.as_str())
}

/// Validates an encrypted account-key wrap: the same structural pass as
/// for any account envelope.
pub fn is_valid_encrypted_account_key(json: &str) -> (r: bool)
    ensures
        r == enc_data_account_valid(json@),
{
    is_valid_encrypted_data_account_key(json)
}

} // verus!

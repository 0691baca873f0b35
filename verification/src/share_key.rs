//! The share keys: an ML-KEM-768 pair for sharing data and an ML-DSA-65
//! pair for signing shared data, both generated under the master key.

use vstd::prelude::*;

use crate::crypto::{decrypt, encrypt, AEAD_MAX_LEN};
use crate::json::{jparse, json_text, jv_get_str, parse_json, str_eq};
use crate::keyutils::{generate_dsa65_key_pair, generate_kem_key_pair, text_pair65};
use crate::master_key::{is_valid_master_key_private, master_key_valid, sign_master_key};
use crate::provider::now_millis;
use crate::signature::{
    create_signature_object_mlds65, sign_obj65_ok, sign_obj87_ok, verify65_spec,
    verify_with_mlds65,
};
use crate::types::{enc_data_jv, key_field_of, kv5_jv, EncryptedData, ShareKey, ShareSignKey, Sign};
use crate::utils::{decode_b64_len, is_b64, is_b64_len, key_hash, key_hash_of};
use crate::uuid7::{is_uuid_v7_text, is_valid_uuid_v7};

verus! {

/// A share-key record text: the expected tag and a key of the expected
/// decoded length.
pub open spec fn share_key_valid(s: Seq<char>, want_kt: Seq<char>, want_len: int) -> bool {
    jparse(s) matches Some(v) && ShareKey::shape(v) && jv_get_str(v, "keyType"@) == Some(want_kt)
        && (jv_get_str(v, "key"@) matches Some(k) && is_b64_len(k, want_len))
}

/// A share-sign-key record text: only the tag is enforced.
pub open spec fn share_sign_key_tagged(s: Seq<char>, want_kt: Seq<char>) -> bool {
    jparse(s) matches Some(v) && ShareSignKey::shape(v) && jv_get_str(v, "keyType"@) == Some(
        want_kt,
    )
}

/// Generates a share key pair under the master key's signature; the
/// signer's key hash is the hash of the master private record text.
pub fn generate_share_key(master_priv: &str, session_uuid: &str) -> (r: Option<
    (String, String, String),
>)
    ensures
        r is Some <==> (master_key_valid(master_priv@, "masterKeyPrivate"@, 4896)
            && is_uuid_v7_text(session_uuid@)),
        r matches Some(t) ==> exists|pk_b64: Seq<char>, sk_b64: Seq<char>, ts: u64|
            #![trigger kv5_jv("shareKeyPublic"@, pk_b64, "ML-KEM-768"@, ts, session_uuid@), kv5_jv("shareKeyPrivate"@, sk_b64, "ML-KEM-768"@, ts, session_uuid@)]
            t.0@ == json_text(kv5_jv("shareKeyPublic"@, pk_b64, "ML-KEM-768"@, ts, session_uuid@))
                && t.1@ == json_text(
                kv5_jv("shareKeyPrivate"@, sk_b64, "ML-KEM-768"@, ts, session_uuid@),
            ) && is_b64_len(pk_b64, 1184) && is_b64_len(sk_b64, 2400) && sign_obj87_ok(
                t.2@,
                key_field_of(master_priv@),
                vstd::utf8::encode_utf8(t.0@),
                key_hash_of(master_priv@),
                "masterKey"@,
            ),
        r matches Some(t) ==> (share_key_valid(t.0@, "shareKeyPublic"@, 1184) && share_key_valid(
            t.1@,
            "shareKeyPrivate"@,
            2400,
        )),
{
    if !is_valid_master_key_private(master_priv) {
        return None;
    }
    if !is_valid_uuid_v7(session_uuid) {
        return None;
    }
    let (pub_b64, priv_b64) = generate_kem_key_pair();
    let ts = now_millis();
    let pk = ShareKey {
        key_type: "shareKeyPublic".to_owned(),
        key: pub_b64,
        algorithm: "ML-KEM-768".to_owned(),
        timestamp: ts,
        session_uuid: session_uuid.to_owned(),
    };
    let sk = ShareKey {
        key_type: "shareKeyPrivate".to_owned(),
        key: priv_b64,
        algorithm: "ML-KEM-768".to_owned(),
        timestamp: ts,
        session_uuid: session_uuid.to_owned(),
    };
    let pkj = pk.to_text();
    let skj = sk.to_text();
    let mh = key_hash(master_priv);
    let sign = match sign_master_key(master_priv, pkj.as_str(), mh.as_str()) {
        Some(s) => s,
        None => {
            return None;
        },
    };
    proof {
        assert(pk.jv() == kv5_jv("shareKeyPublic"@, pk.key@, "ML-KEM-768"@, ts, session_uuid@));
        assert(sk.jv() == kv5_jv("shareKeyPrivate"@, sk.key@, "ML-KEM-768"@, ts, session_uuid@));
        crate::json::lemma_jparse_inverts_json_text(pk.jv());
        crate::json::lemma_jparse_inverts_json_text(sk.jv());
        crate::types::lemma_kv5_fields(
            "shareKeyPublic"@,
            pk.key@,
            "ML-KEM-768"@,
            ts,
            session_uuid@,
        );
        crate::types::lemma_kv5_fields(
            "shareKeyPrivate"@,
            sk.key@,
            "ML-KEM-768"@,
            ts,
            session_uuid@,
        );
    }
    Some((pkj, skj, sign))
}

/// Validates a share public-key record.
pub fn is_valid_share_key_public(json: &str) -> (r: bool)
    ensures
        r == share_key_valid(json@, "shareKeyPublic"@, 1184),
{
    let parsed = match parse_json(json) {
        Some(v) => v,
        None => {
            return false;
        },
    };
    let k = match ShareKey::from_json(&parsed) {
        Some(k) => k,
        None => {
            return false;
        },
    };
    str_eq(k.key_type.as_str(), "shareKeyPublic") && decode_b64_len(k.key.as_str(), 1184).is_some()
}

/// Validates a share private-key record.
pub fn is_valid_share_key_private(json: &str) -> (r: bool)
    ensures
        r == share_key_valid(json@, "shareKeyPrivate"@, 2400),
{
    let parsed = match parse_json(json) {
        Some(v) => v,
        None => {
            return false;
        },
    };
    let k = match ShareKey::from_json(&parsed) {
        Some(k) => k,
        None => {
            return false;
        },
    };
    str_eq(k.key_type.as_str(), "shareKeyPrivate") && decode_b64_len(k.key.as_str(), 2400).is_some()
}

/// Encrypts data under the share public key.
pub fn encrypt_data_share_key(pub_json: &str, data: &str) -> (r: Option<String>)
    ensures
        r is Some <==> (share_key_tagged_public(pub_json@) && is_b64_len(
            key_field_of(pub_json@),
            1184,
        ) && vstd::utf8::encode_utf8(data@).len() <= AEAD_MAX_LEN),
        r matches Some(t) ==> exists|enc_b64: Seq<char>, iv_b64: Seq<char>, ct_b64: Seq<char>|
            #![trigger enc_data_jv("shareKey"@, key_hash_of(pub_json@), enc_b64, iv_b64, Some("AES-GCM"@), Some(ct_b64))]
            t@ == json_text(
                enc_data_jv(
                    "shareKey"@,
                    key_hash_of(pub_json@),
                    enc_b64,
                    iv_b64,
                    Some("AES-GCM"@),
                    Some(ct_b64),
                ),
            ) && is_b64_len(iv_b64, 12) && is_b64_len(ct_b64, 1088) && crate::crypto::hybrid_sealed(
                enc_b64,
                iv_b64,
                data@,
            ) && crate::crypto::sealed_len_ok(enc_b64, data@),
        r matches Some(t) ==> enc_data_share_valid(t@),
{
    let parsed = match parse_json(pub_json) {
        Some(v) => v,
        None => {
            return None;
        },
    };
    let sk = match ShareKey::from_json(&parsed) {
        Some(k) => k,
        None => {
            return None;
        },
    };
    if !str_eq(sk.key_type.as_str(), "shareKeyPublic") {
        return None;
    }
    let enc = match encrypt(data, sk.key.as_str()) {
        Some(e) => e,
        None => {
            return None;
        },
    };
    let kh = key_hash(pub_json);
    let ed = EncryptedData {
        key_type: "shareKey".to_owned(),
        key_hash: kh,
        encrypted_data: enc.encrypted_data,
        iv: enc.iv,
        algorithm: Some(enc.algorithm),
        cipher_text: Some(enc.cipher_text),
    };
    let text = ed.to_text();
    proof {
        assert(ed.jv() == enc_data_jv(
            "shareKey"@,
            ed.key_hash@,
            ed.encrypted_data@,
            ed.iv@,
            Some("AES-GCM"@),
            Some(ed.cipher_text.unwrap()@),
        ));
        crate::json::lemma_jparse_inverts_json_text(ed.jv());
        crate::types::lemma_enc_data_fields(
            "shareKey"@,
            ed.key_hash@,
            ed.encrypted_data@,
            ed.iv@,
            Some("AES-GCM"@),
            Some(ed.cipher_text.unwrap()@),
        );
    }
    Some(text)
}

/// A share-key record with the public tag; the key length is not part of
/// this check, only of the pipeline's decode.
pub open spec fn share_key_tagged_public(s: Seq<char>) -> bool {
    jparse(s) matches Some(v) && ShareKey::shape(v) && jv_get_str(v, "keyType"@) == Some(
        "shareKeyPublic"@,
    )
}

/// Decrypts a share envelope with the share private key.  Whenever the
/// envelope's fields are the hybrid sealing of some text under the
/// decapsulated secret, that text is returned.
pub fn decrypt_data_share_key(priv_json: &str, json: &str) -> (r: Option<String>)
    ensures
        forall|out: Seq<char>|
            (jparse(priv_json@) matches Some(kv) && ShareKey::shape(kv) && jv_get_str(
                kv,
                "keyType"@,
            ) == Some("shareKeyPrivate"@)) && #[trigger] crate::account_key::account_env_decrypts_to(
                key_field_of(priv_json@),
                json@,
                out,
            ) && vstd::utf8::encode_utf8(out).len() <= AEAD_MAX_LEN ==> (r matches Some(p) && p@
                == out),
{
    let parsed = match parse_json(priv_json) {
        Some(v) => v,
        None => {
            return None;
        },
    };
    let sk = match ShareKey::from_json(&parsed) {
        Some(k) => k,
        None => {
            return None;
        },
    };
    if !str_eq(sk.key_type.as_str(), "shareKeyPrivate") {
        return None;
    }
    let eparsed = match parse_json(json) {
        Some(v) => v,
        None => {
            return None;
        },
    };
    let ed = match EncryptedData::from_json(&eparsed) {
        Some(e) => e,
        None => {
            return None;
        },
    };
    let ct = match &ed.cipher_text {
        Some(c) => c,
        None => {
            return None;
        },
    };
    decrypt(ed.encrypted_data.as_str(), ct.as_str(), ed.iv.as_str(), sk.key.as_str())
}

/// A share encrypted envelope is structurally valid: the `shareKey` tag, a
/// 32-byte key hash, a 12-byte IV, decodable sealed data, and a decodable
/// KEM ciphertext, since the role wraps a KEM.
pub open spec fn enc_data_share_valid(s: Seq<char>) -> bool {
    jparse(s) matches Some(v) && EncryptedData::shape(v) && jv_get_str(v, "keyType"@) == Some(
        "shareKey"@,
    ) && (jv_get_str(v, "keyHash"@) matches Some(h) && is_b64_len(h, 32)) && (jv_get_str(v, "iv"@)
        matches Some(iv) && is_b64_len(iv, 12)) && (jv_get_str(v, "encryptedData"@) matches Some(e)
        && is_b64(e)) && (crate::json::jv_opt_str(v, "cipherText"@) matches Some(Some(c))
        && is_b64(c))
}

/// Validates a share encrypted envelope.
pub fn is_valid_encrypted_data_share_key(json: &str) -> (r: bool)
    ensures
        r == enc_data_share_valid(json@),
{
    let parsed = match parse_json(json) {
        Some(v) => v,
        None => {
            return false;
        },
    };
    let ed = match EncryptedData::from_json(&parsed) {
        Some(e) => e,
        None => {
            return false;
        },
    };
    if !str_eq(ed.key_type.as_str(), "shareKey") {
        return false;
    }
    if crate::utils::decode_b64_len(ed.key_hash.as_str(), 32).is_none() {
        return false;
    }
    if crate::utils::decode_b64_len(ed.iv.as_str(), 12).is_none() {
        return false;
    }
    if crate::utils::decode_b64(ed.encrypted_data.as_str()).is_none() {
        return false;
    }
    match &ed.cipher_text {
        Some(c) => crate::utils::decode_b64(c.as_str()).is_some(),
        None => false,
    }
}

/// Generates a share signing key pair under the master key's signature.
pub fn generate_share_sign_key(master_priv: &str, session_uuid: &str) -> (r: Option<
    (String, String, String),
>)
    ensures
        r is Some <==> (master_key_valid(master_priv@, "masterKeyPrivate"@, 4896)
            && is_uuid_v7_text(session_uuid@)),
        r matches Some(t) ==> exists|pk_b64: Seq<char>, sk_b64: Seq<char>, ts: u64|
            #![trigger kv5_jv("shareSignKeyPublic"@, pk_b64, "ML-DSA-65"@, ts, session_uuid@), kv5_jv("shareSignKeyPrivate"@, sk_b64, "ML-DSA-65"@, ts, session_uuid@)]
            t.0@ == json_text(
                kv5_jv("shareSignKeyPublic"@, pk_b64, "ML-DSA-65"@, ts, session_uuid@),
            ) && t.1@ == json_text(
                kv5_jv("shareSignKeyPrivate"@, sk_b64, "ML-DSA-65"@, ts, session_uuid@),
            ) && text_pair65(pk_b64, sk_b64) && sign_obj87_ok(
                t.2@,
                key_field_of(master_priv@),
                vstd::utf8::encode_utf8(t.0@),
                key_hash_of(master_priv@),
                "masterKey"@,
            ),
        r matches Some(t) ==> (share_sign_key_tagged(t.0@, "shareSignKeyPublic"@)
            && share_sign_key_tagged(t.1@, "shareSignKeyPrivate"@)),
{
    if !is_valid_master_key_private(master_priv) {
        return None;
    }
    if !is_valid_uuid_v7(session_uuid) {
        return None;
    }
    let (pub_b64, priv_b64) = generate_dsa65_key_pair();
    let ts = now_millis();
    let pk = ShareSignKey {
        key_type: "shareSignKeyPublic".to_owned(),
        key: pub_b64,
        algorithm: "ML-DSA-65".to_owned(),
        timestamp: ts,
        session_uuid: session_uuid.to_owned(),
    };
    let sk = ShareSignKey {
        key_type: "shareSignKeyPrivate".to_owned(),
        key: priv_b64,
        algorithm: "ML-DSA-65".to_owned(),
        timestamp: ts,
        session_uuid: session_uuid.to_owned(),
    };
    let pkj = pk.to_text();
    let skj = sk.to_text();
    let mh = key_hash(master_priv);
    let sign = match sign_master_key(master_priv, pkj.as_str(), mh.as_str()) {
        Some(s) => s,
        None => {
            return None;
        },
    };
    proof {
        assert(pk.jv() == kv5_jv("shareSignKeyPublic"@, pk.key@, "ML-DSA-65"@, ts, session_uuid@));
        assert(sk.jv() == kv5_jv("shareSignKeyPrivate"@, sk.key@, "ML-DSA-65"@, ts, session_uuid@));
        crate::json::lemma_jparse_inverts_json_text(pk.jv());
        crate::json::lemma_jparse_inverts_json_text(sk.jv());
        crate::types::lemma_kv5_fields(
            "shareSignKeyPublic"@,
            pk.key@,
            "ML-DSA-65"@,
            ts,
            session_uuid@,
        );
        crate::types::lemma_kv5_fields(
            "shareSignKeyPrivate"@,
            sk.key@,
            "ML-DSA-65"@,
            ts,
            session_uuid@,
        );
    }
    Some((pkj, skj, sign))
}

/// Validates a share signing public-key record by its tag.
pub fn is_valid_share_sign_key_public(json: &str) -> (r: bool)
    ensures
        r == share_sign_key_tagged(json@, "shareSignKeyPublic"@),
{
    let parsed = match parse_json(json) {
        Some(v) => v,
        None => {
            return false;
        },
    };
    let k = match ShareSignKey::from_json(&parsed) {
        Some(k) => k,
        None => {
            return false;
        },
    };
    str_eq(k.key_type.as_str(), "shareSignKeyPublic")
}

/// Validates a share signing private-key record by its tag.
pub fn is_valid_share_sign_key_private(json: &str) -> (r: bool)
    ensures
        r == share_sign_key_tagged(json@, "shareSignKeyPrivate"@),
{
    let parsed = match parse_json(json) {
        Some(v) => v,
        None => {
            return false;
        },
    };
    let k = match ShareSignKey::from_json(&parsed) {
        Some(k) => k,
        None => {
            return false;
        },
    };
    str_eq(k.key_type.as_str(), "shareSignKeyPrivate")
}

/// Signs `data` with the share signing key under the `shareSignKey` tag.
pub fn sign_data_share_sign_key(priv_json: &str, data: &str, key_hash: &str) -> (r: Option<String>)
    ensures
        r is Some <==> (share_sign_key_tagged(priv_json@, "shareSignKeyPrivate"@) && is_b64_len(
            key_field_of(priv_json@),
            4032,
        )),
        r matches Some(t) ==> sign_obj65_ok(
            t@,
            key_field_of(priv_json@),
            vstd::utf8::encode_utf8(data@),
            key_hash@,
            "shareSignKey"@,
        ),
{
    let parsed = match parse_json(priv_json) {
        Some(v) => v,
        None => {
            return None;
        },
    };
    let sk = match ShareSignKey::from_json(&parsed) {
        Some(k) => k,
        None => {
            return None;
        },
    };
    if !str_eq(sk.key_type.as_str(), "shareSignKeyPrivate") {
        return None;
    }
    create_signature_object_mlds65(sk.key.as_str(), data.as_bytes(), key_hash, "shareSignKey")
}

/// A share-sign verification claim over record texts; the public record
/// only needs the record shape, not a tag.
pub open spec fn verify_share_sign_spec(key_s: Seq<char>, sign_s: Seq<char>, data: Seq<char>) -> bool {
    jparse(key_s) matches Some(kv) && ShareSignKey::shape(kv) && (jparse(sign_s) matches Some(sv)
        && Sign::shape(sv) && jv_get_str(sv, "keyType"@) == Some("shareSignKey"@) && verify65_spec(
        jv_get_str(kv, "key"@).unwrap(),
        vstd::utf8::encode_utf8(data),
        jv_get_str(sv, "signature"@).unwrap(),
    ))
}

/// Verifies a signed envelope against `data` with the share signing key.
pub fn verify_data_share_sign_key(pub_json: &str, sign_json: &str, data: &str) -> (r: bool)
    ensures
        r == verify_share_sign_spec(pub_json@, sign_json@, data@),
{
    let parsed = match parse_json(pub_json) {
        Some(v) => v,
        None => {
            return false;
        },
    };
    let sk = match ShareSignKey::from_json(&parsed) {
        Some(k) => k,
        None => {
            return false;
        },
    };
    let sparsed = match parse_json(sign_json) {
        Some(v) => v,
        None => {
            return false;
        },
    };
    let sig = match Sign::from_json(&sparsed) {
        Some(s) => s,
        None => {
            return false;
        },
    };
    if !str_eq(sig.key_type.as_str(), "shareSignKey") {
        return false;
    }
    verify_with_mlds65(sk.key.as_str(), data.as_bytes(), sig.signature.as_str())
}

/// A share-sign envelope is structurally valid: the `shareSignKey` tag.
pub open spec fn sign_share_sign_valid(s: Seq<char>) -> bool {
    jparse(s) matches Some(v) && Sign::shape(v) && jv_get_str(v, "keyType"@) == Some(
        "shareSignKey"@,
    )
}

/// Validates the shape of a share-sign envelope.
pub fn is_valid_sign_share_sign_key(json: &str) -> (r: bool)
    ensures
        r == sign_share_sign_valid(json@),
{
    let parsed = match parse_json(json) {
        Some(v) => v,
        None => {
            return false;
        },
    };
    let s = match Sign::from_json(&parsed) {
        Some(s) => s,
        None => {
            return false;
        },
    };
    str_eq(s.key_type.as_str(), "shareSignKey")
}

} // verus!

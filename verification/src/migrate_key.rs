//! The migrate keys: an ML-KEM-768 pair and an ML-DSA-65 pair used when a
//! user moves to a new device; neither carries a timestamp when generated.

use vstd::prelude::*;

use crate::crypto::{decrypt, encrypt, AEAD_MAX_LEN};
use crate::json::{jparse, json_text, jv_get_str, parse_json, str_eq};
use crate::keyutils::{generate_dsa65_key_pair, generate_kem_key_pair, text_pair65};
use crate::signature::{create_signature_object_mlds65, sign_obj65_ok, verify65_spec, verify_with_mlds65};
use crate::types::{enc_data_jv, key_field_of, kv_opt_ts_jv, EncryptedData, MigrateKey, MigrateSignKey, Sign};
use crate::utils::{decode_b64_len, is_b64, is_b64_len, key_hash, key_hash_of};

verus! {

/// A migrate-key record text: the expected tag and a key of the expected
/// decoded length.
pub open spec fn migrate_key_valid(s: Seq<char>, want_kt: Seq<char>, want_len: int) -> bool {
    jparse(s) matches Some(v) && MigrateKey::shape(v) && jv_get_str(v, "keyType"@) == Some(want_kt)
        && (jv_get_str(v, "key"@) matches Some(k) && is_b64_len(k, want_len))
}

/// A migrate-sign-key record with the given tag.
pub open spec fn migrate_sign_key_tagged(s: Seq<char>, want_kt: Seq<char>) -> bool {
    jparse(s) matches Some(v) && MigrateSignKey::shape(v) && jv_get_str(v, "keyType"@) == Some(
        want_kt,
    )
}

/// Generates a migrate key pair: (public record text, private record text).
pub fn generate_migrate_key() -> (r: (String, String))
    ensures
        exists|pk_b64: Seq<char>, sk_b64: Seq<char>|
            #![trigger kv_opt_ts_jv("migrateKeyPublic"@, pk_b64, None), kv_opt_ts_jv("migrateKeyPrivate"@, sk_b64, None)]
            r.0@ == json_text(kv_opt_ts_jv("migrateKeyPublic"@, pk_b64, None)) && r.1@ == json_text(
                kv_opt_ts_jv("migrateKeyPrivate"@, sk_b64, None),
            ) && is_b64_len(pk_b64, 1184) && is_b64_len(sk_b64, 2400),
        migrate_key_valid(r.0@, "migrateKeyPublic"@, 1184),
        migrate_key_valid(r.1@, "migrateKeyPrivate"@, 2400),
{
    let (pub_b64, priv_b64) = generate_kem_key_pair();
    let pk = MigrateKey { key_type: "migrateKeyPublic".to_owned(), key: pub_b64, timestamp: None };
    let sk = MigrateKey {
        key_type: "migrateKeyPrivate".to_owned(),
        key: priv_b64,
        timestamp: None,
    };
    let pkj = pk.to_text();
    let skj = sk.to_text();
    proof {
        assert(pk.jv() == kv_opt_ts_jv("migrateKeyPublic"@, pk.key@, None));
        assert(sk.jv() == kv_opt_ts_jv("migrateKeyPrivate"@, sk.key@, None));
        crate::json::lemma_jparse_inverts_json_text(pk.jv());
        crate::json::lemma_jparse_inverts_json_text(sk.jv());
        crate::types::lemma_kv_opt_ts_fields("migrateKeyPublic"@, pk.key@, None);
        crate::types::lemma_kv_opt_ts_fields("migrateKeyPrivate"@, sk.key@, None);
    }
    (pkj, skj)
}

/// Validates a migrate public-key record.
pub fn is_valid_migrate_key_public(json: &str) -> (r: bool)
    ensures
        r == migrate_key_valid(json@, "migrateKeyPublic"@, 1184),
{
    let parsed = match parse_json(json) {
        Some(v) => v,
        None => {
            return false;
        },
    };
    let k = match MigrateKey::from_json(&parsed) {
        Some(k) => k,
        None => {
            return false;
        },
    };
    str_eq(k.key_type.as_str(), "migrateKeyPublic") && decode_b64_len(
        k.key.as_str(),
        1184,
    ).is_some()
}

/// Validates a migrate private-key record.
pub fn is_valid_migrate_key_private(json: &str) -> (r: bool)
    ensures
        r == migrate_key_valid(json@, "migrateKeyPrivate"@, 2400),
{
    let parsed = match parse_json(json) {
        Some(v) => v,
        None => {
            return false;
        },
    };
    let k = match MigrateKey::from_json(&parsed) {
        Some(k) => k,
        None => {
            return false;
        },
    };
    str_eq(k.key_type.as_str(), "migrateKeyPrivate") && decode_b64_len(
        k.key.as_str(),
        2400,
    ).is_some()
}

/// A migrate-key record with the public tag.
pub open spec fn migrate_key_tagged_public(s: Seq<char>) -> bool {
    jparse(s) matches Some(v) && MigrateKey::shape(v) && jv_get_str(v, "keyType"@) == Some(
        "migrateKeyPublic"@,
    )
}

/// Encrypts data under the migrate public key.
pub fn encrypt_data_migrate_key(pub_json: &str, data: &str) -> (r: Option<String>)
    ensures
        r is Some <==> (migrate_key_tagged_public(pub_json@) && is_b64_len(
            key_field_of(pub_json@),
            1184,
        ) && vstd::utf8::encode_utf8(data@).len() <= AEAD_MAX_LEN),
        r matches Some(t) ==> exists|enc_b64: Seq<char>, iv_b64: Seq<char>, ct_b64: Seq<char>|
            #![trigger enc_data_jv("migrateKey"@, key_hash_of(pub_json@), enc_b64, iv_b64, Some("AES-GCM"@), Some(ct_b64))]
            t@ == json_text(
                enc_data_jv(
                    "migrateKey"@,
                    key_hash_of(pub_json@),
                    enc_b64,
                    iv_b64,
                    Some("AES-GCM"@),
                    Some(ct_b64),
                ),
            ) && is_b64_len(iv_b64, 12) && is_b64_len(ct_b64, 1088) && crate::crypto::hybrid_sealed(
                enc_b64,
                iv_b64,
                data@,
            ) && crate::crypto::sealed_len_ok(enc_b64, data@),
        r matches Some(t) ==> enc_data_migrate_valid(t@),
{
    let parsed = match parse_json(pub_json) {
        Some(v) => v,
        None => {
            return None;
        },
    };
    let mk = match MigrateKey::from_json(&parsed) {
        Some(k) => k,
        None => {
            return None;
        },
    };
    if !str_eq(mk.key_type.as_str(), "migrateKeyPublic") {
        return None;
    }
    let enc = match encrypt(data, mk.key.as_str()) {
        Some(e) => e,
        None => {
            return None;
        },
    };
    let kh = key_hash(pub_json);
    let ed = EncryptedData {
        key_type: "migrateKey".to_owned(),
        key_hash: kh,
        encrypted_data: enc.encrypted_data,
        iv: enc.iv,
        algorithm: Some(enc.algorithm),
        cipher_text: Some(enc.cipher_text),
    };
    let text = ed.to_text();
    proof {
        assert(ed.jv() == enc_data_jv(
            "migrateKey"@,
            ed.key_hash@,
            ed.encrypted_data@,
            ed.iv@,
            Some("AES-GCM"@),
            Some(ed.cipher_text.unwrap()@),
        ));
        crate::json::lemma_jparse_inverts_json_text(ed.jv());
        crate::types::lemma_enc_data_fields(
            "migrateKey"@,
            ed.key_hash@,
            ed.encrypted_data@,
            ed.iv@,
            Some("AES-GCM"@),
            Some(ed.cipher_text.unwrap()@),
        );
    }
    Some(text)
}

/// Decrypts a migrate envelope with the migrate private key.  Whenever the
/// envelope's fields are the hybrid sealing of some text under the
/// decapsulated secret, that text is returned.
pub fn decrypt_data_migrate_key(priv_json: &str, json: &str) -> (r: Option<String>)
    ensures
        forall|out: Seq<char>|
            (jparse(priv_json@) matches Some(kv) && MigrateKey::shape(kv) && jv_get_str(
                kv,
                "keyType"@,
            ) == Some("migrateKeyPrivate"@)) && #[trigger] crate::account_key::account_env_decrypts_to(
                key_field_of(priv_json@),
                json@,
                out,
            ) && vstd::utf8::encode_utf8(out).len() <= AEAD_MAX_LEN ==> (r matches Some(p) && p@
                == out),
{
    let parsed = match parse_json(priv_json) {
        Some(v) => v,
        None => {
            return None;
        },
    };
    let mk = match MigrateKey::from_json(&parsed) {
        Some(k) => k,
        None => {
            return None;
        },
    };
    if !str_eq(mk.key_type.as_str(), "migrateKeyPrivate") {
        return None;
    }
    let eparsed = match parse_json(json) {
        Some(v) => v,
        None => {
            return None;
        },
    };
    let ed = match EncryptedData::from_json(&eparsed) {
        Some(e) => e,
        None => {
            return None;
        },
    };
    let ct = match &ed.cipher_text {
        Some(c) => c,
        None => {
            return None;
        },
    };
    decrypt(ed.encrypted_data.as_str(), ct.as_str(), ed.iv.as_str(), mk.key.as_str())
}

/// A migrate encrypted envelope is structurally valid: the `migrateKey`
/// tag, a 32-byte key hash, a 12-byte IV, decodable sealed data, and a
/// decodable KEM ciphertext, since the role wraps a KEM.
pub open spec fn enc_data_migrate_valid(s: Seq<char>) -> bool {
    jparse(s) matches Some(v) && EncryptedData::shape(v) && jv_get_str(v, "keyType"@) == Some(
        "migrateKey"@,
    ) && (jv_get_str(v, "keyHash"@) matches Some(h) && is_b64_len(h, 32)) && (jv_get_str(v, "iv"@)
        matches Some(iv) && is_b64_len(iv, 12)) && (jv_get_str(v, "encryptedData"@) matches Some(e)
        && is_b64(e)) && (crate::json::jv_opt_str(v, "cipherText"@) matches Some(Some(c))
        && is_b64(c))
}

/// Validates a migrate encrypted envelope.
pub fn is_valid_encrypted_data_migrate_key(json: &str) -> (r: bool)
    ensures
        r == enc_data_migrate_valid(json@),
{
    let parsed = match parse_json(json) {
        Some(v) => v,
        None => {
            return false;
        },
    };
    let ed = match EncryptedData::from_json(&parsed) {
        Some(e) => e,
        None => {
            return false;
        },
    };
    if !str_eq(ed.key_type.as_str(), "migrateKey") {
        return false;
    }
    if crate::utils::decode_b64_len(ed.key_hash.as_str(), 32).is_none() {
        return false;
    }
    if crate::utils::decode_b64_len(ed.iv.as_str(), 12).is_none() {
        return false;
    }
    if crate::utils::decode_b64(ed.encrypted_data.as_str()).is_none() {
        return false;
    }
    match &ed.cipher_text {
        Some(c) => crate::utils::decode_b64(c.as_str()).is_some(),
        None => false,
    }
}

/// Generates a migrate signing key pair.
pub fn generate_migrate_sign_key() -> (r: (String, String))
    ensures
        exists|pk_b64: Seq<char>, sk_b64: Seq<char>|
            #![trigger text_pair65(pk_b64, sk_b64)]
            r.0@ == json_text(kv_opt_ts_jv("migrateSignKeyPublic"@, pk_b64, None)) && r.1@
                == json_text(kv_opt_ts_jv("migrateSignKeyPrivate"@, sk_b64, None)) && text_pair65(
                pk_b64,
                sk_b64,
            ),
        migrate_sign_key_tagged(r.0@, "migrateSignKeyPublic"@),
        migrate_sign_key_tagged(r.1@, "migrateSignKeyPrivate"@),
{
    let (pub_b64, priv_b64) = generate_dsa65_key_pair();
    let pk = MigrateSignKey {
        key_type: "migrateSignKeyPublic".to_owned(),
        key: pub_b64,
        timestamp: None,
    };
    let sk = MigrateSignKey {
        key_type: "migrateSignKeyPrivate".to_owned(),
        key: priv_b64,
        timestamp: None,
    };
    let pkj = pk.to_text();
    let skj = sk.to_text();
    proof {
        assert(pk.jv() == kv_opt_ts_jv("migrateSignKeyPublic"@, pk.key@, None));
        assert(sk.jv() == kv_opt_ts_jv("migrateSignKeyPrivate"@, sk.key@, None));
        crate::json::lemma_jparse_inverts_json_text(pk.jv());
        crate::json::lemma_jparse_inverts_json_text(sk.jv());
        crate::types::lemma_kv_opt_ts_fields("migrateSignKeyPublic"@, pk.key@, None);
        crate::types::lemma_kv_opt_ts_fields("migrateSignKeyPrivate"@, sk.key@, None);
    }
    (pkj, skj)
}

/// Signs `data` with the migrate signing key under the `migrateSignKey`
/// tag.
pub fn sign_data_migrate_sign_key(priv_json: &str, data: &str, key_hash: &str) -> (r: Option<
    String,
>)
    ensures
        r is Some <==> (migrate_sign_key_tagged(priv_json@, "migrateSignKeyPrivate"@) && is_b64_len(
            key_field_of(priv_json@),
            4032,
        )),
        r matches Some(t) ==> sign_obj65_ok(
            t@,
            key_field_of(priv_json@),
            vstd::utf8::encode_utf8(data@),
            key_hash@,
            "migrateSignKey"@,
        ),
{
    let parsed = match parse_json(priv_json) {
        Some(v) => v,
        None => {
            return None;
        },
    };
    let sk = match MigrateSignKey::from_json(&parsed) {
        Some(k) => k,
        None => {
            return None;
        },
    };
    if !str_eq(sk.key_type.as_str(), "migrateSignKeyPrivate") {
        return None;
    }
    create_signature_object_mlds65(sk.key.as_str(), data.as_bytes(), key_hash, "migrateSignKey")
}

/// A migrate-sign verification claim over record texts; the public record
/// only needs the record shape, not a tag.
pub open spec fn verify_migrate_sign_spec(
    key_s: Seq<char>,
    sign_s: Seq<char>,
    data: Seq<char>,
) -> bool {
    jparse(key_s) matches Some(kv) && MigrateSignKey::shape(kv) && (jparse(sign_s) matches Some(sv)
        && Sign::shape(sv) && jv_get_str(sv, "keyType"@) == Some("migrateSignKey"@)
        && verify65_spec(
        jv_get_str(kv, "key"@).unwrap(),
        vstd::utf8::encode_utf8(data),
        jv_get_str(sv, "signature"@).unwrap(),
    ))
}

/// Verifies a signed envelope against `data` with the migrate signing key.
pub fn verify_data_migrate_sign_key(pub_json: &str, sign_json: &str, data: &str) -> (r: bool)
    ensures
        r == verify_migrate_sign_spec(pub_json@, sign_json@, data@),
{
    let parsed = match parse_json(pub_json) {
        Some(v) => v,
        None => {
            return false;
        },
    };
    let pk = match MigrateSignKey::from_json(&parsed) {
        Some(k) => k,
        None => {
            return false;
        },
    };
    let sparsed = match parse_json(sign_json) {
        Some(v) => v,
        None => {
            return false;
        },
    };
    let sig = match Sign::from_json(&sparsed) {
        Some(s) => s,
        None => {
            return false;
        },
    };
    if !str_eq(sig.key_type.as_str(), "migrateSignKey") {
        return false;
    }
    verify_with_mlds65(pk.key.as_str(), data.as_bytes(), sig.signature.as_str())
}

/// A migrate-sign envelope is structurally valid: the `migrateSignKey`
/// tag.
pub open spec fn sign_migrate_sign_valid(s: Seq<char>) -> bool {
    jparse(s) matches Some(v) && Sign::shape(v) && jv_get_str(v, "keyType"@) == Some(
        "migrateSignKey"@,
    )
}

/// Validates the shape of a migrate-sign envelope.
pub fn is_valid_sign_migrate_sign_key(json: &str) -> (r: bool)
    ensures
        r == sign_migrate_sign_valid(json@),
{
    let parsed = match parse_json(json) {
        Some(v) => v,
        None => {
            return false;
        },
    };
    let s = match Sign::from_json(&parsed) {
        Some(s) => s,
        None => {
            return false;
        },
    };
    str_eq(s.key_type.as_str(), "migrateSignKey")
}

} // verus!

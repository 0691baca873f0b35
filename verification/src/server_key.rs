//! The server key: an ML-DSA-65 pair the server signs with.

use vstd::prelude::*;

use crate::json::{jparse, json_text, jv_get_str, parse_json, str_eq};
use crate::keyutils::{generate_dsa65_key_pair, text_pair65};
use crate::provider::now_millis;
use crate::signature::{
    create_signature_object_mlds65, sign_obj65_ok, verify65_spec, verify_with_mlds65,
};
use crate::types::{key_field_of, kv3_jv, ServerKey, Sign};
use crate::utils::{decode_b64_len, is_b64_len};

verus! {

/// A server-key record text: the expected tag and a key of the expected
/// decoded length.
pub open spec fn server_key_valid(s: Seq<char>, want_kt: Seq<char>, want_len: int) -> bool {
    jparse(s) matches Some(v) && ServerKey::shape(v) && jv_get_str(v, "keyType"@) == Some(want_kt)
        && (jv_get_str(v, "key"@) matches Some(k) && is_b64_len(k, want_len))
}

/// Generates a server key pair: (public record text, private record text).
pub fn generate_server_key() -> (r: (String, String))
    ensures
        exists|pk_b64: Seq<char>, sk_b64: Seq<char>, ts: u64|
            #![trigger text_pair65(pk_b64, sk_b64), kv3_jv("serverKeyPublic"@, pk_b64, ts)]
            r.0@ == json_text(kv3_jv("serverKeyPublic"@, pk_b64, ts)) && r.1@ == json_text(
                kv3_jv("serverKeyPrivate"@, sk_b64, ts),
            ) && text_pair65(pk_b64, sk_b64) && is_b64_len(pk_b64, 1952) && is_b64_len(
                sk_b64,
                4032,
            ),
        server_key_valid(r.0@, "serverKeyPublic"@, 1952),
        server_key_valid(r.1@, "serverKeyPrivate"@, 4032),
{
    let (pub_b64, priv_b64) = generate_dsa65_key_pair();
    let ts = now_millis();
    let pub_obj = ServerKey { key_type: "serverKeyPublic".to_owned(), key: pub_b64, timestamp: ts };
    let priv_obj = ServerKey {
        key_type: "serverKeyPrivate".to_owned(),
        key: priv_b64,
        timestamp: ts,
    };
    let pub_text = pub_obj.to_text();
    let priv_text = priv_obj.to_text();
    proof {
        assert(pub_obj.jv() == kv3_jv("serverKeyPublic"@, pub_obj.key@, ts));
        assert(priv_obj.jv() == kv3_jv("serverKeyPrivate"@, priv_obj.key@, ts));
        crate::json::lemma_jparse_inverts_json_text(pub_obj.jv());
        crate::json::lemma_jparse_inverts_json_text(priv_obj.jv());
        crate::types::lemma_kv3_fields("serverKeyPublic"@, pub_obj.key@, ts);
        crate::types::lemma_kv3_fields("serverKeyPrivate"@, priv_obj.key@, ts);
    }
    (pub_text, priv_text)
}

/// Validates a server public-key record.
pub fn is_valid_server_key_public(json: &str) -> (r: bool)
    ensures
        r == server_key_valid(json@, "serverKeyPublic"@, 1952),
{
    let parsed = match parse_json(json) {
        Some(v) => v,
        None => {
            return false;
        },
    };
    let sk = match ServerKey::from_json(&parsed) {
        Some(k) => k,
        None => {
            return false;
        },
    };
    str_eq(sk.key_type.as_str(), "serverKeyPublic") && decode_b64_len(
        sk.key.as_str(),
        1952,
    ).is_some()
}

/// Validates a server private-key record.
pub fn is_valid_server_key_private(json: &str) -> (r: bool)
    ensures
        r == server_key_valid(json@, "serverKeyPrivate"@, 4032),
{
    let parsed = match parse_json(json) {
        Some(v) => v,
        None => {
            return false;
        },
    };
    let sk = match ServerKey::from_json(&parsed) {
        Some(k) => k,
        None => {
            return false;
        },
    };
    str_eq(sk.key_type.as_str(), "serverKeyPrivate") && decode_b64_len(
        sk.key.as_str(),
        4032,
    ).is_some()
}

/// Signs `data` with the server private key under the `serverKey` tag.
pub fn sign_data_server_key(priv_json: &str, data: &str, key_hash: &str) -> (r: Option<String>)
    ensures
        r is Some <==> (jparse(priv_json@) matches Some(v) && ServerKey::shape(v) && jv_get_str(
            v,
            "keyType"@,
        ) == Some("serverKeyPrivate"@) && is_b64_len(key_field_of(priv_json@), 4032)),
        r matches Some(t) ==> sign_obj65_ok(
            t@,
            key_field_of(priv_json@),
            vstd::utf8::encode_utf8(data@),
            key_hash@,
            "serverKey"@,
        ),
{
    let parsed = match parse_json(priv_json) {
        Some(v) => v,
        None => {
            return None;
        },
    };
    let sk = match ServerKey::from_json(&parsed) {
        Some(k) => k,
        None => {
            return None;
        },
    };
    if !str_eq(sk.key_type.as_str(), "serverKeyPrivate") {
        return None;
    }
    create_signature_object_mlds65(sk.key.as_str(), data.as_bytes(), key_hash, "serverKey")
}

/// A server verification claim over record texts.
pub open spec fn verify_server_spec(key_s: Seq<char>, sign_s: Seq<char>, data: Seq<char>) -> bool {
    jparse(key_s) matches Some(kv) && ServerKey::shape(kv) && jv_get_str(kv, "keyType"@) == Some(
        "serverKeyPublic"@,
    ) && (jparse(sign_s) matches Some(sv) && Sign::shape(sv) && jv_get_str(sv, "keyType"@) == Some(
        "serverKey"@,
    ) && verify65_spec(
        jv_get_str(kv, "key"@).unwrap(),
        vstd::utf8::encode_utf8(data),
        jv_get_str(sv, "signature"@).unwrap(),
    ))
}

/// Verifies a signed envelope against `data` with the server public key.
pub fn verify_data_server_key(pub_json: &str, sign_json: &str, data: &str) -> (r: bool)
    ensures
        r == verify_server_spec(pub_json@, sign_json@, data@),
{
    let parsed = match parse_json(pub_json) {
        Some(v) => v,
        None => {
            return false;
        },
    };
    let pk = match ServerKey::from_json(&parsed) {
        Some(k) => k,
        None => {
            return false;
        },
    };
    if !str_eq(pk.key_type.as_str(), "serverKeyPublic") {
        return false;
    }
    let sparsed = match parse_json(sign_json) {
        Some(v) => v,
        None => {
            return false;
        },
    };
    let sig = match Sign::from_json(&sparsed) {
        Some(s) => s,
        None => {
            return false;
        },
    };
    if !str_eq(sig.key_type.as_str(), "serverKey") {
        return false;
    }
    verify_with_mlds65(pk.key.as_str(), data.as_bytes(), sig.signature.as_str())
}

} // verus!

//! The identity key: an ML-DSA-65 pair bound to a session, generated under
//! a master key's signature, used to sign messages.

use vstd::prelude::*;

use crate::json::{jparse, json_text, jv_get_str, jv_opt_str, parse_json, str_eq};
use crate::keyutils::{generate_dsa65_key_pair, text_pair65};
use crate::master_key::{is_valid_master_key_private, is_valid_master_key_public, master_key_valid, sign_master_key};
use crate::provider::now_millis;
use crate::signature::{
    create_signature_object_mlds65, sign_obj65_ok, sign_obj87_ok, verify65_spec,
    verify_with_mlds65,
};
use crate::types::{key_field_of, kv5_jv, IdentityKey, MasterKey, Sign};
use crate::utils::{is_b64_len, key_hash, key_hash_of};
use crate::uuid7::{is_uuid_v7_text, is_valid_uuid_v7};

verus! {

/// An identity-key record text: the expected tag, the ML-DSA-65 algorithm
/// string, a key of the expected decoded length, and a version-7 session
/// UUID.
pub open spec fn identity_key_valid(s: Seq<char>, want_kt: Seq<char>, want_len: int) -> bool {
    jparse(s) matches Some(v) && IdentityKey::shape(v) && jv_get_str(v, "keyType"@) == Some(
        want_kt,
    ) && jv_get_str(v, "algorithm"@) == Some("ML-DSA-65"@) && (jv_get_str(v, "key"@) matches Some(
        k,
    ) && is_b64_len(k, want_len)) && (jv_get_str(v, "sessionUuid"@) matches Some(u)
        && is_uuid_v7_text(u))
}

/// Signs `data` with the identity private key under the `identityKey`
/// domain tag.
pub fn sign_identity_key(key_json: &str, data: &str, key_hash: &str) -> (r: Option<String>)
    ensures
        r is Some <==> (jparse(key_json@) matches Some(v) && IdentityKey::shape(v) && jv_get_str(
            v,
            "keyType"@,
        ) == Some("identityKeyPrivate"@) && is_b64_len(key_field_of(key_json@), 4032)),
        r matches Some(t) ==> sign_obj65_ok(
            t@,
            key_field_of(key_json@),
            vstd::utf8::encode_utf8(data@),
            key_hash@,
            "identityKey"@,
        ),
{
    let parsed = match parse_json(key_json) {
        Some(v) => v,
        None => {
            return None;
        },
    };
    let ik = match IdentityKey::from_json(&parsed) {
        Some(k) => k,
        None => {
            return None;
        },
    };
    if !str_eq(ik.key_type.as_str(), "identityKeyPrivate") {
        return None;
    }
    create_signature_object_mlds65(ik.key.as_str(), data.as_bytes(), key_hash, "identityKey")
}

/// An identity verification claim over record texts.
pub open spec fn verify_identity_spec(key_s: Seq<char>, sign_s: Seq<char>, data: Seq<char>) -> bool {
    jparse(key_s) matches Some(kv) && IdentityKey::shape(kv) && jv_get_str(kv, "keyType"@) == Some(
        "identityKeyPublic"@,
    ) && (jparse(sign_s) matches Some(sv) && Sign::shape(sv) && jv_get_str(sv, "keyType"@) == Some(
        "identityKey"@,
    ) && verify65_spec(
        jv_get_str(kv, "key"@).unwrap(),
        vstd::utf8::encode_utf8(data),
        jv_get_str(sv, "signature"@).unwrap(),
    ))
}

/// Verifies a signed envelope against `data` with the identity public key.
pub fn verify_identity_key(key_json: &str, sign_json: &str, data: &str) -> (r: bool)
    ensures
        r == verify_identity_spec(key_json@, sign_json@, data@),
{
    let parsed = match parse_json(key_json) {
        Some(v) => v,
        None => {
            return false;
        },
    };
    let ik = match IdentityKey::from_json(&parsed) {
        Some(k) => k,
        None => {
            return false;
        },
    };
    if !str_eq(ik.key_type.as_str(), "identityKeyPublic") {
        return false;
    }
    let sparsed = match parse_json(sign_json) {
        Some(v) => v,
        None => {
            return false;
        },
    };
    let sign = match Sign::from_json(&sparsed) {
        Some(s) => s,
        None => {
            return false;
        },
    };
    if !str_eq(sign.key_type.as_str(), "identityKey") {
        return false;
    }
    verify_with_mlds65(ik.key.as_str(), data.as_bytes(), sign.signature.as_str())
}

/// Generates an identity key pair for the session and signs the public
/// record with the master key: (public text, private text, envelope text).
/// The signer's key hash is the hash of the master public key's `key`
/// field, not of the whole record.
pub fn generate_identity_key(
    uuid: &str,
    master_public_json: &str,
    master_private_json: &str,
) -> (r: Option<(String, String, String)>)
    ensures
        r is Some <==> (is_uuid_v7_text(uuid@) && master_key_valid(
            master_private_json@,
            "masterKeyPrivate"@,
            4896,
        ) && master_key_valid(master_public_json@, "masterKeyPublic"@, 2592)),
        r matches Some(t) ==> exists|pk_b64: Seq<char>, sk_b64: Seq<char>, ts: u64|
            #![trigger text_pair65(pk_b64, sk_b64), kv5_jv("identityKeyPublic"@, pk_b64, "ML-DSA-65"@, ts, uuid@)]
            t.0@ == json_text(kv5_jv("identityKeyPublic"@, pk_b64, "ML-DSA-65"@, ts, uuid@))
                && t.1@ == json_text(
                kv5_jv("identityKeyPrivate"@, sk_b64, "ML-DSA-65"@, ts, uuid@),
            ) && text_pair65(pk_b64, sk_b64) && sign_obj87_ok(
                t.2@,
                key_field_of(master_private_json@),
                vstd::utf8::encode_utf8(t.0@),
                key_hash_of(key_field_of(master_public_json@)),
                "masterKey"@,
            ),
        r matches Some(t) ==> (identity_key_valid(t.0@, "identityKeyPublic"@, 1952)
            && identity_key_valid(t.1@, "identityKeyPrivate"@, 4032)),
{
    if !is_valid_uuid_v7(uuid) {
        return None;
    }
    if !is_valid_master_key_private(master_private_json) {
        return None;
    }
    if !is_valid_master_key_public(master_public_json) {
        return None;
    }
    let (pub_b64, priv_b64) = generate_dsa65_key_pair();
    let timestamp = now_millis();
    let pub_obj = IdentityKey {
        key_type: "identityKeyPublic".to_owned(),
        key: pub_b64,
        algorithm: "ML-DSA-65".to_owned(),
        timestamp,
        session_uuid: uuid.to_owned(),
    };
    let priv_obj = IdentityKey {
        key_type: "identityKeyPrivate".to_owned(),
        key: priv_b64,
        algorithm: "ML-DSA-65".to_owned(),
        timestamp,
        session_uuid: uuid.to_owned(),
    };
    let pub_json = pub_obj.to_text();
    let priv_json = priv_obj.to_text();
    let mparsed = match parse_json(master_public_json) {
        Some(v) => v,
        None => {
            return None;
        },
    };
    let mk = match MasterKey::from_json(&mparsed) {
        Some(m) => m,
        None => {
            return None;
        },
    };
    let mh = key_hash(mk.key.as_str());
    let sign = match sign_master_key(master_private_json, pub_json.as_str(), mh.as_str()) {
        Some(s) => s,
        None => {
            return None;
        },
    };
    proof {
        assert(pub_obj.jv() == kv5_jv(
            "identityKeyPublic"@,
            pub_obj.key@,
            "ML-DSA-65"@,
            timestamp,
            uuid@,
        ));
        assert(priv_obj.jv() == kv5_jv(
            "identityKeyPrivate"@,
            priv_obj.key@,
            "ML-DSA-65"@,
            timestamp,
            uuid@,
        ));
        crate::json::lemma_jparse_inverts_json_text(pub_obj.jv());
        crate::json::lemma_jparse_inverts_json_text(priv_obj.jv());
        crate::types::lemma_kv5_fields(
            "identityKeyPublic"@,
            pub_obj.key@,
            "ML-DSA-65"@,
            timestamp,
            uuid@,
        );
        crate::types::lemma_kv5_fields(
            "identityKeyPrivate"@,
            priv_obj.key@,
            "ML-DSA-65"@,
            timestamp,
            uuid@,
        );
    }
    Some((pub_json, priv_json, sign))
}

/// Validates an identity private-key record.
pub fn is_valid_identity_key_private(key_json: &str) -> (r: bool)
    ensures
        r == identity_key_valid(key_json@, "identityKeyPrivate"@, 4032),
{
    let parsed = match parse_json(key_json) {
        Some(v) => v,
        None => {
            return false;
        },
    };
    let ik = match IdentityKey::from_json(&parsed) {
        Some(k) => k,
        None => {
            return false;
        },
    };
    str_eq(ik.key_type.as_str(), "identityKeyPrivate") && str_eq(ik.algorithm.as_str(), "ML-DSA-65")
        && crate::keyutils::is_valid_dsa65_key(ik.key.as_str(), false) && is_valid_uuid_v7(
        ik.session_uuid.as_str(),
    )
}

/// Validates an identity public-key record.
pub fn is_valid_identity_key_public(key_json: &str) -> (r: bool)
    ensures
        r == identity_key_valid(key_json@, "identityKeyPublic"@, 1952),
{
    let parsed = match parse_json(key_json) {
        Some(v) => v,
        None => {
            return false;
        },
    };
    let ik = match IdentityKey::from_json(&parsed) {
        Some(k) => k,
        None => {
            return false;
        },
    };
    str_eq(ik.key_type.as_str(), "identityKeyPublic") && str_eq(ik.algorithm.as_str(), "ML-DSA-65")
        && crate::keyutils::is_valid_dsa65_key(ik.key.as_str(), true) && is_valid_uuid_v7(
        ik.session_uuid.as_str(),
    )
}

/// An identity signed envelope is structurally valid: tag `identityKey`
/// and algorithm `ML-DSA-65`.
pub open spec fn sign_identity_valid(s: Seq<char>) -> bool {
    jparse(s) matches Some(v) && Sign::shape(v) && jv_get_str(v, "keyType"@) == Some(
        "identityKey"@,
    ) && jv_opt_str(v, "algorithm"@) == Some(Some("ML-DSA-65"@))
}

/// Validates the shape of an identity signed envelope.
pub fn is_valid_sign_identity_key(sign_json: &str) -> (r: bool)
    ensures
        r == sign_identity_valid(sign_json@),
{
    let parsed = match parse_json(sign_json) {
        Some(v) => v,
        None => {
            return false;
        },
    };
    let obj = match Sign::from_json(&parsed) {
        Some(o) => o,
        None => {
            return false;
        },
    };
    if !str_eq(obj.key_type.as_str(), "identityKey") {
        return false;
    }
    match &obj.algorithm {
        Some(a) => str_eq(a.as_str(), "ML-DSA-65"),
        None => false,
    }
}

/// The signing law: an envelope made by `sign_identity_key` with the
/// private half of a generated identity pair verifies, by
/// `verify_identity_key`'s claim, under the public record of that pair,
/// over the same data.
pub proof fn lemma_sign_then_verify_identity(
    pk_s: Seq<char>,
    sk_b64: Seq<char>,
    env: Seq<char>,
    data: Seq<char>,
    h: Seq<char>,
)
    requires
        jparse(pk_s) matches Some(kv) && IdentityKey::shape(kv) && jv_get_str(kv, "keyType"@)
            == Some("identityKeyPublic"@),
        sign_obj65_ok(env, sk_b64, vstd::utf8::encode_utf8(data), h, "identityKey"@),
        text_pair65(key_field_of(pk_s), sk_b64),
    ensures
        verify_identity_spec(pk_s, env, data),
{
    let sig_b64 = choose|sig_b64: Seq<char>|
        #![trigger crate::signature::sign_jv(h, sig_b64, "identityKey"@, Some("ML-DSA-65"@))]
        env == crate::json::json_text(
            crate::signature::sign_jv(h, sig_b64, "identityKey"@, Some("ML-DSA-65"@)),
        ) && is_b64_len(sig_b64, 3309) && (forall|pkb: Seq<u8>|
            #[trigger] crate::signature::pairs_with65(pkb, sk_b64) && pkb.len() == 1952
                ==> verify65_spec(
                crate::provider::b64_of(pkb),
                vstd::utf8::encode_utf8(data),
                sig_b64,
            ));
    let sv = crate::signature::sign_jv(h, sig_b64, "identityKey"@, Some("ML-DSA-65"@));
    crate::json::lemma_jparse_inverts_json_text(sv);
    crate::signature::lemma_sign_jv_fields(h, sig_b64, "identityKey"@, Some("ML-DSA-65"@));
    let (pkb, skb) = choose|pkb: Seq<u8>, skb: Seq<u8>|
        key_field_of(pk_s) == crate::provider::b64_of(pkb) && pkb.len() == 1952 && sk_b64
            == crate::provider::b64_of(skb) && skb.len() == 4032 && crate::provider::dsa65_pair(
            pkb,
            skb,
        );
    assert(crate::signature::pairs_with65(pkb, sk_b64));
    assert(verify65_spec(
        crate::provider::b64_of(pkb),
        vstd::utf8::encode_utf8(data),
        sig_b64,
    ));
}

} // verus!

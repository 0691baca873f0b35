//! The master key: an ML-DSA-87 pair that signs the other key roles.

use vstd::prelude::*;

use crate::json::{jparse, json_text, jv_get_str, jv_opt_str, parse_json, str_eq};
use crate::keyutils::{generate_dsa87_key_pair, is_valid_dsa87_key, text_pair87};
use crate::signature::{
    create_signature_object_mlds87, sign_obj87_ok, verify87_spec, verify_with_mlds87,
};
use crate::types::{key_field_of, kv2_jv, MasterKey, Sign};
use crate::utils::is_b64_len;

verus! {

/// A master-key record text: the expected tag and a key of the expected
/// decoded length.
pub open spec fn master_key_valid(s: Seq<char>, want_kt: Seq<char>, want_len: int) -> bool {
    jparse(s) matches Some(v) && MasterKey::shape(v) && jv_get_str(v, "keyType"@) == Some(want_kt)
        && (jv_get_str(v, "key"@) matches Some(k) && is_b64_len(k, want_len))
}

/// Generates a master key pair: (public record text, private record text).
pub fn generate_master_key() -> (r: (String, String))
    ensures
        exists|pk_b64: Seq<char>, sk_b64: Seq<char>|
            #![trigger text_pair87(pk_b64, sk_b64)]
            r.0@ == json_text(kv2_jv("masterKeyPublic"@, pk_b64)) && r.1@ == json_text(
                kv2_jv("masterKeyPrivate"@, sk_b64),
            ) && text_pair87(pk_b64, sk_b64) && is_b64_len(pk_b64, 2592) && is_b64_len(
                sk_b64,
                4896,
            ),
        master_key_valid(r.0@, "masterKeyPublic"@, 2592),
        master_key_valid(r.1@, "masterKeyPrivate"@, 4896),
{
    let (pub_b64, priv_b64) = generate_dsa87_key_pair();
    let pub_obj = MasterKey { key_type: "masterKeyPublic".to_owned(), key: pub_b64 };
    let priv_obj = MasterKey { key_type: "masterKeyPrivate".to_owned(), key: priv_b64 };
    let pub_text = pub_obj.to_text();
    let priv_text = priv_obj.to_text();
    proof {
        assert(pub_obj.jv() == kv2_jv("masterKeyPublic"@, pub_obj.key@));
        assert(priv_obj.jv() == kv2_jv("masterKeyPrivate"@, priv_obj.key@));
        crate::json::lemma_jparse_inverts_json_text(pub_obj.jv());
        crate::json::lemma_jparse_inverts_json_text(priv_obj.jv());
        crate::types::lemma_kv2_fields("masterKeyPublic"@, pub_obj.key@);
        crate::types::lemma_kv2_fields("masterKeyPrivate"@, priv_obj.key@);
    }
    (pub_text, priv_text)
}

/// Signs `data` with the master private key, under the domain tag
/// `masterKey` and the caller's key hash.
pub fn sign_master_key(key_json: &str, data: &str, pub_key_hash: &str) -> (r: Option<String>)
    ensures
        r is Some <==> master_key_valid(key_json@, "masterKeyPrivate"@, 4896),
        r matches Some(t) ==> sign_obj87_ok(
            t@,
            key_field_of(key_json@),
            vstd::utf8::encode_utf8(data@),
            pub_key_hash@,
            "masterKey"@,
        ),
{
    let parsed = match parse_json(key_json) {
        Some(v) => v,
        None => {
            return None;
        },
    };
    let mk = match MasterKey::from_json(&parsed) {
        Some(m) => m,
        None => {
            return None;
        },
    };
    if !str_eq(mk.key_type.as_str(), "masterKeyPrivate") {
        return None;
    }
    create_signature_object_mlds87(mk.key.as_str(), data.as_bytes(), pub_key_hash, "masterKey")
}

/// A master-key verification claim over record texts: the public record
/// carries the `masterKeyPublic` tag, the envelope carries the `masterKey`
/// tag, and the signature verifies over the data.
pub open spec fn verify_master_spec(key_s: Seq<char>, sign_s: Seq<char>, data: Seq<char>) -> bool {
    jparse(key_s) matches Some(kv) && MasterKey::shape(kv) && jv_get_str(kv, "keyType"@) == Some(
        "masterKeyPublic"@,
    ) && (jparse(sign_s) matches Some(sv) && Sign::shape(sv) && jv_get_str(sv, "keyType"@) == Some(
        "masterKey"@,
    ) && verify87_spec(
        jv_get_str(kv, "key"@).unwrap(),
        vstd::utf8::encode_utf8(data),
        jv_get_str(sv, "signature"@).unwrap(),
    ))
}

/// Verifies a signed envelope against `data` with the master public key.
pub fn verify_master_key(key_json: &str, sign_json: &str, data: &str) -> (r: bool)
    ensures
        r == verify_master_spec(key_json@, sign_json@, data@),
{
    let parsed = match parse_json(key_json) {
        Some(v) => v,
        None => {
            return false;
        },
    };
    let mk = match MasterKey::from_json(&parsed) {
        Some(m) => m,
        None => {
            return false;
        },
    };
    if !str_eq(mk.key_type.as_str(), "masterKeyPublic") {
        return false;
    }
    let sparsed = match parse_json(sign_json) {
        Some(v) => v,
        None => {
            return false;
        },
    };
    let sign = match Sign::from_json(&sparsed) {
        Some(s) => s,
        None => {
            return false;
        },
    };
    if !str_eq(sign.key_type.as_str(), "masterKey") {
        return false;
    }
    verify_with_mlds87(mk.key.as_str(), data.as_bytes(), sign.signature.as_str())
}

/// Validates a master private-key record.
pub fn is_valid_master_key_private(key_json: &str) -> (r: bool)
    ensures
        r == master_key_valid(key_json@, "masterKeyPrivate"@, 4896),
{
    let parsed = match parse_json(key_json) {
        Some(v) => v,
        None => {
            return false;
        },
    };
    let mk = match MasterKey::from_json(&parsed) {
        Some(m) => m,
        None => {
            return false;
        },
    };
    if !str_eq(mk.key_type.as_str(), "masterKeyPrivate") {
        return false;
    }
    is_valid_dsa87_key(mk.key.as_str(), false)
}

/// Validates a master public-key record.
pub fn is_valid_master_key_public(key_json: &str) -> (r: bool)
    ensures
        r == master_key_valid(key_json@, "masterKeyPublic"@, 2592),
{
    let parsed = match parse_json(key_json) {
        Some(v) => v,
        None => {
            return false;
        },
    };
    let mk = match MasterKey::from_json(&parsed) {
        Some(m) => m,
        None => {
            return false;
        },
    };
    if !str_eq(mk.key_type.as_str(), "masterKeyPublic") {
        return false;
    }
    is_valid_dsa87_key(mk.key.as_str(), true)
}

/// A master signed envelope is structurally valid: tag `masterKey` and
/// algorithm `ML-DSA-87`.
pub open spec fn sign_master_valid(s: Seq<char>) -> bool {
    jparse(s) matches Some(v) && Sign::shape(v) && jv_get_str(v, "keyType"@) == Some("masterKey"@)
        && jv_opt_str(v, "algorithm"@) == Some(Some("ML-DSA-87"@))
}

/// Validates the shape of a master signed envelope.
pub fn is_valid_sign_master_key(sign_json: &str) -> (r: bool)
    ensures
        r == sign_master_valid(sign_json@),
{
    let parsed = match parse_json(sign_json) {
        Some(v) => v,
        None => {
            return false;
        },
    };
    let obj = match Sign::from_json(&parsed) {
        Some(o) => o,
        None => {
            return false;
        },
    };
    if !str_eq(obj.key_type.as_str(), "masterKey") {
        return false;
    }
    match &obj.algorithm {
        Some(a) => str_eq(a.as_str(), "ML-DSA-87"),
        None => false,
    }
}

/// The signing law: an envelope made by `sign_master_key` with the private
/// half of a generated master pair verifies, by `verify_master_key`'s
/// claim, under the public record of that pair, over the same data.
pub proof fn lemma_sign_then_verify_master(
    pk_s: Seq<char>,
    sk_b64: Seq<char>,
    env: Seq<char>,
    data: Seq<char>,
    h: Seq<char>,
)
    requires
        master_key_valid(pk_s, "masterKeyPublic"@, 2592),
        sign_obj87_ok(env, sk_b64, vstd::utf8::encode_utf8(data), h, "masterKey"@),
        crate::keyutils::text_pair87(key_field_of(pk_s), sk_b64),
    ensures
        verify_master_spec(pk_s, env, data),
{
    let sig_b64 = choose|sig_b64: Seq<char>|
        #![trigger crate::signature::sign_jv(h, sig_b64, "masterKey"@, Some("ML-DSA-87"@))]
        env == crate::json::json_text(
            crate::signature::sign_jv(h, sig_b64, "masterKey"@, Some("ML-DSA-87"@)),
        ) && crate::utils::is_b64_len(sig_b64, 4627) && (forall|pkb: Seq<u8>|
            #[trigger] crate::signature::pairs_with87(pkb, sk_b64) && pkb.len() == 2592
                ==> verify87_spec(crate::provider::b64_of(pkb), vstd::utf8::encode_utf8(data), sig_b64));
    let sv = crate::signature::sign_jv(h, sig_b64, "masterKey"@, Some("ML-DSA-87"@));
    crate::json::lemma_jparse_inverts_json_text(sv);
    crate::signature::lemma_sign_jv_fields(h, sig_b64, "masterKey"@, Some("ML-DSA-87"@));
    let (pkb, skb) = choose|pkb: Seq<u8>, skb: Seq<u8>|
        key_field_of(pk_s) == crate::provider::b64_of(pkb) && pkb.len() == 2592 && sk_b64
            == crate::provider::b64_of(skb) && skb.len() == 4896 && crate::provider::dsa87_pair(
            pkb,
            skb,
        );
    assert(crate::signature::pairs_with87(pkb, sk_b64));
    assert(verify87_spec(crate::provider::b64_of(pkb), vstd::utf8::encode_utf8(data), sig_b64));
}

/// Cross-role rejection: an encrypted envelope accepted by one role's
/// validator is rejected by every other role's validator, because each
/// requires its own `keyType` tag.
pub proof fn lemma_cross_role_envelope_rejection(s: Seq<char>)
    ensures
        crate::account_key::enc_data_account_valid(s) ==> !crate::room_key::enc_data_room_valid(s)
            && !crate::share_key::enc_data_share_valid(s)
            && !crate::migrate_key::enc_data_migrate_valid(s)
            && !crate::device_key::enc_data_device_valid(s),
        crate::room_key::enc_data_room_valid(s) ==> !crate::account_key::enc_data_account_valid(s)
            && !crate::share_key::enc_data_share_valid(s)
            && !crate::migrate_key::enc_data_migrate_valid(s)
            && !crate::device_key::enc_data_device_valid(s),
        crate::share_key::enc_data_share_valid(s) ==> !crate::account_key::enc_data_account_valid(
            s,
        ) && !crate::room_key::enc_data_room_valid(s)
            && !crate::migrate_key::enc_data_migrate_valid(s)
            && !crate::device_key::enc_data_device_valid(s),
        crate::migrate_key::enc_data_migrate_valid(s)
            ==> !crate::account_key::enc_data_account_valid(s)
            && !crate::room_key::enc_data_room_valid(s)
            && !crate::share_key::enc_data_share_valid(s)
            && !crate::device_key::enc_data_device_valid(s),
        crate::device_key::enc_data_device_valid(s)
            ==> !crate::account_key::enc_data_account_valid(s)
            && !crate::room_key::enc_data_room_valid(s)
            && !crate::share_key::enc_data_share_valid(s)
            && !crate::migrate_key::enc_data_migrate_valid(s),
{
    reveal_strlit("accountKey");
    reveal_strlit("roomKey");
    reveal_strlit("shareKey");
    reveal_strlit("migrateKey");
    reveal_strlit("deviceKey");
    assert("accountKey"@.len() == 10);
    assert("roomKey"@.len() == 7);
    assert("shareKey"@.len() == 8);
    assert("migrateKey"@.len() == 10);
    assert("deviceKey"@.len() == 9);
    assert("accountKey"@[0] == 'a' && "migrateKey"@[0] == 'm');
}

} // verus!

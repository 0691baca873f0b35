//! Structural validation of externally supplied records, without any
//! cryptographic work.

use vstd::prelude::*;

use crate::json::{json_get, json_get_bool, json_get_str, json_get_u64, jv_get, jv_get_bool, jv_get_str, jv_get_u64, str_eq, Json, JsonV};
use crate::utils::{decode_b64, decode_b64_len, is_b64, is_b64_len};

verus! {

/// A master private-key record by shape: the tag and a 4896-byte key.
pub open spec fn master_key_private_schema(v: JsonV) -> bool {
    jv_get_str(v, "keyType"@) == Some("masterKeyPrivate"@) && (jv_get_str(v, "key"@) matches Some(
        k,
    ) && is_b64_len(k, 4896))
}

/// Validates a parsed master private-key record by shape.
pub fn validate_master_key_private(v: &Json) -> (r: bool)
    ensures
        r == master_key_private_schema(v@),
{
    let kt_ok = match json_get_str(v, "keyType") {
        Some(kt) => str_eq(kt.as_str(), "masterKeyPrivate"),
        None => false,
    };
    if !kt_ok {
        return false;
    }
    match json_get_str(v, "key") {
        Some(k) => decode_b64_len(k.as_str(), 4896).is_some(),
        None => false,
    }
}

/// A master public-key record by shape: the tag and a 2592-byte key.
pub open spec fn master_key_public_schema(v: JsonV) -> bool {
    jv_get_str(v, "keyType"@) == Some("masterKeyPublic"@) && (jv_get_str(v, "key"@) matches Some(k)
        && is_b64_len(k, 2592))
}

/// Validates a parsed master public-key record by shape.
pub fn validate_master_key_public(v: &Json) -> (r: bool)
    ensures
        r == master_key_public_schema(v@),
{
    let kt_ok = match json_get_str(v, "keyType") {
        Some(kt) => str_eq(kt.as_str(), "masterKeyPublic"),
        None => false,
    };
    if !kt_ok {
        return false;
    }
    match json_get_str(v, "key") {
        Some(k) => decode_b64_len(k.as_str(), 2592).is_some(),
        None => false,
    }
}

/// A master signed envelope by shape: the tag, a 32-byte key hash, a
/// decodable signature, and the ML-DSA-87 algorithm string.
pub open spec fn sign_master_key_schema(v: JsonV) -> bool {
    jv_get_str(v, "keyType"@) == Some("masterKey"@) && (jv_get_str(v, "keyHash"@) matches Some(h)
        && is_b64_len(h, 32)) && (jv_get_str(v, "signature"@) matches Some(sg) && is_b64(sg))
        && jv_get_str(v, "algorithm"@) == Some("ML-DSA-87"@)
}

/// Validates a parsed master signed envelope by shape.
pub fn validate_sign_master_key(v: &Json) -> (r: bool)
    ensures
        r == sign_master_key_schema(v@),
{
    let kt_ok = match json_get_str(v, "keyType") {
        Some(kt) => str_eq(kt.as_str(), "masterKey"),
        None => false,
    };
    if !kt_ok {
        return false;
    }
    let kh_ok = match json_get_str(v, "keyHash") {
        Some(h) => decode_b64_len(h.as_str(), 32).is_some(),
        None => false,
    };
    if !kh_ok {
        return false;
    }
    let sig_ok = match json_get_str(v, "signature") {
        Some(sg) => decode_b64(sg.as_str()).is_some(),
        None => false,
    };
    if !sig_ok {
        return false;
    }
    match json_get_str(v, "algorithm") {
        Some(a) => str_eq(a.as_str(), "ML-DSA-87"),
        None => false,
    }
}

/// The header fields every message carries.
pub open spec fn message_base_ok(v: JsonV) -> bool {
    jv_get_str(v, "channel"@) is Some && jv_get_u64(v, "timestamp"@) is Some && jv_get_bool(
        v,
        "isLarge"@,
    ) is Some && jv_get_str(v, "roomid"@) is Some
}

/// A cleartext payload discriminator.
pub open spec fn is_message_type(t: Seq<char>) -> bool {
    t == "text"@ || t == "image"@ || t == "video"@ || t == "audio"@ || t == "file"@ || t
        == "thumbnail"@
}

/// A message record by shape: the header fields, and a value that is a
/// typed payload object for a cleartext message or a text for an
/// encrypted one.
pub open spec fn validate_message_spec(v: JsonV) -> bool {
    match jv_get(v, "encrypted"@) {
        Some(JsonV::Bool(false)) => message_base_ok(v) && (jv_get(v, "value"@) matches Some(val)
            && (jv_get_str(val, "type"@) matches Some(t) && is_message_type(t))),
        Some(JsonV::Bool(true)) => message_base_ok(v) && jv_get_str(v, "value"@) is Some,
        _ => false,
    }
}

/// Validates a parsed message record by shape.
pub fn validate_message(v: &Json) -> (r: bool)
    ensures
        r == validate_message_spec(v@),
{
    let enc = match json_get(v, "encrypted") {
        Some(Json::Bool(b)) => *b,
        _ => {
            return false;
        },
    };
    let base = match json_get_str(v, "channel") {
        Some(_) => match json_get_u64(v, "timestamp") {
            Some(_) => match json_get_bool(v, "isLarge") {
                Some(_) => json_get_str(v, "roomid").is_some(),
                None => false,
            },
            None => false,
        },
        None => false,
    };
    if !base {
        return false;
    }
    if !enc {
        match json_get(v, "value") {
            Some(val) => match json_get_str(val, "type") {
                Some(t) => str_eq(t.as_str(), "text") || str_eq(t.as_str(), "image") || str_eq(
                    t.as_str(),
                    "video",
                ) || str_eq(t.as_str(), "audio") || str_eq(t.as_str(), "file") || str_eq(
                    t.as_str(),
                    "thumbnail",
                ),
                None => false,
            },
            None => false,
        }
    } else {
        json_get_str(v, "value").is_some()
    }
}

} // verus!

//! The device key: a 256-bit AES-GCM key for data held by one device.

use vstd::prelude::*;

use crate::crypto::{decrypt_with_symmetric_key, encrypt_with_symmetric_key, AEAD_MAX_LEN};
use crate::json::{jparse, json_text, jv_get_str, parse_json, str_eq};
use crate::keyutils::generate_symmetric_key;
use crate::room_key::sym_env_decrypts_to;
use crate::types::{enc_data_jv, kv2_jv, DeviceKey, EncryptedData};
use crate::utils::{is_b64, is_b64_len, key_hash, key_hash_of};

verus! {

/// A device-key record text: the `deviceKey` tag and a 32-byte key.
pub open spec fn device_key_valid(s: Seq<char>) -> bool {
    jparse(s) matches Some(v) && DeviceKey::shape(v) && jv_get_str(v, "keyType"@) == Some(
        "deviceKey"@,
    ) && (jv_get_str(v, "key"@) matches Some(k) && is_b64_len(k, 32))
}

/// Generates a device-key record.
pub fn generate_device_key() -> (r: String)
    ensures
        exists|k_b64: Seq<char>|
            #![trigger kv2_jv("deviceKey"@, k_b64)]
            r@ == json_text(kv2_jv("deviceKey"@, k_b64)) && is_b64_len(k_b64, 32),
        device_key_valid(r@),
{
    let key = generate_symmetric_key();
    let dk = DeviceKey { key_type: "deviceKey".to_owned(), key };
    let text = dk.to_text();
    proof {
        assert(dk.jv() == kv2_jv("deviceKey"@, dk.key@));
        crate::json::lemma_jparse_inverts_json_text(dk.jv());
        crate::types::lemma_kv2_fields("deviceKey"@, dk.key@);
    }
    text
}

/// Validates a device-key record: the tag and the decoded key length.
pub fn is_valid_device_key(json: &str) -> (r: bool)
    ensures
        r == device_key_valid(json@),
{
    let parsed = match parse_json(json) {
        Some(v) => v,
        None => {
            return false;
        },
    };
    let dk = match DeviceKey::from_json(&parsed) {
        Some(k) => k,
        None => {
            return false;
        },
    };
    str_eq(dk.key_type.as_str(), "deviceKey") && crate::keyutils::is_valid_symmetric_key(
        dk.key.as_str(),
    )
}

/// Encrypts data under the device key.  The envelope it emits decrypts
/// back to the data under the same key record.
pub fn encrypt_data_device_key(json: &str, data: &str) -> (r: Option<String>)
    ensures
        r is Some <==> (device_key_valid(json@) && vstd::utf8::encode_utf8(data@).len()
            <= AEAD_MAX_LEN),
        r matches Some(t) ==> exists|enc_b64: Seq<char>, iv_b64: Seq<char>|
            #![trigger enc_data_jv("deviceKey"@, key_hash_of(json@), enc_b64, iv_b64, Some("AES-GCM"@), None)]
            t@ == json_text(
                enc_data_jv(
                    "deviceKey"@,
                    key_hash_of(json@),
                    enc_b64,
                    iv_b64,
                    Some("AES-GCM"@),
                    None,
                ),
            ) && is_b64_len(iv_b64, 12) && is_b64(enc_b64) && crate::crypto::sealed_len_ok(
                enc_b64,
                data@,
            ),
        r matches Some(t) ==> sym_env_decrypts_to(json@, t@, data@),
        r matches Some(t) ==> enc_data_device_valid(t@),
{
    let parsed = match parse_json(json) {
        Some(v) => v,
        None => {
            return None;
        },
    };
    let dk = match DeviceKey::from_json(&parsed) {
        Some(k) => k,
        None => {
            return None;
        },
    };
    if !str_eq(dk.key_type.as_str(), "deviceKey") {
        return None;
    }
    let enc = match encrypt_with_symmetric_key(data, dk.key.as_str()) {
        Some(e) => e,
        None => {
            return None;
        },
    };
    let kh = key_hash(json);
    let ed = EncryptedData {
        key_type: "deviceKey".to_owned(),
        key_hash: kh,
        encrypted_data: enc.encrypted_data,
        iv: enc.iv,
        algorithm: Some(enc.algorithm),
        cipher_text: None,
    };
    let text = ed.to_text();
    proof {
        assert(ed.jv() == enc_data_jv(
            "deviceKey"@,
            ed.key_hash@,
            ed.encrypted_data@,
            ed.iv@,
            Some("AES-GCM"@),
            None,
        ));
        crate::json::lemma_jparse_inverts_json_text(ed.jv());
        crate::types::lemma_enc_data_fields(
            "deviceKey"@,
            ed.key_hash@,
            ed.encrypted_data@,
            ed.iv@,
            Some("AES-GCM"@),
            None,
        );
    }
    Some(text)
}

/// Decrypts a device envelope with the device key.  Whenever the
/// envelope's fields are the sealing of some text under the key, that
/// text is returned.
pub fn decrypt_data_device_key(json: &str, enc_json: &str) -> (r: Option<String>)
    ensures
        forall|out: Seq<char>|
            (jparse(json@) matches Some(v) && DeviceKey::shape(v)) && #[trigger] sym_env_decrypts_to(
                json@,
                enc_json@,
                out,
            ) && vstd::utf8::encode_utf8(out).len() <= AEAD_MAX_LEN ==> (r matches Some(p) && p@
                == out),
{
    let parsed = match parse_json(json) {
        Some(v) => v,
        None => {
            return None;
        },
    };
    let dk = match DeviceKey::from_json(&parsed) {
        Some(k) => k,
        None => {
            return None;
        },
    };
    let eparsed = match parse_json(enc_json) {
        Some(v) => v,
        None => {
            return None;
        },
    };
    let ed = match EncryptedData::from_json(&eparsed) {
        Some(e) => e,
        None => {
            return None;
        },
    };
    decrypt_with_symmetric_key(ed.encrypted_data.as_str(), ed.iv.as_str(), dk.key.as_str())
}

/// A device encrypted envelope is structurally valid: the `deviceKey`
/// tag, a 32-byte key hash, a 12-byte IV, decodable sealed data, and no
/// KEM ciphertext, since the role is symmetric.
pub open spec fn enc_data_device_valid(s: Seq<char>) -> bool {
    jparse(s) matches Some(v) && EncryptedData::shape(v) && jv_get_str(v, "keyType"@) == Some(
        "deviceKey"@,
    ) && (jv_get_str(v, "keyHash"@) matches Some(h) && is_b64_len(h, 32)) && (jv_get_str(v, "iv"@)
        matches Some(iv) && is_b64_len(iv, 12)) && (jv_get_str(v, "encryptedData"@) matches Some(e)
        && is_b64(e)) && crate::json::jv_opt_str(v, "cipherText"@) == Some(
        None::<Seq<char>>,
    )
}

/// Validates a device encrypted envelope.
pub fn is_valid_encrypted_data_device_key(json: &str) -> (r: bool)
    ensures
        r == enc_data_device_valid(json@),
{
    let parsed = match parse_json(json) {
        Some(v) => v,
        None => {
            return false;
        },
    };
    let ed = match EncryptedData::from_json(&parsed) {
        Some(e) => e,
        None => {
            return false;
        },
    };
    if !str_eq(ed.key_type.as_str(), "deviceKey") {
        return false;
    }
    if crate::utils::decode_b64_len(ed.key_hash.as_str(), 32).is_none() {
        return false;
    }
    if crate::utils::decode_b64_len(ed.iv.as_str(), 12).is_none() {
        return false;
    }
    if crate::utils::decode_b64(ed.encrypted_data.as_str()).is_none() {
        return false;
    }
    match &ed.cipher_text {
        None => true,
        Some(_) => false,
    }
}

} // verus!

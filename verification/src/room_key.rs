//! The room key: a 256-bit AES-GCM key bound to a room session, used to
//! encrypt message payloads.

use vstd::prelude::*;

use crate::crypto::{decrypt_with_symmetric_key, encrypt_with_symmetric_key, sym_decrypts_to, AEAD_MAX_LEN};
use crate::json::{jparse, json_text, jv_get_str, parse_json, str_eq};
use crate::keyutils::generate_symmetric_key;
use crate::provider::now_millis;
use crate::types::{enc_data_jv, key_field_of, kv5_jv, EncryptedData, RoomKey};
use crate::utils::{is_b64, is_b64_len, key_hash, key_hash_of};
use crate::uuid7::{is_uuid_v7_text, is_valid_uuid_v7};

verus! {

/// A room-key record text: the `roomKey` tag, the `AES-GCM` algorithm
/// string, a 32-byte key, and a version-7 session UUID.
pub open spec fn room_key_valid(s: Seq<char>) -> bool {
    jparse(s) matches Some(v) && RoomKey::shape(v) && jv_get_str(v, "keyType"@) == Some("roomKey"@)
        && jv_get_str(v, "algorithm"@) == Some("AES-GCM"@) && (jv_get_str(v, "key"@) matches Some(
        k,
    ) && is_b64_len(k, 32)) && (jv_get_str(v, "sessionUuid"@) matches Some(u) && is_uuid_v7_text(
        u,
    ))
}

/// The envelope text decrypts to `out` under the key record's `key` field.
pub open spec fn sym_env_decrypts_to(key_s: Seq<char>, env_s: Seq<char>, out: Seq<char>) -> bool {
    jparse(env_s) matches Some(ev) && EncryptedData::shape(ev) && sym_decrypts_to(
        jv_get_str(ev, "encryptedData"@).unwrap(),
        jv_get_str(ev, "iv"@).unwrap(),
        key_field_of(key_s),
        out,
    )
}

/// Generates a room-key record for the room session.
pub fn generate_room_key(room_uuid: &str) -> (r: Option<String>)
    ensures
        r is Some <==> is_uuid_v7_text(room_uuid@),
        r matches Some(t) ==> exists|k_b64: Seq<char>, ts: u64|
            #![trigger kv5_jv("roomKey"@, k_b64, "AES-GCM"@, ts, room_uuid@)]
            t@ == json_text(kv5_jv("roomKey"@, k_b64, "AES-GCM"@, ts, room_uuid@)) && is_b64_len(
                k_b64,
                32,
            ),
        r matches Some(t) ==> room_key_valid(t@),
{
    if !is_valid_uuid_v7(room_uuid) {
        return None;
    }
    let key = generate_symmetric_key();
    let ts = now_millis();
    let rk = RoomKey {
        key_type: "roomKey".to_owned(),
        key,
        algorithm: "AES-GCM".to_owned(),
        timestamp: ts,
        session_uuid: room_uuid.to_owned(),
    };
    let text = rk.to_text();
    proof {
        assert(rk.jv() == kv5_jv("roomKey"@, rk.key@, "AES-GCM"@, ts, room_uuid@));
        crate::json::lemma_jparse_inverts_json_text(rk.jv());
        crate::types::lemma_kv5_fields("roomKey"@, rk.key@, "AES-GCM"@, ts, room_uuid@);
    }
    Some(text)
}

/// Validates a room-key record.
pub fn is_valid_room_key(key_json: &str) -> (r: bool)
    ensures
        r == room_key_valid(key_json@),
{
    let parsed = match parse_json(key_json) {
        Some(v) => v,
        None => {
            return false;
        },
    };
    let rk = match RoomKey::from_json(&parsed) {
        Some(k) => k,
        None => {
            return false;
        },
    };
    str_eq(rk.key_type.as_str(), "roomKey") && str_eq(rk.algorithm.as_str(), "AES-GCM")
        && crate::keyutils::is_valid_symmetric_key(rk.key.as_str()) && is_valid_uuid_v7(
        rk.session_uuid.as_str(),
    )
}

/// Encrypts data under the room key.  The envelope it emits decrypts back
/// to the data under the same key record.
pub fn encrypt_data_room_key(key_json: &str, data: &str) -> (r: Option<String>)
    ensures
        r is Some <==> (room_key_valid(key_json@) && vstd::utf8::encode_utf8(data@).len()
            <= AEAD_MAX_LEN),
        r matches Some(t) ==> exists|enc_b64: Seq<char>, iv_b64: Seq<char>|
            #![trigger enc_data_jv("roomKey"@, key_hash_of(key_json@), enc_b64, iv_b64, Some("AES-GCM"@), None)]
            t@ == json_text(
                enc_data_jv(
                    "roomKey"@,
                    key_hash_of(key_json@),
                    enc_b64,
                    iv_b64,
                    Some("AES-GCM"@),
                    None,
                ),
            ) && is_b64_len(iv_b64, 12) && is_b64(enc_b64) && crate::crypto::sealed_len_ok(
                enc_b64,
                data@,
            ),
        r matches Some(t) ==> sym_env_decrypts_to(key_json@, t@, data@),
        r matches Some(t) ==> enc_data_room_valid(t@),
{
    if !is_valid_room_key(key_json) {
        return None;
    }
    let parsed = match parse_json(key_json) {
        Some(v) => v,
        None => {
            return None;
        },
    };
    let rk = match RoomKey::from_json(&parsed) {
        Some(k) => k,
        None => {
            return None;
        },
    };
    let enc = match encrypt_with_symmetric_key(data, rk.key.as_str()) {
        Some(e) => e,
        None => {
            return None;
        },
    };
    let kh = key_hash(key_json);
    let ed = EncryptedData {
        key_type: "roomKey".to_owned(),
        key_hash: kh,
        encrypted_data: enc.encrypted_data,
        iv: enc.iv,
        algorithm: Some(enc.algorithm),
        cipher_text: None,
    };
    let text = ed.to_text();
    proof {
        assert(ed.jv() == enc_data_jv(
            "roomKey"@,
            ed.key_hash@,
            ed.encrypted_data@,
            ed.iv@,
            Some("AES-GCM"@),
            None,
        ));
        crate::json::lemma_jparse_inverts_json_text(ed.jv());
        crate::types::lemma_enc_data_fields(
            "roomKey"@,
            ed.key_hash@,
            ed.encrypted_data@,
            ed.iv@,
            Some("AES-GCM"@),
            None,
        );
    }
    Some(text)
}

/// Decrypts a room envelope with the room key.  Whenever the envelope's
/// fields are the sealing of some text under the key, that text is
/// returned.
pub fn decrypt_data_room_key(key_json: &str, data_json: &str) -> (r: Option<String>)
    ensures
        r is Some ==> room_key_valid(key_json@),
        forall|out: Seq<char>|
            room_key_valid(key_json@) && #[trigger] sym_env_decrypts_to(key_json@, data_json@, out)
                && vstd::utf8::encode_utf8(out).len() <= AEAD_MAX_LEN ==> (r matches Some(p) && p@
                == out),
{
    if !is_valid_room_key(key_json) {
        return None;
    }
    let parsed = match parse_json(key_json) {
        Some(v) => v,
        None => {
            return None;
        },
    };
    let rk = match RoomKey::from_json(&parsed) {
        Some(k) => k,
        None => {
            return None;
        },
    };
    let eparsed = match parse_json(data_json) {
        Some(v) => v,
        None => {
            return None;
        },
    };
    let ed = match EncryptedData::from_json(&eparsed) {
        Some(e) => e,
        None => {
            return None;
        },
    };
    decrypt_with_symmetric_key(ed.encrypted_data.as_str(), ed.iv.as_str(), rk.key.as_str())
}

/// A room encrypted envelope is structurally valid: the `roomKey` tag, a
/// 32-byte key hash, a 12-byte IV, decodable sealed data, and no KEM
/// ciphertext, since the role is symmetric.
pub open spec fn enc_data_room_valid(s: Seq<char>) -> bool {
    jparse(s) matches Some(v) && EncryptedData::shape(v) && jv_get_str(v, "keyType"@) == Some(
        "roomKey"@,
    ) && (jv_get_str(v, "keyHash"@) matches Some(h) && is_b64_len(h, 32)) && (jv_get_str(v, "iv"@)
        matches Some(iv) && is_b64_len(iv, 12)) && (jv_get_str(v, "encryptedData"@) matches Some(e)
        && is_b64(e)) && crate::json::jv_opt_str(v, "cipherText"@) == Some(
        None::<Seq<char>>,
    )
}

/// Validates a room encrypted envelope.
pub fn is_valid_encrypted_data_room_key(data: &str) -> (r: bool)
    ensures
        r == enc_data_room_valid(data@),
{
    let parsed = match parse_json(data) {
        Some(v) => v,
        None => {
            return false;
        },
    };
    let ed = match EncryptedData::from_json(&parsed) {
        Some(e) => e,
        None => {
            return false;
        },
    };
    if !str_eq(ed.key_type.as_str(), "roomKey") {
        return false;
    }
    if crate::utils::decode_b64_len(ed.key_hash.as_str(), 32).is_none() {
        return false;
    }
    if crate::utils::decode_b64_len(ed.iv.as_str(), 12).is_none() {
        return false;
    }
    if crate::utils::decode_b64(ed.encrypted_data.as_str()).is_none() {
        return false;
    }
    match &ed.cipher_text {
        None => true,
        Some(_) => false,
    }
}

} // verus!

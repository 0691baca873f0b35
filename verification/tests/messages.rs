//! Message layer tests: encryption with signing, the freshness window, the
//! room binding, fan-out, shape validation and the record grammar.

use takos_encrypt_ink::{
    create_audio_content, create_file_content, create_image_content, create_text_content,
    create_video_content, decrypt_data_account_key, decrypt_message, encrypt_message,
    encrypt_room_key_with_account_keys, generate_account_key, generate_identity_key,
    generate_master_key, generate_room_key, is_valid_master_key_public, is_valid_message, key_hash,
};

const UUID7: &str = "018f1c4b-7b8a-7c9d-8e0f-1a2b3c4d5e6f";
const META: &str = "{\"channel\":\"c\",\"timestamp\":1700000000000,\"isLarge\":false}";

fn wrapped_message() -> (String, String, String, String) {
    let (mpub, mpriv) = generate_master_key();
    let (ipub, ipriv, _env) = generate_identity_key(UUID7, &mpub, &mpriv).unwrap();
    let rk = generate_room_key(UUID7).unwrap();
    let value = create_text_content("hi there", None, None, None, None).unwrap();
    let wrapped = encrypt_message(&value, META, &rk, &ipriv, &key_hash(&ipub), "r1").unwrap();
    let w: serde_json::Value = serde_json::from_str(&wrapped).unwrap();
    let msg = w["message"].as_str().unwrap().to_string();
    let sig = w["sign"].as_str().unwrap().to_string();
    (msg, sig, rk, ipub)
}

#[test]
fn message_round_trip_returns_content() {
    let (mpub, mpriv) = generate_master_key();
    let (ipub, ipriv, _env) = generate_identity_key(UUID7, &mpub, &mpriv).unwrap();
    let rk = generate_room_key(UUID7).unwrap();
    let value = create_text_content("hi there", None, None, None, None).unwrap();
    let wrapped = encrypt_message(&value, META, &rk, &ipriv, &key_hash(&ipub), "r1").unwrap();
    let w: serde_json::Value = serde_json::from_str(&wrapped).unwrap();
    let msg = w["message"].as_str().unwrap();
    let sig = w["sign"].as_str().unwrap();
    let out = decrypt_message(msg, sig, 1700000000000, &rk, &ipub, "r1").unwrap();
    let ov: serde_json::Value = serde_json::from_str(&out).unwrap();
    assert_eq!(ov["encrypted"], serde_json::Value::Bool(false));
    assert_eq!(ov["channel"].as_str().unwrap(), "c");
    assert_eq!(ov["roomid"].as_str().unwrap(), "r1");
    assert_eq!(ov["value"]["type"].as_str().unwrap(), "text");
    assert_eq!(ov["value"]["content"].as_str().unwrap(), value);
}

#[test]
fn message_rejects_foreign_room() {
    let (msg, sig, rk, ipub) = wrapped_message();
    assert!(decrypt_message(&msg, &sig, 1700000000000, &rk, &ipub, "r2").is_none());
}

#[test]
fn message_rejects_tampered_signature() {
    let (msg, sig, rk, ipub) = wrapped_message();
    let tampered = msg.replace("r1", "r9");
    assert!(decrypt_message(&tampered, &sig, 1700000000000, &rk, &ipub, "r9").is_none());
}

#[test]
fn freshness_window_is_sixty_seconds() {
    let (msg, sig, rk, ipub) = wrapped_message();
    let ts: u64 = 1700000000000;
    assert!(decrypt_message(&msg, &sig, ts + 60000, &rk, &ipub, "r1").is_some());
    assert!(decrypt_message(&msg, &sig, ts + 60001, &rk, &ipub, "r1").is_none());
    assert!(decrypt_message(&msg, &sig, ts - 60000, &rk, &ipub, "r1").is_some());
    assert!(decrypt_message(&msg, &sig, ts - 60001, &rk, &ipub, "r1").is_none());
}

#[test]
fn room_key_fan_out_preserves_order() {
    let (mpub, mpriv) = generate_master_key();
    let (apub1, apriv1, _e1) = generate_account_key(&mpub, &mpriv).unwrap();
    let (apub2, apriv2, _e2) = generate_account_key(&mpub, &mpriv).unwrap();
    let rk = generate_room_key(UUID7).unwrap();

    let mut u1 = serde_json::Map::new();
    u1.insert("userId".to_string(), serde_json::Value::String("u1".to_string()));
    u1.insert("accountKey".to_string(), serde_json::Value::String(apub1.clone()));
    let mut u2 = serde_json::Map::new();
    u2.insert("userId".to_string(), serde_json::Value::String("u2".to_string()));
    u2.insert("accountKey".to_string(), serde_json::Value::String(apub2.clone()));
    let users = serde_json::Value::Array(vec![
        serde_json::Value::Object(u1),
        serde_json::Value::Object(u2),
    ]);
    let users_json = serde_json::to_string(&users).unwrap();

    let out = encrypt_room_key_with_account_keys(&users_json, &rk).unwrap();
    let ov: serde_json::Value = serde_json::from_str(&out).unwrap();
    let arr = ov.as_array().unwrap();
    assert_eq!(arr.len(), 2);
    assert_eq!(arr[0]["userId"].as_str().unwrap(), "u1");
    assert_eq!(arr[1]["userId"].as_str().unwrap(), "u2");
    let wrapped1 = arr[0]["encryptedData"].as_str().unwrap();
    let wrapped2 = arr[1]["encryptedData"].as_str().unwrap();
    assert_eq!(decrypt_data_account_key(&apriv1, wrapped1).unwrap(), rk);
    assert_eq!(decrypt_data_account_key(&apriv2, wrapped2).unwrap(), rk);
}

#[test]
fn room_key_fan_out_drops_invalid_keys() {
    let (mpub, mpriv) = generate_master_key();
    let (apub, apriv, _env) = generate_account_key(&mpub, &mpriv).unwrap();
    let rk = generate_room_key(UUID7).unwrap();

    let mut bad = serde_json::Map::new();
    bad.insert("userId".to_string(), serde_json::Value::String("bad".to_string()));
    bad.insert("accountKey".to_string(), serde_json::Value::String("garbage".to_string()));
    let mut good = serde_json::Map::new();
    good.insert("userId".to_string(), serde_json::Value::String("good".to_string()));
    good.insert("accountKey".to_string(), serde_json::Value::String(apub.clone()));
    let users = serde_json::Value::Array(vec![
        serde_json::Value::Object(bad),
        serde_json::Value::Object(good),
    ]);
    let users_json = serde_json::to_string(&users).unwrap();

    let out = encrypt_room_key_with_account_keys(&users_json, &rk).unwrap();
    let ov: serde_json::Value = serde_json::from_str(&out).unwrap();
    let arr = ov.as_array().unwrap();
    assert_eq!(arr.len(), 1);
    assert_eq!(arr[0]["userId"].as_str().unwrap(), "good");
    let wrapped = arr[0]["encryptedData"].as_str().unwrap();
    assert_eq!(decrypt_data_account_key(&apriv, wrapped).unwrap(), rk);
}

#[test]
fn room_key_fan_out_requires_both_fields() {
    let rk = generate_room_key(UUID7).unwrap();
    let mut incomplete = serde_json::Map::new();
    incomplete.insert("userId".to_string(), serde_json::Value::String("u".to_string()));
    let users = serde_json::Value::Array(vec![serde_json::Value::Object(incomplete)]);
    let users_json = serde_json::to_string(&users).unwrap();
    assert!(encrypt_room_key_with_account_keys(&users_json, &rk).is_none());
}

#[test]
fn message_shape_validation() {
    let clear = "{\"encrypted\":false,\"value\":{\"type\":\"text\",\"content\":\"x\"},\"channel\":\"c\",\"timestamp\":1,\"isLarge\":false,\"roomid\":\"r\"}";
    assert!(is_valid_message(clear));
    let thumb = "{\"encrypted\":false,\"value\":{\"type\":\"thumbnail\",\"content\":\"x\"},\"channel\":\"c\",\"timestamp\":1,\"isLarge\":false,\"roomid\":\"r\"}";
    assert!(is_valid_message(thumb));
    let bogus = "{\"encrypted\":false,\"value\":{\"type\":\"bogus\",\"content\":\"x\"},\"channel\":\"c\",\"timestamp\":1,\"isLarge\":false,\"roomid\":\"r\"}";
    assert!(!is_valid_message(bogus));
    let enc = "{\"encrypted\":true,\"value\":\"opaque\",\"channel\":\"c\",\"timestamp\":1,\"isLarge\":false,\"roomid\":\"r\"}";
    assert!(is_valid_message(enc));
    let missing = "{\"encrypted\":true,\"value\":\"opaque\",\"channel\":\"c\",\"timestamp\":1,\"roomid\":\"r\"}";
    assert!(!is_valid_message(missing));
    assert!(!is_valid_message("not json"));
    let bad_number =
        "{\"encrypted\":true,\"value\":\"v\",\"channel\":\"c\",\"timestamp\":01,\"isLarge\":false,\"roomid\":\"r\"}";
    assert!(!is_valid_message(bad_number));
}

#[test]
fn content_builders_emit_records() {
    let t = create_text_content("x", Some("md"), Some(true), Some("of"), Some(5)).unwrap();
    let tv: serde_json::Value = serde_json::from_str(&t).unwrap();
    assert_eq!(tv["text"].as_str().unwrap(), "x");
    assert_eq!(tv["format"].as_str().unwrap(), "md");
    assert_eq!(tv["isThumbnail"], serde_json::Value::Bool(true));
    assert_eq!(tv["thumbnailOf"].as_str().unwrap(), "of");
    assert_eq!(tv["originalSize"].as_u64().unwrap(), 5);

    let i = create_image_content("uri://x", "f.png", "image/png", None, None, None).unwrap();
    let iv: serde_json::Value = serde_json::from_str(&i).unwrap();
    assert_eq!(iv["uri"].as_str().unwrap(), "uri://x");
    assert_eq!(iv["metadata"]["filename"].as_str().unwrap(), "f.png");
    assert_eq!(iv["metadata"]["mimeType"].as_str().unwrap(), "image/png");

    let v = create_video_content("u", "f", "m", None, None, None).unwrap();
    let a = create_audio_content("u", "f", "m", None, None, None).unwrap();
    let f = create_file_content("u", "f", "m", None, None, None).unwrap();
    assert_eq!(v, i.replace("uri://x", "u").replace("f.png", "f").replace("image/png", "m"));
    assert_eq!(v, a);
    assert_eq!(a, f);
}

#[test]
fn record_grammar_matches_reference_parser() {
    let (mpub, _mpriv) = generate_master_key();
    // every record the library writes is valid JSON for the reference parser
    let v: serde_json::Value = serde_json::from_str(&mpub).unwrap();
    // and the library accepts the reference parser's re-serialization, with
    // members in any order
    let reserialized = serde_json::to_string(&v).unwrap();
    assert!(is_valid_master_key_public(&reserialized));
}

#[test]
fn record_grammar_handles_escapes() {
    let wild = "line\nquote\"backslash\\tab\tend\u{8}\u{c}\r unicode \u{e9}\u{1f600}";
    let t = create_text_content(wild, None, None, None, None).unwrap();
    let tv: serde_json::Value = serde_json::from_str(&t).unwrap();
    assert_eq!(tv["text"].as_str().unwrap(), wild);
}

#[test]
fn cleartext_message_passes_through() {
    let (mpub, mpriv) = generate_master_key();
    let (ipub, ipriv, _env) = generate_identity_key(UUID7, &mpub, &mpriv).unwrap();
    let rk = generate_room_key(UUID7).unwrap();
    let msg = "{\"encrypted\":false,\"value\":{\"type\":\"text\",\"content\":\"plain\"},\"channel\":\"c\",\"timestamp\":1700000000000,\"isLarge\":false,\"roomid\":\"r1\"}";
    let sig = takos_encrypt_ink::sign_identity_key(&ipriv, msg, &key_hash(&ipub)).unwrap();
    let out = decrypt_message(msg, &sig, 1700000000000, &rk, &ipub, "r1").unwrap();
    let ov: serde_json::Value = serde_json::from_str(&out).unwrap();
    assert_eq!(ov["encrypted"], serde_json::Value::Bool(false));
    assert_eq!(ov["value"]["type"].as_str().unwrap(), "text");
    assert_eq!(ov["value"]["content"].as_str().unwrap(), "plain");
    assert_eq!(ov["channel"].as_str().unwrap(), "c");
}

#[test]
fn sign_envelope_shapes_are_checked() {
    let (mpub, mpriv) = generate_master_key();
    let (ipub, ipriv, env) = generate_identity_key(UUID7, &mpub, &mpriv).unwrap();
    assert!(takos_encrypt_ink::is_valid_sign_master_key(&env));
    assert!(!takos_encrypt_ink::is_valid_sign_identity_key(&env));
    let sig = takos_encrypt_ink::sign_identity_key(&ipriv, "d", &key_hash(&ipub)).unwrap();
    assert!(takos_encrypt_ink::is_valid_sign_identity_key(&sig));
    assert!(!takos_encrypt_ink::is_valid_sign_master_key(&sig));
}

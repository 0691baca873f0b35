//! Envelope construction, verification and round-trip tests for every key
//! role.

use takos_encrypt_ink::{
    create_signature_object_mlds65, decrypt, decrypt_data_account_key, decrypt_data_device_key,
    decrypt_data_migrate_key, decrypt_data_room_key, decrypt_data_share_key,
    decrypt_with_symmetric_key, encrypt, encrypt_data_account_key, encrypt_data_device_key,
    encrypt_data_migrate_key, encrypt_data_room_key, encrypt_data_share_key,
    encrypt_with_symmetric_key, generate_account_key, generate_device_key,
    generate_dsa65_key_pair, generate_identity_key, generate_kem_key_pair, generate_master_key,
    generate_migrate_key, generate_migrate_sign_key, generate_room_key, generate_server_key,
    generate_share_key, generate_share_sign_key, generate_symmetric_key,
    is_valid_account_key_private, is_valid_account_key_public, is_valid_device_key,
    is_valid_encrypted_data_account_key, is_valid_encrypted_data_device_key,
    is_valid_encrypted_data_migrate_key, is_valid_encrypted_data_room_key,
    is_valid_encrypted_data_share_key, is_valid_identity_key_private, is_valid_identity_key_public,
    is_valid_migrate_key_private, is_valid_migrate_key_public, is_valid_room_key,
    is_valid_server_key_private, is_valid_server_key_public, is_valid_share_key_private,
    is_valid_share_key_public, is_valid_share_sign_key_private, is_valid_share_sign_key_public,
    is_valid_sign_master_key, is_valid_sign_migrate_sign_key, is_valid_sign_share_sign_key,
    key_hash, sign_data_migrate_sign_key, sign_data_server_key, sign_data_share_sign_key,
    sign_identity_key, sign_master_key, verify_data_migrate_sign_key, verify_data_server_key,
    verify_data_share_sign_key, verify_identity_key, verify_master_key, verify_signature_object,
};

const UUID7: &str = "018f1c4b-7b8a-7c9d-8e0f-1a2b3c4d5e6f";

#[test]
fn account_key_envelope_verifies_under_master() {
    let (mpub, mpriv) = generate_master_key();
    let (apub, apriv, env) = generate_account_key(&mpub, &mpriv).unwrap();
    assert!(is_valid_account_key_public(&apub));
    assert!(is_valid_account_key_private(&apriv));
    assert!(is_valid_sign_master_key(&env));
    assert!(verify_master_key(&mpub, &env, &apub));
    assert!(!verify_master_key(&mpub, &env, &apriv));
}

#[test]
fn room_key_round_trip_hello() {
    let rk = generate_room_key(UUID7).unwrap();
    assert!(is_valid_room_key(&rk));
    let env = encrypt_data_room_key(&rk, "hello").unwrap();
    assert!(is_valid_encrypted_data_room_key(&env));
    let out = decrypt_data_room_key(&rk, &env).unwrap();
    assert_eq!(out.as_bytes(), "hello".as_bytes());
}

#[test]
fn room_key_generation_requires_uuid_v7() {
    assert!(generate_room_key("not-a-uuid").is_none());
    assert!(generate_room_key(UUID7).is_some());
}

#[test]
fn account_key_round_trip() {
    let (mpub, mpriv) = generate_master_key();
    let (apub, apriv, _env) = generate_account_key(&mpub, &mpriv).unwrap();
    let env = encrypt_data_account_key(&apub, "secret payload").unwrap();
    assert!(is_valid_encrypted_data_account_key(&env));
    let out = decrypt_data_account_key(&apriv, &env).unwrap();
    assert_eq!(out, "secret payload");
}

#[test]
fn account_decryption_fails_under_the_wrong_key() {
    let (mpub, mpriv) = generate_master_key();
    let (apub, _apriv, _e1) = generate_account_key(&mpub, &mpriv).unwrap();
    let (_bpub, bpriv, _e2) = generate_account_key(&mpub, &mpriv).unwrap();
    let env = encrypt_data_account_key(&apub, "secret").unwrap();
    assert!(decrypt_data_account_key(&bpriv, &env).is_none());
}

#[test]
fn device_key_round_trip() {
    let dk = generate_device_key();
    assert!(is_valid_device_key(&dk));
    let env = encrypt_data_device_key(&dk, "on this device").unwrap();
    assert!(is_valid_encrypted_data_device_key(&env));
    let out = decrypt_data_device_key(&dk, &env).unwrap();
    assert_eq!(out, "on this device");
}

#[test]
fn share_key_round_trip_under_master() {
    let (_mpub, mpriv) = generate_master_key();
    let (spub, spriv, env) = generate_share_key(&mpriv, UUID7).unwrap();
    assert!(is_valid_share_key_public(&spub));
    assert!(is_valid_share_key_private(&spriv));
    assert!(is_valid_sign_master_key(&env));
    let enc = encrypt_data_share_key(&spub, "shared data").unwrap();
    assert!(is_valid_encrypted_data_share_key(&enc));
    let out = decrypt_data_share_key(&spriv, &enc).unwrap();
    assert_eq!(out, "shared data");
}

#[test]
fn share_sign_key_signs_and_verifies() {
    let (_mpub, mpriv) = generate_master_key();
    let (spub, spriv, _env) = generate_share_sign_key(&mpriv, UUID7).unwrap();
    assert!(is_valid_share_sign_key_public(&spub));
    assert!(is_valid_share_sign_key_private(&spriv));
    let h = key_hash(&spub);
    let sig = sign_data_share_sign_key(&spriv, "to share", &h).unwrap();
    assert!(is_valid_sign_share_sign_key(&sig));
    assert!(verify_data_share_sign_key(&spub, &sig, "to share"));
    assert!(!verify_data_share_sign_key(&spub, &sig, "tampered"));
}

#[test]
fn migrate_key_round_trip() {
    let (mpub, mpriv) = generate_migrate_key();
    assert!(is_valid_migrate_key_public(&mpub));
    assert!(is_valid_migrate_key_private(&mpriv));
    let env = encrypt_data_migrate_key(&mpub, "moving out").unwrap();
    assert!(is_valid_encrypted_data_migrate_key(&env));
    let out = decrypt_data_migrate_key(&mpriv, &env).unwrap();
    assert_eq!(out, "moving out");
}

#[test]
fn migrate_sign_key_signs_and_verifies() {
    let (spub, spriv) = generate_migrate_sign_key();
    let h = key_hash(&spub);
    let sig = sign_data_migrate_sign_key(&spriv, "migration record", &h).unwrap();
    assert!(is_valid_sign_migrate_sign_key(&sig));
    assert!(verify_data_migrate_sign_key(&spub, &sig, "migration record"));
    assert!(!verify_data_migrate_sign_key(&spub, &sig, "other record"));
}

#[test]
fn server_key_signs_and_verifies() {
    let (spub, spriv) = generate_server_key();
    assert!(is_valid_server_key_public(&spub));
    assert!(is_valid_server_key_private(&spriv));
    let h = key_hash(&spub);
    let env = sign_data_server_key(&spriv, "payload", &h).unwrap();
    assert!(verify_data_server_key(&spub, &env, "payload"));
    assert!(!verify_data_server_key(&spub, &env, "other"));
}

#[test]
fn identity_key_generation_and_signing() {
    let (mpub, mpriv) = generate_master_key();
    let (ipub, ipriv, env) = generate_identity_key(UUID7, &mpub, &mpriv).unwrap();
    assert!(is_valid_identity_key_public(&ipub));
    assert!(is_valid_identity_key_private(&ipriv));
    assert!(is_valid_sign_master_key(&env));
    let h = key_hash(&ipub);
    let sig = sign_identity_key(&ipriv, "message body", &h).unwrap();
    assert!(verify_identity_key(&ipub, &sig, "message body"));
    assert!(!verify_identity_key(&ipub, &sig, "forged body"));
    assert!(generate_identity_key("bad-uuid", &mpub, &mpriv).is_none());
}

#[test]
fn master_sign_rejects_public_record() {
    let (mpub, mpriv) = generate_master_key();
    assert!(sign_master_key(&mpub, "data", "hash").is_none());
    assert!(sign_master_key(&mpriv, "data", "hash").is_some());
}

#[test]
fn envelope_tags_bind_roles() {
    let rk = generate_room_key(UUID7).unwrap();
    let room_env = encrypt_data_room_key(&rk, "hello").unwrap();
    assert!(is_valid_encrypted_data_room_key(&room_env));
    assert!(!is_valid_encrypted_data_account_key(&room_env));
    assert!(!is_valid_encrypted_data_share_key(&room_env));
    assert!(!is_valid_encrypted_data_migrate_key(&room_env));
    assert!(!is_valid_encrypted_data_device_key(&room_env));

    let (mpub, mpriv) = generate_master_key();
    let (apub, _apriv, _env) = generate_account_key(&mpub, &mpriv).unwrap();
    let account_env = encrypt_data_account_key(&apub, "hello").unwrap();
    assert!(is_valid_encrypted_data_account_key(&account_env));
    assert!(!is_valid_encrypted_data_room_key(&account_env));
    assert!(!is_valid_encrypted_data_share_key(&account_env));
    assert!(!is_valid_encrypted_data_migrate_key(&account_env));
    assert!(!is_valid_encrypted_data_device_key(&account_env));
}

#[test]
fn signature_object_checks_domain_tag() {
    let (pk65, sk65) = generate_dsa65_key_pair();
    let obj = create_signature_object_mlds65(&sk65, "data".as_bytes(), "h", "serverKey").unwrap();
    assert!(verify_signature_object(&pk65, &obj, "data".as_bytes(), "serverKey"));
    assert!(!verify_signature_object(&pk65, &obj, "data".as_bytes(), "identityKey"));
    assert!(!verify_signature_object(&pk65, &obj, "xx".as_bytes(), "serverKey"));
}

#[test]
fn symmetric_pipeline_round_trip() {
    let key = generate_symmetric_key();
    let enc = encrypt_with_symmetric_key("plain text", &key).unwrap();
    assert_eq!(enc.algorithm, "AES-GCM");
    let out = decrypt_with_symmetric_key(&enc.encrypted_data, &enc.iv, &key).unwrap();
    assert_eq!(out, "plain text");
    assert!(encrypt_with_symmetric_key("plain text", "tiny").is_none());
}

#[test]
fn hybrid_pipeline_round_trip() {
    let (pk, sk) = generate_kem_key_pair();
    let enc = encrypt("hybrid payload", &pk).unwrap();
    assert_eq!(enc.algorithm, "AES-GCM");
    let out = decrypt(&enc.encrypted_data, &enc.cipher_text, &enc.iv, &sk).unwrap();
    assert_eq!(out, "hybrid payload");
    assert!(encrypt("payload", "short key").is_none());
}

#[test]
fn device_encryption_requires_the_device_tag() {
    let rk = generate_room_key(UUID7).unwrap();
    assert!(encrypt_data_device_key(&rk, "data").is_none());
    let dk = generate_device_key();
    assert!(encrypt_data_device_key(&dk, "data").is_some());
}

#[test]
fn encryption_pair_validation_rejects_signing_records() {
    let (mpub, mpriv) = generate_master_key();
    assert!(!takos_encrypt_ink::is_valid_key_pair_encrypt(&mpub, &mpriv));
}

#[test]
fn room_envelope_validator_enforces_the_structure() {
    let rk = generate_room_key(UUID7).unwrap();
    let env = encrypt_data_room_key(&rk, "hello").unwrap();
    assert!(is_valid_encrypted_data_room_key(&env));

    let mut with_ct: serde_json::Value = serde_json::from_str(&env).unwrap();
    with_ct["cipherText"] = serde_json::Value::String("QUJD".to_string());
    assert!(!is_valid_encrypted_data_room_key(&serde_json::to_string(&with_ct).unwrap()));

    let mut bad_iv: serde_json::Value = serde_json::from_str(&env).unwrap();
    bad_iv["iv"] = serde_json::Value::String("QUJD".to_string());
    assert!(!is_valid_encrypted_data_room_key(&serde_json::to_string(&bad_iv).unwrap()));

    let mut bad_hash: serde_json::Value = serde_json::from_str(&env).unwrap();
    bad_hash["keyHash"] = serde_json::Value::String("QUJD".to_string());
    assert!(!is_valid_encrypted_data_room_key(&serde_json::to_string(&bad_hash).unwrap()));
}

#[test]
fn kem_envelope_validators_require_a_ciphertext() {
    let (mpub, mpriv) = generate_master_key();
    let (apub, _apriv, _env) = generate_account_key(&mpub, &mpriv).unwrap();
    let env = encrypt_data_account_key(&apub, "x").unwrap();
    let mut no_ct: serde_json::Value = serde_json::from_str(&env).unwrap();
    no_ct["keyType"] = serde_json::Value::String("shareKey".to_string());
    assert!(is_valid_encrypted_data_share_key(&serde_json::to_string(&no_ct).unwrap()));
    no_ct.as_object_mut().unwrap().remove("cipherText");
    assert!(!is_valid_encrypted_data_share_key(&serde_json::to_string(&no_ct).unwrap()));
}

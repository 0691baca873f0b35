//! Key generation, pair validation, hashing and identifier tests.

use base64::Engine;
use takos_encrypt_ink::{
    generate_account_key, generate_dsa65_key_pair, generate_dsa87_key_pair, generate_kem_key_pair,
    generate_master_key, generate_random_string, generate_room_key, generate_symmetric_key,
    is_valid_dsa65_key, is_valid_dsa87_key, is_valid_kem_key, is_valid_key_pair_encrypt,
    is_valid_key_pair_sign, is_valid_master_key_private, is_valid_master_key_public,
    is_valid_room_key, is_valid_symmetric_key, is_valid_uuid_v7, key_hash,
};

const UUID7: &str = "018f1c4b-7b8a-7c9d-8e0f-1a2b3c4d5e6f";

#[test]
fn master_key_generation_validates() {
    let (pubk, privk) = generate_master_key();
    assert!(is_valid_master_key_public(&pubk));
    assert!(is_valid_master_key_private(&privk));
    assert!(!is_valid_master_key_public(&privk));
    assert!(!is_valid_master_key_private(&pubk));
}

#[test]
fn repeated_master_generations_are_independent() {
    let a = generate_master_key();
    let b = generate_master_key();
    assert!(is_valid_master_key_public(&a.0));
    assert!(is_valid_master_key_private(&a.1));
    assert!(is_valid_master_key_public(&b.0));
    assert!(is_valid_master_key_private(&b.1));
    assert_ne!(a.0, b.0);
}

#[test]
fn random_string_is_alphanumeric() {
    let s = generate_random_string(16);
    assert_eq!(s.chars().count(), 16);
    assert!(s.chars().all(|c| c.is_ascii_alphanumeric()));
    assert_eq!(generate_random_string(0).len(), 0);
}

#[test]
fn key_hash_is_sha256_in_base64() {
    let h = key_hash("test");
    assert_eq!(h, "n4bQgYhMfWWaL+qgxVrQFaO/TxsrC4Is0V1sFbDwCgg=");
    assert_eq!(h.len(), 44);
    assert_eq!(key_hash("test"), h);
    let decoded = base64::engine::general_purpose::STANDARD.decode(&h).unwrap();
    assert_eq!(decoded.len(), 32);
    assert_ne!(key_hash("test2"), h);
}

#[test]
fn signing_pair_validation_uses_a_probe_signature() {
    let (pubk, privk) = generate_master_key();
    assert!(is_valid_key_pair_sign(&pubk, &privk));
    let (other_pub, _other_priv) = generate_master_key();
    assert!(!is_valid_key_pair_sign(&other_pub, &privk));
    assert!(!is_valid_key_pair_sign("not json", &privk));
}

#[test]
fn encryption_pair_validation_compares_shared_secrets() {
    let (mpub, mpriv) = generate_master_key();
    let (apub, apriv, _env) = generate_account_key(&mpub, &mpriv).unwrap();
    assert!(is_valid_key_pair_encrypt(&apub, &apriv));
    let (bpub, _bpriv, _benv) = generate_account_key(&mpub, &mpriv).unwrap();
    assert!(!is_valid_key_pair_encrypt(&bpub, &apriv));
}

#[test]
fn raw_key_validators_check_decoded_lengths() {
    let (pk87, sk87) = generate_dsa87_key_pair();
    assert!(is_valid_dsa87_key(&pk87, true));
    assert!(is_valid_dsa87_key(&sk87, false));
    assert!(!is_valid_dsa87_key(&pk87, false));
    let (pk65, sk65) = generate_dsa65_key_pair();
    assert!(is_valid_dsa65_key(&pk65, true));
    assert!(is_valid_dsa65_key(&sk65, false));
    assert!(!is_valid_dsa65_key(&pk65, false));
    let (kpk, ksk) = generate_kem_key_pair();
    assert!(is_valid_kem_key(&kpk, true));
    assert!(is_valid_kem_key(&ksk, false));
    assert!(!is_valid_kem_key(&ksk, true));
    let sym = generate_symmetric_key();
    assert!(is_valid_symmetric_key(&sym));
    assert!(!is_valid_symmetric_key("AAAA"));
    assert!(!is_valid_symmetric_key("not base64!"));
}

#[test]
fn master_validator_rejects_mutations() {
    let (pubk, _privk) = generate_master_key();
    let engine = &base64::engine::general_purpose::STANDARD;

    let mut tag: serde_json::Value = serde_json::from_str(&pubk).unwrap();
    tag["keyType"] = serde_json::Value::String("accountKeyPublic".to_string());
    assert!(!is_valid_master_key_public(&serde_json::to_string(&tag).unwrap()));

    let v: serde_json::Value = serde_json::from_str(&pubk).unwrap();
    let key_b64 = v["key"].as_str().unwrap();
    let bytes = engine.decode(key_b64).unwrap();

    let mut truncated: serde_json::Value = serde_json::from_str(&pubk).unwrap();
    truncated["key"] = serde_json::Value::String(engine.encode(&bytes[..bytes.len() - 1]));
    assert!(!is_valid_master_key_public(&serde_json::to_string(&truncated).unwrap()));

    let mut extended_bytes = bytes.clone();
    extended_bytes.push(0);
    let mut extended: serde_json::Value = serde_json::from_str(&pubk).unwrap();
    extended["key"] = serde_json::Value::String(engine.encode(&extended_bytes));
    assert!(!is_valid_master_key_public(&serde_json::to_string(&extended).unwrap()));
}

#[test]
fn room_key_validator_rejects_mutations() {
    let rk = generate_room_key(UUID7).unwrap();
    assert!(is_valid_room_key(&rk));

    let mut tag: serde_json::Value = serde_json::from_str(&rk).unwrap();
    tag["keyType"] = serde_json::Value::String("deviceKey".to_string());
    assert!(!is_valid_room_key(&serde_json::to_string(&tag).unwrap()));

    let mut alg: serde_json::Value = serde_json::from_str(&rk).unwrap();
    alg["algorithm"] = serde_json::Value::String("ML-KEM-768".to_string());
    assert!(!is_valid_room_key(&serde_json::to_string(&alg).unwrap()));

    let mut uuid: serde_json::Value = serde_json::from_str(&rk).unwrap();
    uuid["sessionUuid"] = serde_json::Value::String("not-a-uuid".to_string());
    assert!(!is_valid_room_key(&serde_json::to_string(&uuid).unwrap()));
}

#[test]
fn uuid_v7_text_validation() {
    assert!(is_valid_uuid_v7(UUID7));
    assert!(!is_valid_uuid_v7("018f1c4b-7b8a-4c9d-8e0f-1a2b3c4d5e6f"));
    assert!(!is_valid_uuid_v7("018F1C4B-7B8A-7C9D-8E0F-1A2B3C4D5E6F"));
    assert!(!is_valid_uuid_v7("018f1c4b-7b8a-7c9d-7e0f-1a2b3c4d5e6f"));
    assert!(!is_valid_uuid_v7("018f1c4b-7b8a-7c9d-8e0f-1a2b3c4d5e6"));
    assert!(!is_valid_uuid_v7(""));
}

#[test]
fn identity_validator_requires_key_length() {
    let (mpub, mpriv) = generate_master_key();
    let (ipub, _ipriv, _env) =
        takos_encrypt_ink::generate_identity_key(UUID7, &mpub, &mpriv).unwrap();
    assert!(takos_encrypt_ink::is_valid_identity_key_public(&ipub));
    let mut v: serde_json::Value = serde_json::from_str(&ipub).unwrap();
    v["key"] = serde_json::Value::String("AAAA".to_string());
    assert!(!takos_encrypt_ink::is_valid_identity_key_public(&serde_json::to_string(&v).unwrap()));
}

#[test]
fn room_key_validator_requires_key_length() {
    let rk = generate_room_key(UUID7).unwrap();
    let mut v: serde_json::Value = serde_json::from_str(&rk).unwrap();
    v["key"] = serde_json::Value::String("AAAA".to_string());
    assert!(!is_valid_room_key(&serde_json::to_string(&v).unwrap()));
}

#[test]
fn device_key_validator_requires_the_tag() {
    let dk = takos_encrypt_ink::generate_device_key();
    assert!(takos_encrypt_ink::is_valid_device_key(&dk));
    let mut v: serde_json::Value = serde_json::from_str(&dk).unwrap();
    v["keyType"] = serde_json::Value::String("bogus".to_string());
    assert!(!takos_encrypt_ink::is_valid_device_key(&serde_json::to_string(&v).unwrap()));
}

#[test]
fn master_tag_on_either_record_selects_the_master_parameter_set() {
    // a DSA-65 pair mislabeled with one master tag must be probed as
    // ML-DSA-87 and fail, not fall back to ML-DSA-65
    let (pk65, sk65) = takos_encrypt_ink::generate_dsa65_key_pair();
    let mut p = serde_json::Map::new();
    p.insert("keyType".to_string(), serde_json::Value::String("masterKeyPublic".to_string()));
    p.insert("key".to_string(), serde_json::Value::String(pk65));
    let mut s = serde_json::Map::new();
    s.insert("keyType".to_string(), serde_json::Value::String("accountKeyPrivate".to_string()));
    s.insert("key".to_string(), serde_json::Value::String(sk65));
    let pub_json = serde_json::to_string(&serde_json::Value::Object(p)).unwrap();
    let priv_json = serde_json::to_string(&serde_json::Value::Object(s)).unwrap();
    assert!(!is_valid_key_pair_sign(&pub_json, &priv_json));
}

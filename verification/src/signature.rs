//! ML-DSA signing and verification over base64 text, and the signed
//! envelope built around them.

use vstd::prelude::*;

use crate::json::{jparse, json_text, jv_get_str, jv_opt_str, JsonV};
use crate::provider::{
    b64_encode, b64_of, dsa65_accepts, dsa65_pair, dsa65_sign, dsa65_verify, dsa87_accepts,
    dsa87_pair, dsa87_sign, dsa87_verify,
};
use crate::types::Sign;
use crate::utils::{decode_b64_len, is_b64_len};

verus! {

/// ML-DSA-65 verification over base64 text: both fields decode to the right
/// lengths and the signature verifies.
pub open spec fn verify65_spec(pub_b64: Seq<char>, data: Seq<u8>, sig_b64: Seq<char>) -> bool {
    exists|pkb: Seq<u8>, sigb: Seq<u8>|
        #![trigger dsa65_accepts(pkb, data, sigb)]
        pub_b64 == b64_of(pkb) && pkb.len() == 1952 && sig_b64 == b64_of(sigb) && sigb.len()
            == 3309 && dsa65_accepts(pkb, data, sigb)
}

/// ML-DSA-87 verification over base64 text.
pub open spec fn verify87_spec(pub_b64: Seq<char>, data: Seq<u8>, sig_b64: Seq<char>) -> bool {
    exists|pkb: Seq<u8>, sigb: Seq<u8>|
        #![trigger dsa87_accepts(pkb, data, sigb)]
        pub_b64 == b64_of(pkb) && pkb.len() == 2592 && sig_b64 == b64_of(sigb) && sigb.len()
            == 4627 && dsa87_accepts(pkb, data, sigb)
}

/// The signing key behind `priv_b64` pairs with the verifying key bytes.
pub open spec fn pairs_with65(pkb: Seq<u8>, priv_b64: Seq<char>) -> bool {
    exists|skb: Seq<u8>| priv_b64 == b64_of(skb) && dsa65_pair(pkb, skb)
}

/// The signing key behind `priv_b64` pairs with the verifying key bytes.
pub open spec fn pairs_with87(pkb: Seq<u8>, priv_b64: Seq<char>) -> bool {
    exists|skb: Seq<u8>| priv_b64 == b64_of(skb) && dsa87_pair(pkb, skb)
}

/// Signs with ML-DSA-65; the private key must be base64 of 4032 bytes.
/// The signature it returns verifies under every paired verifying key.
pub fn sign_with_mlds65(private_key_b64: &str, data: &[u8]) -> (r: Option<String>)
    ensures
        r is Some <==> is_b64_len(private_key_b64@, 4032),
        r matches Some(t) ==> is_b64_len(t@, 3309),
        r matches Some(t) ==> t@.len() == 4412,
        r matches Some(t) ==> forall|pkb: Seq<u8>|
            #[trigger] pairs_with65(pkb, private_key_b64@) && pkb.len() == 1952 ==> verify65_spec(
                b64_of(pkb),
                data@,
                t@,
            ),
{
    let sk = match decode_b64_len(private_key_b64, 4032) {
        Some(v) => v,
        None => {
            return None;
        },
    };
    let sig = dsa65_sign(sk.as_slice(), data);
    Some(b64_encode(sig.as_slice()))
}

/// Signs with ML-DSA-87; the private key must be base64 of 4896 bytes.
pub fn sign_with_mlds87(private_key_b64: &str, data: &[u8]) -> (r: Option<String>)
    ensures
        r is Some <==> is_b64_len(private_key_b64@, 4896),
        r matches Some(t) ==> is_b64_len(t@, 4627),
        r matches Some(t) ==> t@.len() == 6172,
        r matches Some(t) ==> forall|pkb: Seq<u8>|
            #[trigger] pairs_with87(pkb, private_key_b64@) && pkb.len() == 2592 ==> verify87_spec(
                b64_of(pkb),
                data@,
                t@,
            ),
{
    let sk = match decode_b64_len(private_key_b64, 4896) {
        Some(v) => v,
        None => {
            return None;
        },
    };
    let sig = dsa87_sign(sk.as_slice(), data);
    Some(b64_encode(sig.as_slice()))
}

/// Verifies an ML-DSA-65 signature given as base64 text.
pub fn verify_with_mlds65(public_key_b64: &str, data: &[u8], signature_b64: &str) -> (r: bool)
    ensures
        r == verify65_spec(public_key_b64@, data@, signature_b64@),
{
    let pk = match decode_b64_len(public_key_b64, 1952) {
        Some(v) => v,
        None => {
            return false;
        },
    };
    let sig = match decode_b64_len(signature_b64, 3309) {
        Some(v) => v,
        None => {
            return false;
        },
    };
    dsa65_verify(pk.as_slice(), data, sig.as_slice())
}

/// Verifies an ML-DSA-87 signature given as base64 text.
pub fn verify_with_mlds87(public_key_b64: &str, data: &[u8], signature_b64: &str) -> (r: bool)
    ensures
        r == verify87_spec(public_key_b64@, data@, signature_b64@),
{
    let pk = match decode_b64_len(public_key_b64, 2592) {
        Some(v) => v,
        None => {
            return false;
        },
    };
    let sig = match decode_b64_len(signature_b64, 4627) {
        Some(v) => v,
        None => {
            return false;
        },
    };
    dsa87_verify(pk.as_slice(), data, sig.as_slice())
}

/// The JSON object of a signed envelope.
pub open spec fn sign_jv(
    key_hash: Seq<char>,
    signature: Seq<char>,
    key_type: Seq<char>,
    algorithm: Option<Seq<char>>,
) -> JsonV {
    JsonV::Obj(
        seq![
            ("keyHash"@, JsonV::Str(key_hash)),
            ("signature"@, JsonV::Str(signature)),
            ("keyType"@, JsonV::Str(key_type)),
        ] + (match algorithm {
            Some(a) => seq![("algorithm"@, JsonV::Str(a))],
            None => Seq::empty(),
        }),
    )
}

/// A signed envelope carrying an ML-DSA-65 signature over `data`, under the
/// given domain tag and key hash.
pub open spec fn sign_obj65_ok(
    obj_text: Seq<char>,
    priv_b64: Seq<char>,
    data: Seq<u8>,
    key_hash: Seq<char>,
    key_type: Seq<char>,
) -> bool {
    exists|sig_b64: Seq<char>|
        #![trigger sign_jv(key_hash, sig_b64, key_type, Some("ML-DSA-65"@))]
        obj_text == json_text(sign_jv(key_hash, sig_b64, key_type, Some("ML-DSA-65"@)))
            && is_b64_len(sig_b64, 3309) && (forall|pkb: Seq<u8>|
            #[trigger] pairs_with65(pkb, priv_b64) && pkb.len() == 1952 ==> verify65_spec(
                b64_of(pkb),
                data,
                sig_b64,
            ))
}

/// A signed envelope carrying an ML-DSA-87 signature.
pub open spec fn sign_obj87_ok(
    obj_text: Seq<char>,
    priv_b64: Seq<char>,
    data: Seq<u8>,
    key_hash: Seq<char>,
    key_type: Seq<char>,
) -> bool {
    exists|sig_b64: Seq<char>|
        #![trigger sign_jv(key_hash, sig_b64, key_type, Some("ML-DSA-87"@))]
        obj_text == json_text(sign_jv(key_hash, sig_b64, key_type, Some("ML-DSA-87"@)))
            && is_b64_len(sig_b64, 4627) && (forall|pkb: Seq<u8>|
            #[trigger] pairs_with87(pkb, priv_b64) && pkb.len() == 2592 ==> verify87_spec(
                b64_of(pkb),
                data,
                sig_b64,
            ))
}

/// The members of a signed envelope.
pub proof fn lemma_sign_jv_fields(
    key_hash: Seq<char>,
    signature: Seq<char>,
    key_type: Seq<char>,
    algorithm: Option<Seq<char>>,
)
    ensures
        jv_get_str(sign_jv(key_hash, signature, key_type, algorithm), "keyHash"@) == Some(key_hash),
        jv_get_str(sign_jv(key_hash, signature, key_type, algorithm), "signature"@) == Some(
            signature,
        ),
        jv_get_str(sign_jv(key_hash, signature, key_type, algorithm), "keyType"@) == Some(key_type),
        jv_opt_str(sign_jv(key_hash, signature, key_type, algorithm), "algorithm"@) == Some(
            algorithm,
        ),
        Sign::shape(sign_jv(key_hash, signature, key_type, algorithm)),
{
    crate::types::lemma_record_names_distinct();
    let fs = sign_jv(key_hash, signature, key_type, algorithm)->Obj_0;
    crate::json::lemma_jv_lookup_at(fs, "keyHash"@, 0);
    crate::json::lemma_jv_lookup_at(fs, "signature"@, 1);
    crate::json::lemma_jv_lookup_at(fs, "keyType"@, 2);
    match algorithm {
        Some(a) => {
            crate::json::lemma_jv_lookup_at(fs, "algorithm"@, 3);
        },
        None => {
            crate::json::lemma_jv_lookup_none(fs, "algorithm"@);
        },
    }
}

/// Builds the signed-envelope text for an ML-DSA-65 signature over `data`.
pub fn create_signature_object_mlds65(
    private_key_b64: &str,
    data: &[u8],
    key_hash: &str,
    key_type: &str,
) -> (r: Option<String>)
    ensures
        r is Some <==> is_b64_len(private_key_b64@, 4032),
        r matches Some(t) ==> sign_obj65_ok(t@, private_key_b64@, data@, key_hash@, key_type@),
{
    let signature = match sign_with_mlds65(private_key_b64, data) {
        Some(s) => s,
        None => {
            return None;
        },
    };
    let obj = Sign {
        key_hash: key_hash.to_owned(),
        signature,
        key_type: key_type.to_owned(),
        algorithm: Some("ML-DSA-65".to_owned()),
    };
    let text = obj.to_text();
    proof {
        assert(obj.jv() == sign_jv(key_hash@, obj.signature@, key_type@, Some("ML-DSA-65"@)));
    }
    Some(text)
}

/// Builds the signed-envelope text for an ML-DSA-87 signature over `data`.
pub fn create_signature_object_mlds87(
    private_key_b64: &str,
    data: &[u8],
    key_hash: &str,
    key_type: &str,
) -> (r: Option<String>)
    ensures
        r is Some <==> is_b64_len(private_key_b64@, 4896),
        r matches Some(t) ==> sign_obj87_ok(t@, private_key_b64@, data@, key_hash@, key_type@),
{
    let signature = match sign_with_mlds87(private_key_b64, data) {
        Some(s) => s,
        None => {
            return None;
        },
    };
    let obj = Sign {
        key_hash: key_hash.to_owned(),
        signature,
        key_type: key_type.to_owned(),
        algorithm: Some("ML-DSA-87".to_owned()),
    };
    let text = obj.to_text();
    proof {
        assert(obj.jv() == sign_jv(key_hash@, obj.signature@, key_type@, Some("ML-DSA-87"@)));
    }
    Some(text)
}

/// A signed-envelope text verifies over `data` under the given public key
/// when its domain tag matches and its signature checks under the
/// algorithm the envelope names (ML-DSA-65 when it names none).
pub open spec fn verify_sig_obj_spec(
    pub_b64: Seq<char>,
    obj: Seq<char>,
    data: Seq<u8>,
    expected: Seq<char>,
) -> bool {
    match jparse(obj) {
        Some(v) => Sign::shape(v) && jv_get_str(v, "keyType"@) == Some(expected) && (match jv_opt_str(
            v,
            "algorithm"@,
        ) {
            Some(Some(a)) => if a == "ML-DSA-87"@ {
                verify87_spec(pub_b64, data, jv_get_str(v, "signature"@).unwrap())
            } else if a == "ML-DSA-65"@ {
                verify65_spec(pub_b64, data, jv_get_str(v, "signature"@).unwrap())
            } else {
                false
            },
            Some(None) => verify65_spec(pub_b64, data, jv_get_str(v, "signature"@).unwrap()),
            None => false,
        }),
        None => false,
    }
}

/// Verifies a signed-envelope text against `data`.
pub fn verify_signature_object(
    public_key_b64: &str,
    signature_obj: &str,
    data: &[u8],
    expected_key_type: &str,
) -> (r: bool)
    ensures
        r == verify_sig_obj_spec(public_key_b64@, signature_obj@, data@, expected_key_type@),
{
    let parsed = match crate::json::parse_json(signature_obj) {
        Some(v) => v,
        None => {
            return false;
        },
    };
    let obj = match Sign::from_json(&parsed) {
        Some(o) => o,
        None => {
            return false;
        },
    };
    if !crate::json::str_eq(obj.key_type.as_str(), expected_key_type) {
        return false;
    }
    match &obj.algorithm {
        Some(a) => {
            if crate::json::str_eq(a.as_str(), "ML-DSA-87") {
                verify_with_mlds87(public_key_b64, data, obj.signature.as_str())
            } else if crate::json::str_eq(a.as_str(), "ML-DSA-65") {
                verify_with_mlds65(public_key_b64, data, obj.signature.as_str())
            } else {
                false
            }
        },
        None => verify_with_mlds65(public_key_b64, data, obj.signature.as_str()),
    }
}

} // verus!

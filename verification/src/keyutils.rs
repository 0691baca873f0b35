//! Key-pair generation and the role-agnostic key and pair validators.

use vstd::prelude::*;

use crate::json::{jparse, jv_get_str, parse_json, json_get_str, str_eq};
use crate::provider::{
    b64_encode, b64_of, dsa65_keygen, dsa65_pair, dsa87_keygen, dsa87_pair, kem_keygen,
    random_bytes, random_u32,
};
use crate::signature::{sign_with_mlds65, sign_with_mlds87, verify_with_mlds65, verify_with_mlds87};
use crate::utils::{decode_b64_len, is_b64_len};

verus! {

/// The two texts are base64 of one generated ML-DSA-65 key pair.
pub open spec fn text_pair65(pk_b64: Seq<char>, sk_b64: Seq<char>) -> bool {
    exists|pkb: Seq<u8>, skb: Seq<u8>|
        #![trigger dsa65_pair(pkb, skb)]
        pk_b64 == b64_of(pkb) && pkb.len() == 1952 && sk_b64 == b64_of(skb) && skb.len() == 4032
            && dsa65_pair(pkb, skb)
}

/// The two texts are base64 of one generated ML-DSA-87 key pair.
pub open spec fn text_pair87(pk_b64: Seq<char>, sk_b64: Seq<char>) -> bool {
    exists|pkb: Seq<u8>, skb: Seq<u8>|
        #![trigger dsa87_pair(pkb, skb)]
        pk_b64 == b64_of(pkb) && pkb.len() == 2592 && sk_b64 == b64_of(skb) && skb.len() == 4896
            && dsa87_pair(pkb, skb)
}

/// Generates an ML-KEM-768 key pair as base64: (public, private).
pub fn generate_kem_key_pair() -> (r: (String, String))
    ensures
        is_b64_len(r.0@, 1184),
        is_b64_len(r.1@, 2400),
{
    let (pk, sk) = kem_keygen();
    (b64_encode(pk.as_slice()), b64_encode(sk.as_slice()))
}

/// Generates an ML-DSA-65 key pair as base64: (public, private).
pub fn generate_dsa65_key_pair() -> (r: (String, String))
    ensures
        is_b64_len(r.0@, 1952),
        is_b64_len(r.1@, 4032),
        text_pair65(r.0@, r.1@),
{
    let (pk, sk) = dsa65_keygen();
    (b64_encode(pk.as_slice()), b64_encode(sk.as_slice()))
}

/// Generates an ML-DSA-87 key pair as base64: (public, private).
pub fn generate_dsa87_key_pair() -> (r: (String, String))
    ensures
        is_b64_len(r.0@, 2592),
        is_b64_len(r.1@, 4896),
        text_pair87(r.0@, r.1@),
{
    let (pk, sk) = dsa87_keygen();
    (b64_encode(pk.as_slice()), b64_encode(sk.as_slice()))
}

/// Generates a 256-bit symmetric key as base64.
pub fn generate_symmetric_key() -> (r: String)
    ensures
        is_b64_len(r@, 32),
{
    let key = random_bytes(32);
    b64_encode(key.as_slice())
}

/// The probe message signed when validating a pair.
fn probe_data() -> (r: [u8; 4])
    ensures
        r@.len() == 4,
{
    [116u8, 101u8, 115u8, 116u8]
}

/// Validates an ML-DSA-65 key: a public key must be base64 of 1952 bytes; a
/// private key must be base64 of 4032 bytes, with which a probe signature
/// is made and checked to be non-empty, as a self-test.
pub fn is_valid_dsa65_key(key_b64: &str, is_public: bool) -> (r: bool)
    ensures
        is_public ==> r == is_b64_len(key_b64@, 1952),
        !is_public ==> r == is_b64_len(key_b64@, 4032),
{
    if is_public {
        match decode_b64_len(key_b64, 1952) {
            Some(_) => true,
            None => false,
        }
    } else {
        let data = probe_data();
        match sign_with_mlds65(key_b64, data.as_slice()) {
            Some(sig) => !sig.as_str().is_empty(),
            None => false,
        }
    }
}

/// Validates an ML-DSA-87 key: 2592 bytes public, 4896 bytes private (the
/// private key makes a probe signature, as a self-test).
pub fn is_valid_dsa87_key(key_b64: &str, is_public: bool) -> (r: bool)
    ensures
        is_public ==> r == is_b64_len(key_b64@, 2592),
        !is_public ==> r == is_b64_len(key_b64@, 4896),
{
    if is_public {
        match decode_b64_len(key_b64, 2592) {
            Some(_) => true,
            None => false,
        }
    } else {
        let data = probe_data();
        match sign_with_mlds87(key_b64, data.as_slice()) {
            Some(sig) => !sig.as_str().is_empty(),
            None => false,
        }
    }
}

/// Validates an ML-KEM-768 key by decoded length: 1184 bytes public, 2400
/// bytes private.
pub fn is_valid_kem_key(key_b64: &str, is_public: bool) -> (r: bool)
    ensures
        is_public ==> r == is_b64_len(key_b64@, 1184),
        !is_public ==> r == is_b64_len(key_b64@, 2400),
{
    let want: usize = if is_public {
        1184
    } else {
        2400
    };
    match decode_b64_len(key_b64, want) {
        Some(_) => true,
        None => false,
    }
}

/// Validates a symmetric key by decoded length: 32 bytes.
pub fn is_valid_symmetric_key(key_b64: &str) -> (r: bool)
    ensures
        r == is_b64_len(key_b64@, 32),
{
    match decode_b64_len(key_b64, 32) {
        Some(_) => true,
        None => false,
    }
}

/// The `keyType` member of a parsed record, or the empty text when the
/// record has no such string member.
pub open spec fn jv_get_str_or_empty(v: crate::json::JsonV, name: Seq<char>) -> Seq<char> {
    match jv_get_str(v, name) {
        Some(s) => s,
        None => Seq::empty(),
    }
}

/// A master-role tag.
pub open spec fn is_master_tag(t: Seq<char>) -> bool {
    t == "masterKeyPublic"@ || t == "masterKeyPrivate"@
}

/// What `is_valid_key_pair_sign` promises once both records parse: the
/// ML-DSA-87 branch is chosen when either record carries a master tag; a
/// generated pair passes; a private key of the wrong length fails.
pub open spec fn sign_pair_post(pv: crate::json::JsonV, sv: crate::json::JsonV, r: bool) -> bool {
    let master = is_master_tag(jv_get_str_or_empty(pv, "keyType"@)) || is_master_tag(
        jv_get_str_or_empty(sv, "keyType"@),
    );
    let pk = jv_get_str_or_empty(pv, "key"@);
    let sk = jv_get_str_or_empty(sv, "key"@);
    &&& master && text_pair87(pk, sk) ==> r == true
    &&& !master && text_pair65(pk, sk) ==> r == true
    &&& master && !is_b64_len(sk, 4896) ==> r == false
    &&& !master && !is_b64_len(sk, 4032) ==> r == false
}

/// Validates a signing pair by a probe signature: when either record
/// carries a master tag, ML-DSA-87 is used, otherwise ML-DSA-65.  True
/// whenever the two records carry the base64 of one generated pair of the
/// chosen parameter set; false whenever either record fails to parse or
/// the private key has the wrong length.
pub fn is_valid_key_pair_sign(pub_json: &str, priv_json: &str) -> (r: bool)
    ensures
        (jparse(pub_json@) is None || jparse(priv_json@) is None) ==> r == false,
        jparse(pub_json@) is Some && jparse(priv_json@) is Some ==> sign_pair_post(
            jparse(pub_json@).unwrap(),
            jparse(priv_json@).unwrap(),
            r,
        ),
{
    let pub_val = match parse_json(pub_json) {
        Some(v) => v,
        None => {
            return false;
        },
    };
    let priv_val = match parse_json(priv_json) {
        Some(v) => v,
        None => {
            return false;
        },
    };
    let ptype = match json_get_str(&pub_val, "keyType") {
        Some(s) => s,
        None => String::new(),
    };
    let stype = match json_get_str(&priv_val, "keyType") {
        Some(s) => s,
        None => String::new(),
    };
    let pkey = match json_get_str(&pub_val, "key") {
        Some(s) => s,
        None => String::new(),
    };
    let skey = match json_get_str(&priv_val, "key") {
        Some(s) => s,
        None => String::new(),
    };
    let data = probe_data();
    let master = str_eq(ptype.as_str(), "masterKeyPublic") || str_eq(ptype.as_str(), "masterKeyPrivate")
        || str_eq(stype.as_str(), "masterKeyPublic") || str_eq(stype.as_str(), "masterKeyPrivate");
    if master {
        match sign_with_mlds87(skey.as_str(), data.as_slice()) {
            Some(sig) => {
                let rr = verify_with_mlds87(pkey.as_str(), data.as_slice(), sig.as_str());
                proof {
                    if text_pair87(pkey@, skey@) {
                        let (pkb, skb) = choose|pkb: Seq<u8>, skb: Seq<u8>|
                            pkey@ == b64_of(pkb) && pkb.len() == 2592 && skey@ == b64_of(skb)
                                && skb.len() == 4896 && dsa87_pair(pkb, skb);
                        assert(crate::signature::pairs_with87(pkb, skey@));
                        assert(crate::signature::verify87_spec(b64_of(pkb), data@, sig@));
                    }
                }
                rr
            },
            None => false,
        }
    } else {
        match sign_with_mlds65(skey.as_str(), data.as_slice()) {
            Some(sig) => {
                let rr = verify_with_mlds65(pkey.as_str(), data.as_slice(), sig.as_str());
                proof {
                    if text_pair65(pkey@, skey@) {
                        let (pkb, skb) = choose|pkb: Seq<u8>, skb: Seq<u8>|
                            pkey@ == b64_of(pkb) && pkb.len() == 1952 && skey@ == b64_of(skb)
                                && skb.len() == 4032 && dsa65_pair(pkb, skb);
                        assert(crate::signature::pairs_with65(pkb, skey@));
                        assert(crate::signature::verify65_spec(b64_of(pkb), data@, sig@));
                    }
                }
                rr
            },
            None => false,
        }
    }
}

/// Both records carry a `key` of the right decoded length for ML-KEM-768.
pub open spec fn encrypt_pair_keys_ok(pv: crate::json::JsonV, sv: crate::json::JsonV) -> bool {
    &&& jv_get_str(pv, "key"@) matches Some(pk) && is_b64_len(pk, 1184)
    &&& jv_get_str(sv, "key"@) matches Some(sk) && is_b64_len(sk, 2400)
}

/// Validates an encryption pair: encapsulate against the public key, then
/// decapsulate with the private key and compare the shared secrets.  False
/// whenever either record fails to parse, lacks a string `key`, or the
/// decoded keys have the wrong lengths; the positive case rests on the
/// probabilistic correctness of the KEM and is checked by running it.
pub fn is_valid_key_pair_encrypt(pub_json: &str, priv_json: &str) -> (r: bool)
    ensures
        (jparse(pub_json@) is None || jparse(priv_json@) is None) ==> r == false,
        jparse(pub_json@) is Some && jparse(priv_json@) is Some ==> (!encrypt_pair_keys_ok(
            jparse(pub_json@).unwrap(),
            jparse(priv_json@).unwrap(),
        ) ==> r == false),
{
    let pub_val = match parse_json(pub_json) {
        Some(v) => v,
        None => {
            return false;
        },
    };
    let priv_val = match parse_json(priv_json) {
        Some(v) => v,
        None => {
            return false;
        },
    };
    let pkey = match json_get_str(&pub_val, "key") {
        Some(s) => s,
        None => {
            return false;
        },
    };
    let skey = match json_get_str(&priv_val, "key") {
        Some(s) => s,
        None => {
            return false;
        },
    };
    let pk = match decode_b64_len(pkey.as_str(), 1184) {
        Some(v) => v,
        None => {
            return false;
        },
    };
    let sk = match decode_b64_len(skey.as_str(), 2400) {
        Some(v) => v,
        None => {
            return false;
        },
    };
    let (ct, sh1) = crate::provider::kem_encapsulate(pk.as_slice());
    let sh2 = crate::provider::kem_decapsulate(sk.as_slice(), ct.as_slice());
    crate::utils::bytes_eq(sh1.as_slice(), sh2.as_slice())
}

/// An ASCII letter or digit.
pub open spec fn is_alnum(c: char) -> bool {
    (65 <= c as u32 && c as u32 <= 90) || (97 <= c as u32 && c as u32 <= 122) || (48 <= c as u32
        && c as u32 <= 57)
}

/// Generates an alphanumeric identifier of the requested length, drawn by
/// modulo indexing over the 62 letters and digits.  Suitable for
/// identifiers, not for secrets.
pub fn generate_random_string(len: usize) -> (r: String)
    ensures
        r@.len() == len,
        forall|i: int| 0 <= i < len ==> is_alnum(#[trigger] r@[i]),
{
    let mut out: Vec<char> = Vec::new();
    let mut i: usize = 0;
    while i < len
        invariant
            i <= len,
            out@.len() == i,
            forall|j: int| 0 <= j < i ==> is_alnum(#[trigger] out@[j]),
        decreases len - i,
    {
        let idx = random_u32() % 62;
        let c: char = if idx < 26 {
            (65 + idx as u8) as char
        } else if idx < 52 {
            (97 + (idx - 26) as u8) as char
        } else {
            (48 + (idx - 52) as u8) as char
        };
        out.push(c);
        i = i + 1;
    }
    crate::provider::chars_to_string(out.as_slice())
}

} // verus!

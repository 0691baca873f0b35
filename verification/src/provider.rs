//! Trusted bindings to the cryptography provider and to a few std functions
//! that have no vstd specification.  Every `#[verifier::external_body]`
//! function here is believed, not verified: its contract states only what the
//! outside crate's source or documentation shows.

use vstd::prelude::*;

use aes_gcm::aead::Aead;
use aes_gcm::{Aes256Gcm, KeyInit, Nonce};
use base64::engine::general_purpose::STANDARD;
use base64::Engine;
use ml_dsa::signature::{Signer, Verifier};
use ml_dsa::{
    EncodedSignature, EncodedSigningKey, EncodedVerifyingKey, KeyGen, MlDsa65, MlDsa87, Signature,
    SigningKey, VerifyingKey,
};
use ml_kem::array::Array;
use ml_kem::kem::{Decapsulate, Encapsulate};
use ml_kem::{EncodedSizeUser, KemCore, MlKem768};
use rand::rngs::OsRng;
use rand::RngCore;
use sha2::Digest;

verus! {

/// The SHA-256 digest of a byte sequence.
pub uninterp spec fn sha256_of(data: Seq<u8>) -> Seq<u8>;

/// The standard base64 encoding (with padding) of a byte sequence.
pub uninterp spec fn b64_of(data: Seq<u8>) -> Seq<char>;

/// The shared secret that ML-KEM-768 decapsulation derives from a private key
/// and a ciphertext.  Decapsulation is infallible: a mismatched ciphertext
/// yields an implicit-rejection secret, still 32 bytes.
pub uninterp spec fn kem_shared_of(sk: Seq<u8>, ct: Seq<u8>) -> Seq<u8>;

/// Holds of the encoded verifying and signing keys of one generated
/// ML-DSA-65 key pair.
pub uninterp spec fn dsa65_pair(pk: Seq<u8>, sk: Seq<u8>) -> bool;

/// What ML-DSA-65 verification returns for an encoded verifying key, a
/// message, and an encoded signature (false when the signature encoding
/// does not decode).
pub uninterp spec fn dsa65_accepts(pk: Seq<u8>, msg: Seq<u8>, sig: Seq<u8>) -> bool;

/// Holds of the encoded verifying and signing keys of one generated
/// ML-DSA-87 key pair.
pub uninterp spec fn dsa87_pair(pk: Seq<u8>, sk: Seq<u8>) -> bool;

/// What ML-DSA-87 verification returns for an encoded verifying key, a
/// message, and an encoded signature.
pub uninterp spec fn dsa87_accepts(pk: Seq<u8>, msg: Seq<u8>, sig: Seq<u8>) -> bool;

/// The AES-256-GCM sealing of a plaintext under a 32-byte key and a 12-byte
/// nonce: the ciphertext with the 16-byte tag appended.
pub uninterp spec fn aead_seal(key: Seq<u8>, iv: Seq<u8>, pt: Seq<u8>) -> Seq<u8>;

/// Relies on sha2::Sha256: the digest depends on the input alone and is
/// 32 bytes long.
#[verifier::external_body]
pub(crate) fn sha256(data: &[u8]) -> (r: Vec<u8>)
    ensures
        r@ == sha256_of(data@),
        r@.len() == 32,
{
    let mut h = sha2::Sha256::new();
    h.update(data);
    h.finalize().to_vec()
}

/// Relies on base64's STANDARD engine: the encoding depends on the bytes
/// alone; with padding it is 4 characters for every 3 bytes, rounded up.
#[verifier::external_body]
pub(crate) fn b64_encode(data: &[u8]) -> (r: String)
    ensures
        r@ == b64_of(data@),
        r@.len() == 4 * ((data@.len() + 2) / 3),
{
    STANDARD.encode(data)
}

/// Relies on base64's STANDARD engine: decoding requires canonical padding
/// and rejects non-zero trailing bits, so it succeeds exactly on the
/// canonical encoding of some byte sequence, which it returns.
#[verifier::external_body]
pub(crate) fn b64_decode(s: &str) -> (r: Option<Vec<u8>>)
    ensures
        r is None ==> forall|bs: Seq<u8>| s@ != b64_of(bs),
        r matches Some(v) ==> s@ == b64_of(v@),
        r matches Some(v) ==> forall|bs: Seq<u8>| s@ == b64_of(bs) ==> bs == v@,
{
    STANDARD.decode(s).ok()
}

/// Relies on rand::rngs::OsRng::fill_bytes: fills the buffer from the
/// operating system's random number generator.
#[verifier::external_body]
pub(crate) fn random_bytes(n: usize) -> (r: Vec<u8>)
    ensures
        r@.len() == n,
{
    let mut buf = vec![0u8; n];
    OsRng.fill_bytes(&mut buf);
    buf
}

/// Relies on rand::rngs::OsRng::next_u32: a random 32-bit value.
#[verifier::external_body]
pub(crate) fn random_u32() -> u32 {
    OsRng.next_u32()
}

/// Relies on chrono::Utc::now: the current time in milliseconds since the
/// Unix epoch.
#[verifier::external_body]
pub(crate) fn now_millis() -> u64 {
    chrono::Utc::now().timestamp_millis() as u64
}

/// Relies on ml_kem::MlKem768::generate: a fresh key pair whose public
/// (encapsulation) encoding is 1184 bytes and whose private (decapsulation)
/// encoding is 2400 bytes.
#[verifier::external_body]
pub(crate) fn kem_keygen() -> (r: (Vec<u8>, Vec<u8>))
    ensures
        r.0@.len() == 1184,
        r.1@.len() == 2400,
{
    let (dk, ek) = MlKem768::generate(&mut OsRng);
    (ek.as_bytes().as_slice().to_vec(), dk.as_bytes().as_slice().to_vec())
}

/// Relies on ml_kem encapsulation: a 1088-byte ciphertext and a 32-byte
/// shared secret, drawn with fresh randomness.
#[verifier::external_body]
pub(crate) fn kem_encapsulate(pk: &[u8]) -> (r: (Vec<u8>, Vec<u8>))
    requires
        pk@.len() == 1184,
    ensures
        r.0@.len() == 1088,
        r.1@.len() == 32,
{
    let arr: Array<u8, <<MlKem768 as KemCore>::EncapsulationKey as EncodedSizeUser>::EncodedSize> =
        Array::try_from(pk).unwrap();
    let ek = <MlKem768 as KemCore>::EncapsulationKey::from_bytes(&arr);
    let (ct, ss) = ek.encapsulate(&mut OsRng).unwrap();
    (ct.as_slice().to_vec(), ss.as_slice().to_vec())
}

/// Relies on ml_kem decapsulation: infallible for well-sized inputs, and the
/// 32-byte result depends only on the private key and the ciphertext.
#[verifier::external_body]
pub(crate) fn kem_decapsulate(sk: &[u8], ct: &[u8]) -> (r: Vec<u8>)
    requires
        sk@.len() == 2400,
        ct@.len() == 1088,
    ensures
        r@ == kem_shared_of(sk@, ct@),
        r@.len() == 32,
{
    let sk_arr: Array<u8, <<MlKem768 as KemCore>::DecapsulationKey as EncodedSizeUser>::EncodedSize> =
        Array::try_from(sk).unwrap();
    let dk = <MlKem768 as KemCore>::DecapsulationKey::from_bytes(&sk_arr);
    let ct_arr: Array<u8, <MlKem768 as KemCore>::CiphertextSize> = Array::try_from(ct).unwrap();
    dk.decapsulate(&ct_arr).unwrap().as_slice().to_vec()
}

/// Relies on ml_dsa::MlDsa65::key_gen: a fresh pair whose verifying-key
/// encoding is 1952 bytes and whose signing-key encoding is 4032 bytes;
/// signatures made with the signing key verify under the verifying key.
#[verifier::external_body]
pub(crate) fn dsa65_keygen() -> (r: (Vec<u8>, Vec<u8>))
    ensures
        r.0@.len() == 1952,
        r.1@.len() == 4032,
        dsa65_pair(r.0@, r.1@),
{
    let kp = MlDsa65::key_gen(&mut OsRng);
    (
        kp.verifying_key().encode().as_slice().to_vec(),
        kp.signing_key().encode().as_slice().to_vec(),
    )
}

/// Relies on ml_dsa signing (the deterministic variant, empty context): a
/// 3309-byte signature that verification accepts under the paired
/// verifying key.
#[verifier::external_body]
pub(crate) fn dsa65_sign(sk: &[u8], msg: &[u8]) -> (r: Vec<u8>)
    requires
        sk@.len() == 4032,
    ensures
        r@.len() == 3309,
        forall|pk: Seq<u8>| dsa65_pair(pk, sk@) ==> dsa65_accepts(pk, msg@, r@),
{
    let arr = EncodedSigningKey::<MlDsa65>::try_from(sk).unwrap();
    let key = SigningKey::<MlDsa65>::decode(&arr);
    let sig: Signature<MlDsa65> = key.sign(msg);
    sig.encode().as_slice().to_vec()
}

/// Relies on ml_dsa verification: deterministic in the verifying key, the
/// message and the signature encoding; false when the encoding does not
/// decode to a signature.
#[verifier::external_body]
pub(crate) fn dsa65_verify(pk: &[u8], msg: &[u8], sig: &[u8]) -> (r: bool)
    requires
        pk@.len() == 1952,
        sig@.len() == 3309,
    ensures
        r == dsa65_accepts(pk@, msg@, sig@),
{
    let pk_arr = EncodedVerifyingKey::<MlDsa65>::try_from(pk).unwrap();
    let vk = VerifyingKey::<MlDsa65>::decode(&pk_arr);
    let sig_arr = EncodedSignature::<MlDsa65>::try_from(sig).unwrap();
    match Signature::<MlDsa65>::decode(&sig_arr) {
        Some(s) => vk.verify(msg, &s).is_ok(),
        None => false,
    }
}

/// Relies on ml_dsa::MlDsa87::key_gen: a fresh pair whose verifying-key
/// encoding is 2592 bytes and whose signing-key encoding is 4896 bytes;
/// signatures made with the signing key verify under the verifying key.
#[verifier::external_body]
pub(crate) fn dsa87_keygen() -> (r: (Vec<u8>, Vec<u8>))
    ensures
        r.0@.len() == 2592,
        r.1@.len() == 4896,
        dsa87_pair(r.0@, r.1@),
{
    let kp = MlDsa87::key_gen(&mut OsRng);
    (
        kp.verifying_key().encode().as_slice().to_vec(),
        kp.signing_key().encode().as_slice().to_vec(),
    )
}

/// Relies on ml_dsa signing (the deterministic variant, empty context): a
/// 4627-byte signature that verification accepts under the paired
/// verifying key.
#[verifier::external_body]
pub(crate) fn dsa87_sign(sk: &[u8], msg: &[u8]) -> (r: Vec<u8>)
    requires
        sk@.len() == 4896,
    ensures
        r@.len() == 4627,
        forall|pk: Seq<u8>| dsa87_pair(pk, sk@) ==> dsa87_accepts(pk, msg@, r@),
{
    let arr = EncodedSigningKey::<MlDsa87>::try_from(sk).unwrap();
    let key = SigningKey::<MlDsa87>::decode(&arr);
    let sig: Signature<MlDsa87> = key.sign(msg);
    sig.encode().as_slice().to_vec()
}

/// Relies on ml_dsa verification: deterministic in the verifying key, the
/// message and the signature encoding; false when the encoding does not
/// decode to a signature.
#[verifier::external_body]
pub(crate) fn dsa87_verify(pk: &[u8], msg: &[u8], sig: &[u8]) -> (r: bool)
    requires
        pk@.len() == 2592,
        sig@.len() == 4627,
    ensures
        r == dsa87_accepts(pk@, msg@, sig@),
{
    let pk_arr = EncodedVerifyingKey::<MlDsa87>::try_from(pk).unwrap();
    let vk = VerifyingKey::<MlDsa87>::decode(&pk_arr);
    let sig_arr = EncodedSignature::<MlDsa87>::try_from(sig).unwrap();
    match Signature::<MlDsa87>::decode(&sig_arr) {
        Some(s) => vk.verify(msg, &s).is_ok(),
        None => false,
    }
}

/// Relies on aes_gcm::Aes256Gcm encryption: deterministic in the key, nonce
/// and plaintext; the result is the ciphertext with the 16-byte tag
/// appended.  Encryption only fails above 2^36 bytes of plaintext.
#[verifier::external_body]
pub(crate) fn aes_seal(key: &[u8], iv: &[u8], pt: &[u8]) -> (r: Vec<u8>)
    requires
        key@.len() == 32,
        iv@.len() == 12,
        pt@.len() <= 68719476736,
    ensures
        r@ == aead_seal(key@, iv@, pt@),
        r@.len() == pt@.len() + 16,
{
    let cipher = Aes256Gcm::new_from_slice(key).unwrap();
    cipher.encrypt(Nonce::from_slice(iv), pt).unwrap()
}

/// Relies on aes_gcm::Aes256Gcm decryption: it accepts any output of
/// encryption under the same key and nonce and returns the plaintext it
/// sealed; anything it accepts is ciphertext plus a 16-byte tag.
#[verifier::external_body]
pub(crate) fn aes_open(key: &[u8], iv: &[u8], ct: &[u8]) -> (r: Option<Vec<u8>>)
    requires
        key@.len() == 32,
        iv@.len() == 12,
    ensures
        r is None ==> forall|pt: Seq<u8>|
            pt.len() <= 68719476736 ==> ct@ != aead_seal(key@, iv@, pt),
        r matches Some(v) ==> forall|pt: Seq<u8>|
            pt.len() <= 68719476736 && ct@ == aead_seal(key@, iv@, pt) ==> pt == v@,
        r matches Some(v) ==> v@.len() + 16 == ct@.len(),
{
    let cipher = Aes256Gcm::new_from_slice(key).unwrap();
    cipher.decrypt(Nonce::from_slice(iv), ct).ok()
}

/// Relies on str::chars: the characters of the string, in order.
#[verifier::external_body]
pub(crate) fn str_to_chars(s: &str) -> (r: Vec<char>)
    ensures
        r@ == s@,
{
    s.chars().collect()
}

/// Relies on String's FromIterator over char: the string made of exactly
/// these characters, in order.
#[verifier::external_body]
pub(crate) fn chars_to_string(cs: &[char]) -> (r: String)
    ensures
        r@ == cs@,
{
    cs.iter().collect()
}

/// Relies on String::from_utf8: succeeds exactly on valid UTF-8 and returns
/// the string those bytes encode.
#[verifier::external_body]
pub(crate) fn bytes_to_string(v: Vec<u8>) -> (r: Option<String>)
    ensures
        r matches Some(s) ==> vstd::utf8::encode_utf8(s@) == v@,
        vstd::utf8::valid_utf8(v@) ==> r is Some,
{
    String::from_utf8(v).ok()
}

} // verus!

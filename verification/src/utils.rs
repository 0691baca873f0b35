//! Hashing and base64 helpers shared by the key managers.

use vstd::prelude::*;

use crate::provider::{b64_encode, b64_of, sha256, sha256_of};

verus! {

/// The base64 text of the SHA-256 digest of a string's UTF-8 bytes.
pub open spec fn key_hash_of(s: Seq<char>) -> Seq<char> {
    b64_of(sha256_of(vstd::utf8::encode_utf8(s)))
}

/// Whether `s` is the canonical base64 encoding of exactly `n` bytes.
pub open spec fn is_b64_len(s: Seq<char>, n: int) -> bool {
    exists|bs: Seq<u8>| s == b64_of(bs) && bs.len() == n
}

/// Whether `s` is the canonical base64 encoding of some byte sequence.
pub open spec fn is_b64(s: Seq<char>) -> bool {
    exists|bs: Seq<u8>| s == b64_of(bs)
}

/// The hash bound into envelopes: 44 base64 characters holding the 32-byte
/// SHA-256 digest of the input text.
pub fn key_hash(input: &str) -> (r: String)
    ensures
        r@ == key_hash_of(input@),
        r@.len() == 44,
        is_b64_len(r@, 32),
{
    let bytes = input.as_bytes();
    let digest = sha256(bytes);
    b64_encode(digest.as_slice())
}

/// Decodes base64 and requires the decoded length to be exactly `n`.
pub fn decode_b64_len(s: &str, n: usize) -> (r: Option<Vec<u8>>)
    ensures
        r matches Some(v) ==> (s@ == b64_of(v@) && v@.len() == n && is_b64_len(s@, n as int)),
        r matches Some(v) ==> forall|bs: Seq<u8>| s@ == b64_of(bs) ==> bs == v@,
        r is None ==> !is_b64_len(s@, n as int),
{
    match crate::provider::b64_decode(s) {
        Some(v) => {
            if v.len() == n {
                Some(v)
            } else {
                None
            }
        },
        None => None,
    }
}

/// Decodes base64 of any length.
pub fn decode_b64(s: &str) -> (r: Option<Vec<u8>>)
    ensures
        r matches Some(v) ==> s@ == b64_of(v@),
        r matches Some(v) ==> forall|bs: Seq<u8>| s@ == b64_of(bs) ==> bs == v@,
        r is None ==> forall|bs: Seq<u8>| s@ != b64_of(bs),
{
    crate::provider::b64_decode(s)
}

/// Whether two byte slices hold the same bytes.
pub fn bytes_eq(a: &[u8], b: &[u8]) -> (r: bool)
    ensures
        r == (a@ == b@),
{
    if a.len() != b.len() {
        return false;
    }
    let n = a.len();
    let mut i: usize = 0;
    while i < n
        invariant
            n == a@.len() == b@.len(),
            i <= n,
            forall|j: int| 0 <= j < i ==> a@[j] == b@[j],
        decreases n - i,
    {
        if a[i] != b[i] {
            return false;
        }
        i = i + 1;
    }
    proof {
        assert(a@ =~= b@);
    }
    true
}

} // verus!

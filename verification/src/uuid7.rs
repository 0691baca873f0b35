//! Validation of the canonical textual form of a version-7 UUID.

use vstd::prelude::*;

verus! {

/// A lower-case hexadecimal digit.
pub open spec fn is_hex_lower(c: char) -> bool {
    (48 <= c as u32 && c as u32 <= 57) || (97 <= c as u32 && c as u32 <= 102)
}

/// What each position of a 36-character UUID must hold: dashes at 8, 13, 18
/// and 23, the version digit `7` at 14, a variant digit in `89ab` at 19, and
/// lower-case hex everywhere else.
pub open spec fn uuid_pos_ok(s: Seq<char>, i: int) -> bool {
    if i == 8 || i == 13 || i == 18 || i == 23 {
        s[i] == '-'
    } else if i == 14 {
        s[i] == '7'
    } else if i == 19 {
        s[i] == '8' || s[i] == '9' || s[i] == 'a' || s[i] == 'b'
    } else {
        is_hex_lower(s[i])
    }
}

/// The canonical text of a version-7 UUID:
/// `xxxxxxxx-xxxx-7xxx-yxxx-xxxxxxxxxxxx` with `x` lower-case hex and
/// `y` in `89ab`.
pub open spec fn is_uuid_v7_text(s: Seq<char>) -> bool {
    s.len() == 36 && (forall|i: int| 0 <= i < 36 ==> uuid_pos_ok(s, i))
}

/// Whether the string is the canonical text of a version-7 UUID.
pub fn is_valid_uuid_v7(uuid: &str) -> (r: bool)
    ensures
        r == is_uuid_v7_text(uuid@),
{
    let cs = crate::provider::str_to_chars(uuid);
    if cs.len() != 36 {
        return false;
    }
    let mut i: usize = 0;
    while i < 36
        invariant
            cs@ == uuid@,
            cs@.len() == 36,
            i <= 36,
            forall|j: int| 0 <= j < i ==> uuid_pos_ok(cs@, j),
        decreases 36 - i,
    {
        let c = cs[i];
        let u = c as u32;
        let ok = if i == 8 || i == 13 || i == 18 || i == 23 {
            c == '-'
        } else if i == 14 {
            c == '7'
        } else if i == 19 {
            c == '8' || c == '9' || c == 'a' || c == 'b'
        } else {
            (48 <= u && u <= 57) || (97 <= u && u <= 102)
        };
        if !ok {
            assert(!uuid_pos_ok(cs@, i as int));
            return false;
        }
        i = i + 1;
    }
    true
}

} // verus!

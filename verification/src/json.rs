//! The record grammar: a small JSON value model, an exact text writer, and a
//! parser, all verified against spec-level definitions.

use vstd::prelude::*;

verus! {

broadcast use vstd::std_specs::vec::axiom_vec_index_decreases, vstd::std_specs::vec::axiom_vec_decreases_to_view, vstd::seq::axiom_seq_index_decreases;

/// A JSON value as the library uses it on the wire.  Numbers are unsigned
/// 64-bit integers: every numeric field of the record formats (timestamps,
/// sizes) is one.
pub enum Json {
    Null,
    Bool(bool),
    UInt(u64),
    Str(String),
    Arr(Vec<Json>),
    Obj(Vec<(String, Json)>),
}

/// The mathematical model of a JSON value.
pub enum JsonV {
    Null,
    Bool(bool),
    UInt(u64),
    Str(Seq<char>),
    Arr(Seq<JsonV>),
    Obj(Seq<(Seq<char>, JsonV)>),
}

/// The model of an executable JSON value.
pub open spec fn view_of(j: Json) -> JsonV
    decreases j,
{
    match j {
        Json::Null => JsonV::Null,
        Json::Bool(b) => JsonV::Bool(b),
        Json::UInt(n) => JsonV::UInt(n),
        Json::Str(s) => JsonV::Str(s@),
        Json::Arr(items) => JsonV::Arr(view_of_arr(items@)),
        Json::Obj(fields) => JsonV::Obj(view_of_obj(fields@)),
    }
}

/// The models of the elements of an array, in order.
pub open spec fn view_of_arr(items: Seq<Json>) -> Seq<JsonV>
    decreases items,
{
    if items.len() == 0 {
        Seq::empty()
    } else {
        view_of_arr(items.subrange(0, items.len() - 1)).push(view_of(items[items.len() - 1]))
    }
}

/// The models of the members of an object, in order.
pub open spec fn view_of_obj(fields: Seq<(String, Json)>) -> Seq<(Seq<char>, JsonV)>
    decreases fields,
{
    if fields.len() == 0 {
        Seq::empty()
    } else {
        view_of_obj(fields.subrange(0, fields.len() - 1)).push(
            (fields[fields.len() - 1].0@, view_of(fields[fields.len() - 1].1)),
        )
    }
}

impl View for Json {
    type V = JsonV;

    open spec fn view(&self) -> JsonV {
        view_of(*self)
    }
}

/// A decimal digit.
pub open spec fn is_digit(c: char) -> bool {
    48 <= c as u32 && c as u32 <= 57
}

/// The character for the decimal digit `d`.
pub open spec fn digit_char(d: int) -> char {
    ((48 + d) as u8) as char
}

/// The lower-case hexadecimal character for `d` in `0..16`.
pub open spec fn hex_char(d: int) -> char {
    if d < 10 {
        digit_char(d)
    } else {
        ((87 + d) as u8) as char
    }
}

/// The decimal text of a natural number, most significant digit first.
pub open spec fn nat_text(n: nat) -> Seq<char>
    decreases n,
{
    if n < 10 {
        seq![digit_char(n as int)]
    } else {
        nat_text(n / 10).push(digit_char((n % 10) as int))
    }
}

/// The decimal text of an unsigned 64-bit number.
pub open spec fn u64_text(n: u64) -> Seq<char> {
    nat_text(n as nat)
}

/// How one character appears inside a JSON string literal: quote, backslash
/// and the control characters are escaped, everything else stands as it is.
pub open spec fn escape_char(c: char) -> Seq<char> {
    if c == '"' {
        seq!['\\', '"']
    } else if c == '\\' {
        seq!['\\', '\\']
    } else if c == '\u{8}' {
        seq!['\\', 'b']
    } else if c == '\t' {
        seq!['\\', 't']
    } else if c == '\n' {
        seq!['\\', 'n']
    } else if c == '\u{c}' {
        seq!['\\', 'f']
    } else if c == '\r' {
        seq!['\\', 'r']
    } else if (c as u32) < 32 {
        seq!['\\', 'u', '0', '0', hex_char(c as u32 as int / 16), hex_char(c as u32 as int % 16)]
    } else {
        seq![c]
    }
}

/// The body of a JSON string literal holding the characters of `s`.
pub open spec fn escape_str(s: Seq<char>) -> Seq<char>
    decreases s.len(),
{
    if s.len() == 0 {
        Seq::empty()
    } else {
        escape_char(s[0]) + escape_str(s.drop_first())
    }
}

/// The compact JSON text of a value: no whitespace, object members in
/// record order, numbers in plain decimal.
pub open spec fn json_text(v: JsonV) -> Seq<char>
    decreases v, 0int,
{
    match v {
        JsonV::Null => seq!['n', 'u', 'l', 'l'],
        JsonV::Bool(b) => if b {
            seq!['t', 'r', 'u', 'e']
        } else {
            seq!['f', 'a', 'l', 's', 'e']
        },
        JsonV::UInt(n) => u64_text(n),
        JsonV::Str(s) => seq!['"'] + escape_str(s) + seq!['"'],
        JsonV::Arr(items) => seq!['['] + arr_text(items) + seq![']'],
        JsonV::Obj(fields) => seq!['{'] + obj_text(fields) + seq!['}'],
    }
}

/// The text between the brackets of an array: the items' texts joined
/// with commas.
pub open spec fn arr_text(items: Seq<JsonV>) -> Seq<char>
    decreases items, 0int,
{
    if items.len() == 0 {
        Seq::empty()
    } else if items.len() == 1 {
        json_text(items[0])
    } else {
        arr_text(items.drop_last()) + seq![','] + json_text(items.last())
    }
}

/// The text of one object member: quoted key, colon, value.
pub open spec fn member_text(key: Seq<char>, v: JsonV) -> Seq<char>
    decreases v, 1int,
{
    seq!['"'] + escape_str(key) + seq!['"', ':'] + json_text(v)
}

/// The text between the braces of an object: the members' texts joined
/// with commas.
pub open spec fn obj_text(fields: Seq<(Seq<char>, JsonV)>) -> Seq<char>
    decreases fields, 2int,
{
    if fields.len() == 0 {
        Seq::empty()
    } else if fields.len() == 1 {
        member_text(fields[0].0, fields[0].1)
    } else {
        obj_text(fields.drop_last()) + seq![','] + member_text(
            fields.last().0,
            fields.last().1,
        )
    }
}

/// The character named by a single-character escape, if the escape is legal.
pub open spec fn unescape_char(e: char) -> Option<char> {
    if e == '"' {
        Some('"')
    } else if e == '\\' {
        Some('\\')
    } else if e == '/' {
        Some('/')
    } else if e == 'b' {
        Some('\u{8}')
    } else if e == 'f' {
        Some('\u{c}')
    } else if e == 'n' {
        Some('\n')
    } else if e == 'r' {
        Some('\r')
    } else if e == 't' {
        Some('\t')
    } else {
        None
    }
}

/// The value of a hexadecimal digit, either case, or -1.
pub open spec fn hex_val(c: char) -> int {
    if 48 <= c as u32 && c as u32 <= 57 {
        c as u32 - 48
    } else if 97 <= c as u32 && c as u32 <= 102 {
        c as u32 - 87
    } else if 65 <= c as u32 && c as u32 <= 70 {
        c as u32 - 55
    } else {
        -1
    }
}

/// The value of the four hexadecimal digits at `i`, or -1.
pub open spec fn hex4_val(s: Seq<char>, i: int) -> int {
    if hex_val(s[i]) < 0 || hex_val(s[i + 1]) < 0 || hex_val(s[i + 2]) < 0 || hex_val(s[i + 3])
        < 0 {
        -1
    } else {
        4096 * hex_val(s[i]) + 256 * hex_val(s[i + 1]) + 16 * hex_val(s[i + 2]) + hex_val(
            s[i + 3],
        )
    }
}

/// Parses the body of a string literal starting after the opening quote:
/// the decoded characters and the position after the closing quote.
/// `\uXXXX` escapes are accepted for ASCII code points only.
pub open spec fn jp_string_body(s: Seq<char>, i: int) -> Option<(Seq<char>, int)>
    decreases s.len() - i, 0int,
{
    if i < 0 || i >= s.len() {
        None
    } else if s[i] == '"' {
        Some((Seq::empty(), i + 1))
    } else if s[i] == '\\' {
        if i + 1 >= s.len() {
            None
        } else if s[i + 1] == 'u' {
            if s.len() - i < 6 {
                None
            } else {
                let h = hex4_val(s, i + 2);
                if h < 0 || h > 127 {
                    None
                } else {
                    match jp_string_body(s, i + 6) {
                        None => None,
                        Some((rest, j)) => Some((seq![(h as u8) as char] + rest, j)),
                    }
                }
            }
        } else {
            match unescape_char(s[i + 1]) {
                None => None,
                Some(c) => match jp_string_body(s, i + 2) {
                    None => None,
                    Some((rest, j)) => Some((seq![c] + rest, j)),
                },
            }
        }
    } else if (s[i] as u32) < 32 {
        None
    } else {
        match jp_string_body(s, i + 1) {
            None => None,
            Some((rest, j)) => Some((seq![s[i]] + rest, j)),
        }
    }
}

/// The first position at or after `i` that does not hold a decimal digit.
pub open spec fn jp_digits_end(s: Seq<char>, i: int) -> int
    decreases s.len() - i,
{
    if 0 <= i && i < s.len() && is_digit(s[i]) {
        jp_digits_end(s, i + 1)
    } else {
        i
    }
}

/// The value of the decimal digits in `s[i..j]`.
pub open spec fn jp_digits_val(s: Seq<char>, i: int, j: int) -> int
    decreases j - i,
{
    if i >= j {
        0
    } else {
        jp_digits_val(s, i, j - 1) * 10 + (s[j - 1] as u32 - 48)
    }
}

/// Parses an unsigned decimal number at `i`: maximal digit run, no
/// superfluous leading zero, value within 64 bits.
pub open spec fn jp_number(s: Seq<char>, i: int) -> Option<(JsonV, int)> {
    let e = jp_digits_end(s, i);
    if e == i {
        None
    } else if s[i] == '0' && e > i + 1 {
        None
    } else {
        let val = jp_digits_val(s, i, e);
        if val > 0xffff_ffff_ffff_ffff {
            None
        } else {
            Some((JsonV::UInt(val as u64), e))
        }
    }
}

/// Parses one JSON value at `i`: the value and the position after it.
pub open spec fn jp_value(s: Seq<char>, i: int) -> Option<(JsonV, int)>
    decreases s.len() - i, 2int,
{
    if i < 0 || i >= s.len() {
        None
    } else {
        let c = s[i];
        if c == 'n' {
            if s.len() - i >= 4 && s[i + 1] == 'u' && s[i + 2] == 'l' && s[i + 3] == 'l' {
                Some((JsonV::Null, i + 4))
            } else {
                None
            }
        } else if c == 't' {
            if s.len() - i >= 4 && s[i + 1] == 'r' && s[i + 2] == 'u' && s[i + 3] == 'e' {
                Some((JsonV::Bool(true), i + 4))
            } else {
                None
            }
        } else if c == 'f' {
            if s.len() - i >= 5 && s[i + 1] == 'a' && s[i + 2] == 'l' && s[i + 3] == 's' && s[i
                + 4] == 'e' {
                Some((JsonV::Bool(false), i + 5))
            } else {
                None
            }
        } else if c == '"' {
            match jp_string_body(s, i + 1) {
                None => None,
                Some((cs, j)) => Some((JsonV::Str(cs), j)),
            }
        } else if c == '[' {
            if i + 1 < s.len() && s[i + 1] == ']' {
                Some((JsonV::Arr(Seq::empty()), i + 2))
            } else {
                match jp_arr_items(s, i + 1) {
                    None => None,
                    Some((vs, j)) => Some((JsonV::Arr(vs), j)),
                }
            }
        } else if c == '{' {
            if i + 1 < s.len() && s[i + 1] == '}' {
                Some((JsonV::Obj(Seq::empty()), i + 2))
            } else {
                match jp_obj_members(s, i + 1) {
                    None => None,
                    Some((fs, j)) => Some((JsonV::Obj(fs), j)),
                }
            }
        } else if is_digit(c) {
            jp_number(s, i)
        } else {
            None
        }
    }
}

/// Parses the items of a non-empty array from `i` up to and including the
/// closing bracket.
pub open spec fn jp_arr_items(s: Seq<char>, i: int) -> Option<(Seq<JsonV>, int)>
    decreases s.len() - i, 3int,
{
    if i < 0 || i >= s.len() {
        None
    } else {
        match jp_value(s, i) {
            None => None,
            Some((v, j)) => if j <= i || j >= s.len() {
                None
            } else if s[j] == ']' {
                Some((seq![v], j + 1))
            } else if s[j] == ',' {
                match jp_arr_items(s, j + 1) {
                    None => None,
                    Some((vs, k)) => Some((seq![v] + vs, k)),
                }
            } else {
                None
            },
        }
    }
}

/// Parses the members of a non-empty object from `i` up to and including
/// the closing brace.
pub open spec fn jp_obj_members(s: Seq<char>, i: int) -> Option<
    (Seq<(Seq<char>, JsonV)>, int),
>
    decreases s.len() - i, 3int,
{
    if i < 0 || i >= s.len() {
        None
    } else if s[i] != '"' {
        None
    } else {
        match jp_string_body(s, i + 1) {
            None => None,
            Some((key, j)) => if j <= i + 1 || j >= s.len() {
                None
            } else if s[j] != ':' {
                None
            } else {
                match jp_value(s, j + 1) {
                    None => None,
                    Some((v, k)) => if k <= j || k >= s.len() {
                        None
                    } else if s[k] == '}' {
                        Some((seq![(key, v)], k + 1))
                    } else if s[k] == ',' {
                        match jp_obj_members(s, k + 1) {
                            None => None,
                            Some((fs, m)) => Some((seq![(key, v)] + fs, m)),
                        }
                    } else {
                        None
                    },
                }
            },
        }
    }
}

/// Parses a whole text as one JSON value with nothing following it.
pub open spec fn jparse(s: Seq<char>) -> Option<JsonV> {
    match jp_value(s, 0) {
        None => None,
        Some((v, j)) => if j == s.len() {
            Some(v)
        } else {
            None
        },
    }
}

/// Appends the decimal text of `n`.
fn write_u64(n: u64, out: &mut Vec<char>)
    ensures
        final(out)@ == old(out)@ + u64_text(n),
    decreases n,
{
    if n < 10 {
        out.push((48 + n as u8) as char);
        assert(out@ =~= old(out)@ + u64_text(n));
    } else {
        write_u64(n / 10, out);
        out.push((48 + (n % 10) as u8) as char);
        assert(out@ =~= old(out)@ + u64_text(n));
    }
}

/// Appends one character in its escaped form.
fn write_escaped_char(c: char, out: &mut Vec<char>)
    ensures
        final(out)@ == old(out)@ + escape_char(c),
{
    let u = c as u32;
    if c == '"' {
        out.push('\\');
        out.push('"');
    } else if c == '\\' {
        out.push('\\');
        out.push('\\');
    } else if u == 8 {
        out.push('\\');
        out.push('b');
    } else if u == 9 {
        out.push('\\');
        out.push('t');
    } else if u == 10 {
        out.push('\\');
        out.push('n');
    } else if u == 12 {
        out.push('\\');
        out.push('f');
    } else if u == 13 {
        out.push('\\');
        out.push('r');
    } else if u < 32 {
        out.push('\\');
        out.push('u');
        out.push('0');
        out.push('0');
        let hi = (u / 16) as u8;
        let lo = (u % 16) as u8;
        out.push(if hi < 10 { (48 + hi) as char } else { (87 + hi) as char });
        out.push(if lo < 10 { (48 + lo) as char } else { (87 + lo) as char });
    } else {
        out.push(c);
    }
    assert(out@ =~= old(out)@ + escape_char(c));
}

/// Appends the escaped body of a string literal.
fn write_escaped(s: &str, out: &mut Vec<char>)
    ensures
        final(out)@ == old(out)@ + escape_str(s@),
{
    let cs = crate::provider::str_to_chars(s);
    let n = cs.len();
    let mut i: usize = 0;
    while i < n
        invariant
            cs@ == s@,
            n == cs@.len(),
            i <= n,
            out@ == old(out)@ + escape_str(s@.take(i as int)),
        decreases n - i,
    {
        write_escaped_char(cs[i], out);
        proof {
            lemma_escape_str_snoc(s@, i as int);
            assert(s@.take(i + 1).drop_last() =~= s@.take(i as int));
        }
        i = i + 1;
    }
    proof {
        assert(s@.take(n as int) =~= s@);
    }
}

/// Unfolds `escape_str` at the last character of a prefix.
proof fn lemma_escape_str_snoc(s: Seq<char>, i: int)
    requires
        0 <= i < s.len(),
    ensures
        escape_str(s.take(i + 1)) == escape_str(s.take(i)) + escape_char(s[i]),
    decreases i,
{
    let a = s.take(i + 1);
    if i == 0 {
        assert(a.drop_first() =~= s.take(0));
        assert(escape_str(s.take(0)) =~= Seq::<char>::empty());
        assert(escape_str(a) =~= escape_char(s[0]) + escape_str(s.take(0)));
        assert(escape_str(a) =~= escape_str(s.take(0)) + escape_char(s[0]));
    } else {
        let t = s.drop_first();
        lemma_escape_str_snoc(t, i - 1);
        assert(a.drop_first() =~= t.take(i));
        assert(t.take(i - 1 + 1) =~= t.take(i));
        assert(t.take(i)[i - 1] == s[i]);
        assert(s.take(i).drop_first() =~= t.take(i - 1));
        assert(escape_str(s.take(i)) == escape_char(s[0]) + escape_str(t.take(i - 1)));
        assert(escape_str(a) == escape_char(s[0]) + escape_str(t.take(i)));
        assert(escape_str(a) =~= escape_str(s.take(i)) + escape_char(s[i]));
    }
}

/// Appends the text of a value.
fn write_value(v: &Json, out: &mut Vec<char>)
    ensures
        final(out)@ == old(out)@ + json_text(v@),
    decreases *v,
{
    match v {
        Json::Null => {
            out.push('n');
            out.push('u');
            out.push('l');
            out.push('l');
            assert(out@ =~= old(out)@ + json_text(v@));
        },
        Json::Bool(b) => {
            if *b {
                out.push('t');
                out.push('r');
                out.push('u');
                out.push('e');
            } else {
                out.push('f');
                out.push('a');
                out.push('l');
                out.push('s');
                out.push('e');
            }
            assert(out@ =~= old(out)@ + json_text(v@));
        },
        Json::UInt(n) => {
            write_u64(*n, out);
        },
        Json::Str(s) => {
            out.push('"');
            write_escaped(s.as_str(), out);
            out.push('"');
            assert(out@ =~= old(out)@ + json_text(v@));
        },
        Json::Arr(items) => {
            out.push('[');
            let n = items.len();
            let mut i: usize = 0;
            while i < n
                invariant
                    n == items@.len(),
                    i <= n,
                    *v == Json::Arr(*items),
                    view_of(*v) == JsonV::Arr(view_of_arr(items@)),
                    out@ == old(out)@ + seq!['['] + arr_text(view_of_arr(items@).take(i as int)),
                decreases n - i,
            {
                if i > 0 {
                    out.push(',');
                }
                proof {
                    vstd::std_specs::vec::axiom_vec_index_decreases(*items, i as int);
                    assert(*v == Json::Arr(*items));
                    assert(decreases_to!(*v => *items));
                    assert(decreases_to!(*items => items@[i as int]));
                    assert(decreases_to!(*v => items@[i as int]));
                }
                write_value(&items[i], out);
                proof {
                    lemma_view_of_arr_index(items@, i as int);
                    let vs = view_of_arr(items@);
                    assert(vs.take(i + 1).drop_last() =~= vs.take(i as int));
                    assert(vs.take(i + 1).last() == vs[i as int]);
                    if i > 0 {
                        assert(out@ =~= old(out)@ + seq!['['] + arr_text(vs.take(i + 1)));
                    } else {
                        assert(arr_text(vs.take(1)) == json_text(vs[0]));
                        assert(out@ =~= old(out)@ + seq!['['] + arr_text(vs.take(1)));
                    }
                }
                i = i + 1;
            }
            out.push(']');
            proof {
                let vs = view_of_arr(items@);
                lemma_view_of_arr_len(items@);
                assert(vs.take(n as int) =~= vs);
                assert(out@ =~= old(out)@ + json_text(v@));
            }
        },
        Json::Obj(fields) => {
            out.push('{');
            let n = fields.len();
            let mut i: usize = 0;
            while i < n
                invariant
                    n == fields@.len(),
                    i <= n,
                    *v == Json::Obj(*fields),
                    view_of(*v) == JsonV::Obj(view_of_obj(fields@)),
                    out@ == old(out)@ + seq!['{'] + obj_text(view_of_obj(fields@).take(i as int)),
                decreases n - i,
            {
                if i > 0 {
                    out.push(',');
                }
                out.push('"');
                write_escaped(fields[i].0.as_str(), out);
                out.push('"');
                out.push(':');
                proof {
                    vstd::std_specs::vec::axiom_vec_index_decreases(*fields, i as int);
                    assert(decreases_to!(*v => *fields));
                    assert(decreases_to!(*fields => fields@[i as int]));
                }
                write_value(&fields[i].1, out);
                proof {
                    lemma_view_of_obj_index(fields@, i as int);
                    let fs = view_of_obj(fields@);
                    assert(fs.take(i + 1).drop_last() =~= fs.take(i as int));
                    assert(fs.take(i + 1).last() == fs[i as int]);
                    assert(member_text(fs[i as int].0, fs[i as int].1) == seq!['"']
                        + escape_str(fields@[i as int].0@) + seq!['"', ':'] + json_text(
                        fields@[i as int].1@,
                    ));
                    if i > 0 {
                        assert(out@ =~= old(out)@ + seq!['{'] + obj_text(fs.take(i + 1)));
                    } else {
                        assert(obj_text(fs.take(1)) == member_text(fs[0].0, fs[0].1));
                        assert(out@ =~= old(out)@ + seq!['{'] + obj_text(fs.take(1)));
                    }
                }
                i = i + 1;
            }
            out.push('}');
            proof {
                let fs = view_of_obj(fields@);
                lemma_view_of_obj_len(fields@);
                assert(fs.take(n as int) =~= fs);
                assert(out@ =~= old(out)@ + json_text(v@));
            }
        },
    }
}

/// An array's view has one element view per element.
pub proof fn lemma_view_of_arr_len(items: Seq<Json>)
    ensures
        view_of_arr(items).len() == items.len(),
    decreases items.len(),
{
    if items.len() > 0 {
        lemma_view_of_arr_len(items.subrange(0, items.len() - 1));
    }
}

/// An object's view has one member view per member.
pub proof fn lemma_view_of_obj_len(fields: Seq<(String, Json)>)
    ensures
        view_of_obj(fields).len() == fields.len(),
    decreases fields.len(),
{
    if fields.len() > 0 {
        lemma_view_of_obj_len(fields.subrange(0, fields.len() - 1));
    }
}

/// The element views of an array prefix, one step at a time.
pub proof fn lemma_view_of_arr_index(items: Seq<Json>, i: int)
    requires
        0 <= i < items.len(),
    ensures
        view_of_arr(items).len() == items.len(),
        view_of_arr(items)[i] == view_of(items[i]),
        view_of_arr(items).take(i) == view_of_arr(items.take(i)),
    decreases items.len(),
{
    if items.len() > 0 {
        let pre = items.subrange(0, items.len() - 1);
        if i < items.len() - 1 {
            lemma_view_of_arr_index(pre, i);
            assert(pre.take(i) =~= items.take(i));
            assert(view_of_arr(items).take(i) =~= view_of_arr(pre).take(i));
        } else {
            if i > 0 {
                lemma_view_of_arr_index(pre, i - 1);
            }
            assert(pre =~= items.take(i));
            assert(view_of_arr(items).take(i) =~= view_of_arr(pre));
        }
    }
}

/// The member views of an object prefix, one step at a time.
pub proof fn lemma_view_of_obj_index(fields: Seq<(String, Json)>, i: int)
    requires
        0 <= i < fields.len(),
    ensures
        view_of_obj(fields).len() == fields.len(),
        view_of_obj(fields)[i] == (fields[i].0@, view_of(fields[i].1)),
        view_of_obj(fields).take(i) == view_of_obj(fields.take(i)),
    decreases fields.len(),
{
    if fields.len() > 0 {
        let pre = fields.subrange(0, fields.len() - 1);
        if i < fields.len() - 1 {
            lemma_view_of_obj_index(pre, i);
            assert(pre.take(i) =~= fields.take(i));
            assert(view_of_obj(fields).take(i) =~= view_of_obj(pre).take(i));
        } else {
            if i > 0 {
                lemma_view_of_obj_index(pre, i - 1);
            }
            assert(pre =~= fields.take(i));
            assert(view_of_obj(fields).take(i) =~= view_of_obj(pre));
        }
    }
}

/// Digit positions and bounds of a maximal digit run.
proof fn lemma_digits_end_props(s: Seq<char>, i: int)
    requires
        0 <= i <= s.len(),
    ensures
        i <= jp_digits_end(s, i) <= s.len(),
        forall|t: int| i <= t < jp_digits_end(s, i) ==> is_digit(#[trigger] s[t]),
        jp_digits_end(s, i) < s.len() ==> !is_digit(s[jp_digits_end(s, i)]),
    decreases s.len() - i,
{
    if i < s.len() && is_digit(s[i]) {
        lemma_digits_end_props(s, i + 1);
    }
}

/// A digit run's value is non-negative.
proof fn lemma_digits_val_nonneg(s: Seq<char>, i: int, j: int)
    requires
        i <= j,
        forall|t: int| i <= t < j ==> is_digit(#[trigger] s[t]),
    ensures
        0 <= jp_digits_val(s, i, j),
    decreases j - i,
{
    if i < j {
        lemma_digits_val_nonneg(s, i, j - 1);
        assert(is_digit(s[j - 1]));
    }
}

/// A digit run's value grows with its length.
proof fn lemma_digits_val_mono(s: Seq<char>, i: int, j: int, e: int)
    requires
        i <= j <= e,
        forall|t: int| i <= t < e ==> is_digit(#[trigger] s[t]),
    ensures
        0 <= jp_digits_val(s, i, j) <= jp_digits_val(s, i, e),
    decreases e - j,
{
    lemma_digits_val_nonneg(s, i, j);
    if j < e {
        lemma_digits_val_mono(s, i, j, e - 1);
        assert(is_digit(s[e - 1]));
        assert(jp_digits_val(s, i, e) == jp_digits_val(s, i, e - 1) * 10 + (s[e - 1] as u32
            - 48));
    }
}

/// Parses a decimal number; `i` must sit on a digit.
fn parse_number(s: &Vec<char>, i: usize) -> (r: Option<(Json, usize)>)
    requires
        i < s@.len(),
        is_digit(s@[i as int]),
    ensures
        r matches Some(p) ==> (jp_number(s@, i as int) == Some((p.0@, p.1 as int)) && i < p.1
            <= s@.len()),
        r is None ==> jp_number(s@, i as int) is None,
{
    proof {
        lemma_digits_end_props(s@, i as int);
    }
    let ghost e = jp_digits_end(s@, i as int);
    let mut k: usize = i;
    while k < s.len() && 48 <= s[k] as u32 && s[k] as u32 <= 57
        invariant
            i <= k <= s@.len(),
            jp_digits_end(s@, k as int) == e,
        decreases s@.len() - k,
    {
        k = k + 1;
    }
    assert(k as int == e);
    if s[i] == '0' && k > i + 1 {
        return None;
    }
    let mut acc: u64 = 0;
    let mut t: usize = i;
    while t < k
        invariant
            i <= t <= k,
            k as int == e,
            k <= s@.len(),
            e == jp_digits_end(s@, i as int),
            forall|q: int| i <= q < e ==> is_digit(#[trigger] s@[q]),
            acc as int == jp_digits_val(s@, i as int, t as int),
        decreases k - t,
    {
        let d = (s[t] as u32 - 48) as u64;
        if acc > 1844674407370955161 || (acc == 1844674407370955161 && d > 5) {
            proof {
                assert(jp_digits_val(s@, i as int, t + 1) == jp_digits_val(
                    s@,
                    i as int,
                    t as int,
                ) * 10 + (s@[t as int] as u32 - 48));
                lemma_digits_val_mono(s@, i as int, t + 1, e);
            }
            return None;
        }
        acc = acc * 10 + d;
        t = t + 1;
    }
    Some((Json::UInt(acc), k))
}

/// Parses a string-literal body; `i` sits after the opening quote.
fn parse_string_body(s: &Vec<char>, i: usize) -> (r: Option<(Vec<char>, usize)>)
    requires
        i <= s@.len(),
    ensures
        r matches Some(p) ==> (jp_string_body(s@, i as int) == Some((p.0@, p.1 as int)) && i
            < p.1 <= s@.len()),
        r is None ==> jp_string_body(s@, i as int) is None,
    decreases s@.len() - i,
{
    if i >= s.len() {
        return None;
    }
    let c = s[i];
    if c == '"' {
        let empty: Vec<char> = Vec::new();
        assert(empty@ + Seq::<char>::empty() =~= empty@);
        return Some((empty, i + 1));
    }
    if c == '\\' {
        if i + 1 >= s.len() {
            return None;
        }
        let e = s[i + 1];
        if e == 'u' {
            if s.len() - i < 6 {
                return None;
            }
            let h0 = hex_digit(s[i + 2]);
            let h1 = hex_digit(s[i + 3]);
            let h2 = hex_digit(s[i + 4]);
            let h3 = hex_digit(s[i + 5]);
            if h0 < 0 || h1 < 0 || h2 < 0 || h3 < 0 {
                return None;
            }
            let h: i32 = 4096 * h0 + 256 * h1 + 16 * h2 + h3;
            if h > 127 {
                return None;
            }
            match parse_string_body(s, i + 6) {
                None => None,
                Some((mut rest, j)) => {
                    rest.insert(0, (h as u8) as char);
                    Some((rest, j))
                },
            }
        } else {
            let dec = if e == '"' {
                Some('"')
            } else if e == '\\' {
                Some('\\')
            } else if e == '/' {
                Some('/')
            } else if e == 'b' {
                Some('\u{8}')
            } else if e == 'f' {
                Some('\u{c}')
            } else if e == 'n' {
                Some('\n')
            } else if e == 'r' {
                Some('\r')
            } else if e == 't' {
                Some('\t')
            } else {
                None
            };
            assert(dec == unescape_char(e));
            match dec {
                None => None,
                Some(u) => match parse_string_body(s, i + 2) {
                    None => None,
                    Some((mut rest, j)) => {
                        rest.insert(0, u);
                        Some((rest, j))
                    },
                },
            }
        }
    } else if (c as u32) < 32 {
        None
    } else {
        match parse_string_body(s, i + 1) {
            None => None,
            Some((mut rest, j)) => {
                rest.insert(0, c);
                Some((rest, j))
            },
        }
    }
}

/// The value of a hexadecimal digit, or -1.
fn hex_digit(c: char) -> (r: i32)
    ensures
        r as int == hex_val(c),
{
    let u = c as u32;
    if 48 <= u && u <= 57 {
        (u - 48) as i32
    } else if 97 <= u && u <= 102 {
        (u - 87) as i32
    } else if 65 <= u && u <= 70 {
        (u - 55) as i32
    } else {
        -1
    }
}

/// Parses one JSON value at `i`.
fn parse_value(s: &Vec<char>, i: usize) -> (r: Option<(Json, usize)>)
    requires
        i <= s@.len(),
    ensures
        r matches Some(p) ==> (jp_value(s@, i as int) == Some((p.0@, p.1 as int)) && i < p.1
            <= s@.len()),
        r is None ==> jp_value(s@, i as int) is None,
    decreases s@.len() - i, 2int,
{
    if i >= s.len() {
        return None;
    }
    let c = s[i];
    if c == 'n' {
        if s.len() - i >= 4 && s[i + 1] == 'u' && s[i + 2] == 'l' && s[i + 3] == 'l' {
            Some((Json::Null, i + 4))
        } else {
            None
        }
    } else if c == 't' {
        if s.len() - i >= 4 && s[i + 1] == 'r' && s[i + 2] == 'u' && s[i + 3] == 'e' {
            Some((Json::Bool(true), i + 4))
        } else {
            None
        }
    } else if c == 'f' {
        if s.len() - i >= 5 && s[i + 1] == 'a' && s[i + 2] == 'l' && s[i + 3] == 's' && s[i + 4]
            == 'e' {
            Some((Json::Bool(false), i + 5))
        } else {
            None
        }
    } else if c == '"' {
        match parse_string_body(s, i + 1) {
            None => None,
            Some((cs, j)) => Some((Json::Str(crate::provider::chars_to_string(cs.as_slice())), j)),
        }
    } else if c == '[' {
        if i + 1 < s.len() && s[i + 1] == ']' {
            let items: Vec<Json> = Vec::new();
            assert(view_of_arr(items@) =~= Seq::<JsonV>::empty());
            Some((Json::Arr(items), i + 2))
        } else {
            match parse_arr_items(s, i + 1) {
                None => None,
                Some((vs, j)) => Some((Json::Arr(vs), j)),
            }
        }
    } else if c == '{' {
        if i + 1 < s.len() && s[i + 1] == '}' {
            let fields: Vec<(String, Json)> = Vec::new();
            assert(view_of_obj(fields@) =~= Seq::<(Seq<char>, JsonV)>::empty());
            Some((Json::Obj(fields), i + 2))
        } else {
            match parse_obj_members(s, i + 1) {
                None => None,
                Some((fs, j)) => Some((Json::Obj(fs), j)),
            }
        }
    } else if 48 <= c as u32 && c as u32 <= 57 {
        parse_number(s, i)
    } else {
        None
    }
}

/// Parses the items of a non-empty array up to the closing bracket.
fn parse_arr_items(s: &Vec<char>, i: usize) -> (r: Option<(Vec<Json>, usize)>)
    requires
        i <= s@.len(),
    ensures
        r matches Some(p) ==> (jp_arr_items(s@, i as int) == Some((view_of_arr(p.0@), p.1 as int))
            && i < p.1 <= s@.len()),
        r is None ==> jp_arr_items(s@, i as int) is None,
    decreases s@.len() - i, 3int,
{
    if i >= s.len() {
        return None;
    }
    match parse_value(s, i) {
        None => None,
        Some((v, j)) => {
            if j >= s.len() {
                return None;
            }
            if s[j] == ']' {
                let mut items: Vec<Json> = Vec::new();
                items.push(v);
                proof {
                    lemma_view_of_arr_push_front(items@);
                    assert(items@.drop_first() =~= Seq::<Json>::empty());
                    assert(view_of_arr(Seq::<Json>::empty()) =~= Seq::<JsonV>::empty());
                    assert(items@[0] == v);
                    assert(view_of_arr(items@) =~= seq![v@]);
                }
                Some((items, j + 1))
            } else if s[j] == ',' {
                match parse_arr_items(s, j + 1) {
                    None => None,
                    Some((mut vs, k)) => {
                        let ghost tail = vs@;
                        vs.insert(0, v);
                        proof {
                            assert(vs@.drop_first() =~= tail);
                            assert(vs@[0] == v);
                            lemma_view_of_arr_push_front(vs@);
                            assert(view_of_arr(vs@) =~= seq![v@] + view_of_arr(tail));
                        }
                        Some((vs, k))
                    },
                }
            } else {
                None
            }
        },
    }
}

/// Prepending an element prepends its view.
proof fn lemma_view_of_arr_push_front(items: Seq<Json>)
    requires
        items.len() >= 1,
    ensures
        view_of_arr(items) == seq![view_of(items[0])] + view_of_arr(items.drop_first()),
    decreases items.len(),
{
    if items.len() == 1 {
        assert(items.subrange(0, 0) =~= Seq::<Json>::empty());
        assert(items.drop_first() =~= Seq::<Json>::empty());
        assert(view_of_arr(items) =~= seq![view_of(items[0])] + view_of_arr(items.drop_first()));
    } else {
        let pre = items.subrange(0, items.len() - 1);
        lemma_view_of_arr_push_front(pre);
        assert(pre.drop_first() =~= items.drop_first().subrange(0, items.drop_first().len() - 1));
        assert(pre[0] == items[0]);
        assert(items.drop_first().last() == items.last());
        assert(view_of_arr(items) =~= seq![view_of(items[0])] + view_of_arr(items.drop_first()));
    }
}

/// Prepending a member prepends its view.
proof fn lemma_view_of_obj_push_front(fields: Seq<(String, Json)>)
    requires
        fields.len() >= 1,
    ensures
        view_of_obj(fields) == seq![(fields[0].0@, view_of(fields[0].1))] + view_of_obj(
            fields.drop_first(),
        ),
    decreases fields.len(),
{
    if fields.len() == 1 {
        assert(fields.subrange(0, 0) =~= Seq::<(String, Json)>::empty());
        assert(fields.drop_first() =~= Seq::<(String, Json)>::empty());
        assert(view_of_obj(fields) =~= seq![(fields[0].0@, view_of(fields[0].1))] + view_of_obj(
            fields.drop_first(),
        ));
    } else {
        let pre = fields.subrange(0, fields.len() - 1);
        lemma_view_of_obj_push_front(pre);
        assert(pre.drop_first() =~= fields.drop_first().subrange(
            0,
            fields.drop_first().len() - 1,
        ));
        assert(pre[0] == fields[0]);
        assert(fields.drop_first().last() == fields.last());
        assert(view_of_obj(fields) =~= seq![(fields[0].0@, view_of(fields[0].1))] + view_of_obj(
            fields.drop_first(),
        ));
    }
}

/// Parses the members of a non-empty object up to the closing brace.
fn parse_obj_members(s: &Vec<char>, i: usize) -> (r: Option<(Vec<(String, Json)>, usize)>)
    requires
        i <= s@.len(),
    ensures
        r matches Some(p) ==> (jp_obj_members(s@, i as int) == Some(
            (view_of_obj(p.0@), p.1 as int),
        ) && i < p.1 <= s@.len()),
        r is None ==> jp_obj_members(s@, i as int) is None,
    decreases s@.len() - i, 3int,
{
    if i >= s.len() {
        return None;
    }
    if s[i] != '"' {
        return None;
    }
    match parse_string_body(s, i + 1) {
        None => None,
        Some((key_cs, j)) => {
            if j >= s.len() {
                return None;
            }
            if s[j] != ':' {
                return None;
            }
            let key = crate::provider::chars_to_string(key_cs.as_slice());
            match parse_value(s, j + 1) {
                None => None,
                Some((v, k)) => {
                    if k >= s.len() {
                        return None;
                    }
                    if s[k] == '}' {
                        let mut fields: Vec<(String, Json)> = Vec::new();
                        fields.push((key, v));
                        proof {
                            lemma_view_of_obj_push_front(fields@);
                            assert(fields@.drop_first() =~= Seq::<(String, Json)>::empty());
                            assert(view_of_obj(Seq::<(String, Json)>::empty()) =~= Seq::<
                                (Seq<char>, JsonV),
                            >::empty());
                            assert(fields@[0] == (key, v));
                            assert(view_of_obj(fields@) =~= seq![(key@, v@)]);
                        }
                        Some((fields, k + 1))
                    } else if s[k] == ',' {
                        match parse_obj_members(s, k + 1) {
                            None => None,
                            Some((mut fs, m)) => {
                                let ghost tail = fs@;
                                fs.insert(0, (key, v));
                                proof {
                                    assert(fs@.drop_first() =~= tail);
                                    assert(fs@[0] == (key, v));
                                    lemma_view_of_obj_push_front(fs@);
                                    assert(view_of_obj(fs@) =~= seq![(key@, v@)] + view_of_obj(
                                        tail,
                                    ));
                                }
                                Some((fs, m))
                            },
                        }
                    } else {
                        None
                    }
                },
            }
        },
    }
}

/// Parses a whole string as one JSON value.
pub fn parse_json(s: &str) -> (r: Option<Json>)
    ensures
        r matches Some(j) ==> jparse(s@) == Some(j@),
        r is None ==> jparse(s@) is None,
{
    let cs = crate::provider::str_to_chars(s);
    match parse_value(&cs, 0) {
        None => None,
        Some((v, j)) => {
            if j == cs.len() {
                Some(v)
            } else {
                None
            }
        },
    }
}

/// Copies a value, model included.
pub fn json_clone(v: &Json) -> (r: Json)
    ensures
        r@ == v@,
    decreases *v,
{
    match v {
        Json::Null => Json::Null,
        Json::Bool(b) => Json::Bool(*b),
        Json::UInt(n) => Json::UInt(*n),
        Json::Str(s) => Json::Str(s.clone()),
        Json::Arr(items) => {
            let n = items.len();
            let mut out: Vec<Json> = Vec::new();
            proof {
                assert(view_of_arr(out@) =~= Seq::<JsonV>::empty());
                lemma_view_of_arr_len(items@);
                assert(view_of_arr(items@).take(0) =~= Seq::<JsonV>::empty());
            }
            let mut i: usize = 0;
            while i < n
                invariant
                    n == items@.len(),
                    i <= n,
                    *v == Json::Arr(*items),
                    view_of(*v) == JsonV::Arr(view_of_arr(items@)),
                    view_of_arr(items@).len() == n,
                    view_of_arr(out@) == view_of_arr(items@).take(i as int),
                decreases n - i,
            {
                proof {
                    lemma_view_of_arr_index(items@, i as int);
                    vstd::std_specs::vec::axiom_vec_index_decreases(*items, i as int);
                    assert(*v == Json::Arr(*items));
                    assert(decreases_to!(*v => *items));
                    assert(decreases_to!(*items => items@[i as int]));
                    assert(decreases_to!(*v => items@[i as int]));
                }
                let c = json_clone(&items[i]);
                push_item(&mut out, c);
                proof {
                    let vs = view_of_arr(items@);
                    assert(vs.take(i + 1) =~= vs.take(i as int).push(vs[i as int]));
                }
                i = i + 1;
            }
            proof {
                assert(view_of_arr(items@).take(n as int) =~= view_of_arr(items@));
            }
            Json::Arr(out)
        },
        Json::Obj(fields) => {
            let n = fields.len();
            let mut out: Vec<(String, Json)> = Vec::new();
            proof {
                assert(view_of_obj(out@) =~= Seq::<(Seq<char>, JsonV)>::empty());
                lemma_view_of_obj_len(fields@);
                assert(view_of_obj(fields@).take(0) =~= Seq::<(Seq<char>, JsonV)>::empty());
            }
            let mut i: usize = 0;
            while i < n
                invariant
                    n == fields@.len(),
                    i <= n,
                    *v == Json::Obj(*fields),
                    view_of(*v) == JsonV::Obj(view_of_obj(fields@)),
                    view_of_obj(fields@).len() == n,
                    view_of_obj(out@) == view_of_obj(fields@).take(i as int),
                decreases n - i,
            {
                proof {
                    lemma_view_of_obj_index(fields@, i as int);
                    vstd::std_specs::vec::axiom_vec_index_decreases(*fields, i as int);
                    assert(*v == Json::Obj(*fields));
                    assert(decreases_to!(*v => *fields));
                    assert(decreases_to!(*fields => fields@[i as int]));
                }
                let c = json_clone(&fields[i].1);
                let ghost before = out@;
                let pair = (fields[i].0.clone(), c);
                proof {
                    lemma_view_of_obj_push(before, pair);
                }
                out.push(pair);
                proof {
                    let fs = view_of_obj(fields@);
                    assert(fs.take(i + 1) =~= fs.take(i as int).push(fs[i as int]));
                }
                i = i + 1;
            }
            proof {
                assert(view_of_obj(fields@).take(n as int) =~= view_of_obj(fields@));
            }
            Json::Obj(out)
        },
    }
}

/// Writes the compact JSON text of a value.
pub fn write_json(v: &Json) -> (r: String)
    ensures
        r@ == json_text(v@),
{
    let mut out: Vec<char> = Vec::new();
    write_value(v, &mut out);
    crate::provider::chars_to_string(out.as_slice())
}

/// The first member of `fields` named `name`, if any.
pub open spec fn jv_lookup(fields: Seq<(Seq<char>, JsonV)>, name: Seq<char>) -> Option<JsonV>
    decreases fields.len(),
{
    if fields.len() == 0 {
        None
    } else if fields[0].0 == name {
        Some(fields[0].1)
    } else {
        jv_lookup(fields.drop_first(), name)
    }
}

/// The member `name` of an object value, if the value is an object that
/// has it.
pub open spec fn jv_get(v: JsonV, name: Seq<char>) -> Option<JsonV> {
    match v {
        JsonV::Obj(fields) => jv_lookup(fields, name),
        _ => None,
    }
}

/// The member `name` when it is a string.
pub open spec fn jv_get_str(v: JsonV, name: Seq<char>) -> Option<Seq<char>> {
    match jv_get(v, name) {
        Some(JsonV::Str(s)) => Some(s),
        _ => None,
    }
}

/// The member `name` when it is a number.
pub open spec fn jv_get_u64(v: JsonV, name: Seq<char>) -> Option<u64> {
    match jv_get(v, name) {
        Some(JsonV::UInt(n)) => Some(n),
        _ => None,
    }
}

/// The member `name` when it is a boolean.
pub open spec fn jv_get_bool(v: JsonV, name: Seq<char>) -> Option<bool> {
    match jv_get(v, name) {
        Some(JsonV::Bool(b)) => Some(b),
        _ => None,
    }
}

/// Whether two strings hold the same characters.
pub fn str_eq(a: &str, b: &str) -> (r: bool)
    ensures
        r == (a@ == b@),
{
    let ab = a.as_bytes();
    let bb = b.as_bytes();
    if ab.len() != bb.len() {
        return false;
    }
    let n = ab.len();
    let mut i: usize = 0;
    while i < n
        invariant
            n == ab@.len() == bb@.len(),
            ab@ == vstd::utf8::encode_utf8(a@),
            bb@ == vstd::utf8::encode_utf8(b@),
            i <= n,
            forall|j: int| 0 <= j < i ==> ab@[j] == bb@[j],
        decreases n - i,
    {
        if ab[i] != bb[i] {
            return false;
        }
        i = i + 1;
    }
    proof {
        assert(ab@ =~= bb@);
        vstd::utf8::encode_utf8_decode_utf8(a@);
        vstd::utf8::encode_utf8_decode_utf8(b@);
    }
    true
}

/// Finds the first member named `name` in an object value.
pub fn json_get<'a>(v: &'a Json, name: &str) -> (r: Option<&'a Json>)
    ensures
        r matches Some(u) ==> jv_get(v@, name@) == Some(u@),
        r is None ==> jv_get(v@, name@) is None,
{
    match v {
        Json::Obj(fields) => {
            proof {
                assert(view_of_obj(fields@).skip(0) =~= view_of_obj(fields@));
            }
            let n = fields.len();
            let mut i: usize = 0;
            while i < n
                invariant
                    n == fields@.len(),
                    i <= n,
                    *v == Json::Obj(*fields),
                    v@ == JsonV::Obj(view_of_obj(fields@)),
                    jv_lookup(view_of_obj(fields@), name@) == jv_lookup(
                        view_of_obj(fields@).skip(i as int),
                        name@,
                    ),
                decreases n - i,
            {
                proof {
                    lemma_view_of_obj_len(fields@);
                    lemma_view_of_obj_index(fields@, i as int);
                }
                if str_eq(fields[i].0.as_str(), name) {
                    proof {
                        let fs = view_of_obj(fields@);
                        assert(fs.skip(i as int)[0] == fs[i as int]);
                        assert(jv_lookup(fs.skip(i as int), name@) == Some(fs[i as int].1));
                    }
                    return Some(&fields[i].1);
                }
                proof {
                    let fs = view_of_obj(fields@);
                    assert(fs.skip(i as int)[0] == fs[i as int]);
                    assert(fs.skip(i as int).drop_first() =~= fs.skip(i + 1));
                }
                i = i + 1;
            }
            proof {
                lemma_view_of_obj_len(fields@);
                assert(view_of_obj(fields@).skip(n as int) =~= Seq::<(Seq<char>, JsonV)>::empty());
            }
            None
        },
        _ => None,
    }
}

/// Finds the string member named `name`, cloned out of the value.
pub fn json_get_str(v: &Json, name: &str) -> (r: Option<String>)
    ensures
        r matches Some(s) ==> jv_get_str(v@, name@) == Some(s@),
        r is None ==> jv_get_str(v@, name@) is None,
{
    match json_get(v, name) {
        Some(Json::Str(s)) => Some(s.clone()),
        _ => None,
    }
}

/// Finds the numeric member named `name`.
pub fn json_get_u64(v: &Json, name: &str) -> (r: Option<u64>)
    ensures
        r == jv_get_u64(v@, name@),
{
    match json_get(v, name) {
        Some(Json::UInt(n)) => Some(*n),
        _ => None,
    }
}

/// Appending a member appends its view.
proof fn lemma_view_of_obj_push(fields: Seq<(String, Json)>, x: (String, Json))
    ensures
        view_of_obj(fields.push(x)) == view_of_obj(fields).push((x.0@, view_of(x.1))),
{
    assert(fields.push(x).subrange(0, fields.push(x).len() - 1) =~= fields);
}

/// Pushes one named member onto an object under construction.
pub fn push_field(fields: &mut Vec<(String, Json)>, name: &str, v: Json)
    ensures
        view_of_obj(final(fields)@) == view_of_obj(old(fields)@).push((name@, v@)),
{
    let ghost before = fields@;
    let ghost x = (name@, v@);
    let pair = (name.to_owned(), v);
    proof {
        lemma_view_of_obj_push(before, pair);
    }
    fields.push(pair);
}

/// Appending an element appends its view.
proof fn lemma_view_of_arr_push(items: Seq<Json>, x: Json)
    ensures
        view_of_arr(items.push(x)) == view_of_arr(items).push(view_of(x)),
{
    assert(items.push(x).subrange(0, items.push(x).len() - 1) =~= items);
}

/// Pushes one element onto an array under construction.
pub fn push_item(items: &mut Vec<Json>, v: Json)
    ensures
        view_of_arr(final(items)@) == view_of_arr(old(items)@).push(v@),
{
    let ghost before = items@;
    proof {
        lemma_view_of_arr_push(before, v);
    }
    items.push(v);
}

/// A JSON string value holding this text.
pub fn jstr(s: &str) -> (r: Json)
    ensures
        r@ == JsonV::Str(s@),
{
    Json::Str(s.to_owned())
}

/// The member `name` read as an optional string: absent and `null` mean
/// `None`; any other non-string shape is a mismatch.
pub open spec fn jv_opt_str(v: JsonV, name: Seq<char>) -> Option<Option<Seq<char>>> {
    match jv_get(v, name) {
        None => Some(None),
        Some(JsonV::Null) => Some(None),
        Some(JsonV::Str(s)) => Some(Some(s)),
        Some(_) => None,
    }
}

/// The member `name` read as an optional number.
pub open spec fn jv_opt_u64(v: JsonV, name: Seq<char>) -> Option<Option<u64>> {
    match jv_get(v, name) {
        None => Some(None),
        Some(JsonV::Null) => Some(None),
        Some(JsonV::UInt(n)) => Some(Some(n)),
        Some(_) => None,
    }
}

/// Reads an optional string member.
pub fn json_opt_str(v: &Json, name: &str) -> (r: Option<Option<String>>)
    ensures
        r matches Some(o) ==> (jv_opt_str(v@, name@) matches Some(so) && (o matches Some(s) ==> so
            == Some(s@)) && (o is None ==> so is None)),
        r is None ==> jv_opt_str(v@, name@) is None,
{
    match json_get(v, name) {
        None => Some(None),
        Some(Json::Null) => Some(None),
        Some(Json::Str(s)) => Some(Some(s.clone())),
        Some(_) => None,
    }
}

/// Reads an optional numeric member.
pub fn json_opt_u64(v: &Json, name: &str) -> (r: Option<Option<u64>>)
    ensures
        r == jv_opt_u64(v@, name@),
{
    match json_get(v, name) {
        None => Some(None),
        Some(Json::Null) => Some(None),
        Some(Json::UInt(n)) => Some(Some(*n)),
        Some(_) => None,
    }
}

/// Finds the boolean member named `name`.
pub fn json_get_bool(v: &Json, name: &str) -> (r: Option<bool>)
    ensures
        r == jv_get_bool(v@, name@),
{
    match json_get(v, name) {
        Some(Json::Bool(b)) => Some(*b),
        _ => None,
    }
}

/// The characters of `t` stand in `s` from position `i` on.
pub open spec fn text_at(s: Seq<char>, i: int, t: Seq<char>) -> bool {
    forall|k: int| 0 <= k < t.len() ==> s[i + k] == #[trigger] t[k]
}

/// One character of an embedded text.
proof fn lemma_text_at_index(s: Seq<char>, i: int, t: Seq<char>, k: int)
    requires
        text_at(s, i, t),
        0 <= k < t.len(),
    ensures
        s[i + k] == t[k],
{
    assert(s[i + k] == t[k]);
}

/// An embedded concatenation embeds its parts.
proof fn lemma_text_at_concat(s: Seq<char>, i: int, a: Seq<char>, b: Seq<char>)
    requires
        text_at(s, i, a + b),
    ensures
        text_at(s, i, a),
        text_at(s, i + a.len(), b),
{
    assert forall|k: int| 0 <= k < a.len() implies s[i + k] == #[trigger] a[k] by {
        assert((a + b)[k] == a[k]);
        assert(s[i + k] == (a + b)[k]);
    }
    assert forall|k: int| 0 <= k < b.len() implies s[i + a.len() + k] == #[trigger] b[k] by {
        assert((a + b)[a.len() + k] == b[k]);
        assert(s[i + (a.len() + k)] == (a + b)[a.len() + k]);
    }
}

/// Every character of a number's text is a digit.
proof fn lemma_nat_text_digits(n: nat)
    ensures
        nat_text(n).len() >= 1,
        forall|k: int| 0 <= k < nat_text(n).len() ==> is_digit(#[trigger] nat_text(n)[k]),
    decreases n,
{
    if n < 10 {
        assert(is_digit(digit_char(n as int)));
        assert(nat_text(n)[0] == digit_char(n as int));
    } else {
        lemma_nat_text_digits(n / 10);
        let pre = nat_text(n / 10);
        assert(is_digit(digit_char((n % 10) as int)));
        assert forall|k: int| 0 <= k < nat_text(n).len() implies is_digit(
            #[trigger] nat_text(n)[k],
        ) by {
            if k < pre.len() {
                assert(nat_text(n)[k] == pre[k]);
            } else {
                assert(nat_text(n)[k] == digit_char((n % 10) as int));
            }
        }
    }
}

/// A number's text starts with `0` only when the number is zero.
proof fn lemma_nat_text_no_leading_zero(n: nat)
    ensures
        nat_text(n)[0] == '0' ==> n == 0,
    decreases n,
{
    if n < 10 {
        assert(nat_text(n)[0] == digit_char(n as int));
        if n != 0 {
            assert(digit_char(n as int) as u32 == 48 + n) by {
                assert(48 + n <= 57);
            }
        }
    } else {
        lemma_nat_text_no_leading_zero(n / 10);
        assert(nat_text(n)[0] == nat_text(n / 10)[0]);
    }
}

/// The value of a number's text read back as digits.
proof fn lemma_digits_val_of_nat_text(s: Seq<char>, i: int, n: nat)
    requires
        0 <= i,
        i + nat_text(n).len() <= s.len(),
        text_at(s, i, nat_text(n)),
    ensures
        jp_digits_val(s, i, i + nat_text(n).len()) == n,
    decreases n,
{
    let t = nat_text(n);
    if n < 10 {
        lemma_text_at_index(s, i, t, 0);
        assert(jp_digits_val(s, i, i + 1) == jp_digits_val(s, i, i) * 10 + (s[i] as u32 - 48));
        assert(s[i] == digit_char(n as int));
        assert(digit_char(n as int) as u32 == 48 + n) by {
            assert(48 + n <= 57);
        }
    } else {
        let pre = nat_text(n / 10);
        assert(t == pre.push(digit_char((n % 10) as int)));
        assert(pre.push(digit_char((n % 10) as int)) =~= pre + seq![digit_char((n % 10) as int)]);
        lemma_text_at_concat(s, i, pre, seq![digit_char((n % 10) as int)]);
        lemma_digits_val_of_nat_text(s, i, n / 10);
        lemma_text_at_index(s, i + pre.len(), seq![digit_char((n % 10) as int)], 0);
        assert(s[i + t.len() - 1] == digit_char((n % 10) as int));
        assert(jp_digits_val(s, i, i + t.len()) == jp_digits_val(s, i, i + t.len() - 1) * 10 + (
        s[i + t.len() - 1] as u32 - 48));
        assert(digit_char((n % 10) as int) as u32 == 48 + n % 10) by {
            assert(48 + n % 10 <= 57);
        }
        assert(jp_digits_val(s, i, i + t.len()) == (n / 10) * 10 + n % 10);
    }
}

/// Where a maximal digit run ends.
proof fn lemma_digits_end_at(s: Seq<char>, i: int, j: int)
    requires
        0 <= i <= j <= s.len(),
        forall|k: int| i <= k < j ==> is_digit(#[trigger] s[k]),
        j == s.len() || !is_digit(s[j]),
    ensures
        jp_digits_end(s, i) == j,
    decreases j - i,
{
    if i < j {
        lemma_digits_end_at(s, i + 1, j);
    }
}

/// A number's text at `i`, followed by a non-digit, parses to the number.
proof fn lemma_number_at(s: Seq<char>, i: int, n: u64)
    requires
        0 <= i,
        i + u64_text(n).len() <= s.len(),
        text_at(s, i, u64_text(n)),
        i + u64_text(n).len() == s.len() || !is_digit(s[i + u64_text(n).len()]),
    ensures
        jp_number(s, i) == Some((JsonV::UInt(n), i + u64_text(n).len())),
{
    let t = u64_text(n);
    lemma_nat_text_digits(n as nat);
    assert forall|k: int| i <= k < i + t.len() implies is_digit(#[trigger] s[k]) by {
        lemma_text_at_index(s, i, t, k - i);
        assert(is_digit(t[k - i]));
    }
    lemma_digits_end_at(s, i, i + t.len());
    lemma_digits_val_of_nat_text(s, i, n as nat);
    lemma_nat_text_no_leading_zero(n as nat);
    lemma_text_at_index(s, i, t, 0);
    if n == 0 {
        assert(t.len() == 1);
    } else {
        assert(s[i] == t[0]);
        assert(t[0] != '0');
    }
}

/// The escaped text of a string body at `i`, followed by a closing quote,
/// parses back to the string.
proof fn lemma_string_body_at(s: Seq<char>, i: int, cs: Seq<char>)
    requires
        0 <= i,
        i + escape_str(cs).len() + 1 <= s.len(),
        text_at(s, i, escape_str(cs)),
        s[i + escape_str(cs).len()] == '"',
    ensures
        jp_string_body(s, i) == Some((cs, i + escape_str(cs).len() + 1)),
    decreases cs.len(),
{
    if cs.len() == 0 {
        assert(s[i] == '"');
    } else {
        let c = cs[0];
        let e = escape_char(c);
        let rest = cs.drop_first();
        assert(escape_str(cs) == e + escape_str(rest));
        lemma_text_at_concat(s, i, e, escape_str(rest));
        lemma_string_body_at(s, i + e.len(), rest);
        let u = c as u32;
        if c == '"' || c == '\\' || u == 8 || u == 9 || u == 10 || u == 12 || u == 13 {
            lemma_text_at_index(s, i, e, 0);
            lemma_text_at_index(s, i, e, 1);
            assert(s[i] == '\\');
            vstd::utf8::char_u32_cast(c, u);
            if u == 8 {
                vstd::utf8::char_u32_cast('\u{8}', 8);
            } else if u == 9 {
                vstd::utf8::char_u32_cast('\t', 9);
            } else if u == 10 {
                vstd::utf8::char_u32_cast('\n', 10);
            } else if u == 12 {
                vstd::utf8::char_u32_cast('\u{c}', 12);
            } else if u == 13 {
                vstd::utf8::char_u32_cast('\r', 13);
            }
            assert(unescape_char(s[i + 1]) == Some(c));
            assert(seq![c] + rest =~= cs);
        } else if u < 32 {
            lemma_text_at_index(s, i, e, 0);
            lemma_text_at_index(s, i, e, 1);
            lemma_text_at_index(s, i, e, 2);
            lemma_text_at_index(s, i, e, 3);
            lemma_text_at_index(s, i, e, 4);
            lemma_text_at_index(s, i, e, 5);
            assert(s[i] == '\\' && s[i + 1] == 'u' && s[i + 2] == '0' && s[i + 3] == '0');
            let hi = u as int / 16;
            let lo = u as int % 16;
            assert(s[i + 4] == hex_char(hi) && s[i + 5] == hex_char(lo));
            assert(hex_val('0') == 0);
            assert(hex_val(hex_char(hi)) == hi && hex_val(hex_char(lo)) == lo) by {
                assert(0 <= hi < 2 && 0 <= lo < 16);
            }
            assert(hex4_val(s, i + 2) == 16 * hi + lo);
            assert(16 * hi + lo == u);
            vstd::utf8::char_u32_cast(c, u);
            vstd::utf8::char_u32_cast((u as u8) as char, ((u as u8) as char) as u32);
            assert(((u as u8) as char) as u32 == u);
            assert(((u as u8) as char) == c);
            assert(seq![c] + rest =~= cs);
        } else {
            lemma_text_at_index(s, i, e, 0);
            assert(s[i] == c);
            assert(c != '"' && c != '\\');
            assert(seq![c] + rest =~= cs);
        }
    }
}

/// A lookup resolves to the first member bearing the name.
pub proof fn lemma_jv_lookup_at(fields: Seq<(Seq<char>, JsonV)>, name: Seq<char>, k: int)
    requires
        0 <= k < fields.len(),
        fields[k].0 == name,
        forall|j: int| 0 <= j < k ==> (#[trigger] fields[j]).0 != name,
    ensures
        jv_lookup(fields, name) == Some(fields[k].1),
    decreases k,
{
    if k > 0 {
        lemma_jv_lookup_at(fields.drop_first(), name, k - 1);
    }
}

/// A lookup misses when no member bears the name.
pub proof fn lemma_jv_lookup_none(fields: Seq<(Seq<char>, JsonV)>, name: Seq<char>)
    requires
        forall|j: int| 0 <= j < fields.len() ==> (#[trigger] fields[j]).0 != name,
    ensures
        jv_lookup(fields, name) is None,
    decreases fields.len(),
{
    if fields.len() > 0 {
        lemma_jv_lookup_none(fields.drop_first(), name);
    }
}

/// A value's text is never empty, and its first character identifies the
/// variant; it is never a delimiter.
proof fn lemma_json_text_first(v: JsonV)
    ensures
        json_text(v).len() >= 1,
        match v {
            JsonV::Null => json_text(v)[0] == 'n',
            JsonV::Bool(b) => json_text(v)[0] == (if b {
                't'
            } else {
                'f'
            }),
            JsonV::UInt(n) => is_digit(json_text(v)[0]),
            JsonV::Str(_) => json_text(v)[0] == '"',
            JsonV::Arr(_) => json_text(v)[0] == '[',
            JsonV::Obj(_) => json_text(v)[0] == '{',
        },
        json_text(v)[0] != ',' && json_text(v)[0] != ']' && json_text(v)[0] != '}',
{
    match v {
        JsonV::UInt(n) => {
            lemma_nat_text_digits(n as nat);
            assert(is_digit(json_text(v)[0]));
            assert(',' as u32 == 44 && ']' as u32 == 93 && '}' as u32 == 125);
        },
        _ => {},
    }
}

/// Unfolds an array's inner text at its first item.
proof fn lemma_arr_text_head(items: Seq<JsonV>)
    requires
        items.len() >= 1,
    ensures
        items.len() == 1 ==> arr_text(items) == json_text(items[0]),
        items.len() > 1 ==> arr_text(items) == json_text(items[0]) + seq![','] + arr_text(
            items.drop_first(),
        ),
    decreases items.len(),
{
    if items.len() == 1 {
    } else if items.len() == 2 {
        assert(items.drop_last() =~= seq![items[0]]);
        assert(items.drop_first() =~= seq![items[1]]);
        assert(arr_text(seq![items[0]]) == json_text(items[0]));
        assert(arr_text(seq![items[1]]) == json_text(items[1]));
        assert(items.last() == items[1]);
        assert(arr_text(items) =~= json_text(items[0]) + seq![','] + arr_text(items.drop_first()));
    } else {
        let dl = items.drop_last();
        lemma_arr_text_head(dl);
        assert(dl[0] == items[0]);
        assert(items.drop_first().drop_last() =~= dl.drop_first());
        assert(items.drop_first().last() == items.last());
        assert(items.drop_first().len() > 1);
        assert(arr_text(items.drop_first()) == arr_text(dl.drop_first()) + seq![','] + json_text(
            items.last(),
        ));
        assert(arr_text(items) =~= json_text(items[0]) + seq![','] + arr_text(items.drop_first()));
    }
}

/// Unfolds an object's inner text at its first member.
proof fn lemma_obj_text_head(fields: Seq<(Seq<char>, JsonV)>)
    requires
        fields.len() >= 1,
    ensures
        fields.len() == 1 ==> obj_text(fields) == member_text(fields[0].0, fields[0].1),
        fields.len() > 1 ==> obj_text(fields) == member_text(fields[0].0, fields[0].1)
            + seq![','] + obj_text(fields.drop_first()),
    decreases fields.len(),
{
    if fields.len() == 1 {
    } else if fields.len() == 2 {
        assert(fields.drop_last() =~= seq![fields[0]]);
        assert(fields.drop_first() =~= seq![fields[1]]);
        assert(obj_text(seq![fields[0]]) == member_text(fields[0].0, fields[0].1));
        assert(obj_text(seq![fields[1]]) == member_text(fields[1].0, fields[1].1));
        assert(fields.last() == fields[1]);
        assert(obj_text(fields) =~= member_text(fields[0].0, fields[0].1) + seq![','] + obj_text(
            fields.drop_first(),
        ));
    } else {
        let dl = fields.drop_last();
        lemma_obj_text_head(dl);
        assert(dl[0] == fields[0]);
        assert(fields.drop_first().drop_last() =~= dl.drop_first());
        assert(fields.drop_first().last() == fields.last());
        assert(fields.drop_first().len() > 1);
        assert(obj_text(fields.drop_first()) == obj_text(dl.drop_first()) + seq![',']
            + member_text(fields.last().0, fields.last().1));
        assert(obj_text(fields) =~= member_text(fields[0].0, fields[0].1) + seq![','] + obj_text(
            fields.drop_first(),
        ));
    }
}

/// A value's text at `i`, followed by end-of-input or a non-digit, parses
/// to the value.
proof fn lemma_value_at(s: Seq<char>, i: int, v: JsonV)
    requires
        0 <= i,
        i + json_text(v).len() <= s.len(),
        text_at(s, i, json_text(v)),
        i + json_text(v).len() == s.len() || !is_digit(s[i + json_text(v).len()]),
    ensures
        jp_value(s, i) == Some((v, i + json_text(v).len())),
    decreases v, 0int,
{
    let t = json_text(v);
    lemma_json_text_first(v);
    lemma_text_at_index(s, i, t, 0);
    match v {
        JsonV::Null => {
            lemma_text_at_index(s, i, t, 1);
            lemma_text_at_index(s, i, t, 2);
            lemma_text_at_index(s, i, t, 3);
            assert(jp_value(s, i) == Some((v, i + t.len())));
        },
        JsonV::Bool(b) => {
            lemma_text_at_index(s, i, t, 1);
            lemma_text_at_index(s, i, t, 2);
            lemma_text_at_index(s, i, t, 3);
            if !b {
                lemma_text_at_index(s, i, t, 4);
            }
            assert(jp_value(s, i) == Some((v, i + t.len())));
        },
        JsonV::UInt(n) => {
            assert('n' as u32 == 110 && 't' as u32 == 116 && 'f' as u32 == 102 && '"' as u32 == 34
                && '[' as u32 == 91 && '{' as u32 == 123);
            lemma_number_at(s, i, n);
            assert(jp_value(s, i) == Some((v, i + t.len())));
        },
        JsonV::Str(cs) => {
            let e = escape_str(cs);
            assert(t =~= seq!['"'] + (e + seq!['"']));
            lemma_text_at_concat(s, i, seq!['"'], e + seq!['"']);
            lemma_text_at_concat(s, i + 1, e, seq!['"']);
            lemma_text_at_index(s, i + 1 + e.len(), seq!['"'], 0);
            lemma_string_body_at(s, i + 1, cs);
            assert(jp_value(s, i) == Some((v, i + t.len())));
        },
        JsonV::Arr(items) => {
            let inner = arr_text(items);
            assert(t =~= seq!['['] + (inner + seq![']']));
            lemma_text_at_concat(s, i, seq!['['], inner + seq![']']);
            lemma_text_at_concat(s, i + 1, inner, seq![']']);
            lemma_text_at_index(s, i + 1 + inner.len(), seq![']'], 0);
            if items.len() == 0 {
                assert(s[i + 1] == ']');
                assert(items =~= Seq::<JsonV>::empty());
                assert(v == JsonV::Arr(Seq::<JsonV>::empty()));
            } else {
                lemma_arr_text_head(items);
                lemma_json_text_first(items[0]);
                assert(inner[0] == json_text(items[0])[0]);
                lemma_text_at_index(s, i + 1, inner, 0);
                assert(s[i + 1] != ']');
                lemma_arr_items_at(s, i + 1, items);
            }
            assert(jp_value(s, i) == Some((v, i + t.len())));
        },
        JsonV::Obj(fields) => {
            let inner = obj_text(fields);
            assert(t =~= seq!['{'] + (inner + seq!['}']));
            lemma_text_at_concat(s, i, seq!['{'], inner + seq!['}']);
            lemma_text_at_concat(s, i + 1, inner, seq!['}']);
            lemma_text_at_index(s, i + 1 + inner.len(), seq!['}'], 0);
            if fields.len() == 0 {
                assert(s[i + 1] == '}');
                assert(fields =~= Seq::<(Seq<char>, JsonV)>::empty());
                assert(v == JsonV::Obj(Seq::<(Seq<char>, JsonV)>::empty()));
            } else {
                lemma_obj_text_head(fields);
                assert(inner[0] == member_text(fields[0].0, fields[0].1)[0]);
                assert(member_text(fields[0].0, fields[0].1)[0] == '"');
                lemma_text_at_index(s, i + 1, inner, 0);
                assert(s[i + 1] != '}');
                lemma_obj_members_at(s, i + 1, fields);
            }
            assert(jp_value(s, i) == Some((v, i + t.len())));
        },
    }
}

/// A non-empty item list's text at `i`, closed by a bracket, parses to the
/// items.
proof fn lemma_arr_items_at(s: Seq<char>, i: int, items: Seq<JsonV>)
    requires
        0 <= i,
        items.len() >= 1,
        i + arr_text(items).len() + 1 <= s.len(),
        text_at(s, i, arr_text(items)),
        s[i + arr_text(items).len()] == ']',
    ensures
        jp_arr_items(s, i) == Some((items, i + arr_text(items).len() + 1)),
    decreases items, 1int,
{
    let inner = arr_text(items);
    let head = json_text(items[0]);
    lemma_json_text_first(items[0]);
    lemma_arr_text_head(items);
    assert(',' as u32 == 44 && ']' as u32 == 93);
    if items.len() == 1 {
        lemma_value_at(s, i, items[0]);
        let j = i + head.len();
        assert(s[j] == ']');
        assert(seq![items[0]] =~= items);
    } else {
        let rest = items.drop_first();
        assert(inner =~= head + (seq![','] + arr_text(rest)));
        lemma_text_at_concat(s, i, head, seq![','] + arr_text(rest));
        lemma_text_at_concat(s, i + head.len(), seq![','], arr_text(rest));
        let j = i + head.len();
        lemma_text_at_index(s, j, seq![','], 0);
        assert(s[j] == ',');
        lemma_value_at(s, i, items[0]);
        lemma_arr_items_at(s, j + 1, rest);
        assert(seq![items[0]] + rest =~= items);
    }
}

/// A non-empty member list's text at `i`, closed by a brace, parses to the
/// members.
proof fn lemma_obj_members_at(s: Seq<char>, i: int, fields: Seq<(Seq<char>, JsonV)>)
    requires
        0 <= i,
        fields.len() >= 1,
        i + obj_text(fields).len() + 1 <= s.len(),
        text_at(s, i, obj_text(fields)),
        s[i + obj_text(fields).len()] == '}',
    ensures
        jp_obj_members(s, i) == Some((fields, i + obj_text(fields).len() + 1)),
    decreases fields, 1int,
{
    let inner = obj_text(fields);
    let key = fields[0].0;
    let val = fields[0].1;
    let head = member_text(key, val);
    let e = escape_str(key);
    let vt = json_text(val);
    lemma_obj_text_head(fields);
    lemma_json_text_first(val);
    assert(',' as u32 == 44 && '}' as u32 == 125 && ':' as u32 == 58);
    let tail_text: Seq<char> = if fields.len() == 1 {
        Seq::empty()
    } else {
        seq![','] + obj_text(fields.drop_first())
    };
    assert(inner =~= head + tail_text);
    lemma_text_at_concat(s, i, head, tail_text);
    // split the member itself: '"' + e + '"' + ':' + vt
    assert(head =~= seq!['"'] + (e + (seq!['"', ':'] + vt)));
    lemma_text_at_concat(s, i, seq!['"'], e + (seq!['"', ':'] + vt));
    lemma_text_at_concat(s, i + 1, e, seq!['"', ':'] + vt);
    lemma_text_at_concat(s, i + 1 + e.len(), seq!['"', ':'], vt);
    lemma_text_at_index(s, i, seq!['"'], 0);
    lemma_text_at_index(s, i + 1 + e.len(), seq!['"', ':'], 0);
    lemma_text_at_index(s, i + 1 + e.len(), seq!['"', ':'], 1);
    assert(s[i] == '"');
    assert(s[i + 1 + e.len()] == '"');
    assert(s[i + 1 + e.len() + 1] == ':');
    lemma_string_body_at(s, i + 1, key);
    let j = i + 1 + e.len() + 1;
    let k = j + 1 + vt.len();
    if fields.len() == 1 {
        assert(s[k] == '}');
        lemma_value_at(s, j + 1, val);
        assert(seq![(key, val)] =~= fields);
    } else {
        let rest = fields.drop_first();
        lemma_text_at_concat(s, i + head.len(), seq![','], obj_text(rest));
        lemma_text_at_index(s, i + head.len(), seq![','], 0);
        assert(s[k] == ',');
        lemma_value_at(s, j + 1, val);
        lemma_obj_members_at(s, k + 1, rest);
        assert(seq![(key, val)] + rest =~= fields);
    }
}

/// Parsing inverts writing: the compact text of any value parses back to
/// exactly that value.
pub proof fn lemma_jparse_inverts_json_text(v: JsonV)
    ensures
        jparse(json_text(v)) == Some(v),
{
    let s = json_text(v);
    lemma_json_text_first(v);
    assert forall|k: int| 0 <= k < s.len() implies s[0 + k] == #[trigger] s[k] by {}
    assert(text_at(s, 0, s));
    lemma_value_at(s, 0, v);
}

} // verus!

//! The checks that account input is held to: blank text and password length.
use vstd::prelude::*;
use vstd::utf8::encode_utf8;

verus! {

/// The characters with Unicode's `White_Space` property, which
/// `char::is_whitespace` and `str::trim` go by.
pub open spec fn is_white_space(c: char) -> bool {
    let v = c as u32;
    ||| 0x9 <= v <= 0xD
    ||| v == 0x20
    ||| v == 0x85
    ||| v == 0xA0
    ||| v == 0x1680
    ||| 0x2000 <= v <= 0x200A
    ||| v == 0x2028
    ||| v == 0x2029
    ||| v == 0x202F
    ||| v == 0x205F
    ||| v == 0x3000
}

/// Text that is empty once trimmed: every character of it is white space.
pub open spec fn is_blank(s: Seq<char>) -> bool {
    forall|i: int| 0 <= i < s.len() ==> is_white_space(#[trigger] s[i])
}

/// The length of a text in bytes, as `str::len` gives it.
pub open spec fn byte_len(s: Seq<char>) -> usize {
    encode_utf8(s).len() as usize
}

/// The view of an optional text.
pub open spec fn opt_text(s: Option<&str>) -> Option<Seq<char>> {
    match s {
        Some(t) => Some(t@),
        None => None,
    }
}

/// Whether `c` has the `White_Space` property.
pub fn is_white_space_char(c: char) -> (b: bool)
    ensures
        b == is_white_space(c),
{
    let v: u32 = c as u32;
    (0x9 <= v && v <= 0xD) || v == 0x20 || v == 0x85 || v == 0xA0 || v == 0x1680 || (0x2000 <= v
        && v <= 0x200A) || v == 0x2028 || v == 0x2029 || v == 0x202F || v == 0x205F || v == 0x3000
}

/// Whether `s.trim()` is empty.
pub fn blank(s: &str) -> (b: bool)
    ensures
        b == is_blank(s@),
{
    broadcast use vstd::string::axiom_spec_iter;
    let mut all_white: bool = true;
    for c in iter: s.chars()
        invariant
            iter.seq() == s@,
            all_white == (forall|j: int| 0 <= j < iter.index() ==> is_white_space(#[trigger] s@[j])),
    {
        if !is_white_space_char(c) {
            all_white = false;
        }
    }
    all_white
}

/// The byte length of `s`.
pub fn text_byte_len(s: &str) -> (n: usize)
    ensures
        n == byte_len(s@),
{
    s.len()
}

} // verus!

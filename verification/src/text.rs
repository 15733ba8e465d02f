//! Small verified helpers over strings.
use vstd::prelude::*;
use vstd::string::StrSliceExecFns;

verus! {

/// `suf` is a suffix of `s`.
pub open spec fn has_suffix(s: Seq<char>, suf: Seq<char>) -> bool {
    s.len() >= suf.len() && s.subrange(s.len() - suf.len(), s.len() as int) == suf
}

/// Character-for-character equality of two string slices.
pub fn str_eq(a: &str, b: &str) -> (r: bool)
    ensures
        r == (a@ == b@),
{
    let la = a.unicode_len();
    let lb = b.unicode_len();
    if la != lb {
        return false;
    }
    let mut i: usize = 0;
    while i < la
        invariant
            la == a@.len(),
            lb == b@.len(),
            la == lb,
            i <= la,
            forall|j: int| 0 <= j < i ==> a@[j] == b@[j],
        decreases la - i,
    {
        if a.get_char(i) != b.get_char(i) {
            return false;
        }
        i = i + 1;
    }
    proof {
        assert(a@ =~= b@);
    }
    true
}

/// A whitespace character outside the ASCII range (the Unicode
/// `White_Space` code points above `U+007F`: next line, no-break space,
/// ogham space mark, the en-quad .. hair-space run, the line and paragraph
/// separators, the narrow no-break space, the medium mathematical space
/// and the ideographic space).
pub open spec fn spec_wide_whitespace(c: char) -> bool {
    (c as u32) == 0x85 || (c as u32) == 0xA0 || (c as u32) == 0x1680 || (0x2000 <= (c as u32)
        && (c as u32) <= 0x200A) || (c as u32) == 0x2028 || (c as u32) == 0x2029 || (c as u32)
        == 0x202F || (c as u32) == 0x205F || (c as u32) == 0x3000
}

/// A whitespace character inside the ASCII range (the Unicode
/// `White_Space` code points up to `U+007F`).
pub open spec fn spec_ascii_whitespace(c: char) -> bool {
    (c as u32) == 0x09 || (c as u32) == 0x0A || (c as u32) == 0x0B || (c as u32) == 0x0C || (
    c as u32) == 0x0D || (c as u32) == 0x20
}

/// A Unicode `White_Space` character.
pub open spec fn spec_whitespace(c: char) -> bool {
    spec_ascii_whitespace(c) || spec_wide_whitespace(c)
}

/// Whether the character is Unicode whitespace.
pub fn char_is_whitespace(c: char) -> (r: bool)
    ensures
        r == spec_whitespace(c),
{
    let u = c as u32;
    u == 0x09 || u == 0x0A || u == 0x0B || u == 0x0C || u == 0x0D || u == 0x20 || u == 0x85 || u
        == 0xA0 || u == 0x1680 || (0x2000 <= u && u <= 0x200A) || u == 0x2028 || u == 0x2029 || u
        == 0x202F || u == 0x205F || u == 0x3000
}

/// Whether the character is whitespace outside the ASCII range.
pub fn char_is_wide_whitespace(c: char) -> (r: bool)
    ensures
        r == spec_wide_whitespace(c),
{
    let u = c as u32;
    u == 0x85 || u == 0xA0 || u == 0x1680 || (0x2000 <= u && u <= 0x200A) || u == 0x2028 || u
        == 0x2029 || u == 0x202F || u == 0x205F || u == 0x3000
}

/// Whether `s` ends with the suffix `suf`.
pub fn str_ends_with(s: &str, suf: &str) -> (r: bool)
    ensures
        r == has_suffix(s@, suf@),
{
    let ls = s.unicode_len();
    let lsuf = suf.unicode_len();
    if ls < lsuf {
        return false;
    }
    let tail = s.substring_char(ls - lsuf, ls);
    str_eq(tail, suf)
}

} // verus!

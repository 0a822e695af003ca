//! Wide (UTF-16), NUL-terminated strings, the form in which Windows takes
//! file names.

use vstd::prelude::*;

verus! {

/// The UTF-16 code units of one character: the character itself when it lies
/// in the basic multilingual plane, else its surrogate pair.
pub open spec fn utf16_units(c: char) -> Seq<u16> {
    let v = c as u32;
    if v < 0x10000 {
        seq![v as u16]
    } else {
        let w = v - 0x10000;
        seq![(0xD800 + w / 0x400) as u16, (0xDC00 + w % 0x400) as u16]
    }
}

/// The UTF-16 encoding of a character sequence.
pub open spec fn utf16_encode(s: Seq<char>) -> Seq<u16>
    decreases s.len(),
{
    if s.len() == 0 {
        Seq::empty()
    } else {
        utf16_encode(s.drop_last()) + utf16_units(s.last())
    }
}

/// The UTF-16 encoding of a character sequence followed by a terminating NUL.
pub open spec fn wide_null_of(s: Seq<char>) -> Seq<u16> {
    utf16_encode(s).push(0u16)
}

/// Encodes `s` as UTF-16 and appends a NUL code unit.
pub fn wide_null(s: &str) -> (out: Vec<u16>)
    ensures
        out@ == wide_null_of(s@),
{
    broadcast use vstd::string::group_string_axioms;

    let mut output: Vec<u16> = Vec::new();
    for c in it: s.chars()
        invariant
            it.seq() == s@,
            output@ == utf16_encode(s@.take(it.index() as int)),
    {
        assert(s@.take(it.index() + 1).drop_last() == s@.take(it.index() as int));
        let ghost before = output@;
        proof {
            vstd::utf8::char_is_scalar(c);
        }
        let v: u32 = c as u32;
        if v < 0x10000 {
            output.push(v as u16);
        } else {
            let w: u32 = v - 0x10000;
            output.push((0xD800 + w / 0x400) as u16);
            output.push((0xDC00 + w % 0x400) as u16);
        }
        assert(c == s@[it.index() as int]);
        assert(output@ == before + utf16_units(c));
    }
    assert(s@.take(s@.len() as int) == s@);
    output.push(0);
    output
}

} // verus!

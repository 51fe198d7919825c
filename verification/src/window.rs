//! Window-handle helpers of the Win32 side that compute only.

use vstd::prelude::*;

verus! {

/// UTF-16 code units of one character (a surrogate pair above the BMP).
pub open spec fn utf16_units(c: char) -> Seq<u16> {
    let v = (c as u32) as int;
    if v < 0x10000 {
        seq![v as u16]
    } else {
        seq![(0xD800 + (v - 0x10000) / 1024) as u16, (0xDC00 + (v - 0x10000) % 1024) as u16]
    }
}

/// UTF-16 of a character sequence.
pub open spec fn utf16_of(s: Seq<char>) -> Seq<u16>
    decreases s.len(),
{
    if s.len() == 0 {
        Seq::empty()
    } else {
        utf16_of(s.drop_last()) + utf16_units(s.last())
    }
}

/// A NUL-terminated UTF-16 string, as wide-character Win32 calls take.
pub fn to_wide(s: &str) -> (r: Vec<u16>)
    ensures
        r@ == utf16_of(s@).push(0),
{
    let chars = crate::text::chars_of(s);
    let mut out: Vec<u16> = Vec::new();
    let mut i: usize = 0;
    while i < chars.len()
        invariant
            i <= chars.len(),
            chars@ == s@,
            out@ == utf16_of(s@.subrange(0, i as int)),
        decreases chars.len() - i,
    {
        let c = chars[i];
        let v = c as u32;
        let ghost before = out@;
        assert(s@.subrange(0, i + 1).drop_last() =~= s@.subrange(0, i as int));
        assert(s@.subrange(0, i + 1).last() == c);
        proof {
            vstd::utf8::char_is_scalar(c);
        }
        assert(v <= 0x10FFFF);
        if v < 0x10000 {
            out.push(v as u16);
        } else {
            let w = v - 0x10000;
            assert(w / 1024 < 1024);
            let hi: u16 = (0xD800 + w / 1024) as u16;
            let lo: u16 = (0xDC00 + w % 1024) as u16;
            assert(hi as int == 0xD800 + (v as int - 0x10000) / 1024);
            assert(lo as int == 0xDC00 + (v as int - 0x10000) % 1024);
            out.push(hi);
            out.push(lo);
        }
        assert(out@ =~= before + utf16_units(c));
        i = i + 1;
    }
    assert(s@.subrange(0, chars.len() as int) =~= s@);
    out.push(0);
    out
}

} // verus!

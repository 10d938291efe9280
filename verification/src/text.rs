//! Text for the platform: window titles as null-terminated UTF-16.

use vstd::prelude::*;

verus! {

/// The UTF-16 code units of one character: the character itself below
/// U+10000, a surrogate pair from there on.
pub open spec fn utf16_units(c: char) -> Seq<u16> {
    let point = c as int;
    if point < 0x1_0000 {
        seq![point as u16]
    } else {
        seq![
            (0xD800 + (point - 0x1_0000) / 0x400) as u16,
            (0xDC00 + (point - 0x1_0000) % 0x400) as u16,
        ]
    }
}

/// The UTF-16 encoding of a text: the units of its characters, in order.
pub open spec fn utf16(text: Seq<char>) -> Seq<u16>
    decreases text.len(),
{
    if text.len() == 0 {
        Seq::empty()
    } else {
        utf16(text.drop_last()) + utf16_units(text.last())
    }
}

/// A text as the platform takes it: UTF-16 with a terminating zero.
pub open spec fn wide_string(text: Seq<char>) -> Seq<u16> {
    utf16(text).push(0)
}

/// Appends the UTF-16 code units of one character.
fn push_utf16(wide: &mut Vec<u16>, c: char)
    ensures
        final(wide)@ == old(wide)@ + utf16_units(c),
{
    let point: u32 = c as u32;
    if point < 0x1_0000 {
        wide.push(point as u16);
    } else {
        let offset: u32 = point - 0x1_0000;
        wide.push((0xD800 + offset / 0x400) as u16);
        wide.push((0xDC00 + offset % 0x400) as u16);
    }
    assert(wide@ =~= old(wide)@ + utf16_units(c));
}

/// Encodes a window title as null-terminated UTF-16.
pub fn wide_title(title: &str) -> (wide: Vec<u16>)
    ensures
        wide@ == wide_string(title@),
{
    let mut wide: Vec<u16> = Vec::new();
    for c in chars: title.chars()
        invariant
            chars.seq() == title@,
            wide@ == utf16(title@.take(chars.index() as int)),
    {
        proof {
            assert(title@.take(chars.index() + 1).drop_last() =~= title@.take(
                chars.index() as int,
            ));
            assert(title@.take(chars.index() + 1).last() == c);
        }
        push_utf16(&mut wide, c);
    }
    proof {
        assert(title@.take(title@.len() as int) =~= title@);
    }
    wide.push(0);
    wide
}

} // verus!

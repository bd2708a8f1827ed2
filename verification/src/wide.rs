//! Wide strings: text as the operating system takes it, in UTF-16 code units
//! with a terminating zero.

use vstd::prelude::*;

verus! {

/// The UTF-16 code units of one character: the scalar value itself below
/// `0x10000`, a high and a low surrogate above.
pub open spec fn units_of(c: char) -> Seq<u16> {
    let scalar = c as int;
    if scalar < 0x10000 {
        seq![scalar as u16]
    } else {
        seq![
            (0xD800 + (scalar - 0x10000) / 0x400) as u16,
            (0xDC00 + (scalar - 0x10000) % 0x400) as u16,
        ]
    }
}

/// The UTF-16 encoding of `text`: the units of its characters, in order.
pub open spec fn utf16(text: Seq<char>) -> Seq<u16>
    decreases text.len(),
{
    if text.len() == 0 {
        Seq::empty()
    } else {
        utf16(text.drop_last()) + units_of(text.last())
    }
}

/// `text` as a wide string: its UTF-16 encoding followed by one zero unit.
pub open spec fn wide_string(text: Seq<char>) -> Seq<u16> {
    utf16(text).push(0u16)
}

/// The encoding of a prefix grows by the units of the next character.
pub proof fn lemma_utf16_step(text: Seq<char>, i: int)
    requires
        0 <= i < text.len(),
    ensures
        utf16(text.take(i + 1)) == utf16(text.take(i)) + units_of(text[i]),
{
    let prefix = text.take(i + 1);
    assert(prefix.drop_last() =~= text.take(i));
    assert(prefix.last() == text[i]);
}

/// The scalar value of `c`, which is at most `0x10FFFF`.
fn scalar_value(c: char) -> (scalar: u32)
    ensures
        scalar == c as int,
        scalar <= 0x10FFFF,
{
    c as u32
}

/// Encodes `text` as a wide string.
pub fn to_wide(text: &str) -> (wide: Vec<u16>)
    ensures
        wide@ == wide_string(text@),
{
    let mut wide: Vec<u16> = Vec::new();
    for c in iter: text.chars()
        invariant
            iter.seq() == text@,
            wide@ == utf16(text@.take(iter.index() as int)),
    {
        let scalar: u32 = scalar_value(c);
        proof {
            lemma_utf16_step(text@, iter.index() as int);
        }
        if scalar < 0x10000 {
            wide.push(scalar as u16);
            assert(wide@ =~= utf16(text@.take(iter.index() as int)) + units_of(c));
        } else {
            let offset: u32 = scalar - 0x10000;
            let high: u32 = 0xD800 + offset / 0x400;
            let low: u32 = 0xDC00 + offset % 0x400;
            wide.push(high as u16);
            wide.push(low as u16);
            assert(wide@ =~= utf16(text@.take(iter.index() as int)) + units_of(c));
        }
    }
    assert(text@.take(text@.len() as int) =~= text@);
    wide.push(0u16);
    wide
}

} // verus!

//! Text in UTF-16, as Windows takes it.

use vstd::prelude::*;

verus! {

/// The code units of one character: one, or a surrogate pair.
pub open spec fn units_of(c: char) -> Seq<u16> {
    let code = c as u32;
    if code < 0x1_0000 {
        seq![code as u16]
    } else {
        seq![(0xd800 + (code - 0x1_0000) / 0x400) as u16, (0xdc00 + (code - 0x1_0000) % 0x400) as u16]
    }
}

/// The code units of a text.
pub open spec fn utf16(s: Seq<char>) -> Seq<u16>
    decreases s.len(),
{
    if s.len() == 0 {
        Seq::empty()
    } else {
        utf16(s.drop_last()) + units_of(s.last())
    }
}

/// The code units of a text.
pub fn to_utf16(s: &str) -> (r: Vec<u16>)
    ensures
        r@ == utf16(s@),
{
    let mut out: Vec<u16> = Vec::new();
    for c in it: s.chars()
        invariant
            it.seq() == s@,
            out@ == utf16(s@.take(it.index() as int)),
    {
        proof {
            let n = it.index() as int;
            assert(s@.take(n + 1).drop_last() =~= s@.take(n));
            assert(s@.take(n + 1).last() == c);
        }
        let code: u32 = c as u32;
        if code < 0x1_0000 {
            out.push(code as u16);
        } else {
            let rest: u32 = code - 0x1_0000;
            assert(rest < 0x10_0000) by {
                vstd::utf8::char_is_scalar(c);
            }
            out.push((0xd800 + rest / 0x400) as u16);
            out.push((0xdc00 + rest % 0x400) as u16);
        }
    }
    proof {
        assert(s@.take(s@.len() as int) =~= s@);
    }
    out
}

/// The two bytes of each code unit, the lower first.
pub open spec fn little_endian(units: Seq<u16>) -> Seq<u8>
    decreases units.len(),
{
    if units.len() == 0 {
        Seq::empty()
    } else {
        little_endian(units.drop_last()).push((units.last() % 256) as u8).push(
            (units.last() / 256) as u8,
        )
    }
}

/// The two bytes of each code unit, the lower first.
pub fn to_little_endian(units: &Vec<u16>) -> (r: Vec<u8>)
    ensures
        r@ == little_endian(units@),
{
    let mut out: Vec<u8> = Vec::new();
    let mut i: usize = 0;
    while i < units.len()
        invariant
            i <= units@.len(),
            out@ == little_endian(units@.take(i as int)),
        decreases units@.len() - i,
    {
        let unit: u16 = units[i];
        out.push((unit % 256) as u8);
        out.push((unit / 256) as u8);
        proof {
            assert(units@.take(i + 1).drop_last() =~= units@.take(i as int));
        }
        i += 1;
    }
    proof {
        assert(units@.take(i as int) =~= units@);
    }
    out
}

/// How many code units stand before the first zero, or in all.
pub fn length_until_nul(units: &Vec<u16>) -> (r: usize)
    ensures
        r <= units@.len(),
        forall|i: int| 0 <= i < r ==> #[trigger] units@[i] != 0,
        r < units@.len() ==> units@[r as int] == 0,
{
    let mut i: usize = 0;
    while i < units.len() && units[i] != 0
        invariant
            i <= units@.len(),
            forall|j: int| 0 <= j < i ==> #[trigger] units@[j] != 0,
        decreases units@.len() - i,
    {
        i += 1;
    }
    i
}

/// A character below 0x10000 is one unit, its own number; any other is a pair, from which its number
/// is read back.
pub proof fn what_a_character_is_made_of(c: char)
    ensures
        (c as u32) < 0x1_0000 ==> units_of(c) == seq![c as u16],
        c as u32 >= 0x1_0000 ==> {
            let units = units_of(c);
            &&& units.len() == 2
            &&& 0xd800 <= units[0] < 0xdc00
            &&& 0xdc00 <= units[1] < 0xe000
            &&& c as u32 == 0x1_0000 + (units[0] - 0xd800) * 0x400 + (units[1] - 0xdc00)
        },
{
}

/// A text is made of the units of its characters, one after the other.
pub proof fn units_follow_the_characters(a: Seq<char>, b: Seq<char>)
    ensures
        utf16(a + b) == utf16(a) + utf16(b),
    decreases b.len(),
{
    if b.len() == 0 {
        assert(a + b =~= a);
        assert(utf16(b) == Seq::<u16>::empty());
        assert(utf16(a) + Seq::<u16>::empty() =~= utf16(a));
    } else {
        units_follow_the_characters(a, b.drop_last());
        assert((a + b).drop_last() =~= a + b.drop_last());
        assert((a + b).last() == b.last());
        assert(utf16(a) + (utf16(b.drop_last()) + units_of(b.last())) =~= (utf16(a) + utf16(
            b.drop_last(),
        )) + units_of(b.last()));
    }
}

/// Each unit is two bytes, the lower first.
pub proof fn the_lower_byte_comes_first(units: Seq<u16>, i: int)
    requires
        0 <= i < units.len(),
    ensures
        little_endian(units).len() == 2 * units.len(),
        units[i] == little_endian(units)[2 * i] + 0x100 * little_endian(units)[2 * i + 1],
    decreases units.len(),
{
    let front = units.drop_last();
    if front.len() > 0 {
        the_lower_byte_comes_first(front, if i < front.len() {
            i
        } else {
            0
        });
    } else {
        assert(little_endian(front) == Seq::<u8>::empty());
    }
    if i < front.len() {
        assert(front[i] == units[i]);
    }
}

} // verus!

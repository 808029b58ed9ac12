//! Keystroke sequences that type text or erase characters, for platforms
//! that inject input as key events (UTF-16 units, key down then key up).

use vstd::prelude::*;
use crate::chars::chars_of;

verus! {

/// Virtual-key code of Backspace.
pub const VK_BACK: u16 = 0x08;

/// One synthesized keyboard event.
#[derive(Clone, Copy, PartialEq, Eq, Debug)]
pub struct KeyInput {
    /// Virtual-key code; 0 for a Unicode event.
    pub vk: u16,
    /// UTF-16 unit of a Unicode event; 0 otherwise.
    pub scan: u16,
    /// Whether the event carries a UTF-16 unit rather than a key.
    pub unicode: bool,
    /// Whether this is the release of the key.
    pub key_up: bool,
}

/// UTF-16 encoding of one character.
pub open spec fn utf16_units(c: char) -> Seq<u16> {
    let v = c as u32 as int;
    if v < 0x10000 {
        seq![v as u16]
    } else {
        let w = v - 0x10000;
        seq![(0xd800 + w / 0x400) as u16, (0xdc00 + w % 0x400) as u16]
    }
}

/// UTF-16 encoding of a character sequence, as `str::encode_utf16` gives it.
pub open spec fn utf16_of(s: Seq<char>) -> Seq<u16>
    decreases s.len(),
{
    if s.len() == 0 {
        Seq::empty()
    } else {
        utf16_of(s.drop_last()) + utf16_units(s.last())
    }
}

/// Press and release of each unit in turn.
pub open spec fn unicode_events(units: Seq<u16>) -> Seq<KeyInput> {
    Seq::new(
        (2 * units.len()) as nat,
        |j: int| KeyInput { vk: 0, scan: units[j / 2], unicode: true, key_up: j % 2 == 1 },
    )
}

/// Press and release of Backspace, `count` times.
pub open spec fn backspace_events(count: nat) -> Seq<KeyInput> {
    Seq::new(
        2 * count,
        |j: int| KeyInput { vk: VK_BACK, scan: 0, unicode: false, key_up: j % 2 == 1 },
    )
}

/// Event that presses (`key_down`) or releases the UTF-16 unit `ch`.
pub fn create_unicode_input(ch: u16, key_down: bool) -> (r: KeyInput)
    ensures
        r == (KeyInput { vk: 0, scan: ch, unicode: true, key_up: !key_down }),
{
    KeyInput { vk: 0, scan: ch, unicode: true, key_up: !key_down }
}

/// Event that presses (`key_down`) or releases virtual key `vk`.
pub fn create_key_input(vk: u16, key_down: bool) -> (r: KeyInput)
    ensures
        r == (KeyInput { vk, scan: 0, unicode: false, key_up: !key_down }),
{
    KeyInput { vk, scan: 0, unicode: false, key_up: !key_down }
}

/// UTF-16 units of one character.
fn encode_char(c: char, out: &mut Vec<u16>)
    ensures
        final(out)@ == old(out)@ + utf16_units(c),
{
    let v = c as u32;
    if v < 0x10000 {
        out.push(v as u16);
    } else {
        let w = v - 0x10000;
        out.push((0xd800 + w / 0x400) as u16);
        out.push((0xdc00 + w % 0x400) as u16);
    }
    assert(final(out)@ =~= old(out)@ + utf16_units(c));
}

/// UTF-16 units of `text`.
pub fn encode_utf16(text: &str) -> (r: Vec<u16>)
    ensures
        r@ == utf16_of(text@),
{
    let cs = chars_of(text);
    let mut out: Vec<u16> = Vec::new();
    let mut i: usize = 0;
    while i < cs.len()
        invariant
            cs@ == text@,
            i <= cs@.len(),
            out@ == utf16_of(cs@.take(i as int)),
        decreases cs@.len() - i,
    {
        encode_char(cs[i], &mut out);
        assert(cs@.take(i + 1).drop_last() =~= cs@.take(i as int));
        i += 1;
    }
    assert(cs@.take(cs@.len() as int) =~= cs@);
    out
}

/// Events that type `text`: each UTF-16 unit pressed and released.
pub fn text_input_events(text: &str) -> (r: Vec<KeyInput>)
    ensures
        r@ == unicode_events(utf16_of(text@)),
{
    let units = encode_utf16(text);
    let mut out: Vec<KeyInput> = Vec::new();
    let mut i: usize = 0;
    while i < units.len()
        invariant
            i <= units@.len(),
            out@.len() == 2 * i,
            forall|j: int| 0 <= j < 2 * i ==> out@[j] == unicode_events(units@)[j],
        decreases units@.len() - i,
    {
        out.push(create_unicode_input(units[i], true));
        out.push(create_unicode_input(units[i], false));
        proof {
            assert forall|j: int| 0 <= j < 2 * (i + 1) implies out@[j] == unicode_events(units@)[j] by {
                if j >= 2 * i {
                    assert(j / 2 == i);
                }
            }
        }
        i += 1;
    }
    assert(out@ =~= unicode_events(units@));
    out
}

/// Events that erase `count` characters: Backspace pressed and released
/// `count` times.
pub fn backspace_input_events(count: usize) -> (r: Vec<KeyInput>)
    requires
        count <= usize::MAX / 2,
    ensures
        r@ == backspace_events(count as nat),
{
    let mut out: Vec<KeyInput> = Vec::new();
    let mut i: usize = 0;
    while i < count
        invariant
            i <= count <= usize::MAX / 2,
            out@.len() == 2 * i,
            forall|j: int| 0 <= j < 2 * i ==> out@[j] == backspace_events(count as nat)[j],
        decreases count - i,
    {
        out.push(create_key_input(VK_BACK, true));
        out.push(create_key_input(VK_BACK, false));
        i += 1;
    }
    assert(out@ =~= backspace_events(count as nat));
    out
}

} // verus!

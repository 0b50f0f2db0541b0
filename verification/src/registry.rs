//! Button identities and the rule by which each is decoded from a report.

use vstd::prelude::*;

verus! {

/// Number of bytes in one raw input report.
pub const REPORT_LEN: usize = 256;

/// Offset in a report of the byte with the face, shoulder and trigger bits.
pub const BUTTONS_OFFSET: usize = 8;

/// Offset in a report of the byte with the directional bits.
pub const DPAD_OFFSET: usize = 9;

/// The twelve buttons of the controller.
#[derive(Clone, Copy, Debug, PartialEq, Eq, Hash, Structural)]
pub enum Button {
    A,
    B,
    X,
    Y,
    UP,
    DOWN,
    LEFT,
    RIGHT,
    LB,
    LT,
    RB,
    RT,
}

/// Decoding rule of one button: a bit mask and the offset of the byte in a
/// report to which the mask applies.
#[derive(Clone, Copy, Debug, PartialEq, Eq, Structural)]
pub struct KeyInfo {
    pub mask: u8,
    pub index: usize,
}

impl KeyInfo {
    /// The rule addresses a byte inside a report.
    pub open spec fn in_range(&self) -> bool {
        self.index < REPORT_LEN
    }

    /// Whether a bit of the mask is up in `report`.
    pub open spec fn held_in(&self, report: Seq<u8>) -> bool {
        report[self.index as int] & self.mask != 0
    }

    /// `report` with every bit of the mask raised at the rule's offset.
    pub open spec fn raised_in(&self, report: Seq<u8>) -> Seq<u8> {
        report.update(self.index as int, report[self.index as int] | self.mask)
    }

    /// `report` with every bit of the mask cleared at the rule's offset.
    pub open spec fn cleared_in(&self, report: Seq<u8>) -> Seq<u8> {
        report.update(self.index as int, report[self.index as int] & !self.mask)
    }

    /// Tells whether the button is down in `buf`.
    pub fn is_pushed(&self, buf: &[u8; REPORT_LEN]) -> (held: bool)
        requires
            self.in_range(),
        ensures
            held == self.held_in(buf@),
    {
        let byte: u8 = buf[self.index];
        let mask: u8 = self.mask;
        assert(((mask & byte) > 0) == (byte & mask != 0)) by (bit_vector);
        (mask & byte) > 0
    }

    /// Tells whether the button is down in `buf`.
    pub fn is_pressed(&self, buf: &[u8; REPORT_LEN]) -> (held: bool)
        requires
            self.in_range(),
        ensures
            held == self.held_in(buf@),
    {
        self.is_pushed(buf)
    }

    /// Raises the button's bits in `buf`.
    pub fn set_buf(&self, buf: &mut [u8; REPORT_LEN])
        requires
            self.in_range(),
        ensures
            final(buf)@ == self.raised_in(old(buf)@),
    {
        buf[self.index] |= self.mask;
    }

    /// Clears the button's bits in `buf`.
    pub fn unset_buf(&self, buf: &mut [u8; REPORT_LEN])
        requires
            self.in_range(),
        ensures
            final(buf)@ == self.cleared_in(old(buf)@),
    {
        buf[self.index] &= !self.mask;
    }
}

/// The fixed decoding rule of each button.
pub open spec fn registry(button: Button) -> KeyInfo {
    match button {
        Button::A => KeyInfo { mask: 128, index: BUTTONS_OFFSET },
        Button::B => KeyInfo { mask: 32, index: BUTTONS_OFFSET },
        Button::X => KeyInfo { mask: 64, index: BUTTONS_OFFSET },
        Button::Y => KeyInfo { mask: 16, index: BUTTONS_OFFSET },
        Button::LB => KeyInfo { mask: 8, index: BUTTONS_OFFSET },
        Button::RB => KeyInfo { mask: 4, index: BUTTONS_OFFSET },
        Button::LT => KeyInfo { mask: 2, index: BUTTONS_OFFSET },
        Button::RT => KeyInfo { mask: 1, index: BUTTONS_OFFSET },
        Button::UP => KeyInfo { mask: 1, index: DPAD_OFFSET },
        Button::DOWN => KeyInfo { mask: 8, index: DPAD_OFFSET },
        Button::LEFT => KeyInfo { mask: 4, index: DPAD_OFFSET },
        Button::RIGHT => KeyInfo { mask: 2, index: DPAD_OFFSET },
    }
}

/// Looks up the decoding rule of `button`.
pub fn key_info(button: &Button) -> (info: KeyInfo)
    ensures
        info == registry(*button),
        info.in_range(),
{
    match button {
        Button::A => KeyInfo { mask: 128, index: BUTTONS_OFFSET },
        Button::B => KeyInfo { mask: 32, index: BUTTONS_OFFSET },
        Button::X => KeyInfo { mask: 64, index: BUTTONS_OFFSET },
        Button::Y => KeyInfo { mask: 16, index: BUTTONS_OFFSET },
        Button::LB => KeyInfo { mask: 8, index: BUTTONS_OFFSET },
        Button::RB => KeyInfo { mask: 4, index: BUTTONS_OFFSET },
        Button::LT => KeyInfo { mask: 2, index: BUTTONS_OFFSET },
        Button::RT => KeyInfo { mask: 1, index: BUTTONS_OFFSET },
        Button::UP => KeyInfo { mask: 1, index: DPAD_OFFSET },
        Button::DOWN => KeyInfo { mask: 8, index: DPAD_OFFSET },
        Button::LEFT => KeyInfo { mask: 4, index: DPAD_OFFSET },
        Button::RIGHT => KeyInfo { mask: 2, index: DPAD_OFFSET },
    }
}

/// A mask with exactly one bit up.
pub open spec fn single_bit(mask: u8) -> bool {
    mask == 1 || mask == 2 || mask == 4 || mask == 8 || mask == 16 || mask == 32 || mask == 64
        || mask == 128
}

/// Every button is decoded from one bit of byte 8 or byte 9 of a report, and
/// no two buttons are decoded from the same bit.
pub proof fn lemma_registry_distinct_bits(a: Button, b: Button)
    ensures
        single_bit(registry(a).mask),
        registry(a).index == BUTTONS_OFFSET || registry(a).index == DPAD_OFFSET,
        registry(a).in_range(),
        a != b && registry(a).index == registry(b).index ==> registry(a).mask & registry(b).mask
            == 0,
        a != b ==> registry(a) != registry(b),
{
    let m: u8 = registry(a).mask;
    let n: u8 = registry(b).mask;
    assert(single_bit(m) && single_bit(n) && m != n ==> m & n == 0) by (bit_vector);
}

/// Raising the bit of one button in a report makes that button read as held
/// and changes what no other button reads.
pub proof fn lemma_raise_touches_one_button(report: Seq<u8>, target: Button, other: Button)
    requires
        report.len() == REPORT_LEN,
    ensures
        registry(target).held_in(registry(target).raised_in(report)),
        other != target ==> registry(other).held_in(registry(target).raised_in(report))
            == registry(other).held_in(report),
{
    lemma_registry_distinct_bits(target, other);
    let m: u8 = registry(target).mask;
    let n: u8 = registry(other).mask;
    let byte: u8 = report[registry(target).index as int];
    assert(single_bit(m) ==> (byte | m) & m != 0) by (bit_vector);
    assert(m & n == 0 ==> (byte | m) & n == byte & n) by (bit_vector);
}

/// Clearing the bit of one button in a report makes that button read as
/// released and changes what no other button reads.
pub proof fn lemma_clear_touches_one_button(report: Seq<u8>, target: Button, other: Button)
    requires
        report.len() == REPORT_LEN,
    ensures
        !registry(target).held_in(registry(target).cleared_in(report)),
        other != target ==> registry(other).held_in(registry(target).cleared_in(report))
            == registry(other).held_in(report),
{
    lemma_registry_distinct_bits(target, other);
    let m: u8 = registry(target).mask;
    let n: u8 = registry(other).mask;
    let byte: u8 = report[registry(target).index as int];
    assert((byte & !m) & m == 0) by (bit_vector);
    assert(m & n == 0 ==> (byte & !m) & n == byte & n) by (bit_vector);
}

} // verus!

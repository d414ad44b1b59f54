//! The status word of a memory-mapped character device.
use vstd::prelude::*;

verus! {

/// Mask of the "on" (device enabled) flag.
pub const ON_MASK: u16 = 0x8;

/// Mask of the "interrupt" flag.
pub const INTERUPT_MASK: u16 = 0x4;

/// Mask of the "done" flag.
pub const DONE_MASK: u16 = 0x2;

/// Mask of the "busy" flag.
pub const BUSY_MASK: u16 = 0x1;

/// Mask of the twelve padding bits above the four flags.
pub const PADDING_MASK: u16 = 0xFFF0;

/// Whether the flag selected by `mask` is set in `bits`.
pub open spec fn flag(bits: u16, mask: u16) -> bool {
    bits & mask == mask
}

/// `bits` with the flag selected by `mask` set to `value`, every other bit kept.
pub open spec fn with_flag(bits: u16, mask: u16, value: bool) -> u16 {
    if value {
        bits | mask
    } else {
        bits & !mask
    }
}

/// Status word of a character device. From the most significant bit down:
/// twelve bits of padding, then the flags on, interrupt, done and busy.
#[derive(Clone, Copy, Debug, PartialEq, Eq, Hash)]
pub struct MoloneyIOBits {
    bits: u16,
}

/// The status word used by the memory-mapped devices.
pub type IOBits = MoloneyIOBits;

impl View for MoloneyIOBits {
    type V = u16;

    closed spec fn view(&self) -> u16 {
        self.bits
    }
}

/// Setting one flag leaves every other bit of the word as it was, and the
/// flag then reads back as the value it was set to.
pub proof fn lemma_with_flag(bits: u16, mask: u16, value: bool)
    requires
        mask == ON_MASK || mask == INTERUPT_MASK || mask == DONE_MASK || mask == BUSY_MASK,
    ensures
        flag(with_flag(bits, mask, value), mask) == value,
        with_flag(bits, mask, value) & !mask == bits & !mask,
        forall|other: u16|
            (other == ON_MASK || other == INTERUPT_MASK || other == DONE_MASK || other
                == BUSY_MASK) && other != mask ==> flag(with_flag(bits, mask, value), other)
                == flag(bits, other),
        with_flag(bits, mask, value) & PADDING_MASK == bits & PADDING_MASK,
{
    assert(flag(bits | mask, mask)) by (bit_vector)
        requires
            mask == 8u16 || mask == 4u16 || mask == 2u16 || mask == 1u16,
    ;
    assert(!flag(bits & !mask, mask)) by (bit_vector)
        requires
            mask == 8u16 || mask == 4u16 || mask == 2u16 || mask == 1u16,
    ;
    assert((bits | mask) & !mask == bits & !mask) by (bit_vector);
    assert((bits & !mask) & !mask == bits & !mask) by (bit_vector);
    assert((bits | mask) & 0xFFF0u16 == bits & 0xFFF0u16) by (bit_vector)
        requires
            mask == 8u16 || mask == 4u16 || mask == 2u16 || mask == 1u16,
    ;
    assert((bits & !mask) & 0xFFF0u16 == bits & 0xFFF0u16) by (bit_vector)
        requires
            mask == 8u16 || mask == 4u16 || mask == 2u16 || mask == 1u16,
    ;
    assert forall|other: u16|
        (other == ON_MASK || other == INTERUPT_MASK || other == DONE_MASK || other == BUSY_MASK)
            && other != mask implies flag(with_flag(bits, mask, value), other) == flag(
        bits,
        other,
    ) by {
        assert(((bits | mask) & other == other) == (bits & other == other)) by (bit_vector)
            requires
                mask == 8u16 || mask == 4u16 || mask == 2u16 || mask == 1u16,
                other == 8u16 || other == 4u16 || other == 2u16 || other == 1u16,
                other != mask,
        ;
        assert(((bits & !mask) & other == other) == (bits & other == other)) by (bit_vector)
            requires
                mask == 8u16 || mask == 4u16 || mask == 2u16 || mask == 1u16,
                other == 8u16 || other == 4u16 || other == 2u16 || other == 1u16,
                other != mask,
        ;
    }
}

impl MoloneyIOBits {
    /// The word whose bits are `bits`.
    pub fn from_bits(bits: u16) -> (r: Self)
        ensures
            r@ == bits,
    {
        MoloneyIOBits { bits }
    }

    /// The bits of this word.
    pub fn into_bits(self) -> (r: u16)
        ensures
            r == self@,
    {
        self.bits
    }

    /// The word with every bit clear.
    pub fn new() -> (r: Self)
        ensures
            r@ == 0,
    {
        MoloneyIOBits { bits: 0 }
    }

    /// Whether the device is switched on.
    pub fn on(&self) -> (r: bool)
        ensures
            r == flag(self@, ON_MASK),
    {
        self.bits & ON_MASK == ON_MASK
    }

    /// Whether the device has raised an interrupt.
    pub fn interupt(&self) -> (r: bool)
        ensures
            r == flag(self@, INTERUPT_MASK),
    {
        self.bits & INTERUPT_MASK == INTERUPT_MASK
    }

    /// Whether the device has finished its last transfer.
    pub fn done(&self) -> (r: bool)
        ensures
            r == flag(self@, DONE_MASK),
    {
        self.bits & DONE_MASK == DONE_MASK
    }

    /// Whether the device is busy with a transfer.
    pub fn busy(&self) -> (r: bool)
        ensures
            r == flag(self@, BUSY_MASK),
    {
        self.bits & BUSY_MASK == BUSY_MASK
    }

    fn with_mask(self, mask: u16, value: bool) -> (r: Self)
        ensures
            r@ == with_flag(self@, mask, value),
    {
        if value {
            MoloneyIOBits { bits: self.bits | mask }
        } else {
            MoloneyIOBits { bits: self.bits & !mask }
        }
    }

    /// This word with the "on" flag set to `value`.
    pub fn with_on(self, value: bool) -> (r: Self)
        ensures
            r@ == with_flag(self@, ON_MASK, value),
    {
        self.with_mask(ON_MASK, value)
    }

    /// This word with the "interrupt" flag set to `value`.
    pub fn with_interupt(self, value: bool) -> (r: Self)
        ensures
            r@ == with_flag(self@, INTERUPT_MASK, value),
    {
        self.with_mask(INTERUPT_MASK, value)
    }

    /// This word with the "done" flag set to `value`.
    pub fn with_done(self, value: bool) -> (r: Self)
        ensures
            r@ == with_flag(self@, DONE_MASK, value),
    {
        self.with_mask(DONE_MASK, value)
    }

    /// This word with the "busy" flag set to `value`.
    pub fn with_busy(self, value: bool) -> (r: Self)
        ensures
            r@ == with_flag(self@, BUSY_MASK, value),
    {
        self.with_mask(BUSY_MASK, value)
    }

    /// Whether a receiver with this status accepts a character: it is on and not busy.
    pub fn can_read(&self) -> (r: bool)
        ensures
            r == (flag(self@, ON_MASK) && !flag(self@, BUSY_MASK)),
    {
        self.on() && !self.busy()
    }

    /// Whether a transmitter with this status accepts a character: it is on and not busy.
    pub fn can_write(&self) -> (r: bool)
        ensures
            r == (flag(self@, ON_MASK) && !flag(self@, BUSY_MASK)),
    {
        self.on() && !self.busy()
    }
}

impl Default for MoloneyIOBits {
    fn default() -> (r: Self)
        ensures
            r@ == 0,
    {
        MoloneyIOBits { bits: 0 }
    }
}

} // verus!

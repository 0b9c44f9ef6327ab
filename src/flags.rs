use vstd::prelude::*;

verus! {

/// Bit of the carry flag in the status byte.
pub const CARRY: u8 = 0b0000_0001;
/// Bit of the zero flag.
pub const ZERO: u8 = 0b0000_0010;
/// Bit of the interrupt-disable flag.
pub const INTERRUPT_DISABLE: u8 = 0b0000_0100;
/// Bit of the decimal-mode flag.
pub const DECIMAL: u8 = 0b0000_1000;
/// Bit of the break flag.
pub const BREAK: u8 = 0b0001_0000;
/// Bit that the hardware always reports as set.
pub const UNUSED: u8 = 0b0010_0000;
/// Bit of the overflow flag.
pub const OVERFLOW: u8 = 0b0100_0000;
/// Bit of the negative flag.
pub const NEGATIVE: u8 = 0b1000_0000;
/// Status byte at power-on: the break bit and the always-set bit.
pub const POWER_ON: u8 = 0b0011_0000;

/// `status` with the bits of `mask` set when `on`, cleared otherwise.
pub open spec fn with_bits(status: u8, mask: u8, on: bool) -> u8 {
    if on {
        status | mask
    } else {
        status & !mask
    }
}

/// Whether every bit of `mask` is set in `status`.
pub open spec fn has_bits(status: u8, mask: u8) -> bool {
    status & mask == mask
}

/// Whether `mask` is a single bit of the status byte.
pub open spec fn is_single_bit(mask: u8) -> bool {
    mask == 1 || mask == 2 || mask == 4 || mask == 8 || mask == 16 || mask == 32 || mask == 64
        || mask == 128
}

/// Setting or clearing one bit decides that bit and leaves every other bit as it was.
pub proof fn lemma_with_bits(status: u8, mask: u8, on: bool, other: u8)
    requires
        is_single_bit(mask),
        is_single_bit(other),
    ensures
        has_bits(with_bits(status, mask, on), mask) == on,
        mask != other ==> has_bits(with_bits(status, mask, on), other) == has_bits(status, other),
{
    if on {
        assert((status | mask) & mask == mask) by (bit_vector);
        assert(mask != other ==> (((status | mask) & other == other) == (status & other == other)))
            by (bit_vector)
            requires
                is_single_bit(mask),
                is_single_bit(other),
        ;
    } else {
        assert(((status & !mask) & mask == mask) == false) by (bit_vector)
            requires
                is_single_bit(mask),
        ;
        assert(mask != other ==> (((status & !mask) & other == other) == (status & other
            == other))) by (bit_vector)
            requires
                is_single_bit(mask),
                is_single_bit(other),
        ;
    }
}

/// One named bit of the processor status byte.
#[derive(Debug, Clone, Copy, PartialEq, Eq, Structural)]
pub enum Flag {
    Carry,
    Zero,
    InterruptDisable,
    Decimal,
    Break,
    Unused,
    Overflow,
    Negative,
}

impl Flag {
    pub open spec fn spec_mask(self) -> u8 {
        match self {
            Flag::Carry => CARRY,
            Flag::Zero => ZERO,
            Flag::InterruptDisable => INTERRUPT_DISABLE,
            Flag::Decimal => DECIMAL,
            Flag::Break => BREAK,
            Flag::Unused => UNUSED,
            Flag::Overflow => OVERFLOW,
            Flag::Negative => NEGATIVE,
        }
    }

    /// The single bit that this flag occupies in the status byte.
    #[verifier::when_used_as_spec(spec_mask)]
    pub fn mask(self) -> (r: u8)
        ensures
            r == self.spec_mask(),
    {
        match self {
            Flag::Carry => CARRY,
            Flag::Zero => ZERO,
            Flag::InterruptDisable => INTERRUPT_DISABLE,
            Flag::Decimal => DECIMAL,
            Flag::Break => BREAK,
            Flag::Unused => UNUSED,
            Flag::Overflow => OVERFLOW,
            Flag::Negative => NEGATIVE,
        }
    }
}

/// The processor status byte as a set of named flags.
#[derive(Debug, Clone, Copy, PartialEq, Eq, Structural)]
pub struct Flags {
    bits: u8,
}

impl View for Flags {
    type V = u8;

    closed spec fn view(&self) -> u8 {
        self.bits
    }
}

impl Flags {
    /// Every flag cleared.
    pub fn empty() -> (r: Flags)
        ensures
            r@ == 0,
    {
        Flags { bits: 0 }
    }

    /// Every flag set.
    pub fn all() -> (r: Flags)
        ensures
            r@ == 0xFF,
    {
        Flags { bits: 0xFF }
    }

    /// The status at power-on and after a reset.
    pub fn power_on() -> (r: Flags)
        ensures
            r@ == POWER_ON,
    {
        Flags { bits: POWER_ON }
    }

    /// The set whose status byte is `bits`; every bit has a name, so none is lost.
    pub fn from_bits(bits: u8) -> (r: Flags)
        ensures
            r@ == bits,
    {
        Flags { bits }
    }

    pub fn bits(&self) -> (r: u8)
        ensures
            r == self@,
    {
        self.bits
    }

    pub fn contains(&self, flag: Flag) -> (r: bool)
        ensures
            r == has_bits(self@, flag.spec_mask()),
    {
        self.bits & flag.mask() == flag.mask()
    }

    pub fn insert(&mut self, flag: Flag)
        ensures
            final(self)@ == with_bits(old(self)@, flag.spec_mask(), true),
    {
        self.bits = self.bits | flag.mask();
    }

    pub fn remove(&mut self, flag: Flag)
        ensures
            final(self)@ == with_bits(old(self)@, flag.spec_mask(), false),
    {
        self.bits = self.bits & !flag.mask();
    }

    /// Sets `flag` when `value` holds and clears it otherwise.
    pub fn set(&mut self, flag: Flag, value: bool)
        ensures
            final(self)@ == with_bits(old(self)@, flag.spec_mask(), value),
    {
        if value {
            self.insert(flag);
        } else {
            self.remove(flag);
        }
    }

    /// This set with `flag` added.
    pub fn with(self, flag: Flag) -> (r: Flags)
        ensures
            r@ == with_bits(self@, flag.spec_mask(), true),
    {
        Flags { bits: self.bits | flag.mask() }
    }
}

} // verus!

//! The processor-status register `P`: seven named condition flags packed into
//! one byte, in the bit positions the 6502 assigns them.  Bit 5 has no
//! architectural meaning and reads as 1 when the register is pushed; the
//! interpreter keeps it set at every instruction boundary.

use vstd::prelude::*;

verus! {

/// Bit 0: unsigned carry out of an addition or shift, or "no borrow" from a
/// subtraction or comparison.
pub const CARRY: u8 = 0b0000_0001;

/// Bit 1: the last result was zero.
pub const ZERO: u8 = 0b0000_0010;

/// Bit 2: IRQ requests are masked (NMI is not affected).
pub const INTERRUPT_DISABLE: u8 = 0b0000_0100;

/// Bit 3: decimal mode; present but inert on the NES variant of the 6502.
pub const DECIMAL_MODE: u8 = 0b0000_1000;

/// Bit 4: set in the copy of `P` that BRK and PHP push on the stack.
pub const BREAK: u8 = 0b0001_0000;

/// Bit 5: unused; always 1 in the pushed copy of `P`.
pub const BREAK2: u8 = 0b0010_0000;

/// Bit 6: signed overflow from ADC/SBC, or bit 6 of the operand after BIT.
pub const OVERFLOW: u8 = 0b0100_0000;

/// Bit 7: copy of bit 7 of the last result, or of the operand after BIT.
pub const NEGATIV: u8 = 0b1000_0000;

/// The packed status register.  `bits` holds the wire format: the byte that
/// PHP pushes and PLP pops, up to the forced bits 4 and 5.
#[derive(Clone, Copy, Debug, PartialEq, Eq, Structural)]
pub struct CpuFlags {
    pub bits: u8,
}

/// `p` with the flag bits `flag` either all set (`on`) or all cleared.
pub open spec fn spec_set_flag(p: u8, flag: u8, on: bool) -> u8 {
    if on {
        p | flag
    } else {
        p & !flag
    }
}

/// `p` with ZERO and NEGATIV updated from the 8-bit result `r`:
/// ZERO holds exactly when `r == 0`, NEGATIV copies bit 7 of `r`.
pub open spec fn spec_update_zn(p: u8, r: u8) -> u8 {
    spec_set_flag(spec_set_flag(p, ZERO, r == 0), NEGATIV, r & 0x80 != 0)
}

impl CpuFlags {
    /// The register holding exactly the bits of `bits`; every bit position is
    /// a defined flag, so nothing is truncated.
    pub fn from_bits_truncate(bits: u8) -> (r: CpuFlags)
        ensures
            r.bits == bits,
    {
        CpuFlags { bits }
    }

    /// The packed byte.
    pub fn bits(&self) -> (r: u8)
        ensures
            r == self.bits,
    {
        self.bits
    }

    /// Set every bit of `flag`.
    pub fn insert(&mut self, flag: u8)
        ensures
            final(self).bits == old(self).bits | flag,
    {
        self.bits = self.bits | flag;
    }

    /// Clear every bit of `flag`.
    pub fn remove(&mut self, flag: u8)
        ensures
            final(self).bits == old(self).bits & !flag,
    {
        self.bits = self.bits & !flag;
    }

    /// Set or clear every bit of `flag` according to `on`.
    pub fn set(&mut self, flag: u8, on: bool)
        ensures
            final(self).bits == spec_set_flag(old(self).bits, flag, on),
    {
        if on {
            self.insert(flag);
        } else {
            self.remove(flag);
        }
    }

    /// Whether every bit of `flag` is set.
    pub fn contains(&self, flag: u8) -> (r: bool)
        ensures
            r == (self.bits & flag == flag),
    {
        self.bits & flag == flag
    }

    /// Update ZERO and NEGATIV from the result byte `r`.
    pub fn update_zn(&mut self, r: u8)
        ensures
            final(self).bits == spec_update_zn(old(self).bits, r),
    {
        if r == 0 {
            self.insert(ZERO);
        } else {
            self.remove(ZERO);
        }
        if r & 0b1000_0000 != 0 {
            self.insert(NEGATIV);
        } else {
            self.remove(NEGATIV);
        }
    }
}

/// Setting or clearing one set of flag bits leaves every bit outside that set
/// unchanged.
pub proof fn lemma_set_flag_other(p: u8, flag: u8, on: bool, other: u8)
    by (bit_vector)
    requires
        flag & other == 0,
    ensures
        spec_set_flag(p, flag, on) & other == p & other,
{
}

/// ZERO holds after a ZERO/NEGATIV update exactly when the result was zero,
/// and NEGATIV exactly when bit 7 of the result was set.
pub proof fn lemma_zn_laws(p: u8, r: u8)
    by (bit_vector)
    ensures
        (spec_update_zn(p, r) & ZERO == ZERO) <==> r == 0,
        (spec_update_zn(p, r) & NEGATIV == NEGATIV) <==> r & 0x80 != 0,
{
}

/// A ZERO/NEGATIV update leaves the carry, interrupt-disable, decimal, break
/// and unused flags and the overflow flag unchanged.
pub proof fn lemma_zn_other(p: u8, r: u8)
    by (bit_vector)
    ensures
        spec_update_zn(p, r) & CARRY == p & CARRY,
        spec_update_zn(p, r) & INTERRUPT_DISABLE == p & INTERRUPT_DISABLE,
        spec_update_zn(p, r) & DECIMAL_MODE == p & DECIMAL_MODE,
        spec_update_zn(p, r) & BREAK == p & BREAK,
        spec_update_zn(p, r) & BREAK2 == p & BREAK2,
        spec_update_zn(p, r) & OVERFLOW == p & OVERFLOW,
{
}

} // verus!

//! The picture-processing unit's memory-mapped register file: the two-write
//! address latch, the control, mask and status bytes, and the two-write
//! scroll latch.

use vstd::prelude::*;

use crate::cpu::make16;
use crate::flags::spec_set_flag;

verus! {

/// The VRAM address register, filled by two writes: high byte first, then
/// low byte.  The address is kept inside the PPU's 14-bit space.
#[derive(Clone, Copy, Debug, PartialEq, Eq, Structural)]
pub struct AddrRegister {
    pub hi: u8,
    pub lo: u8,
    pub hi_ptr: bool,
}

/// Folding a high byte into six bits lands inside them.
proof fn lemma_fold14(h: u8, d: u8)
    by (bit_vector)
    ensures
        h & 0x3f <= 0x3f,
        d & 0x3f <= 0x3f,
        crate::cpu::add8(h, 1) & 0x3f <= 0x3f,
{
}

/// The register after one write of `data`: it lands in the byte the latch
/// points at, the address is folded into 14 bits, and the latch flips.
pub open spec fn spec_addr_update(s: AddrRegister, data: u8) -> AddrRegister {
    let t = if s.hi_ptr {
        AddrRegister { hi: data, ..s }
    } else {
        AddrRegister { lo: data, ..s }
    };
    let u = if t.hi > 0x3f {
        AddrRegister { hi: t.hi & 0x3f, ..t }
    } else {
        t
    };
    AddrRegister { hi_ptr: !s.hi_ptr, ..u }
}

/// The register after stepping the address by `inc`, with the carry into the
/// high byte and the fold into 14 bits.
pub open spec fn spec_addr_increment(s: AddrRegister, inc: u8) -> AddrRegister {
    let lo1 = crate::cpu::add8(s.lo, inc);
    let hi1 = if s.lo > lo1 {
        crate::cpu::add8(s.hi, 1)
    } else {
        s.hi
    };
    let hi2 = if hi1 > 0x3f {
        hi1 & 0x3f
    } else {
        hi1
    };
    AddrRegister { hi: hi2, lo: lo1, ..s }
}

impl AddrRegister {
    /// The address never leaves the PPU's 14-bit space.
    pub open spec fn wf(&self) -> bool {
        self.hi <= 0x3f
    }

    /// The 16-bit address currently latched.
    pub open spec fn spec_get(&self) -> u16 {
        make16(self.hi, self.lo)
    }

    /// A cleared register: address zero, latch expecting the high byte.
    pub fn new() -> (r: AddrRegister)
        ensures
            r == (AddrRegister { hi: 0, lo: 0, hi_ptr: true }),
    {
        AddrRegister { hi: 0, lo: 0, hi_ptr: true }
    }

    /// The latched address.
    pub fn get(&self) -> (r: u16)
        ensures
            r == self.spec_get(),
    {
        (self.hi as u16) * 0x100 + (self.lo as u16)
    }

    /// One write through the two-write latch.
    pub fn update(&mut self, data: u8)
        ensures
            *final(self) == spec_addr_update(*old(self), data),
            final(self).wf(),
    {
        if self.hi_ptr {
            self.hi = data;
        } else {
            self.lo = data;
        }
        if self.hi > 0x3f {
            self.hi = self.hi & 0x3f;
        }
        self.hi_ptr = !self.hi_ptr;
        proof {
            lemma_fold14(old(self).hi, data);
        }
    }

    /// Step the address, carrying into the high byte when the low byte
    /// wraps.
    pub fn increment(&mut self, inc: u8)
        ensures
            *final(self) == spec_addr_increment(*old(self), inc),
            final(self).wf(),
    {
        let lo = self.lo;
        self.lo = self.lo.wrapping_add(inc);
        if lo > self.lo {
            self.hi = self.hi.wrapping_add(1);
        }
        if self.hi > 0x3f {
            self.hi = self.hi & 0x3f;
        }
        proof {
            lemma_fold14(old(self).hi, inc);
        }
    }

    /// Point the latch back at the high byte.
    pub fn reset_latch(&mut self)
        ensures
            *final(self) == (AddrRegister { hi_ptr: true, ..*old(self) }),
    {
        self.hi_ptr = true;
    }
}

/// The control register: a plain byte of enable bits.
#[derive(Clone, Copy, Debug, PartialEq, Eq, Structural)]
pub struct ControlRegister {
    pub bits: u8,
}

impl ControlRegister {
    /// A cleared register.
    pub fn new() -> (r: ControlRegister)
        ensures
            r.bits == 0,
    {
        ControlRegister { bits: 0 }
    }

    /// How far a data-port access steps the VRAM address: 32 when bit 2 is
    /// set, 1 otherwise.
    pub fn vram_addr_increment(&self) -> (r: u8)
        ensures
            r == (if self.bits & 0b100 != 0 {
                32u8
            } else {
                1u8
            }),
    {
        if self.bits & 0b100 != 0 {
            32
        } else {
            1
        }
    }

    /// Whether bit 7 asks for an NMI at the start of vertical blanking.
    pub fn generate_vblank_nmi(&self) -> (r: bool)
        ensures
            r == (self.bits & 0x80 != 0),
    {
        self.bits & 0x80 != 0
    }

    /// Replace the whole byte.
    pub fn update(&mut self, data: u8)
        ensures
            final(self).bits == data,
    {
        self.bits = data;
    }
}

/// The mask register: a plain byte of rendering switches.
#[derive(Clone, Copy, Debug, PartialEq, Eq, Structural)]
pub struct MaskRegister {
    pub bits: u8,
}

impl MaskRegister {
    /// A cleared register.
    pub fn new() -> (r: MaskRegister)
        ensures
            r.bits == 0,
    {
        MaskRegister { bits: 0 }
    }

    /// Replace the whole byte.
    pub fn update(&mut self, data: u8)
        ensures
            final(self).bits == data,
    {
        self.bits = data;
    }
}

/// The status register; bit 7 reports vertical blanking.
#[derive(Clone, Copy, Debug, PartialEq, Eq, Structural)]
pub struct StatusRegister {
    pub bits: u8,
}

/// Bit 7 of the status byte.
pub const VBLANK_STARTED: u8 = 0b1000_0000;

impl StatusRegister {
    /// A cleared register.
    pub fn new() -> (r: StatusRegister)
        ensures
            r.bits == 0,
    {
        StatusRegister { bits: 0 }
    }

    /// Set or clear the vertical-blanking bit.
    pub fn set_vblank_status(&mut self, on: bool)
        ensures
            final(self).bits == spec_set_flag(old(self).bits, VBLANK_STARTED, on),
    {
        if on {
            self.bits = self.bits | VBLANK_STARTED;
        } else {
            self.bits = self.bits & !VBLANK_STARTED;
        }
    }

    /// Clear the vertical-blanking bit.
    pub fn reset_vblank_status(&mut self)
        ensures
            final(self).bits == old(self).bits & !VBLANK_STARTED,
    {
        self.bits = self.bits & !VBLANK_STARTED;
    }

    /// Whether the vertical-blanking bit is set.
    pub fn is_in_vblank(&self) -> (r: bool)
        ensures
            r == (self.bits & VBLANK_STARTED != 0),
    {
        self.bits & VBLANK_STARTED != 0
    }

    /// The whole byte as the processor reads it.
    pub fn snapshot(&self) -> (r: u8)
        ensures
            r == self.bits,
    {
        self.bits
    }
}

/// The scroll register, filled by two writes: X first, then Y.
#[derive(Clone, Copy, Debug, PartialEq, Eq, Structural)]
pub struct ScrollRegister {
    pub scroll_x: u8,
    pub scroll_y: u8,
    pub latch: bool,
}

impl ScrollRegister {
    /// A cleared register: both offsets zero, latch expecting X.
    pub fn new() -> (r: ScrollRegister)
        ensures
            r == (ScrollRegister { scroll_x: 0, scroll_y: 0, latch: false }),
    {
        ScrollRegister { scroll_x: 0, scroll_y: 0, latch: false }
    }

    /// One write through the two-write latch.
    pub fn write(&mut self, data: u8)
        ensures
            *final(self) == (if old(self).latch {
                ScrollRegister { scroll_y: data, latch: !old(self).latch, ..*old(self) }
            } else {
                ScrollRegister { scroll_x: data, latch: !old(self).latch, ..*old(self) }
            }),
    {
        if !self.latch {
            self.scroll_x = data;
        } else {
            self.scroll_y = data;
        }
        self.latch = !self.latch;
    }

    /// Point the latch back at X.
    pub fn reset_latch(&mut self)
        ensures
            *final(self) == (ScrollRegister { latch: false, ..*old(self) }),
    {
        self.latch = false;
    }
}

} // verus!

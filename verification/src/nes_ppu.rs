//! The picture-processing unit as the processor sees it: its register file,
//! its VRAM with the cartridge's nametable mirroring, the palette and sprite
//! memories, the buffered data port, the scanline clock, and the NMI latch
//! the processor polls between instructions.

use vstd::prelude::*;

use crate::cartridge::Mirroring;
use crate::flags::spec_set_flag;
use crate::ppu_registers::{
    spec_addr_increment, spec_addr_update, AddrRegister, ControlRegister, MaskRegister,
    ScrollRegister, StatusRegister, VBLANK_STARTED,
};

verus! {

/// The picture-processing unit's state.
pub struct NesPPU {
    pub chr_rom: Vec<u8>,
    pub palette_table: Vec<u8>,
    pub vram: Vec<u8>,
    pub oam_data: Vec<u8>,
    pub addr: AddrRegister,
    pub mirroring: Mirroring,
    pub ctrl: ControlRegister,
    pub mask: MaskRegister,
    pub status: StatusRegister,
    pub scroll: ScrollRegister,
    pub internal_data_buf: u8,
    pub oam_addr: u8,
    pub scanline: u16,
    pub cycle: usize,
    pub nmi_interrupt: Option<u8>,
}

/// How far a data-port access steps the VRAM address under control byte
/// `c`: 32 rows when bit 2 is set, 1 otherwise.
pub open spec fn vram_inc(c: ControlRegister) -> u8 {
    if c.bits & 0b100 != 0 {
        32
    } else {
        1
    }
}

/// A nametable address folded onto the 2 KiB of physical VRAM under the
/// cartridge's mirroring: the four logical nametables collapse onto two
/// (or stay apart under four-screen wiring, which this VRAM cannot hold).
pub open spec fn mirror_spec(mir: Mirroring, addr: u16) -> int {
    let idx = (addr & 0x2fff) - 0x2000;
    let nt = idx / 0x400;
    match mir {
        Mirroring::HORIZONTAL => if nt == 1 || nt == 2 {
            idx - 0x400
        } else if nt == 3 {
            idx - 0x800
        } else {
            idx
        },
        Mirroring::VERTICAL => if nt == 2 || nt == 3 {
            idx - 0x800
        } else {
            idx
        },
        Mirroring::FOUR_SCREEN => idx,
    }
}

/// The machine and the report of a finished frame after `c` PPU cycles: the
/// cycle counter runs up to 341 per scanline; scanline 241 opens vertical
/// blanking and, when the control register asks for it, latches an NMI;
/// scanline 262 closes the frame and clears both again.
pub open spec fn spec_tick(s: NesPPU, c: u8) -> (NesPPU, bool) {
    let cyc = s.cycle + c;
    if cyc >= 341 {
        let sl = s.scanline + 1;
        let vbl = sl == 241 && s.ctrl.bits & 0x80 != 0;
        let st1 = if vbl {
            spec_set_flag(s.status.bits, VBLANK_STARTED, true)
        } else {
            s.status.bits
        };
        let nmi1 = if vbl {
            Some(1u8)
        } else {
            s.nmi_interrupt
        };
        if sl >= 262 {
            (
                NesPPU {
                    cycle: (cyc - 341) as usize,
                    scanline: 0,
                    nmi_interrupt: None,
                    status: StatusRegister { bits: st1 & !VBLANK_STARTED },
                    ..s
                },
                true,
            )
        } else {
            (
                NesPPU {
                    cycle: (cyc - 341) as usize,
                    scanline: sl as u16,
                    nmi_interrupt: nmi1,
                    status: StatusRegister { bits: st1 },
                    ..s
                },
                false,
            )
        }
    } else {
        (NesPPU { cycle: cyc as usize, ..s }, false)
    }
}

/// A nametable address masked onto the mirrored range stays a nametable
/// address.
proof fn lemma_vram_mask(addr: u16)
    by (bit_vector)
    requires
        0x2000 <= addr < 0x4000,
    ensures
        0x2000 <= (addr & 0x2fff) < 0x3000,
{
}

impl NesPPU {
    /// The memories have their wired sizes, the address register is inside
    /// the PPU's 14-bit space, and the scanline clock is inside one frame.
    pub open spec fn wf(&self) -> bool {
        &&& self.palette_table@.len() == 32
        &&& self.vram@.len() == 2048
        &&& self.oam_data@.len() == 256
        &&& self.addr.wf()
        &&& self.cycle < 341
        &&& self.scanline < 262
    }

    /// A unit out of reset, holding the cartridge's CHR bank and mirroring:
    /// memories cleared, registers cleared, no NMI pending.
    pub fn new(chr_rom: Vec<u8>, mirroring: Mirroring) -> (r: NesPPU)
        ensures
            r.wf(),
            r.chr_rom@ == chr_rom@,
            r.mirroring == mirroring,
            r.palette_table@ == Seq::new(32, |i: int| 0u8),
            r.vram@ == Seq::new(2048, |i: int| 0u8),
            r.oam_data@ == Seq::new(256, |i: int| 0u8),
            r.addr == (AddrRegister { hi: 0, lo: 0, hi_ptr: true }),
            r.ctrl.bits == 0,
            r.mask.bits == 0,
            r.status.bits == 0,
            r.scroll == (ScrollRegister { scroll_x: 0, scroll_y: 0, latch: false }),
            r.internal_data_buf == 0,
            r.oam_addr == 0,
            r.scanline == 0,
            r.cycle == 0,
            r.nmi_interrupt is None,
    {
        NesPPU {
            chr_rom,
            palette_table: zero_vec(32),
            vram: zero_vec(2048),
            oam_data: zero_vec(256),
            addr: AddrRegister::new(),
            mirroring,
            ctrl: ControlRegister::new(),
            mask: MaskRegister::new(),
            scroll: ScrollRegister::new(),
            status: StatusRegister::new(),
            internal_data_buf: 0,
            oam_addr: 0,
            scanline: 0,
            cycle: 0,
            nmi_interrupt: None,
        }
    }

    /// One write to the two-write address latch.
    pub fn write_to_ppu_addr(&mut self, value: u8)
        requires
            old(self).wf(),
        ensures
            final(self).wf(),
            *final(self) == (NesPPU {
                addr: spec_addr_update(old(self).addr, value),
                ..*old(self)
            }),
    {
        self.addr.update(value);
    }

    /// Replace the control byte.  A rising NMI-enable while vertical
    /// blanking is already open latches an NMI at once.
    pub fn write_to_ctrl(&mut self, value: u8)
        requires
            old(self).wf(),
        ensures
            final(self).wf(),
            *final(self) == (NesPPU {
                ctrl: ControlRegister { bits: value },
                nmi_interrupt: if old(self).ctrl.bits & 0x80 == 0 && value & 0x80 != 0 && old(
                    self,
                ).status.bits & VBLANK_STARTED != 0 {
                    Some(1u8)
                } else {
                    old(self).nmi_interrupt
                },
                ..*old(self)
            }),
    {
        let before_nmi_status = self.ctrl.generate_vblank_nmi();
        self.ctrl.update(value);
        if !before_nmi_status && self.ctrl.generate_vblank_nmi() && self.status.is_in_vblank() {
            self.nmi_interrupt = Some(1);
        }
    }

    /// Replace the mask byte.
    pub fn write_to_mask(&mut self, value: u8)
        requires
            old(self).wf(),
        ensures
            final(self).wf(),
            *final(self) == (NesPPU { mask: MaskRegister { bits: value }, ..*old(self) }),
    {
        self.mask.update(value);
    }

    /// Step the VRAM address by the stride the control register selects.
    fn increment_vram_addr(&mut self)
        requires
            old(self).wf(),
        ensures
            final(self).wf(),
            *final(self) == (NesPPU {
                addr: spec_addr_increment(old(self).addr, vram_inc(old(self).ctrl)),
                ..*old(self)
            }),
    {
        let inc = self.ctrl.vram_addr_increment();
        self.addr.increment(inc);
    }

    /// Fold a nametable address onto the physical VRAM.
    fn mirror_vram_addr(&self, addr: u16) -> (r: u16)
        requires
            0x2000 <= addr < 0x4000,
        ensures
            r == mirror_spec(self.mirroring, addr),
            self.mirroring != Mirroring::FOUR_SCREEN ==> r < 0x800,
            r < 0x1000,
    {
        proof {
            lemma_vram_mask(addr);
        }
        let mirrored_vram = addr & 0x2fff;
        let vram_index = mirrored_vram - 0x2000;
        let mirrored_nametable = vram_index / 0x400;
        match (self.mirroring, mirrored_nametable) {
            (Mirroring::HORIZONTAL, 2) | (Mirroring::HORIZONTAL, 1) => vram_index - 0x400,
            (Mirroring::HORIZONTAL, 3) => vram_index - 0x800,
            (Mirroring::VERTICAL, 2) | (Mirroring::VERTICAL, 3) => vram_index - 0x800,
            _ => vram_index,
        }
    }

    /// One read through the buffered data port at the latched address, which
    /// steps by the configured stride.  CHR and VRAM reads return the
    /// buffer and refill it; palette reads are immediate.  The address must
    /// be one the unit decodes: below the unused `0x3000` window or in the
    /// first palette page, inside the CHR bank when it points there, and
    /// not in a nametable under four-screen wiring, which this VRAM cannot
    /// hold.
    pub fn read_data(&mut self) -> (r: u8)
        requires
            old(self).wf(),
            !(0x3000 <= old(self).addr.spec_get() < 0x3f00),
            0x3f00 <= old(self).addr.spec_get() ==> old(self).addr.spec_get() < 0x3f20,
            old(self).addr.spec_get() < 0x2000 ==> old(self).addr.spec_get()
                < old(self).chr_rom@.len(),
            0x2000 <= old(self).addr.spec_get() < 0x3000 ==> old(self).mirroring
                != Mirroring::FOUR_SCREEN,
        ensures
            final(self).wf(),
            ({
                let pre = *old(self);
                let ad = pre.addr.spec_get();
                let buf1 = if ad < 0x2000 {
                    pre.chr_rom@[ad as int]
                } else if ad < 0x3000 {
                    pre.vram@[mirror_spec(pre.mirroring, ad)]
                } else {
                    pre.internal_data_buf
                };
                &&& *final(self) == (NesPPU {
                    addr: spec_addr_increment(pre.addr, vram_inc(pre.ctrl)),
                    internal_data_buf: buf1,
                    ..pre
                })
                &&& r == (if ad < 0x3000 {
                    pre.internal_data_buf
                } else {
                    pre.palette_table@[ad - 0x3f00]
                })
            }),
    {
        let addr = self.addr.get();
        self.increment_vram_addr();
        if addr < 0x2000 {
            let result = self.internal_data_buf;
            self.internal_data_buf = self.chr_rom[addr as usize];
            result
        } else if addr < 0x3000 {
            let result = self.internal_data_buf;
            let idx = self.mirror_vram_addr(addr);
            self.internal_data_buf = self.vram[idx as usize];
            result
        } else {
            self.palette_table[(addr - 0x3f00) as usize]
        }
    }

    /// One write through the data port at the latched address, which steps
    /// by the configured stride.  Writes into the CHR window fall away (it
    /// is read-only), nametable writes land in the mirrored VRAM, and the
    /// four mirrored palette cells fold onto their backgrounds.  The same
    /// addresses are out as for reads, except that the mirrored palette
    /// cells `0x3f10/14/18/1c` are decoded.
    pub fn write_to_data(&mut self, value: u8)
        requires
            old(self).wf(),
            !(0x3000 <= old(self).addr.spec_get() < 0x3f00),
            0x3f00 <= old(self).addr.spec_get() ==> (old(self).addr.spec_get() < 0x3f20 || old(
                self,
            ).addr.spec_get() == 0x3f10 || old(self).addr.spec_get() == 0x3f14 || old(
                self,
            ).addr.spec_get() == 0x3f18 || old(self).addr.spec_get() == 0x3f1c),
            0x2000 <= old(self).addr.spec_get() < 0x3000 ==> old(self).mirroring
                != Mirroring::FOUR_SCREEN,
        ensures
            final(self).wf(),
            ({
                let pre = *old(self);
                let ad = pre.addr.spec_get();
                let stepped = spec_addr_increment(pre.addr, vram_inc(pre.ctrl));
                if ad < 0x2000 {
                    *final(self) == (NesPPU { addr: stepped, ..pre })
                } else if ad < 0x3000 {
                    &&& final(self).vram@ == pre.vram@.update(
                        mirror_spec(pre.mirroring, ad),
                        value,
                    )
                    &&& *final(self) == (NesPPU {
                        addr: stepped,
                        vram: final(self).vram,
                        ..pre
                    })
                } else {
                    let idx = if ad == 0x3f10 || ad == 0x3f14 || ad == 0x3f18 || ad == 0x3f1c {
                        ad - 0x3f10
                    } else {
                        ad - 0x3f00
                    };
                    &&& final(self).palette_table@ == pre.palette_table@.update(idx, value)
                    &&& *final(self) == (NesPPU {
                        addr: stepped,
                        palette_table: final(self).palette_table,
                        ..pre
                    })
                }
            }),
    {
        let addr = self.addr.get();
        if addr < 0x2000 {
            // the CHR window is read-only; the write falls away
        } else if addr < 0x3000 {
            let idx = self.mirror_vram_addr(addr);
            self.vram[idx as usize] = value;
        } else if addr == 0x3f10 || addr == 0x3f14 || addr == 0x3f18 || addr == 0x3f1c {
            let add_mirror = addr - 0x10;
            self.palette_table[(add_mirror - 0x3f00) as usize] = value;
        } else {
            self.palette_table[(addr - 0x3f00) as usize] = value;
        }
        self.increment_vram_addr();
    }

    /// Read the status byte; the read closes vertical blanking and resets
    /// both two-write latches.
    pub fn read_status(&mut self) -> (r: u8)
        requires
            old(self).wf(),
        ensures
            final(self).wf(),
            r == old(self).status.bits,
            *final(self) == (NesPPU {
                status: StatusRegister { bits: old(self).status.bits & !VBLANK_STARTED },
                addr: (AddrRegister { hi_ptr: true, ..old(self).addr }),
                scroll: (ScrollRegister { latch: false, ..old(self).scroll }),
                ..*old(self)
            }),
    {
        let data = self.status.snapshot();
        self.status.reset_vblank_status();
        self.addr.reset_latch();
        self.scroll.reset_latch();
        data
    }

    /// Point the sprite-memory port at a cell.
    pub fn write_to_oam_addr(&mut self, value: u8)
        requires
            old(self).wf(),
        ensures
            final(self).wf(),
            *final(self) == (NesPPU { oam_addr: value, ..*old(self) }),
    {
        self.oam_addr = value;
    }

    /// Write the cell the sprite-memory port points at and step the port.
    pub fn write_to_oam_data(&mut self, value: u8)
        requires
            old(self).wf(),
        ensures
            final(self).wf(),
            final(self).oam_data@ == old(self).oam_data@.update(old(self).oam_addr as int, value),
            *final(self) == (NesPPU {
                oam_data: final(self).oam_data,
                oam_addr: crate::cpu::add8(old(self).oam_addr, 1),
                ..*old(self)
            }),
    {
        let i = self.oam_addr;
        self.oam_data[i as usize] = value;
        self.oam_addr = self.oam_addr.wrapping_add(1);
    }

    /// Read the cell the sprite-memory port points at; the port stays.
    pub fn read_oam_data(&self) -> (r: u8)
        requires
            self.wf(),
        ensures
            r == self.oam_data@[self.oam_addr as int],
    {
        self.oam_data[self.oam_addr as usize]
    }

    /// One write to the two-write scroll latch.
    pub fn write_to_scroll(&mut self, value: u8)
        requires
            old(self).wf(),
        ensures
            final(self).wf(),
            *final(self) == (NesPPU {
                scroll: if old(self).scroll.latch {
                    ScrollRegister { scroll_y: value, latch: false, ..old(self).scroll }
                } else {
                    ScrollRegister { scroll_x: value, latch: true, ..old(self).scroll }
                },
                ..*old(self)
            }),
    {
        self.scroll.write(value);
    }

    /// Advance the scanline clock by `cycles` PPU cycles; reports whether a
    /// frame was finished.
    pub fn tick(&mut self, cycles: u8) -> (r: bool)
        requires
            old(self).wf(),
        ensures
            final(self).wf(),
            (*final(self), r) == spec_tick(*old(self), cycles),
    {
        self.cycle = self.cycle + cycles as usize;
        if self.cycle >= 341 {
            self.cycle = self.cycle - 341;
            self.scanline = self.scanline + 1;
            if self.scanline == 241 {
                if self.ctrl.generate_vblank_nmi() {
                    self.status.set_vblank_status(true);
                    self.nmi_interrupt = Some(1);
                }
            }
            if self.scanline >= 262 {
                self.scanline = 0;
                self.nmi_interrupt = None;
                self.status.reset_vblank_status();
                return true;
            }
        }
        false
    }

    /// Hand out and clear the pending NMI, if one is latched.
    pub fn poll_nmi_interrupt(&mut self) -> (r: Option<u8>)
        requires
            old(self).wf(),
        ensures
            final(self).wf(),
            r == old(self).nmi_interrupt,
            *final(self) == (NesPPU { nmi_interrupt: None, ..*old(self) }),
    {
        let r = self.nmi_interrupt;
        self.nmi_interrupt = None;
        r
    }
}

/// A vector of `n` zero bytes.
fn zero_vec(n: usize) -> (r: Vec<u8>)
    ensures
        r@ == Seq::new(n as nat, |i: int| 0u8),
{
    let mut r: Vec<u8> = Vec::new();
    let mut i: usize = 0;
    while i < n
        invariant
            i <= n,
            r@ =~= Seq::new(i as nat, |j: int| 0u8),
        decreases n - i,
    {
        r.push(0);
        i = i + 1;
    }
    proof {
        assert(r@ =~= Seq::new(n as nat, |i: int| 0u8));
    }
    r
}

} // verus!

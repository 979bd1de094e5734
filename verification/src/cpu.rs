//! The 6502 processor core: registers, the 64 KiB memory it addresses, the
//! effective-address resolver for the operand addressing modes, the
//! downward-growing stack in page one, and the fetch-decode-execute
//! interpreter.
//!
//! The meaning of one instruction dispatch is written down once, as the
//! transition relation [`step_rel`]: for every legal opcode it fixes each
//! register, the status byte, the program counter, the cycle tally and the
//! whole memory image of the machine after the instruction, as a function of
//! the machine before it.  [`CPU::step`] is verified against that relation,
//! and the interpreter loops [`CPU::run`], [`CPU::run_with_trace`] are
//! verified to move along it.

use vstd::prelude::*;

use crate::flags::{
    CpuFlags, spec_set_flag, spec_update_zn, BREAK, BREAK2, CARRY, DECIMAL_MODE,
    INTERRUPT_DISABLE, NEGATIV, OVERFLOW, ZERO,
};
use crate::opcodes::{decode, spec_decode, Mnemonic, OpCode};

verus! {

/// Stack-pointer value after reset.
pub const STACK_RESET: u8 = 0xfd;

/// Base address of the stack page: the stack pointer is an offset into the
/// 256-byte page starting here.
pub const STACK_END: u16 = 0x0100;

/// Status-register value after reset: interrupt-disable and the unused bit.
pub const STATUS_RESET: u8 = 0b0010_0100;

/// How an instruction's operand bytes are turned into an effective operand
/// address.  `NoneAddressing` marks instructions whose operand handling is
/// implied by the mnemonic: no operand, the accumulator, a relative branch
/// offset, or a jump target.
#[allow(non_camel_case_types)]
#[derive(Clone, Copy, Debug, PartialEq, Eq, Structural)]
pub enum AddressingMode {
    Immediate,
    ZeroPage,
    ZeroPage_X,
    ZeroPage_Y,
    Absolute,
    Absolute_X,
    Absolute_Y,
    Indirect_X,
    Indirect_Y,
    NoneAddressing,
}

/// 8-bit wrapping addition.
pub open spec fn add8(a: u8, b: u8) -> u8 {
    if a + b > 0xff {
        (a + b - 0x100) as u8
    } else {
        (a + b) as u8
    }
}

/// 8-bit wrapping subtraction.
pub open spec fn sub8(a: u8, b: u8) -> u8 {
    if a - b < 0 {
        (a - b + 0x100) as u8
    } else {
        (a - b) as u8
    }
}

/// 16-bit wrapping subtraction.
pub open spec fn sub16(a: u16, b: u16) -> u16 {
    if a - b < 0 {
        (a - b + 0x10000) as u16
    } else {
        (a - b) as u16
    }
}

/// 16-bit wrapping addition.
pub open spec fn add16(a: u16, b: u16) -> u16 {
    if a + b > 0xffff {
        (a + b - 0x10000) as u16
    } else {
        (a + b) as u16
    }
}

/// 64-bit wrapping addition, for the cycle tally.
pub open spec fn add64(a: u64, b: u64) -> u64 {
    if a + b > u64::MAX {
        (a + b - 0x1_0000_0000_0000_0000) as u64
    } else {
        (a + b) as u64
    }
}

/// The 16-bit value with high byte `hi` and low byte `lo`.
pub open spec fn make16(hi: u8, lo: u8) -> u16 {
    (hi * 0x100 + lo) as u16
}

/// Low byte of a 16-bit value.
pub open spec fn lo8(v: u16) -> u8 {
    (v % 0x100) as u8
}

/// High byte of a 16-bit value.
pub open spec fn hi8(v: u16) -> u8 {
    (v / 0x100) as u8
}

/// The little-endian 16-bit value stored at `p`: low byte at `p`, high byte
/// at `p + 1`, the pointer wrapping at the top of the address space.
pub open spec fn mem16(m: Seq<u8>, p: u16) -> u16 {
    make16(m[add16(p, 1) as int], m[p as int])
}

/// A memory bus: a 16-bit-addressed, byte-granular read/write surface with
/// little-endian 16-bit convenience accessors.  The processor is the bus
/// implementation in this crate; a surrounding system may provide others.
pub trait Mem {
    /// Whether the bus is in a state in which every address is readable.
    spec fn mem_wf(&self) -> bool;

    /// The bytes visible through the bus, indexed by address.
    spec fn mem_seq(&self) -> Seq<u8>;

    /// The byte at `addr`.
    fn mem_read(&self, addr: u16) -> (r: u8)
        requires
            self.mem_wf(),
        ensures
            r == self.mem_seq()[addr as int],
    ;

    /// Store `data` at `addr`.
    fn mem_write(&mut self, addr: u16, data: u8)
        requires
            old(self).mem_wf(),
        ensures
            final(self).mem_wf(),
            final(self).mem_seq() == old(self).mem_seq().update(addr as int, data),
    ;

    /// The little-endian 16-bit value at `pos`; the high byte is read at
    /// `pos + 1` with the address wrapping at `0xffff`.
    fn mem_read_u16(&self, pos: u16) -> (r: u16)
        requires
            self.mem_wf(),
        ensures
            r == mem16(self.mem_seq(), pos),
    ;

    /// Store `data` at `pos` in little-endian order: low byte at `pos`, high
    /// byte at `pos + 1`, the address wrapping at `0xffff`.
    fn mem_write_u16(&mut self, pos: u16, data: u16)
        requires
            old(self).mem_wf(),
        ensures
            final(self).mem_wf(),
            final(self).mem_seq() == old(self).mem_seq().update(pos as int, lo8(data)).update(
                add16(pos, 1) as int,
                hi8(data),
            ),
    ;
}

/// The processor: its register file, cycle tally, and the 64 KiB memory
/// image it executes from.
pub struct CPU {
    pub register_a: u8,
    pub register_x: u8,
    pub register_y: u8,
    pub status: CpuFlags,
    pub program_counter: u16,
    pub stack_pointer: u8,
    pub cycles: u64,
    pub memory: Vec<u8>,
}

impl CPU {
    /// The memory image, indexed by address.
    pub open spec fn mem(&self) -> Seq<u8> {
        self.memory@
    }

    /// The memory image covers the full 16-bit address space.  Established
    /// by [`CPU::new`] and preserved by every operation.
    pub open spec fn wf(&self) -> bool {
        self.mem().len() == 0x10000
    }

    /// A processor out of reset: registers cleared, status at its reset
    /// value, stack pointer at the top of the stack, and memory all zero.
    pub fn new() -> (r: CPU)
        ensures
            r.wf(),
            r.register_a == 0,
            r.register_x == 0,
            r.register_y == 0,
            r.status.bits == STATUS_RESET,
            r.program_counter == 0,
            r.stack_pointer == STACK_RESET,
            r.cycles == 0,
            r.mem() == Seq::new(0x10000, |i: int| 0u8),
    {
        let mut memory: Vec<u8> = Vec::new();
        let mut i: usize = 0;
        while i < 0x10000
            invariant
                i <= 0x10000,
                memory@ =~= Seq::new(i as nat, |j: int| 0u8),
            decreases 0x10000 - i,
        {
            memory.push(0);
            i = i + 1;
        }
        proof {
            assert(memory@ =~= Seq::new(0x10000, |i: int| 0u8));
        }
        CPU {
            register_a: 0,
            register_x: 0,
            register_y: 0,
            status: CpuFlags::from_bits_truncate(STATUS_RESET),
            program_counter: 0,
            stack_pointer: STACK_RESET,
            cycles: 0,
            memory,
        }
    }

    /// Read one byte; the registers are untouched.
    pub(crate) fn read(&self, addr: u16) -> (r: u8)
        requires
            self.wf(),
        ensures
            r == self.mem()[addr as int],
    {
        self.memory[addr as usize]
    }

    /// Write one byte; everything but that memory cell is untouched.
    fn write(&mut self, addr: u16, data: u8)
        requires
            old(self).wf(),
        ensures
            final(self).wf(),
            final(self).mem() == old(self).mem().update(addr as int, data),
            same_regs(*old(self), *final(self)),
    {
        self.memory[addr as usize] = data;
    }

    /// Read a little-endian 16-bit value; the high-byte address wraps at the
    /// top of the address space.
    pub(crate) fn read16(&self, pos: u16) -> (r: u16)
        requires
            self.wf(),
        ensures
            r == mem16(self.mem(), pos),
    {
        let lo = self.read(pos);
        let hi = self.read(pos.wrapping_add(1));
        (hi as u16) * 0x100 + (lo as u16)
    }

    /// Write a little-endian 16-bit value; the high-byte address wraps at
    /// the top of the address space.
    fn write16(&mut self, pos: u16, data: u16)
        requires
            old(self).wf(),
        ensures
            final(self).wf(),
            final(self).mem() == old(self).mem().update(pos as int, lo8(data)).update(
                add16(pos, 1) as int,
                hi8(data),
            ),
            same_regs(*old(self), *final(self)),
    {
        let lo = (data % 0x100) as u8;
        let hi = (data / 0x100) as u8;
        self.write(pos, lo);
        self.write(pos.wrapping_add(1), hi);
    }

    /// Resolve `mode` with the operand bytes at `addr`.  Resolving a mode
    /// without an operand address is a caller error and is refused here.
    pub(crate) fn get_absolute_address(&self, mode: AddressingMode, addr: u16) -> (r: u16)
        requires
            self.wf(),
            mode != AddressingMode::NoneAddressing,
        ensures
            r == ea_spec(self.mem(), self.register_x, self.register_y, mode, addr),
    {
        match mode {
            AddressingMode::Immediate => addr,
            AddressingMode::ZeroPage => self.read(addr) as u16,
            AddressingMode::ZeroPage_X => {
                let pos = self.read(addr);
                pos.wrapping_add(self.register_x) as u16
            },
            AddressingMode::ZeroPage_Y => {
                let pos = self.read(addr);
                pos.wrapping_add(self.register_y) as u16
            },
            AddressingMode::Absolute => self.read16(addr),
            AddressingMode::Absolute_X => {
                let base = self.read16(addr);
                base.wrapping_add(self.register_x as u16)
            },
            AddressingMode::Absolute_Y => {
                let base = self.read16(addr);
                base.wrapping_add(self.register_y as u16)
            },
            AddressingMode::Indirect_X => {
                let base = self.read(addr);
                let ptr = base.wrapping_add(self.register_x);
                let lo = self.read(ptr as u16);
                let hi = self.read(ptr.wrapping_add(1) as u16);
                (hi as u16) * 0x100 + (lo as u16)
            },
            AddressingMode::Indirect_Y => {
                let base = self.read(addr);
                let lo = self.read(base as u16);
                let hi = self.read(base.wrapping_add(1) as u16);
                let deref_base = (hi as u16) * 0x100 + (lo as u16);
                deref_base.wrapping_add(self.register_y as u16)
            },
            AddressingMode::NoneAddressing => 0,
        }
    }

    /// Resolve `mode` with the operand bytes at the program counter.
    fn get_operand_address(&self, mode: AddressingMode) -> (r: u16)
        requires
            self.wf(),
            mode != AddressingMode::NoneAddressing,
        ensures
            r == ea_spec(self.mem(), self.register_x, self.register_y, mode, self.program_counter),
    {
        self.get_absolute_address(mode, self.program_counter)
    }

    /// Whether resolving `mode` at `p` crosses a page boundary.
    fn page_cross(&self, mode: AddressingMode, p: u16) -> (r: bool)
        requires
            self.wf(),
        ensures
            r == page_cross_spec(self.mem(), self.register_x, self.register_y, mode, p),
    {
        match mode {
            AddressingMode::Absolute_X => {
                let base = self.read16(p);
                let ea = base.wrapping_add(self.register_x as u16);
                ea & 0xff00 != base & 0xff00
            },
            AddressingMode::Absolute_Y => {
                let base = self.read16(p);
                let ea = base.wrapping_add(self.register_y as u16);
                ea & 0xff00 != base & 0xff00
            },
            AddressingMode::Indirect_Y => {
                let base = self.read(p);
                let lo = self.read(base as u16);
                let hi = self.read(base.wrapping_add(1) as u16);
                let deref_base = (hi as u16) * 0x100 + (lo as u16);
                let ea = deref_base.wrapping_add(self.register_y as u16);
                ea & 0xff00 != deref_base & 0xff00
            },
            _ => false,
        }
    }

    /// Push one byte: store at the stack pointer's cell in page one, then
    /// decrement the pointer, wrapping at zero.
    fn stack_push(&mut self, value: u8)
        requires
            old(self).wf(),
        ensures
            final(self).wf(),
            final(self).mem() == old(self).mem().update(
                0x100 + old(self).stack_pointer as int,
                value,
            ),
            final(self).stack_pointer == sub8(old(self).stack_pointer, 1),
            frame_stack(*old(self), *final(self)),
    {
        self.write(STACK_END + self.stack_pointer as u16, value);
        self.stack_pointer = self.stack_pointer.wrapping_sub(1);
    }

    /// Pop one byte: increment the pointer, wrapping at `0xff`, then read the
    /// cell it points at.
    fn stack_pop(&mut self) -> (r: u8)
        requires
            old(self).wf(),
        ensures
            final(self).wf(),
            r == old(self).mem()[0x100 + add8(old(self).stack_pointer, 1) as int],
            final(self).mem() == old(self).mem(),
            final(self).stack_pointer == add8(old(self).stack_pointer, 1),
            frame_stack(*old(self), *final(self)),
    {
        self.stack_pointer = self.stack_pointer.wrapping_add(1);
        self.read(STACK_END + self.stack_pointer as u16)
    }

    /// Push a 16-bit value, high byte first, so that popping yields the low
    /// byte first.
    fn stack_push_u16(&mut self, value: u16)
        requires
            old(self).wf(),
        ensures
            final(self).wf(),
            final(self).mem() == old(self).mem().update(
                0x100 + old(self).stack_pointer as int,
                hi8(value),
            ).update(0x100 + sub8(old(self).stack_pointer, 1) as int, lo8(value)),
            final(self).stack_pointer == sub8(old(self).stack_pointer, 2),
            frame_stack(*old(self), *final(self)),
    {
        self.stack_push((value / 0x100) as u8);
        self.stack_push((value % 0x100) as u8);
    }

    /// Pop a 16-bit value: low byte first, then high byte.  That this
    /// returns exactly what [`CPU::stack_push_u16`] pushed, restoring the
    /// pointer, is proved once in [`crate::laws::lemma_push_pop_u16`].
    fn stack_pop_u16(&mut self) -> (r: u16)
        requires
            old(self).wf(),
        ensures
            final(self).wf(),
            r == make16(
                old(self).mem()[0x100 + add8(old(self).stack_pointer, 2) as int],
                old(self).mem()[0x100 + add8(old(self).stack_pointer, 1) as int],
            ),
            final(self).mem() == old(self).mem(),
            final(self).stack_pointer == add8(old(self).stack_pointer, 2),
            frame_stack(*old(self), *final(self)),
    {
        let lo = self.stack_pop();
        let hi = self.stack_pop();
        (hi as u16) * 0x100 + (lo as u16)
    }

    /// Refresh ZERO and NEGATIV from a result byte.
    fn update_zero_and_negative_flags(&mut self, result: u8)
        requires
            old(self).wf(),
        ensures
            final(self).wf(),
            final(self).status.bits == spec_update_zn(old(self).status.bits, result),
            frame_p(*old(self), *final(self)),
    {
        self.status.update_zn(result);
    }

    /// Load the accumulator and refresh ZERO and NEGATIV from it.
    fn set_register_a(&mut self, value: u8)
        requires
            old(self).wf(),
        ensures
            final(self).wf(),
            final(self).cycles == old(self).cycles,
            cpu_is(
                *final(self),
                value,
                old(self).register_x,
                old(self).register_y,
                old(self).stack_pointer,
                spec_update_zn(old(self).status.bits, value),
                old(self).program_counter,
                old(self).mem(),
            ),
    {
        self.register_a = value;
        self.update_zero_and_negative_flags(value);
    }

    /// Load the X register and refresh ZERO and NEGATIV from it.
    fn set_register_x(&mut self, value: u8)
        requires
            old(self).wf(),
        ensures
            final(self).wf(),
            final(self).cycles == old(self).cycles,
            cpu_is(
                *final(self),
                old(self).register_a,
                value,
                old(self).register_y,
                old(self).stack_pointer,
                spec_update_zn(old(self).status.bits, value),
                old(self).program_counter,
                old(self).mem(),
            ),
    {
        self.register_x = value;
        self.update_zero_and_negative_flags(value);
    }

    /// Load the Y register and refresh ZERO and NEGATIV from it.
    fn set_register_y(&mut self, value: u8)
        requires
            old(self).wf(),
        ensures
            final(self).wf(),
            final(self).cycles == old(self).cycles,
            cpu_is(
                *final(self),
                old(self).register_a,
                old(self).register_x,
                value,
                old(self).stack_pointer,
                spec_update_zn(old(self).status.bits, value),
                old(self).program_counter,
                old(self).mem(),
            ),
    {
        self.register_y = value;
        self.update_zero_and_negative_flags(value);
    }
}

/// Everything but the stack pointer and the memory image agrees between `a`
/// and `b`.
pub open spec fn frame_stack(a: CPU, b: CPU) -> bool {
    &&& b.register_a == a.register_a
    &&& b.register_x == a.register_x
    &&& b.register_y == a.register_y
    &&& b.status == a.status
    &&& b.program_counter == a.program_counter
    &&& b.cycles == a.cycles
}

/// Everything but the status register agrees between `a` and `b`.
pub open spec fn frame_p(a: CPU, b: CPU) -> bool {
    &&& b.register_a == a.register_a
    &&& b.register_x == a.register_x
    &&& b.register_y == a.register_y
    &&& b.stack_pointer == a.stack_pointer
    &&& b.program_counter == a.program_counter
    &&& b.cycles == a.cycles
    &&& b.mem() == a.mem()
}


/// Effective operand address for `mode`, with the operand bytes at `p` and
/// the index registers holding `x` and `y`.  Indexed zero-page modes and the
/// pointer increments of the indirect modes wrap inside the zero page; the
/// absolute indexed modes and the post-indexing of `Indirect_Y` wrap at the
/// top of the address space.  `NoneAddressing` has no operand address: the
/// resolver refuses it by precondition, and the zero this total function
/// gives it is consulted by no instruction.
pub open spec fn ea_spec(m: Seq<u8>, x: u8, y: u8, mode: AddressingMode, p: u16) -> u16 {
    match mode {
        AddressingMode::Immediate => p,
        AddressingMode::ZeroPage => m[p as int] as u16,
        AddressingMode::ZeroPage_X => add8(m[p as int], x) as u16,
        AddressingMode::ZeroPage_Y => add8(m[p as int], y) as u16,
        AddressingMode::Absolute => mem16(m, p),
        AddressingMode::Absolute_X => add16(mem16(m, p), x as u16),
        AddressingMode::Absolute_Y => add16(mem16(m, p), y as u16),
        AddressingMode::Indirect_X => {
            let ptr = add8(m[p as int], x);
            make16(m[add8(ptr, 1) as int], m[ptr as int])
        },
        AddressingMode::Indirect_Y => {
            let base = m[p as int];
            add16(make16(m[add8(base, 1) as int], m[base as int]), y as u16)
        },
        AddressingMode::NoneAddressing => 0,
    }
}

/// Whether resolving `mode` at `p` lands on a different 256-byte page than
/// the unindexed base address: the condition for the one-cycle surcharge of
/// the indexed read instructions.
pub open spec fn page_cross_spec(m: Seq<u8>, x: u8, y: u8, mode: AddressingMode, p: u16) -> bool {
    match mode {
        AddressingMode::Absolute_X => {
            let base = mem16(m, p);
            add16(base, x as u16) & 0xff00 != base & 0xff00
        },
        AddressingMode::Absolute_Y => {
            let base = mem16(m, p);
            add16(base, y as u16) & 0xff00 != base & 0xff00
        },
        AddressingMode::Indirect_Y => {
            let base = m[p as int];
            let deref_base = make16(m[add8(base, 1) as int], m[base as int]);
            add16(deref_base, y as u16) & 0xff00 != deref_base & 0xff00
        },
        _ => false,
    }
}

/// The state of `c`, field by field: registers `a`, `x`, `y`, stack pointer
/// `sp`, status byte `p`, program counter `pc`, and memory image `m`.  The
/// cycle tally is not constrained; the step relation pins it separately.
pub open spec fn cpu_is(c: CPU, a: u8, x: u8, y: u8, sp: u8, p: u8, pc: u16, m: Seq<u8>) -> bool {
    &&& c.register_a == a
    &&& c.register_x == x
    &&& c.register_y == y
    &&& c.stack_pointer == sp
    &&& c.status.bits == p
    &&& c.program_counter == pc
    &&& c.mem() == m
}

/// Carry-in as a number: bit 0 of the status byte.
pub open spec fn carry_in(p: u8) -> u8 {
    if p & CARRY == CARRY {
        1
    } else {
        0
    }
}

/// The accumulator after adding `m` with the carry of `p`, modulo 256.
pub open spec fn adc_r(a: u8, m: u8, p: u8) -> u8 {
    ((a + m + carry_in(p)) % 0x100) as u8
}

/// Whether adding `m` to `a` with the carry of `p` overflows 8 unsigned bits.
pub open spec fn adc_carry(a: u8, m: u8, p: u8) -> bool {
    a + m + carry_in(p) > 0xff
}

/// Signed overflow of the same addition: the operands agree in sign and the
/// result does not.
pub open spec fn adc_overflow(a: u8, m: u8, p: u8) -> bool {
    (a & 0x80 == m & 0x80) && (a & 0x80 != adc_r(a, m, p) & 0x80)
}

/// The status byte after an ADC of `m` into accumulator `a`: carry and
/// overflow from the addition, then ZERO and NEGATIV from the result.
pub open spec fn p_adc(p: u8, a: u8, m: u8) -> u8 {
    spec_update_zn(
        spec_set_flag(spec_set_flag(p, CARRY, adc_carry(a, m, p)), OVERFLOW, adc_overflow(a, m, p)),
        adc_r(a, m, p),
    )
}

/// The sign test `(m ^ r) & (r ^ a) & 0x80 != 0` computes exactly "the
/// operands agree in sign and the result differs from them".
proof fn lemma_adc_overflow(a: u8, m: u8, r: u8)
    by (bit_vector)
    ensures
        ((m ^ r) & (r ^ a) & 0x80 != 0) <==> ((a & 0x80 == m & 0x80) && (a & 0x80 != r & 0x80)),
{
}

/// The status byte after comparing register value `reg` with operand `v`:
/// carry exactly when `reg >= v` unsigned, then ZERO and NEGATIV from the
/// 8-bit difference.
pub open spec fn p_cmp(p: u8, reg: u8, v: u8) -> u8 {
    spec_update_zn(spec_set_flag(p, CARRY, reg >= v), sub8(reg, v))
}

/// The status byte after a shift or rotate: `c` is the bit shifted out, `r`
/// the result.
pub open spec fn p_shift(p: u8, c: bool, r: u8) -> u8 {
    spec_update_zn(spec_set_flag(p, CARRY, c), r)
}

/// The status byte after BIT with accumulator `a` and operand `v`: ZERO from
/// `a & v`, NEGATIV from bit 7 of the operand, OVERFLOW from bit 6.
pub open spec fn p_bit(p: u8, a: u8, v: u8) -> u8 {
    spec_set_flag(
        spec_set_flag(spec_set_flag(p, ZERO, a & v == 0), NEGATIV, v & 0x80 != 0),
        OVERFLOW,
        v & 0x40 != 0,
    )
}

/// The status byte restored by PLP or RTI: the pulled byte with the BREAK
/// bit forced clear and the unused bit forced set.
pub open spec fn p_pulled(v: u8) -> u8 {
    (v & !BREAK) | BREAK2
}

/// A shift left: bit 0 becomes 0.
pub open spec fn asl_r(v: u8) -> u8 {
    v << 1
}

/// A shift right: bit 7 becomes 0.
pub open spec fn lsr_r(v: u8) -> u8 {
    v >> 1
}

/// A rotate left: bit 0 receives the old carry.
pub open spec fn rol_r(v: u8, c: bool) -> u8 {
    (v << 1) | (if c {
        1
    } else {
        0
    })
}

/// A rotate right: bit 7 receives the old carry.
pub open spec fn ror_r(v: u8, c: bool) -> u8 {
    (v >> 1) | (if c {
        0x80
    } else {
        0
    })
}

/// The sign extension of a relative branch offset to 16 bits.
pub open spec fn sign16(off: u8) -> u16 {
    if off < 0x80 {
        off as u16
    } else {
        (off + 0xff00) as u16
    }
}

/// The target of a taken branch whose offset byte sits at `opp`: the address
/// after the offset byte, plus the signed offset, wrapping at the top of the
/// address space.
pub open spec fn branch_target(m: Seq<u8>, opp: u16) -> u16 {
    add16(add16(opp, 1), sign16(m[opp as int]))
}

/// Whether the branch mnemonic `mn` is taken under status byte `p`.
pub open spec fn branch_taken(p: u8, mn: Mnemonic) -> bool {
    match mn {
        Mnemonic::BCC => p & CARRY != CARRY,
        Mnemonic::BCS => p & CARRY == CARRY,
        Mnemonic::BEQ => p & ZERO == ZERO,
        Mnemonic::BNE => p & ZERO != ZERO,
        Mnemonic::BMI => p & NEGATIV == NEGATIV,
        Mnemonic::BPL => p & NEGATIV != NEGATIV,
        Mnemonic::BVC => p & OVERFLOW != OVERFLOW,
        Mnemonic::BVS => p & OVERFLOW == OVERFLOW,
        _ => false,
    }
}

/// The target of an indirect jump through the pointer `base`, reproducing
/// the 6502 page-boundary defect: when `base` ends in `0xff`, the high byte
/// of the target is fetched from the start of the same page rather than from
/// the next page.
pub open spec fn jmp_ind_target(m: Seq<u8>, base: u16) -> u16 {
    if base & 0x00ff == 0x00ff {
        make16(m[(base & 0xff00) as int], m[base as int])
    } else {
        mem16(m, base)
    }
}

/// The register files of `a` and `b` agree: every field but the memory
/// image.
pub open spec fn same_regs(a: CPU, b: CPU) -> bool {
    &&& b.register_a == a.register_a
    &&& b.register_x == a.register_x
    &&& b.register_y == a.register_y
    &&& b.status == a.status
    &&& b.program_counter == a.program_counter
    &&& b.stack_pointer == a.stack_pointer
    &&& b.cycles == a.cycles
}

impl CPU {
    /// LDA: load the accumulator from the operand.
    fn lda(&mut self, mode: AddressingMode)
        requires
            old(self).wf(),
            mode != AddressingMode::NoneAddressing,
        ensures
            final(self).wf(),
            final(self).cycles == old(self).cycles,
            ({
                let pre = *old(self);
                let m = pre.mem();
                let v = m[ea_spec(m, pre.register_x, pre.register_y, mode, pre.program_counter) as int];
                cpu_is(
                    *final(self),
                    v,
                    pre.register_x,
                    pre.register_y,
                    pre.stack_pointer,
                    spec_update_zn(pre.status.bits, v),
                    pre.program_counter,
                    m,
                )
            }),
    {
        let addr = self.get_operand_address(mode);
        let value = self.read(addr);
        self.set_register_a(value);
    }

    /// LDX: load the X register from the operand.
    fn ldx(&mut self, mode: AddressingMode)
        requires
            old(self).wf(),
            mode != AddressingMode::NoneAddressing,
        ensures
            final(self).wf(),
            final(self).cycles == old(self).cycles,
            ({
                let pre = *old(self);
                let m = pre.mem();
                let v = m[ea_spec(m, pre.register_x, pre.register_y, mode, pre.program_counter) as int];
                cpu_is(
                    *final(self),
                    pre.register_a,
                    v,
                    pre.register_y,
                    pre.stack_pointer,
                    spec_update_zn(pre.status.bits, v),
                    pre.program_counter,
                    m,
                )
            }),
    {
        let addr = self.get_operand_address(mode);
        let value = self.read(addr);
        self.set_register_x(value);
    }

    /// LDY: load the Y register from the operand.
    fn ldy(&mut self, mode: AddressingMode)
        requires
            old(self).wf(),
            mode != AddressingMode::NoneAddressing,
        ensures
            final(self).wf(),
            final(self).cycles == old(self).cycles,
            ({
                let pre = *old(self);
                let m = pre.mem();
                let v = m[ea_spec(m, pre.register_x, pre.register_y, mode, pre.program_counter) as int];
                cpu_is(
                    *final(self),
                    pre.register_a,
                    pre.register_x,
                    v,
                    pre.stack_pointer,
                    spec_update_zn(pre.status.bits, v),
                    pre.program_counter,
                    m,
                )
            }),
    {
        let addr = self.get_operand_address(mode);
        let value = self.read(addr);
        self.set_register_y(value);
    }

    /// STA: store the accumulator at the operand address; no flags change.
    fn sta(&mut self, mode: AddressingMode)
        requires
            old(self).wf(),
            mode != AddressingMode::NoneAddressing,
        ensures
            final(self).wf(),
            final(self).cycles == old(self).cycles,
            ({
                let pre = *old(self);
                let m = pre.mem();
                let ea = ea_spec(m, pre.register_x, pre.register_y, mode, pre.program_counter);
                cpu_is(
                    *final(self),
                    pre.register_a,
                    pre.register_x,
                    pre.register_y,
                    pre.stack_pointer,
                    pre.status.bits,
                    pre.program_counter,
                    m.update(ea as int, pre.register_a),
                )
            }),
    {
        let addr = self.get_operand_address(mode);
        let a = self.register_a;
        self.write(addr, a);
    }

    /// STX: store the X register at the operand address; no flags change.
    fn stx(&mut self, mode: AddressingMode)
        requires
            old(self).wf(),
            mode != AddressingMode::NoneAddressing,
        ensures
            final(self).wf(),
            final(self).cycles == old(self).cycles,
            ({
                let pre = *old(self);
                let m = pre.mem();
                let ea = ea_spec(m, pre.register_x, pre.register_y, mode, pre.program_counter);
                cpu_is(
                    *final(self),
                    pre.register_a,
                    pre.register_x,
                    pre.register_y,
                    pre.stack_pointer,
                    pre.status.bits,
                    pre.program_counter,
                    m.update(ea as int, pre.register_x),
                )
            }),
    {
        let addr = self.get_operand_address(mode);
        let x = self.register_x;
        self.write(addr, x);
    }

    /// STY: store the Y register at the operand address; no flags change.
    fn sty(&mut self, mode: AddressingMode)
        requires
            old(self).wf(),
            mode != AddressingMode::NoneAddressing,
        ensures
            final(self).wf(),
            final(self).cycles == old(self).cycles,
            ({
                let pre = *old(self);
                let m = pre.mem();
                let ea = ea_spec(m, pre.register_x, pre.register_y, mode, pre.program_counter);
                cpu_is(
                    *final(self),
                    pre.register_a,
                    pre.register_x,
                    pre.register_y,
                    pre.stack_pointer,
                    pre.status.bits,
                    pre.program_counter,
                    m.update(ea as int, pre.register_y),
                )
            }),
    {
        let addr = self.get_operand_address(mode);
        let y = self.register_y;
        self.write(addr, y);
    }

    /// AND: accumulator AND operand.
    fn and(&mut self, mode: AddressingMode)
        requires
            old(self).wf(),
            mode != AddressingMode::NoneAddressing,
        ensures
            final(self).wf(),
            final(self).cycles == old(self).cycles,
            ({
                let pre = *old(self);
                let m = pre.mem();
                let v = m[ea_spec(m, pre.register_x, pre.register_y, mode, pre.program_counter) as int];
                let r = pre.register_a & v;
                cpu_is(
                    *final(self),
                    r,
                    pre.register_x,
                    pre.register_y,
                    pre.stack_pointer,
                    spec_update_zn(pre.status.bits, r),
                    pre.program_counter,
                    m,
                )
            }),
    {
        let addr = self.get_operand_address(mode);
        let value = self.read(addr);
        let r = self.register_a & value;
        self.set_register_a(r);
    }

    /// EOR: accumulator XOR operand.
    fn eor(&mut self, mode: AddressingMode)
        requires
            old(self).wf(),
            mode != AddressingMode::NoneAddressing,
        ensures
            final(self).wf(),
            final(self).cycles == old(self).cycles,
            ({
                let pre = *old(self);
                let m = pre.mem();
                let v = m[ea_spec(m, pre.register_x, pre.register_y, mode, pre.program_counter) as int];
                let r = pre.register_a ^ v;
                cpu_is(
                    *final(self),
                    r,
                    pre.register_x,
                    pre.register_y,
                    pre.stack_pointer,
                    spec_update_zn(pre.status.bits, r),
                    pre.program_counter,
                    m,
                )
            }),
    {
        let addr = self.get_operand_address(mode);
        let value = self.read(addr);
        let r = self.register_a ^ value;
        self.set_register_a(r);
    }

    /// ORA: accumulator OR operand.
    fn ora(&mut self, mode: AddressingMode)
        requires
            old(self).wf(),
            mode != AddressingMode::NoneAddressing,
        ensures
            final(self).wf(),
            final(self).cycles == old(self).cycles,
            ({
                let pre = *old(self);
                let m = pre.mem();
                let v = m[ea_spec(m, pre.register_x, pre.register_y, mode, pre.program_counter) as int];
                let r = pre.register_a | v;
                cpu_is(
                    *final(self),
                    r,
                    pre.register_x,
                    pre.register_y,
                    pre.stack_pointer,
                    spec_update_zn(pre.status.bits, r),
                    pre.program_counter,
                    m,
                )
            }),
    {
        let addr = self.get_operand_address(mode);
        let value = self.read(addr);
        let r = self.register_a | value;
        self.set_register_a(r);
    }

    /// The shared core of ADC and SBC: add `data` and the current carry into
    /// the accumulator; carry out, signed overflow, then ZERO and NEGATIV.
    fn add_to_register_a(&mut self, data: u8)
        requires
            old(self).wf(),
        ensures
            final(self).wf(),
            final(self).cycles == old(self).cycles,
            ({
                let pre = *old(self);
                cpu_is(
                    *final(self),
                    adc_r(pre.register_a, data, pre.status.bits),
                    pre.register_x,
                    pre.register_y,
                    pre.stack_pointer,
                    p_adc(pre.status.bits, pre.register_a, data),
                    pre.program_counter,
                    pre.mem(),
                )
            }),
    {
        let cin: u16 = if self.status.contains(CARRY) {
            1
        } else {
            0
        };
        let a0 = self.register_a;
        let sum: u16 = a0 as u16 + data as u16 + cin;
        self.status.set(CARRY, sum > 0xff);
        let result = (sum % 0x100) as u8;
        let overflow = (data ^ result) & (result ^ a0) & 0x80 != 0;
        proof {
            lemma_adc_overflow(a0, data, result);
        }
        self.status.set(OVERFLOW, overflow);
        self.set_register_a(result);
    }

    /// ADC: add operand and carry into the accumulator.
    fn adc(&mut self, mode: AddressingMode)
        requires
            old(self).wf(),
            mode != AddressingMode::NoneAddressing,
        ensures
            final(self).wf(),
            final(self).cycles == old(self).cycles,
            ({
                let pre = *old(self);
                let m = pre.mem();
                let v = m[ea_spec(m, pre.register_x, pre.register_y, mode, pre.program_counter) as int];
                cpu_is(
                    *final(self),
                    adc_r(pre.register_a, v, pre.status.bits),
                    pre.register_x,
                    pre.register_y,
                    pre.stack_pointer,
                    p_adc(pre.status.bits, pre.register_a, v),
                    pre.program_counter,
                    m,
                )
            }),
    {
        let addr = self.get_operand_address(mode);
        let value = self.read(addr);
        self.add_to_register_a(value);
    }

    /// SBC: subtract operand with borrow, as an ADC of the operand's one's
    /// complement.
    fn sbc(&mut self, mode: AddressingMode)
        requires
            old(self).wf(),
            mode != AddressingMode::NoneAddressing,
        ensures
            final(self).wf(),
            final(self).cycles == old(self).cycles,
            ({
                let pre = *old(self);
                let m = pre.mem();
                let v = m[ea_spec(m, pre.register_x, pre.register_y, mode, pre.program_counter) as int];
                cpu_is(
                    *final(self),
                    adc_r(pre.register_a, v ^ 0xff, pre.status.bits),
                    pre.register_x,
                    pre.register_y,
                    pre.stack_pointer,
                    p_adc(pre.status.bits, pre.register_a, v ^ 0xff),
                    pre.program_counter,
                    m,
                )
            }),
    {
        let addr = self.get_operand_address(mode);
        let value = self.read(addr);
        self.add_to_register_a(value ^ 0xff);
    }

    /// CMP/CPX/CPY: compare a register value with the operand without
    /// storing the difference.
    fn compare(&mut self, mode: AddressingMode, compare_with: u8)
        requires
            old(self).wf(),
            mode != AddressingMode::NoneAddressing,
        ensures
            final(self).wf(),
            final(self).cycles == old(self).cycles,
            ({
                let pre = *old(self);
                let m = pre.mem();
                let v = m[ea_spec(m, pre.register_x, pre.register_y, mode, pre.program_counter) as int];
                cpu_is(
                    *final(self),
                    pre.register_a,
                    pre.register_x,
                    pre.register_y,
                    pre.stack_pointer,
                    p_cmp(pre.status.bits, compare_with, v),
                    pre.program_counter,
                    m,
                )
            }),
    {
        let addr = self.get_operand_address(mode);
        let data = self.read(addr);
        self.status.set(CARRY, compare_with >= data);
        self.update_zero_and_negative_flags(compare_with.wrapping_sub(data));
    }

    /// BIT: test the accumulator against the operand; only flags change.
    fn bit(&mut self, mode: AddressingMode)
        requires
            old(self).wf(),
            mode != AddressingMode::NoneAddressing,
        ensures
            final(self).wf(),
            final(self).cycles == old(self).cycles,
            ({
                let pre = *old(self);
                let m = pre.mem();
                let v = m[ea_spec(m, pre.register_x, pre.register_y, mode, pre.program_counter) as int];
                cpu_is(
                    *final(self),
                    pre.register_a,
                    pre.register_x,
                    pre.register_y,
                    pre.stack_pointer,
                    p_bit(pre.status.bits, pre.register_a, v),
                    pre.program_counter,
                    m,
                )
            }),
    {
        let addr = self.get_operand_address(mode);
        let data = self.read(addr);
        let a = self.register_a;
        self.status.set(ZERO, a & data == 0);
        self.status.set(NEGATIV, data & 0b1000_0000 != 0);
        self.status.set(OVERFLOW, data & 0b0100_0000 != 0);
    }

    /// INC: increment the operand cell, wrapping at 8 bits.
    fn inc(&mut self, mode: AddressingMode)
        requires
            old(self).wf(),
            mode != AddressingMode::NoneAddressing,
        ensures
            final(self).wf(),
            final(self).cycles == old(self).cycles,
            ({
                let pre = *old(self);
                let m = pre.mem();
                let ea = ea_spec(m, pre.register_x, pre.register_y, mode, pre.program_counter);
                let r = add8(m[ea as int], 1);
                cpu_is(
                    *final(self),
                    pre.register_a,
                    pre.register_x,
                    pre.register_y,
                    pre.stack_pointer,
                    spec_update_zn(pre.status.bits, r),
                    pre.program_counter,
                    m.update(ea as int, r),
                )
            }),
    {
        let addr = self.get_operand_address(mode);
        let data = self.read(addr);
        let result = data.wrapping_add(1);
        self.write(addr, result);
        self.update_zero_and_negative_flags(result);
    }

    /// DEC: decrement the operand cell, wrapping at 8 bits.
    fn dec(&mut self, mode: AddressingMode)
        requires
            old(self).wf(),
            mode != AddressingMode::NoneAddressing,
        ensures
            final(self).wf(),
            final(self).cycles == old(self).cycles,
            ({
                let pre = *old(self);
                let m = pre.mem();
                let ea = ea_spec(m, pre.register_x, pre.register_y, mode, pre.program_counter);
                let r = sub8(m[ea as int], 1);
                cpu_is(
                    *final(self),
                    pre.register_a,
                    pre.register_x,
                    pre.register_y,
                    pre.stack_pointer,
                    spec_update_zn(pre.status.bits, r),
                    pre.program_counter,
                    m.update(ea as int, r),
                )
            }),
    {
        let addr = self.get_operand_address(mode);
        let data = self.read(addr);
        let result = data.wrapping_sub(1);
        self.write(addr, result);
        self.update_zero_and_negative_flags(result);
    }

    /// INX: increment the X register.
    fn inx(&mut self)
        requires
            old(self).wf(),
        ensures
            final(self).wf(),
            final(self).cycles == old(self).cycles,
            ({
                let pre = *old(self);
                let r = add8(pre.register_x, 1);
                cpu_is(
                    *final(self),
                    pre.register_a,
                    r,
                    pre.register_y,
                    pre.stack_pointer,
                    spec_update_zn(pre.status.bits, r),
                    pre.program_counter,
                    pre.mem(),
                )
            }),
    {
        let r = self.register_x.wrapping_add(1);
        self.set_register_x(r);
    }

    /// INY: increment the Y register.
    fn iny(&mut self)
        requires
            old(self).wf(),
        ensures
            final(self).wf(),
            final(self).cycles == old(self).cycles,
            ({
                let pre = *old(self);
                let r = add8(pre.register_y, 1);
                cpu_is(
                    *final(self),
                    pre.register_a,
                    pre.register_x,
                    r,
                    pre.stack_pointer,
                    spec_update_zn(pre.status.bits, r),
                    pre.program_counter,
                    pre.mem(),
                )
            }),
    {
        let r = self.register_y.wrapping_add(1);
        self.set_register_y(r);
    }

    /// DEX: decrement the X register.
    fn decx(&mut self)
        requires
            old(self).wf(),
        ensures
            final(self).wf(),
            final(self).cycles == old(self).cycles,
            ({
                let pre = *old(self);
                let r = sub8(pre.register_x, 1);
                cpu_is(
                    *final(self),
                    pre.register_a,
                    r,
                    pre.register_y,
                    pre.stack_pointer,
                    spec_update_zn(pre.status.bits, r),
                    pre.program_counter,
                    pre.mem(),
                )
            }),
    {
        let r = self.register_x.wrapping_sub(1);
        self.set_register_x(r);
    }

    /// DEY: decrement the Y register.
    fn decy(&mut self)
        requires
            old(self).wf(),
        ensures
            final(self).wf(),
            final(self).cycles == old(self).cycles,
            ({
                let pre = *old(self);
                let r = sub8(pre.register_y, 1);
                cpu_is(
                    *final(self),
                    pre.register_a,
                    pre.register_x,
                    r,
                    pre.stack_pointer,
                    spec_update_zn(pre.status.bits, r),
                    pre.program_counter,
                    pre.mem(),
                )
            }),
    {
        let r = self.register_y.wrapping_sub(1);
        self.set_register_y(r);
    }

    /// TAX: copy the accumulator to X and set flags from it.
    fn tax(&mut self)
        requires
            old(self).wf(),
        ensures
            final(self).wf(),
            final(self).cycles == old(self).cycles,
            ({
                let pre = *old(self);
                cpu_is(
                    *final(self),
                    pre.register_a,
                    pre.register_a,
                    pre.register_y,
                    pre.stack_pointer,
                    spec_update_zn(pre.status.bits, pre.register_a),
                    pre.program_counter,
                    pre.mem(),
                )
            }),
    {
        let a = self.register_a;
        self.set_register_x(a);
    }
}

impl CPU {
    /// TAY: copy the accumulator to Y and set flags from it.
    fn tay(&mut self)
        requires
            old(self).wf(),
        ensures
            final(self).wf(),
            final(self).cycles == old(self).cycles,
            ({
                let pre = *old(self);
                cpu_is(
                    *final(self),
                    pre.register_a,
                    pre.register_x,
                    pre.register_a,
                    pre.stack_pointer,
                    spec_update_zn(pre.status.bits, pre.register_a),
                    pre.program_counter,
                    pre.mem(),
                )
            }),
    {
        let a = self.register_a;
        self.set_register_y(a);
    }

    /// TXA: copy X to the accumulator and set flags from it.
    fn txa(&mut self)
        requires
            old(self).wf(),
        ensures
            final(self).wf(),
            final(self).cycles == old(self).cycles,
            ({
                let pre = *old(self);
                cpu_is(
                    *final(self),
                    pre.register_x,
                    pre.register_x,
                    pre.register_y,
                    pre.stack_pointer,
                    spec_update_zn(pre.status.bits, pre.register_x),
                    pre.program_counter,
                    pre.mem(),
                )
            }),
    {
        let x = self.register_x;
        self.set_register_a(x);
    }

    /// TYA: copy Y to the accumulator and set flags from it.
    fn tya(&mut self)
        requires
            old(self).wf(),
        ensures
            final(self).wf(),
            final(self).cycles == old(self).cycles,
            ({
                let pre = *old(self);
                cpu_is(
                    *final(self),
                    pre.register_y,
                    pre.register_x,
                    pre.register_y,
                    pre.stack_pointer,
                    spec_update_zn(pre.status.bits, pre.register_y),
                    pre.program_counter,
                    pre.mem(),
                )
            }),
    {
        let y = self.register_y;
        self.set_register_a(y);
    }

    /// TSX: copy the stack pointer to X and set flags from it.
    fn tsx(&mut self)
        requires
            old(self).wf(),
        ensures
            final(self).wf(),
            final(self).cycles == old(self).cycles,
            ({
                let pre = *old(self);
                cpu_is(
                    *final(self),
                    pre.register_a,
                    pre.stack_pointer,
                    pre.register_y,
                    pre.stack_pointer,
                    spec_update_zn(pre.status.bits, pre.stack_pointer),
                    pre.program_counter,
                    pre.mem(),
                )
            }),
    {
        let sp = self.stack_pointer;
        self.set_register_x(sp);
    }

    /// TXS: copy X to the stack pointer; no flags change.
    fn txs(&mut self)
        requires
            old(self).wf(),
        ensures
            final(self).wf(),
            final(self).cycles == old(self).cycles,
            ({
                let pre = *old(self);
                cpu_is(
                    *final(self),
                    pre.register_a,
                    pre.register_x,
                    pre.register_y,
                    pre.register_x,
                    pre.status.bits,
                    pre.program_counter,
                    pre.mem(),
                )
            }),
    {
        self.stack_pointer = self.register_x;
    }

    /// ASL on a memory operand: shift left, bit 7 to carry.
    fn asl(&mut self, mode: AddressingMode)
        requires
            old(self).wf(),
            mode != AddressingMode::NoneAddressing,
        ensures
            final(self).wf(),
            final(self).cycles == old(self).cycles,
            ({
                let pre = *old(self);
                let m = pre.mem();
                let ea = ea_spec(m, pre.register_x, pre.register_y, mode, pre.program_counter);
                let v = m[ea as int];
                cpu_is(
                    *final(self),
                    pre.register_a,
                    pre.register_x,
                    pre.register_y,
                    pre.stack_pointer,
                    p_shift(pre.status.bits, v & 0x80 != 0, asl_r(v)),
                    pre.program_counter,
                    m.update(ea as int, asl_r(v)),
                )
            }),
    {
        let addr = self.get_operand_address(mode);
        let value = self.read(addr);
        self.status.set(CARRY, value & 0x80 != 0);
        let result = value << 1;
        self.write(addr, result);
        self.update_zero_and_negative_flags(result);
    }

    /// ASL on the accumulator.
    fn asl_accumulator(&mut self)
        requires
            old(self).wf(),
        ensures
            final(self).wf(),
            final(self).cycles == old(self).cycles,
            ({
                let pre = *old(self);
                cpu_is(
                    *final(self),
                    asl_r(pre.register_a),
                    pre.register_x,
                    pre.register_y,
                    pre.stack_pointer,
                    p_shift(pre.status.bits, pre.register_a & 0x80 != 0, asl_r(pre.register_a)),
                    pre.program_counter,
                    pre.mem(),
                )
            }),
    {
        let value = self.register_a;
        self.status.set(CARRY, value & 0x80 != 0);
        self.set_register_a(value << 1);
    }

    /// LSR on a memory operand: shift right, bit 0 to carry.
    fn lsr(&mut self, mode: AddressingMode)
        requires
            old(self).wf(),
            mode != AddressingMode::NoneAddressing,
        ensures
            final(self).wf(),
            final(self).cycles == old(self).cycles,
            ({
                let pre = *old(self);
                let m = pre.mem();
                let ea = ea_spec(m, pre.register_x, pre.register_y, mode, pre.program_counter);
                let v = m[ea as int];
                cpu_is(
                    *final(self),
                    pre.register_a,
                    pre.register_x,
                    pre.register_y,
                    pre.stack_pointer,
                    p_shift(pre.status.bits, v & 1 == 1, lsr_r(v)),
                    pre.program_counter,
                    m.update(ea as int, lsr_r(v)),
                )
            }),
    {
        let addr = self.get_operand_address(mode);
        let value = self.read(addr);
        self.status.set(CARRY, value & 1 == 1);
        let result = value >> 1;
        self.write(addr, result);
        self.update_zero_and_negative_flags(result);
    }

    /// LSR on the accumulator.
    fn lsr_accumulator(&mut self)
        requires
            old(self).wf(),
        ensures
            final(self).wf(),
            final(self).cycles == old(self).cycles,
            ({
                let pre = *old(self);
                cpu_is(
                    *final(self),
                    lsr_r(pre.register_a),
                    pre.register_x,
                    pre.register_y,
                    pre.stack_pointer,
                    p_shift(pre.status.bits, pre.register_a & 1 == 1, lsr_r(pre.register_a)),
                    pre.program_counter,
                    pre.mem(),
                )
            }),
    {
        let value = self.register_a;
        self.status.set(CARRY, value & 1 == 1);
        self.set_register_a(value >> 1);
    }

    /// ROL on a memory operand: shift left, old carry into bit 0, bit 7 to
    /// carry.
    fn rol(&mut self, mode: AddressingMode)
        requires
            old(self).wf(),
            mode != AddressingMode::NoneAddressing,
        ensures
            final(self).wf(),
            final(self).cycles == old(self).cycles,
            ({
                let pre = *old(self);
                let m = pre.mem();
                let ea = ea_spec(m, pre.register_x, pre.register_y, mode, pre.program_counter);
                let v = m[ea as int];
                let r = rol_r(v, pre.status.bits & CARRY == CARRY);
                cpu_is(
                    *final(self),
                    pre.register_a,
                    pre.register_x,
                    pre.register_y,
                    pre.stack_pointer,
                    p_shift(pre.status.bits, v & 0x80 != 0, r),
                    pre.program_counter,
                    m.update(ea as int, r),
                )
            }),
    {
        let addr = self.get_operand_address(mode);
        let value = self.read(addr);
        let cin = self.status.contains(CARRY);
        let result = (value << 1) | (if cin {
            1
        } else {
            0
        });
        self.status.set(CARRY, value & 0x80 != 0);
        self.write(addr, result);
        self.update_zero_and_negative_flags(result);
    }

    /// ROL on the accumulator.
    fn rol_accumulator(&mut self)
        requires
            old(self).wf(),
        ensures
            final(self).wf(),
            final(self).cycles == old(self).cycles,
            ({
                let pre = *old(self);
                let r = rol_r(pre.register_a, pre.status.bits & CARRY == CARRY);
                cpu_is(
                    *final(self),
                    r,
                    pre.register_x,
                    pre.register_y,
                    pre.stack_pointer,
                    p_shift(pre.status.bits, pre.register_a & 0x80 != 0, r),
                    pre.program_counter,
                    pre.mem(),
                )
            }),
    {
        let value = self.register_a;
        let cin = self.status.contains(CARRY);
        let result = (value << 1) | (if cin {
            1
        } else {
            0
        });
        self.status.set(CARRY, value & 0x80 != 0);
        self.set_register_a(result);
    }

    /// ROR on a memory operand: shift right, old carry into bit 7, bit 0 to
    /// carry.
    fn ror(&mut self, mode: AddressingMode)
        requires
            old(self).wf(),
            mode != AddressingMode::NoneAddressing,
        ensures
            final(self).wf(),
            final(self).cycles == old(self).cycles,
            ({
                let pre = *old(self);
                let m = pre.mem();
                let ea = ea_spec(m, pre.register_x, pre.register_y, mode, pre.program_counter);
                let v = m[ea as int];
                let r = ror_r(v, pre.status.bits & CARRY == CARRY);
                cpu_is(
                    *final(self),
                    pre.register_a,
                    pre.register_x,
                    pre.register_y,
                    pre.stack_pointer,
                    p_shift(pre.status.bits, v & 1 == 1, r),
                    pre.program_counter,
                    m.update(ea as int, r),
                )
            }),
    {
        let addr = self.get_operand_address(mode);
        let value = self.read(addr);
        let cin = self.status.contains(CARRY);
        let result = (value >> 1) | (if cin {
            0x80
        } else {
            0
        });
        self.status.set(CARRY, value & 1 == 1);
        self.write(addr, result);
        self.update_zero_and_negative_flags(result);
    }

    /// ROR on the accumulator.
    fn ror_accumulator(&mut self)
        requires
            old(self).wf(),
        ensures
            final(self).wf(),
            final(self).cycles == old(self).cycles,
            ({
                let pre = *old(self);
                let r = ror_r(pre.register_a, pre.status.bits & CARRY == CARRY);
                cpu_is(
                    *final(self),
                    r,
                    pre.register_x,
                    pre.register_y,
                    pre.stack_pointer,
                    p_shift(pre.status.bits, pre.register_a & 1 == 1, r),
                    pre.program_counter,
                    pre.mem(),
                )
            }),
    {
        let value = self.register_a;
        let cin = self.status.contains(CARRY);
        let result = (value >> 1) | (if cin {
            0x80
        } else {
            0
        });
        self.status.set(CARRY, value & 1 == 1);
        self.set_register_a(result);
    }

    /// PHA: push the accumulator.
    fn pha(&mut self)
        requires
            old(self).wf(),
        ensures
            final(self).wf(),
            final(self).cycles == old(self).cycles,
            ({
                let pre = *old(self);
                cpu_is(
                    *final(self),
                    pre.register_a,
                    pre.register_x,
                    pre.register_y,
                    sub8(pre.stack_pointer, 1),
                    pre.status.bits,
                    pre.program_counter,
                    pre.mem().update(0x100 + pre.stack_pointer as int, pre.register_a),
                )
            }),
    {
        let a = self.register_a;
        self.stack_push(a);
    }

    /// PHP: push the status byte with the BREAK and unused bits forced set.
    fn php(&mut self)
        requires
            old(self).wf(),
        ensures
            final(self).wf(),
            final(self).cycles == old(self).cycles,
            ({
                let pre = *old(self);
                cpu_is(
                    *final(self),
                    pre.register_a,
                    pre.register_x,
                    pre.register_y,
                    sub8(pre.stack_pointer, 1),
                    pre.status.bits,
                    pre.program_counter,
                    pre.mem().update(
                        0x100 + pre.stack_pointer as int,
                        pre.status.bits | BREAK | BREAK2,
                    ),
                )
            }),
    {
        let flags = self.status.bits() | BREAK | BREAK2;
        self.stack_push(flags);
    }

    /// PLA: pop into the accumulator and set flags from it.
    fn pla(&mut self)
        requires
            old(self).wf(),
        ensures
            final(self).wf(),
            final(self).cycles == old(self).cycles,
            ({
                let pre = *old(self);
                let v = pre.mem()[0x100 + add8(pre.stack_pointer, 1) as int];
                cpu_is(
                    *final(self),
                    v,
                    pre.register_x,
                    pre.register_y,
                    add8(pre.stack_pointer, 1),
                    spec_update_zn(pre.status.bits, v),
                    pre.program_counter,
                    pre.mem(),
                )
            }),
    {
        let value = self.stack_pop();
        self.set_register_a(value);
    }

    /// PLP: pop the status byte, forcing BREAK clear and the unused bit set.
    fn plp(&mut self)
        requires
            old(self).wf(),
        ensures
            final(self).wf(),
            final(self).cycles == old(self).cycles,
            ({
                let pre = *old(self);
                cpu_is(
                    *final(self),
                    pre.register_a,
                    pre.register_x,
                    pre.register_y,
                    add8(pre.stack_pointer, 1),
                    p_pulled(pre.mem()[0x100 + add8(pre.stack_pointer, 1) as int]),
                    pre.program_counter,
                    pre.mem(),
                )
            }),
    {
        let value = self.stack_pop();
        self.status = CpuFlags::from_bits_truncate(value);
        self.status.remove(BREAK);
        self.status.insert(BREAK2);
    }

    /// A conditional branch: read the signed offset at the program counter,
    /// step past it, and add the offset when `condition` holds.
    fn branch(&mut self, condition: bool)
        requires
            old(self).wf(),
        ensures
            final(self).wf(),
            final(self).cycles == old(self).cycles,
            ({
                let pre = *old(self);
                let pc = if condition {
                    branch_target(pre.mem(), pre.program_counter)
                } else {
                    add16(pre.program_counter, 1)
                };
                cpu_is(
                    *final(self),
                    pre.register_a,
                    pre.register_x,
                    pre.register_y,
                    pre.stack_pointer,
                    pre.status.bits,
                    pc,
                    pre.mem(),
                )
            }),
    {
        let offset = self.read(self.program_counter);
        let fall = self.program_counter.wrapping_add(1);
        if condition {
            let target = if offset < 0x80 {
                fall.wrapping_add(offset as u16)
            } else {
                fall.wrapping_add(offset as u16).wrapping_sub(0x100)
            };
            self.program_counter = target;
        } else {
            self.program_counter = fall;
        }
    }

    /// JSR: push the address of the instruction's last byte, then jump to
    /// the operand target.  The target is read after the pushes, as the
    /// processor does.
    fn jsr(&mut self)
        requires
            old(self).wf(),
        ensures
            final(self).wf(),
            final(self).cycles == old(self).cycles,
            ({
                let pre = *old(self);
                let ret = add16(pre.program_counter, 1);
                let m1 = pre.mem().update(0x100 + pre.stack_pointer as int, hi8(ret)).update(
                    0x100 + sub8(pre.stack_pointer, 1) as int,
                    lo8(ret),
                );
                cpu_is(
                    *final(self),
                    pre.register_a,
                    pre.register_x,
                    pre.register_y,
                    sub8(pre.stack_pointer, 2),
                    pre.status.bits,
                    mem16(m1, pre.program_counter),
                    m1,
                )
            }),
    {
        let ret = self.program_counter.wrapping_add(1);
        self.stack_push_u16(ret);
        let target = self.read16(self.program_counter);
        self.program_counter = target;
    }

    /// RTS: pop the return address and resume one byte past it.  That this
    /// returns control to the byte just past a preceding [`CPU::jsr`] is
    /// proved in [`crate::laws::lemma_jsr_rts_contracts`] and, at
    /// instruction grain, in [`crate::laws::lemma_jsr_rts`].
    fn rts(&mut self)
        requires
            old(self).wf(),
        ensures
            final(self).wf(),
            final(self).cycles == old(self).cycles,
            ({
                let pre = *old(self);
                let lo = pre.mem()[0x100 + add8(pre.stack_pointer, 1) as int];
                let hi = pre.mem()[0x100 + add8(pre.stack_pointer, 2) as int];
                cpu_is(
                    *final(self),
                    pre.register_a,
                    pre.register_x,
                    pre.register_y,
                    add8(pre.stack_pointer, 2),
                    pre.status.bits,
                    add16(make16(hi, lo), 1),
                    pre.mem(),
                )
            }),
    {
        let addr = self.stack_pop_u16();
        self.program_counter = addr.wrapping_add(1);
    }

    /// RTI: pop the status byte (BREAK forced clear, unused bit forced set),
    /// then pop the return address without adjustment.
    fn rti(&mut self)
        requires
            old(self).wf(),
        ensures
            final(self).wf(),
            final(self).cycles == old(self).cycles,
            ({
                let pre = *old(self);
                let pv = pre.mem()[0x100 + add8(pre.stack_pointer, 1) as int];
                let lo = pre.mem()[0x100 + add8(pre.stack_pointer, 2) as int];
                let hi = pre.mem()[0x100 + add8(pre.stack_pointer, 3) as int];
                cpu_is(
                    *final(self),
                    pre.register_a,
                    pre.register_x,
                    pre.register_y,
                    add8(pre.stack_pointer, 3),
                    p_pulled(pv),
                    make16(hi, lo),
                    pre.mem(),
                )
            }),
    {
        let value = self.stack_pop();
        self.status = CpuFlags::from_bits_truncate(value);
        self.status.remove(BREAK);
        self.status.insert(BREAK2);
        let addr = self.stack_pop_u16();
        self.program_counter = addr;
    }

    /// JMP absolute: load the program counter from the operand.
    fn jmp_absolute(&mut self)
        requires
            old(self).wf(),
        ensures
            final(self).wf(),
            final(self).cycles == old(self).cycles,
            ({
                let pre = *old(self);
                cpu_is(
                    *final(self),
                    pre.register_a,
                    pre.register_x,
                    pre.register_y,
                    pre.stack_pointer,
                    pre.status.bits,
                    mem16(pre.mem(), pre.program_counter),
                    pre.mem(),
                )
            }),
    {
        let target = self.read16(self.program_counter);
        self.program_counter = target;
    }

    /// JMP indirect, reproducing the page-boundary defect: when the pointer
    /// ends in `0xff`, the target's high byte comes from the start of the
    /// pointer's own page.
    fn jmp_indirect(&mut self)
        requires
            old(self).wf(),
        ensures
            final(self).wf(),
            final(self).cycles == old(self).cycles,
            ({
                let pre = *old(self);
                cpu_is(
                    *final(self),
                    pre.register_a,
                    pre.register_x,
                    pre.register_y,
                    pre.stack_pointer,
                    pre.status.bits,
                    jmp_ind_target(pre.mem(), mem16(pre.mem(), pre.program_counter)),
                    pre.mem(),
                )
            }),
    {
        let addr = self.read16(self.program_counter);
        let indirect_ref = if addr & 0x00ff == 0x00ff {
            let lo = self.read(addr);
            let hi = self.read(addr & 0xff00);
            (hi as u16) * 0x100 + (lo as u16)
        } else {
            self.read16(addr)
        };
        self.program_counter = indirect_ref;
    }

    /// BCC: branch when carry is clear.
    fn bcc(&mut self)
        requires
            old(self).wf(),
        ensures
            final(self).wf(),
            final(self).cycles == old(self).cycles,
            branch_post(*old(self), *final(self), Mnemonic::BCC),
    {
        let c = self.status.contains(CARRY);
        self.branch(!c);
    }

    /// BCS: branch when carry is set.
    fn bcs(&mut self)
        requires
            old(self).wf(),
        ensures
            final(self).wf(),
            final(self).cycles == old(self).cycles,
            branch_post(*old(self), *final(self), Mnemonic::BCS),
    {
        let c = self.status.contains(CARRY);
        self.branch(c);
    }

    /// BEQ: branch when ZERO is set.
    fn beq(&mut self)
        requires
            old(self).wf(),
        ensures
            final(self).wf(),
            final(self).cycles == old(self).cycles,
            branch_post(*old(self), *final(self), Mnemonic::BEQ),
    {
        let c = self.status.contains(ZERO);
        self.branch(c);
    }

    /// BNE: branch when ZERO is clear.
    fn bne(&mut self)
        requires
            old(self).wf(),
        ensures
            final(self).wf(),
            final(self).cycles == old(self).cycles,
            branch_post(*old(self), *final(self), Mnemonic::BNE),
    {
        let c = self.status.contains(ZERO);
        self.branch(!c);
    }

    /// BMI: branch when NEGATIV is set.
    fn bmi(&mut self)
        requires
            old(self).wf(),
        ensures
            final(self).wf(),
            final(self).cycles == old(self).cycles,
            branch_post(*old(self), *final(self), Mnemonic::BMI),
    {
        let c = self.status.contains(NEGATIV);
        self.branch(c);
    }

    /// BPL: branch when NEGATIV is clear.
    fn bpl(&mut self)
        requires
            old(self).wf(),
        ensures
            final(self).wf(),
            final(self).cycles == old(self).cycles,
            branch_post(*old(self), *final(self), Mnemonic::BPL),
    {
        let c = self.status.contains(NEGATIV);
        self.branch(!c);
    }

    /// BVC: branch when OVERFLOW is clear.
    fn bvc(&mut self)
        requires
            old(self).wf(),
        ensures
            final(self).wf(),
            final(self).cycles == old(self).cycles,
            branch_post(*old(self), *final(self), Mnemonic::BVC),
    {
        let c = self.status.contains(OVERFLOW);
        self.branch(!c);
    }

    /// BVS: branch when OVERFLOW is set.
    fn bvs(&mut self)
        requires
            old(self).wf(),
        ensures
            final(self).wf(),
            final(self).cycles == old(self).cycles,
            branch_post(*old(self), *final(self), Mnemonic::BVS),
    {
        let c = self.status.contains(OVERFLOW);
        self.branch(c);
    }
}

/// The state after a branch instruction `mn` whose offset byte sat at the
/// program counter of `pre`: only the program counter moves, to the branch
/// target when the tested flag has the required value and to the next
/// instruction otherwise.
pub open spec fn branch_post(pre: CPU, post: CPU, mn: Mnemonic) -> bool {
    let pc = if branch_taken(pre.status.bits, mn) {
        branch_target(pre.mem(), pre.program_counter)
    } else {
        add16(pre.program_counter, 1)
    };
    cpu_is(
        post,
        pre.register_a,
        pre.register_x,
        pre.register_y,
        pre.stack_pointer,
        pre.status.bits,
        pc,
        pre.mem(),
    )
}

/// The error raised when the interpreter fetches a byte that no decode-table
/// row covers: the address it was fetched from and the byte itself.
#[derive(Clone, Copy, Debug, PartialEq, Eq, Structural)]
pub struct DecodeError {
    pub pc: u16,
    pub opcode: u8,
}

/// The cycle surcharge of a branch whose offset byte sits at `opp`: one
/// extra cycle when taken, and one more when the target lies on a different
/// page than the instruction that would otherwise run next.
pub open spec fn branch_cost(m: Seq<u8>, opp: u16, taken: bool) -> u8 {
    if taken {
        if branch_target(m, opp) & 0xff00 != add16(opp, 1) & 0xff00 {
            2
        } else {
            1
        }
    } else {
        0
    }
}

/// The cycle surcharge of the instruction `op` about to run on `pre`, on top
/// of its base cycle cost: the branch surcharge, or one cycle when an
/// indexed read crosses a page boundary.
pub open spec fn cost_extra_spec(pre: CPU, op: OpCode) -> u8 {
    let opp = add16(pre.program_counter, 1);
    match op.mnemonic {
        Mnemonic::BCC | Mnemonic::BCS | Mnemonic::BEQ | Mnemonic::BNE | Mnemonic::BMI
            | Mnemonic::BPL | Mnemonic::BVC | Mnemonic::BVS => branch_cost(
            pre.mem(),
            opp,
            branch_taken(pre.status.bits, op.mnemonic),
        ),
        Mnemonic::LDA | Mnemonic::LDX | Mnemonic::LDY | Mnemonic::AND | Mnemonic::ORA
            | Mnemonic::EOR | Mnemonic::ADC | Mnemonic::SBC | Mnemonic::CMP => if page_cross_spec(
            pre.mem(),
            pre.register_x,
            pre.register_y,
            op.mode,
            opp,
        ) {
            1
        } else {
            0
        },
        _ => 0,
    }
}

/// The full meaning of executing the decoded instruction `op` from state
/// `pre`, with the opcode byte at the program counter of `pre`: the state
/// `post` after the instruction, every field but the cycle tally.  `halted`
/// holds exactly for BRK, on which the interpreter stops.
pub open spec fn instr_rel(pre: CPU, post: CPU, op: OpCode, halted: bool) -> bool {
    let m = pre.mem();
    let a = pre.register_a;
    let x = pre.register_x;
    let y = pre.register_y;
    let sp = pre.stack_pointer;
    let p = pre.status.bits;
    let pc = pre.program_counter;
    let opp = add16(pc, 1);
    let npc = add16(pc, op.len as u16);
    let ea = ea_spec(m, x, y, op.mode, opp);
    let v = m[ea as int];
    let taken_pc = if branch_taken(p, op.mnemonic) {
        branch_target(m, opp)
    } else {
        npc
    };
    (halted <==> op.mnemonic == Mnemonic::BRK) && match op.mnemonic {
        Mnemonic::BRK => cpu_is(post, a, x, y, sp, p, opp, m),
        Mnemonic::NOP => cpu_is(post, a, x, y, sp, p, npc, m),
        Mnemonic::LDA => cpu_is(post, v, x, y, sp, spec_update_zn(p, v), npc, m),
        Mnemonic::LDX => cpu_is(post, a, v, y, sp, spec_update_zn(p, v), npc, m),
        Mnemonic::LDY => cpu_is(post, a, x, v, sp, spec_update_zn(p, v), npc, m),
        Mnemonic::STA => cpu_is(post, a, x, y, sp, p, npc, m.update(ea as int, a)),
        Mnemonic::STX => cpu_is(post, a, x, y, sp, p, npc, m.update(ea as int, x)),
        Mnemonic::STY => cpu_is(post, a, x, y, sp, p, npc, m.update(ea as int, y)),
        Mnemonic::TAX => cpu_is(post, a, a, y, sp, spec_update_zn(p, a), npc, m),
        Mnemonic::TAY => cpu_is(post, a, x, a, sp, spec_update_zn(p, a), npc, m),
        Mnemonic::TXA => cpu_is(post, x, x, y, sp, spec_update_zn(p, x), npc, m),
        Mnemonic::TYA => cpu_is(post, y, x, y, sp, spec_update_zn(p, y), npc, m),
        Mnemonic::TSX => cpu_is(post, a, sp, y, sp, spec_update_zn(p, sp), npc, m),
        Mnemonic::TXS => cpu_is(post, a, x, y, x, p, npc, m),
        Mnemonic::AND => cpu_is(post, a & v, x, y, sp, spec_update_zn(p, a & v), npc, m),
        Mnemonic::EOR => cpu_is(post, a ^ v, x, y, sp, spec_update_zn(p, a ^ v), npc, m),
        Mnemonic::ORA => cpu_is(post, a | v, x, y, sp, spec_update_zn(p, a | v), npc, m),
        Mnemonic::ADC => cpu_is(post, adc_r(a, v, p), x, y, sp, p_adc(p, a, v), npc, m),
        Mnemonic::SBC => cpu_is(
            post,
            adc_r(a, v ^ 0xff, p),
            x,
            y,
            sp,
            p_adc(p, a, v ^ 0xff),
            npc,
            m,
        ),
        Mnemonic::CMP => cpu_is(post, a, x, y, sp, p_cmp(p, a, v), npc, m),
        Mnemonic::CPX => cpu_is(post, a, x, y, sp, p_cmp(p, x, v), npc, m),
        Mnemonic::CPY => cpu_is(post, a, x, y, sp, p_cmp(p, y, v), npc, m),
        Mnemonic::ASL => if op.mode == AddressingMode::NoneAddressing {
            cpu_is(post, asl_r(a), x, y, sp, p_shift(p, a & 0x80 != 0, asl_r(a)), npc, m)
        } else {
            cpu_is(
                post,
                a,
                x,
                y,
                sp,
                p_shift(p, v & 0x80 != 0, asl_r(v)),
                npc,
                m.update(ea as int, asl_r(v)),
            )
        },
        Mnemonic::LSR => if op.mode == AddressingMode::NoneAddressing {
            cpu_is(post, lsr_r(a), x, y, sp, p_shift(p, a & 1 == 1, lsr_r(a)), npc, m)
        } else {
            cpu_is(
                post,
                a,
                x,
                y,
                sp,
                p_shift(p, v & 1 == 1, lsr_r(v)),
                npc,
                m.update(ea as int, lsr_r(v)),
            )
        },
        Mnemonic::ROL => {
            let cin = p & CARRY == CARRY;
            if op.mode == AddressingMode::NoneAddressing {
                cpu_is(
                    post,
                    rol_r(a, cin),
                    x,
                    y,
                    sp,
                    p_shift(p, a & 0x80 != 0, rol_r(a, cin)),
                    npc,
                    m,
                )
            } else {
                cpu_is(
                    post,
                    a,
                    x,
                    y,
                    sp,
                    p_shift(p, v & 0x80 != 0, rol_r(v, cin)),
                    npc,
                    m.update(ea as int, rol_r(v, cin)),
                )
            }
        },
        Mnemonic::ROR => {
            let cin = p & CARRY == CARRY;
            if op.mode == AddressingMode::NoneAddressing {
                cpu_is(
                    post,
                    ror_r(a, cin),
                    x,
                    y,
                    sp,
                    p_shift(p, a & 1 == 1, ror_r(a, cin)),
                    npc,
                    m,
                )
            } else {
                cpu_is(
                    post,
                    a,
                    x,
                    y,
                    sp,
                    p_shift(p, v & 1 == 1, ror_r(v, cin)),
                    npc,
                    m.update(ea as int, ror_r(v, cin)),
                )
            }
        },
        Mnemonic::INC => cpu_is(
            post,
            a,
            x,
            y,
            sp,
            spec_update_zn(p, add8(v, 1)),
            npc,
            m.update(ea as int, add8(v, 1)),
        ),
        Mnemonic::DEC => cpu_is(
            post,
            a,
            x,
            y,
            sp,
            spec_update_zn(p, sub8(v, 1)),
            npc,
            m.update(ea as int, sub8(v, 1)),
        ),
        Mnemonic::INX => cpu_is(post, a, add8(x, 1), y, sp, spec_update_zn(p, add8(x, 1)), npc, m),
        Mnemonic::INY => cpu_is(post, a, x, add8(y, 1), sp, spec_update_zn(p, add8(y, 1)), npc, m),
        Mnemonic::DEX => cpu_is(post, a, sub8(x, 1), y, sp, spec_update_zn(p, sub8(x, 1)), npc, m),
        Mnemonic::DEY => cpu_is(post, a, x, sub8(y, 1), sp, spec_update_zn(p, sub8(y, 1)), npc, m),
        Mnemonic::BIT => cpu_is(post, a, x, y, sp, p_bit(p, a, v), npc, m),
        Mnemonic::BCC => cpu_is(post, a, x, y, sp, p, taken_pc, m),
        Mnemonic::BCS => cpu_is(post, a, x, y, sp, p, taken_pc, m),
        Mnemonic::BEQ => cpu_is(post, a, x, y, sp, p, taken_pc, m),
        Mnemonic::BNE => cpu_is(post, a, x, y, sp, p, taken_pc, m),
        Mnemonic::BMI => cpu_is(post, a, x, y, sp, p, taken_pc, m),
        Mnemonic::BPL => cpu_is(post, a, x, y, sp, p, taken_pc, m),
        Mnemonic::BVC => cpu_is(post, a, x, y, sp, p, taken_pc, m),
        Mnemonic::BVS => cpu_is(post, a, x, y, sp, p, taken_pc, m),
        Mnemonic::JMP => cpu_is(
            post,
            a,
            x,
            y,
            sp,
            p,
            if op.code == 0x4c {
                mem16(m, opp)
            } else {
                jmp_ind_target(m, mem16(m, opp))
            },
            m,
        ),
        Mnemonic::JSR => {
            let ret = add16(pc, 2);
            let m1 = m.update(0x100 + sp as int, hi8(ret)).update(
                0x100 + sub8(sp, 1) as int,
                lo8(ret),
            );
            cpu_is(post, a, x, y, sub8(sp, 2), p, mem16(m1, opp), m1)
        },
        Mnemonic::RTS => {
            let lo = m[0x100 + add8(sp, 1) as int];
            let hi = m[0x100 + add8(sp, 2) as int];
            cpu_is(post, a, x, y, add8(sp, 2), p, add16(make16(hi, lo), 1), m)
        },
        Mnemonic::RTI => {
            let pv = m[0x100 + add8(sp, 1) as int];
            let lo = m[0x100 + add8(sp, 2) as int];
            let hi = m[0x100 + add8(sp, 3) as int];
            cpu_is(post, a, x, y, add8(sp, 3), p_pulled(pv), make16(hi, lo), m)
        },
        Mnemonic::PHA => cpu_is(
            post,
            a,
            x,
            y,
            sub8(sp, 1),
            p,
            npc,
            m.update(0x100 + sp as int, a),
        ),
        Mnemonic::PHP => cpu_is(
            post,
            a,
            x,
            y,
            sub8(sp, 1),
            p,
            npc,
            m.update(0x100 + sp as int, p | BREAK | BREAK2),
        ),
        Mnemonic::PLA => {
            let w = m[0x100 + add8(sp, 1) as int];
            cpu_is(post, w, x, y, add8(sp, 1), spec_update_zn(p, w), npc, m)
        },
        Mnemonic::PLP => cpu_is(
            post,
            a,
            x,
            y,
            add8(sp, 1),
            p_pulled(m[0x100 + add8(sp, 1) as int]),
            npc,
            m,
        ),
        Mnemonic::CLC => cpu_is(post, a, x, y, sp, p & !CARRY, npc, m),
        Mnemonic::SEC => cpu_is(post, a, x, y, sp, p | CARRY, npc, m),
        Mnemonic::CLD => cpu_is(post, a, x, y, sp, p & !DECIMAL_MODE, npc, m),
        Mnemonic::SED => cpu_is(post, a, x, y, sp, p | DECIMAL_MODE, npc, m),
        Mnemonic::CLI => cpu_is(post, a, x, y, sp, p & !INTERRUPT_DISABLE, npc, m),
        Mnemonic::SEI => cpu_is(post, a, x, y, sp, p | INTERRUPT_DISABLE, npc, m),
        Mnemonic::CLV => cpu_is(post, a, x, y, sp, p & !OVERFLOW, npc, m),
    }
}

/// One turn of the fetch-decode-execute loop, from `pre` to `post` with
/// outcome `r`.  When the byte at the program counter is no legal opcode,
/// the outcome is the decode error naming it and the state does not move.
/// Otherwise the instruction's transition holds, the cycle tally grows by
/// the base cost plus the page-cross or branch surcharge, and the outcome
/// reports whether execution continues (every instruction but BRK).
pub open spec fn step_rel(pre: CPU, post: CPU, r: Result<bool, DecodeError>) -> bool {
    let code = pre.mem()[pre.program_counter as int];
    match spec_decode(code) {
        Option::None => match r {
            Result::Err(e) => {
                &&& e.pc == pre.program_counter
                &&& e.opcode == code
                &&& cpu_is(
                    post,
                    pre.register_a,
                    pre.register_x,
                    pre.register_y,
                    pre.stack_pointer,
                    pre.status.bits,
                    pre.program_counter,
                    pre.mem(),
                )
                &&& post.cycles == pre.cycles
            },
            Result::Ok(_) => false,
        },
        Option::Some(op) => match r {
            Result::Ok(cont) => {
                &&& instr_rel(pre, post, op, !cont)
                &&& post.cycles == add64(
                    pre.cycles,
                    (op.cycles + cost_extra_spec(pre, op)) as u64,
                )
            },
            Result::Err(_) => false,
        },
    }
}

impl CPU {
    /// The branch surcharge for a branch whose offset byte sits at `opp`.
    fn branch_extra(&self, taken: bool, opp: u16) -> (r: u8)
        requires
            self.wf(),
        ensures
            r == branch_cost(self.mem(), opp, taken),
            r <= 2,
    {
        if taken {
            let offset = self.read(opp);
            let fall = opp.wrapping_add(1);
            let target = if offset < 0x80 {
                fall.wrapping_add(offset as u16)
            } else {
                fall.wrapping_add(offset as u16).wrapping_sub(0x100)
            };
            if target & 0xff00 != fall & 0xff00 {
                2
            } else {
                1
            }
        } else {
            0
        }
    }

    /// The cycle surcharge of `op` about to run at the current program
    /// counter.
    fn cycle_extra(&self, op: OpCode) -> (r: u8)
        requires
            self.wf(),
        ensures
            r == cost_extra_spec(*self, op),
            r <= 2,
    {
        let opp = self.program_counter.wrapping_add(1);
        match op.mnemonic {
            Mnemonic::BCC => {
                let c = self.status.contains(CARRY);
                self.branch_extra(!c, opp)
            },
            Mnemonic::BCS => {
                let c = self.status.contains(CARRY);
                self.branch_extra(c, opp)
            },
            Mnemonic::BEQ => {
                let c = self.status.contains(ZERO);
                self.branch_extra(c, opp)
            },
            Mnemonic::BNE => {
                let c = self.status.contains(ZERO);
                self.branch_extra(!c, opp)
            },
            Mnemonic::BMI => {
                let c = self.status.contains(NEGATIV);
                self.branch_extra(c, opp)
            },
            Mnemonic::BPL => {
                let c = self.status.contains(NEGATIV);
                self.branch_extra(!c, opp)
            },
            Mnemonic::BVC => {
                let c = self.status.contains(OVERFLOW);
                self.branch_extra(!c, opp)
            },
            Mnemonic::BVS => {
                let c = self.status.contains(OVERFLOW);
                self.branch_extra(c, opp)
            },
            Mnemonic::LDA | Mnemonic::LDX | Mnemonic::LDY | Mnemonic::AND | Mnemonic::ORA
                | Mnemonic::EOR | Mnemonic::ADC | Mnemonic::SBC | Mnemonic::CMP => {
                if self.page_cross(op.mode, opp) {
                    1
                } else {
                    0
                }
            },
            _ => 0,
        }
    }

    /// Execute one instruction: fetch the opcode byte at the program
    /// counter, decode it, account its cycles, and dispatch on the mnemonic.
    /// Returns `Ok(true)` to continue, `Ok(false)` when the instruction was
    /// BRK, and the decode error, with the state unmoved, when the byte is
    /// no legal opcode.
    pub fn step(&mut self) -> (r: Result<bool, DecodeError>)
        requires
            old(self).wf(),
        ensures
            final(self).wf(),
            step_rel(*old(self), *final(self), r),
    {
        let pc0 = self.program_counter;
        let code = self.read(pc0);
        let op = match decode(code) {
            Option::None => {
                return Result::Err(DecodeError { pc: pc0, opcode: code });
            },
            Option::Some(op) => op,
        };
        proof {
            crate::opcodes::lemma_decode_operand_mode(code);
        }
        let extra = self.cycle_extra(op);
        self.cycles = self.cycles.wrapping_add(op.cycles as u64 + extra as u64);
        self.program_counter = pc0.wrapping_add(1);
        match op.mnemonic {
            Mnemonic::BRK => {
                return Result::Ok(false);
            },
            Mnemonic::NOP => {},
            Mnemonic::LDA => self.lda(op.mode),
            Mnemonic::LDX => self.ldx(op.mode),
            Mnemonic::LDY => self.ldy(op.mode),
            Mnemonic::STA => self.sta(op.mode),
            Mnemonic::STX => self.stx(op.mode),
            Mnemonic::STY => self.sty(op.mode),
            Mnemonic::TAX => self.tax(),
            Mnemonic::TAY => self.tay(),
            Mnemonic::TXA => self.txa(),
            Mnemonic::TYA => self.tya(),
            Mnemonic::TSX => self.tsx(),
            Mnemonic::TXS => self.txs(),
            Mnemonic::AND => self.and(op.mode),
            Mnemonic::EOR => self.eor(op.mode),
            Mnemonic::ORA => self.ora(op.mode),
            Mnemonic::ADC => self.adc(op.mode),
            Mnemonic::SBC => self.sbc(op.mode),
            Mnemonic::CMP => {
                let a = self.register_a;
                self.compare(op.mode, a);
            },
            Mnemonic::CPX => {
                let x = self.register_x;
                self.compare(op.mode, x);
            },
            Mnemonic::CPY => {
                let y = self.register_y;
                self.compare(op.mode, y);
            },
            Mnemonic::ASL => {
                if op.mode == AddressingMode::NoneAddressing {
                    self.asl_accumulator();
                } else {
                    self.asl(op.mode);
                }
            },
            Mnemonic::LSR => {
                if op.mode == AddressingMode::NoneAddressing {
                    self.lsr_accumulator();
                } else {
                    self.lsr(op.mode);
                }
            },
            Mnemonic::ROL => {
                if op.mode == AddressingMode::NoneAddressing {
                    self.rol_accumulator();
                } else {
                    self.rol(op.mode);
                }
            },
            Mnemonic::ROR => {
                if op.mode == AddressingMode::NoneAddressing {
                    self.ror_accumulator();
                } else {
                    self.ror(op.mode);
                }
            },
            Mnemonic::INC => self.inc(op.mode),
            Mnemonic::DEC => self.dec(op.mode),
            Mnemonic::INX => self.inx(),
            Mnemonic::INY => self.iny(),
            Mnemonic::DEX => self.decx(),
            Mnemonic::DEY => self.decy(),
            Mnemonic::BIT => self.bit(op.mode),
            Mnemonic::BCC => {
                self.bcc();
                return Result::Ok(true);
            },
            Mnemonic::BCS => {
                self.bcs();
                return Result::Ok(true);
            },
            Mnemonic::BEQ => {
                self.beq();
                return Result::Ok(true);
            },
            Mnemonic::BNE => {
                self.bne();
                return Result::Ok(true);
            },
            Mnemonic::BMI => {
                self.bmi();
                return Result::Ok(true);
            },
            Mnemonic::BPL => {
                self.bpl();
                return Result::Ok(true);
            },
            Mnemonic::BVC => {
                self.bvc();
                return Result::Ok(true);
            },
            Mnemonic::BVS => {
                self.bvs();
                return Result::Ok(true);
            },
            Mnemonic::JMP => {
                if op.code == 0x4c {
                    self.jmp_absolute();
                } else {
                    self.jmp_indirect();
                }
                return Result::Ok(true);
            },
            Mnemonic::JSR => {
                self.jsr();
                return Result::Ok(true);
            },
            Mnemonic::RTS => {
                self.rts();
                return Result::Ok(true);
            },
            Mnemonic::RTI => {
                self.rti();
                return Result::Ok(true);
            },
            Mnemonic::PHA => self.pha(),
            Mnemonic::PHP => self.php(),
            Mnemonic::PLA => self.pla(),
            Mnemonic::PLP => self.plp(),
            Mnemonic::CLC => self.status.remove(CARRY),
            Mnemonic::SEC => self.status.insert(CARRY),
            Mnemonic::CLD => self.status.remove(DECIMAL_MODE),
            Mnemonic::SED => self.status.insert(DECIMAL_MODE),
            Mnemonic::CLI => self.status.remove(INTERRUPT_DISABLE),
            Mnemonic::SEI => self.status.insert(INTERRUPT_DISABLE),
            Mnemonic::CLV => self.status.remove(OVERFLOW),
        }
        self.program_counter = pc0.wrapping_add(op.len as u16);
        Result::Ok(true)
    }
}

/// `a` and `b` are the same machine state, field by field.
pub open spec fn state_eq(a: CPU, b: CPU) -> bool {
    cpu_is(
        b,
        a.register_a,
        a.register_x,
        a.register_y,
        a.stack_pointer,
        a.status.bits,
        a.program_counter,
        a.mem(),
    ) && b.cycles == a.cycles
}

/// `post` is the state after `n` instruction dispatches from `pre`, each one
/// related to the last by [`step_rel`] with a non-error outcome.
pub open spec fn steps_n(pre: CPU, post: CPU, n: nat) -> bool
    decreases n,
{
    if n == 0 {
        state_eq(pre, post)
    } else {
        exists|mid: CPU, c: bool|
            steps_n(pre, mid, (n - 1) as nat) && #[trigger] step_rel(mid, post, Result::Ok(c))
    }
}

/// `post` is a state the interpreter can reach from `pre`: equal, field by
/// field, to the result of some number of instruction dispatches.
pub open spec fn reaches(pre: CPU, post: CPU) -> bool {
    exists|n: nat, s: CPU| #[trigger] steps_n(pre, s, n) && state_eq(s, post)
}

/// How a run that returns without an error ended, starting from `pre`: some
/// number of dispatches led to a state whose next instruction was a BRK,
/// which carried the machine to `post`; or the budget of `u64::MAX`
/// instructions ran out with `post` the state so reached.
pub open spec fn run_ended(pre: CPU, post: CPU) -> bool {
    ||| exists|n: nat, s: CPU|
        #[trigger] steps_n(pre, s, n) && step_rel(s, post, Result::Ok(false))
    ||| exists|s: CPU|
        #[trigger] steps_n(pre, s, 0xffff_ffff_ffff_ffff as nat) && state_eq(s, post)
}

/// The memory image after loading `prog` at `0x8000` and pointing the reset
/// vector there: the vector bytes win over a program long enough to reach
/// them, because they are written last.
pub open spec fn spec_load(m: Seq<u8>, prog: Seq<u8>) -> Seq<u8> {
    Seq::new(
        0x10000,
        |i: int|
            if i == 0xfffc {
                0x00
            } else if i == 0xfffd {
                0x80
            } else if 0x8000 <= i < 0x8000 + prog.len() {
                prog[i - 0x8000]
            } else {
                m[i]
            },
    )
}

impl CPU {
    /// Copy `program` into memory at `0x8000` and point the reset vector
    /// there.  The program must fit below the top of the address space.
    pub fn load(&mut self, program: Vec<u8>)
        requires
            old(self).wf(),
            program@.len() <= 0x8000,
        ensures
            final(self).wf(),
            final(self).mem() == spec_load(old(self).mem(), program@),
            same_regs(*old(self), *final(self)),
    {
        let ghost m0 = self.mem();
        let mut i: usize = 0;
        while i < program.len()
            invariant
                self.wf(),
                i <= program@.len(),
                program@.len() <= 0x8000,
                same_regs(*old(self), *self),
                self.mem().len() == 0x10000,
                forall|j: int|
                    0 <= j < 0x10000 ==> self.mem()[j] == (if 0x8000 <= j < 0x8000 + i {
                        program@[j - 0x8000]
                    } else {
                        m0[j]
                    }),
            decreases program@.len() - i,
        {
            let b = program[i];
            self.write(0x8000 + (i as u16), b);
            i = i + 1;
        }
        self.write16(0xfffc, 0x8000);
        proof {
            assert(self.mem() =~= spec_load(m0, program@));
        }
    }

    /// Put the processor into its reset state: registers cleared, status at
    /// its reset value, stack pointer at the top of the stack, and the
    /// program counter loaded from the reset vector.  Memory and the cycle
    /// tally are untouched.
    pub fn reset(&mut self)
        requires
            old(self).wf(),
        ensures
            final(self).wf(),
            final(self).cycles == old(self).cycles,
            cpu_is(
                *final(self),
                0,
                0,
                0,
                STACK_RESET,
                STATUS_RESET,
                mem16(old(self).mem(), 0xfffc),
                old(self).mem(),
            ),
    {
        self.register_a = 0;
        self.register_x = 0;
        self.register_y = 0;
        self.status = CpuFlags::from_bits_truncate(STATUS_RESET);
        self.program_counter = self.read16(0xfffc);
        self.stack_pointer = STACK_RESET;
    }

    /// Run the fetch-decode-execute loop until a BRK instruction, an illegal
    /// opcode, or a budget of `u64::MAX` instructions.  On `Ok` the final
    /// state follows a BRK (or exhausted the budget); on `Err` the program
    /// counter rests on the offending byte and the state has not moved past
    /// it.
    pub fn run(&mut self) -> (r: Result<(), DecodeError>)
        requires
            old(self).wf(),
        ensures
            final(self).wf(),
            reaches(*old(self), *final(self)),
            (match r {
                Result::Ok(_) => run_ended(*old(self), *final(self)),
                Result::Err(e) => {
                    &&& e.pc == final(self).program_counter
                    &&& e.opcode == final(self).mem()[e.pc as int]
                    &&& spec_decode(e.opcode) is None
                },
            }),
    {
        let ghost init = *self;
        let ghost mut n: nat = 0;
        let mut fuel: u64 = u64::MAX;
        proof {
            assert(steps_n(init, *self, 0));
        }
        while fuel > 0
            invariant
                self.wf(),
                init == *old(self),
                steps_n(init, *self, n),
                n == u64::MAX - fuel,
            decreases fuel,
        {
            let ghost prev = *self;
            match self.step() {
                Result::Ok(true) => {
                    proof {
                        assert(steps_n(init, prev, n) && step_rel(
                            prev,
                            *self,
                            Result::Ok(true),
                        ));
                        n = n + 1;
                        assert(steps_n(init, *self, n));
                    }
                    fuel = fuel - 1;
                },
                Result::Ok(false) => {
                    proof {
                        assert(steps_n(init, prev, n) && step_rel(
                            prev,
                            *self,
                            Result::Ok(false),
                        ));
                        assert(steps_n(init, *self, n + 1));
                        assert(state_eq(*self, *self));
                        assert(run_ended(init, *self));
                    }
                    return Result::Ok(());
                },
                Result::Err(e) => {
                    proof {
                        assert(state_eq(prev, *self));
                        assert(steps_n(init, prev, n) && state_eq(prev, *self));
                    }
                    return Result::Err(e);
                },
            }
        }
        proof {
            assert(steps_n(init, *self, 0xffff_ffff_ffff_ffff as nat) && state_eq(*self, *self));
            assert(run_ended(init, *self));
        }
        Result::Ok(())
    }

    /// Load a program, reset, and run it to its BRK: on `Ok` the final
    /// state is the one the loaded program's dispatches lead to from the
    /// post-reset state, ending on a BRK (or the instruction budget).
    pub fn load_and_run(&mut self, program: Vec<u8>) -> (r: Result<(), DecodeError>)
        requires
            old(self).wf(),
            program@.len() <= 0x8000,
        ensures
            final(self).wf(),
            ({
                let m1 = spec_load(old(self).mem(), program@);
                exists|s: CPU|
                    {
                        &&& #[trigger] cpu_is(
                            s,
                            0,
                            0,
                            0,
                            STACK_RESET,
                            STATUS_RESET,
                            mem16(m1, 0xfffc),
                            m1,
                        )
                        &&& s.cycles == old(self).cycles
                        &&& reaches(s, *final(self))
                        &&& (r is Ok ==> run_ended(s, *final(self)))
                    }
            }),
            (match r {
                Result::Ok(_) => true,
                Result::Err(e) => {
                    &&& e.pc == final(self).program_counter
                    &&& e.opcode == final(self).mem()[e.pc as int]
                    &&& spec_decode(e.opcode) is None
                },
            }),
    {
        self.load(program);
        self.reset();
        let ghost s = *self;
        let r = self.run();
        proof {
            assert(cpu_is(
                s,
                0,
                0,
                0,
                STACK_RESET,
                STATUS_RESET,
                mem16(spec_load(old(self).mem(), program@), 0xfffc),
                spec_load(old(self).mem(), program@),
            ));
        }
        r
    }
}

impl Mem for CPU {
    open spec fn mem_wf(&self) -> bool {
        self.wf()
    }

    open spec fn mem_seq(&self) -> Seq<u8> {
        self.mem()
    }

    fn mem_read(&self, addr: u16) -> u8 {
        self.read(addr)
    }

    fn mem_write(&mut self, addr: u16, data: u8) {
        self.write(addr, data);
    }

    fn mem_read_u16(&self, pos: u16) -> u16 {
        self.read16(pos)
    }

    fn mem_write_u16(&mut self, pos: u16, data: u16) {
        self.write16(pos, data);
    }
}

} // verus!

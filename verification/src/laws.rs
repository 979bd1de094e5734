//! Laws of the interpreter, proved once and for all against the step
//! relation: the invariants of the status register and program counter, the
//! flag laws for ZERO and NEGATIV, and the stack round trips.

use vstd::prelude::*;

use crate::cpu::{
    add8, add16, adc_carry, adc_overflow, adc_r, asl_r, hi8, lo8, lsr_r, make16, mem16,
    p_pulled, reaches, rol_r, ror_r, state_eq, steps_n, step_rel, sub8, AddressingMode, CPU,
    DecodeError, STATUS_RESET,
};
use crate::flags::{
    lemma_set_flag_other, lemma_zn_laws, lemma_zn_other, spec_set_flag, BREAK, BREAK2, CARRY,
    DECIMAL_MODE, INTERRUPT_DISABLE, NEGATIV, OVERFLOW, ZERO,
};
use crate::opcodes::{spec_decode, Mnemonic, OpCode};

verus! {

/// The stack pointer is an 8-bit offset into the stack page, so it can never
/// leave the range 0 to 0xff: no sequence of pushes and pops moves the stack
/// out of page one.
pub proof fn lemma_sp_in_range(c: CPU)
    ensures
        0 <= c.stack_pointer <= 0xff,
{
}

/// No two distinct status-flag constants share a bit with the unused flag.
proof fn lemma_flag_consts()
    by (bit_vector)
    ensures
        CARRY & BREAK2 == 0,
        ZERO & BREAK2 == 0,
        INTERRUPT_DISABLE & BREAK2 == 0,
        DECIMAL_MODE & BREAK2 == 0,
        BREAK & BREAK2 == 0,
        OVERFLOW & BREAK2 == 0,
        NEGATIV & BREAK2 == 0,
{
}

/// A status byte pulled from the stack has the unused bit forced set.
proof fn lemma_pulled_bit5(v: u8)
    by (bit_vector)
    ensures
        p_pulled(v) & BREAK2 == BREAK2,
{
}

/// The unused status bit stays set across every instruction dispatch: no
/// instruction clears bit 5 of `P`, and the pulls that rewrite `P` wholesale
/// force it back on.
pub proof fn lemma_step_keeps_unused_bit(pre: CPU, post: CPU, r: Result<bool, DecodeError>)
    requires
        step_rel(pre, post, r),
        pre.status.bits & BREAK2 == BREAK2,
    ensures
        post.status.bits & BREAK2 == BREAK2,
{
    let code = pre.mem()[pre.program_counter as int];
    let m = pre.mem();
    let a = pre.register_a;
    let x = pre.register_x;
    let y = pre.register_y;
    let sp = pre.stack_pointer;
    let p = pre.status.bits;
    if spec_decode(code) is Some {
        let op = spec_decode(code)->0;
        let opp = add16(pre.program_counter, 1);
        let ea = crate::cpu::ea_spec(m, x, y, op.mode, opp);
        let v = m[ea as int];
        let w = m[0x100 + add8(sp, 1) as int];
        let cin = p & CARRY == CARRY;
        lemma_flag_consts();
        match op.mnemonic {
            Mnemonic::LDA | Mnemonic::LDX | Mnemonic::LDY => lemma_zn_other(p, v),
            Mnemonic::TAX | Mnemonic::TAY => lemma_zn_other(p, a),
            Mnemonic::TXA => lemma_zn_other(p, x),
            Mnemonic::TYA => lemma_zn_other(p, y),
            Mnemonic::TSX => lemma_zn_other(p, sp),
            Mnemonic::AND => lemma_zn_other(p, a & v),
            Mnemonic::EOR => lemma_zn_other(p, a ^ v),
            Mnemonic::ORA => lemma_zn_other(p, a | v),
            Mnemonic::ADC => {
                let p1 = spec_set_flag(p, CARRY, adc_carry(a, v, p));
                lemma_set_flag_other(p, CARRY, adc_carry(a, v, p), BREAK2);
                lemma_set_flag_other(p1, OVERFLOW, adc_overflow(a, v, p), BREAK2);
                lemma_zn_other(spec_set_flag(p1, OVERFLOW, adc_overflow(a, v, p)), adc_r(a, v, p));
            },
            Mnemonic::SBC => {
                let u = v ^ 0xff;
                let p1 = spec_set_flag(p, CARRY, adc_carry(a, u, p));
                lemma_set_flag_other(p, CARRY, adc_carry(a, u, p), BREAK2);
                lemma_set_flag_other(p1, OVERFLOW, adc_overflow(a, u, p), BREAK2);
                lemma_zn_other(spec_set_flag(p1, OVERFLOW, adc_overflow(a, u, p)), adc_r(a, u, p));
            },
            Mnemonic::CMP => {
                lemma_set_flag_other(p, CARRY, a >= v, BREAK2);
                lemma_zn_other(spec_set_flag(p, CARRY, a >= v), sub8(a, v));
            },
            Mnemonic::CPX => {
                lemma_set_flag_other(p, CARRY, x >= v, BREAK2);
                lemma_zn_other(spec_set_flag(p, CARRY, x >= v), sub8(x, v));
            },
            Mnemonic::CPY => {
                lemma_set_flag_other(p, CARRY, y >= v, BREAK2);
                lemma_zn_other(spec_set_flag(p, CARRY, y >= v), sub8(y, v));
            },
            Mnemonic::ASL => {
                lemma_set_flag_other(p, CARRY, a & 0x80 != 0, BREAK2);
                lemma_zn_other(spec_set_flag(p, CARRY, a & 0x80 != 0), asl_r(a));
                lemma_set_flag_other(p, CARRY, v & 0x80 != 0, BREAK2);
                lemma_zn_other(spec_set_flag(p, CARRY, v & 0x80 != 0), asl_r(v));
            },
            Mnemonic::LSR => {
                lemma_set_flag_other(p, CARRY, a & 1 == 1, BREAK2);
                lemma_zn_other(spec_set_flag(p, CARRY, a & 1 == 1), lsr_r(a));
                lemma_set_flag_other(p, CARRY, v & 1 == 1, BREAK2);
                lemma_zn_other(spec_set_flag(p, CARRY, v & 1 == 1), lsr_r(v));
            },
            Mnemonic::ROL => {
                lemma_set_flag_other(p, CARRY, a & 0x80 != 0, BREAK2);
                lemma_zn_other(spec_set_flag(p, CARRY, a & 0x80 != 0), rol_r(a, cin));
                lemma_set_flag_other(p, CARRY, v & 0x80 != 0, BREAK2);
                lemma_zn_other(spec_set_flag(p, CARRY, v & 0x80 != 0), rol_r(v, cin));
            },
            Mnemonic::ROR => {
                lemma_set_flag_other(p, CARRY, a & 1 == 1, BREAK2);
                lemma_zn_other(spec_set_flag(p, CARRY, a & 1 == 1), ror_r(a, cin));
                lemma_set_flag_other(p, CARRY, v & 1 == 1, BREAK2);
                lemma_zn_other(spec_set_flag(p, CARRY, v & 1 == 1), ror_r(v, cin));
            },
            Mnemonic::INC => lemma_zn_other(p, add8(v, 1)),
            Mnemonic::DEC => lemma_zn_other(p, sub8(v, 1)),
            Mnemonic::INX => lemma_zn_other(p, add8(x, 1)),
            Mnemonic::INY => lemma_zn_other(p, add8(y, 1)),
            Mnemonic::DEX => lemma_zn_other(p, sub8(x, 1)),
            Mnemonic::DEY => lemma_zn_other(p, sub8(y, 1)),
            Mnemonic::BIT => {
                let p1 = spec_set_flag(p, ZERO, a & v == 0);
                let p2 = spec_set_flag(p1, NEGATIV, v & 0x80 != 0);
                lemma_set_flag_other(p, ZERO, a & v == 0, BREAK2);
                lemma_set_flag_other(p1, NEGATIV, v & 0x80 != 0, BREAK2);
                lemma_set_flag_other(p2, OVERFLOW, v & 0x40 != 0, BREAK2);
            },
            Mnemonic::PLA => lemma_zn_other(p, w),
            Mnemonic::PLP => lemma_pulled_bit5(w),
            Mnemonic::RTI => lemma_pulled_bit5(w),
            Mnemonic::CLC => lemma_set_flag_other(p, CARRY, false, BREAK2),
            Mnemonic::SEC => lemma_set_flag_other(p, CARRY, true, BREAK2),
            Mnemonic::CLD => lemma_set_flag_other(p, DECIMAL_MODE, false, BREAK2),
            Mnemonic::SED => lemma_set_flag_other(p, DECIMAL_MODE, true, BREAK2),
            Mnemonic::CLI => lemma_set_flag_other(p, INTERRUPT_DISABLE, false, BREAK2),
            Mnemonic::SEI => lemma_set_flag_other(p, INTERRUPT_DISABLE, true, BREAK2),
            Mnemonic::CLV => lemma_set_flag_other(p, OVERFLOW, false, BREAK2),
            _ => {},
        }
    }
}

/// The byte from which an instruction's ZERO and NEGATIV flags are set, for
/// the mnemonics the flag laws cover: loads, transfers except TXS, logic,
/// add and subtract, shifts and rotates, increments and decrements, and the
/// pull of the accumulator.  `None` for every other mnemonic.
pub open spec fn zn_result(pre: CPU, op: OpCode) -> Option<u8> {
    let m = pre.mem();
    let a = pre.register_a;
    let x = pre.register_x;
    let y = pre.register_y;
    let sp = pre.stack_pointer;
    let p = pre.status.bits;
    let opp = add16(pre.program_counter, 1);
    let ea = crate::cpu::ea_spec(m, x, y, op.mode, opp);
    let v = m[ea as int];
    let cin = p & CARRY == CARRY;
    let acc = op.mode == AddressingMode::NoneAddressing;
    match op.mnemonic {
        Mnemonic::LDA | Mnemonic::LDX | Mnemonic::LDY => Some(v),
        Mnemonic::TAX | Mnemonic::TAY => Some(a),
        Mnemonic::TXA => Some(x),
        Mnemonic::TYA => Some(y),
        Mnemonic::TSX => Some(sp),
        Mnemonic::AND => Some(a & v),
        Mnemonic::EOR => Some(a ^ v),
        Mnemonic::ORA => Some(a | v),
        Mnemonic::ADC => Some(adc_r(a, v, p)),
        Mnemonic::SBC => Some(adc_r(a, v ^ 0xff, p)),
        Mnemonic::ASL => Some(
            if acc {
                asl_r(a)
            } else {
                asl_r(v)
            },
        ),
        Mnemonic::LSR => Some(
            if acc {
                lsr_r(a)
            } else {
                lsr_r(v)
            },
        ),
        Mnemonic::ROL => Some(
            if acc {
                rol_r(a, cin)
            } else {
                rol_r(v, cin)
            },
        ),
        Mnemonic::ROR => Some(
            if acc {
                ror_r(a, cin)
            } else {
                ror_r(v, cin)
            },
        ),
        Mnemonic::INC => Some(add8(v, 1)),
        Mnemonic::DEC => Some(sub8(v, 1)),
        Mnemonic::INX => Some(add8(x, 1)),
        Mnemonic::INY => Some(add8(y, 1)),
        Mnemonic::DEX => Some(sub8(x, 1)),
        Mnemonic::DEY => Some(sub8(y, 1)),
        Mnemonic::PLA => Some(m[0x100 + add8(sp, 1) as int]),
        _ => None,
    }
}

/// The flag laws: after any instruction that loads, transfers, combines,
/// shifts, counts or pulls a result byte, ZERO holds exactly when that byte
/// is zero and NEGATIV holds exactly when its bit 7 is set.
pub proof fn lemma_step_flag_laws(pre: CPU, post: CPU, cont: bool, op: OpCode, r: u8)
    requires
        spec_decode(pre.mem()[pre.program_counter as int]) == Some(op),
        step_rel(pre, post, Result::Ok(cont)),
        zn_result(pre, op) == Some(r),
    ensures
        (post.status.bits & ZERO == ZERO) <==> r == 0,
        (post.status.bits & NEGATIV == NEGATIV) <==> r & 0x80 != 0,
{
    let m = pre.mem();
    let a = pre.register_a;
    let x = pre.register_x;
    let y = pre.register_y;
    let sp = pre.stack_pointer;
    let p = pre.status.bits;
    let opp = add16(pre.program_counter, 1);
    let ea = crate::cpu::ea_spec(m, x, y, op.mode, opp);
    let v = m[ea as int];
    match op.mnemonic {
        Mnemonic::ADC => {
            let p1 = spec_set_flag(p, CARRY, adc_carry(a, v, p));
            lemma_zn_laws(spec_set_flag(p1, OVERFLOW, adc_overflow(a, v, p)), r);
        },
        Mnemonic::SBC => {
            let u = v ^ 0xff;
            let p1 = spec_set_flag(p, CARRY, adc_carry(a, u, p));
            lemma_zn_laws(spec_set_flag(p1, OVERFLOW, adc_overflow(a, u, p)), r);
        },
        Mnemonic::ASL => {
            lemma_zn_laws(spec_set_flag(p, CARRY, a & 0x80 != 0), r);
            lemma_zn_laws(spec_set_flag(p, CARRY, v & 0x80 != 0), r);
        },
        Mnemonic::LSR => {
            lemma_zn_laws(spec_set_flag(p, CARRY, a & 1 == 1), r);
            lemma_zn_laws(spec_set_flag(p, CARRY, v & 1 == 1), r);
        },
        Mnemonic::ROL => {
            lemma_zn_laws(spec_set_flag(p, CARRY, a & 0x80 != 0), r);
            lemma_zn_laws(spec_set_flag(p, CARRY, v & 0x80 != 0), r);
        },
        Mnemonic::ROR => {
            lemma_zn_laws(spec_set_flag(p, CARRY, a & 1 == 1), r);
            lemma_zn_laws(spec_set_flag(p, CARRY, v & 1 == 1), r);
        },
        _ => {
            lemma_zn_laws(p, r);
        },
    }
}

/// The reset value of the status register already carries the unused bit,
/// so the invariant below holds from reset onward.
pub proof fn lemma_reset_has_unused_bit()
    by (bit_vector)
    ensures
        STATUS_RESET & BREAK2 == BREAK2,
{
}

/// The unused status bit is set at every instruction boundary of a run that
/// starts with it set: the per-step preservation, carried along any number
/// of dispatches.
pub proof fn lemma_run_keeps_unused_bit(pre: CPU, post: CPU, n: nat)
    requires
        steps_n(pre, post, n),
        pre.status.bits & BREAK2 == BREAK2,
    ensures
        post.status.bits & BREAK2 == BREAK2,
    decreases n,
{
    if n > 0 {
        let (mid, c) = choose|mid: CPU, c: bool|
            steps_n(pre, mid, (n - 1) as nat) && #[trigger] step_rel(mid, post, Result::Ok(c));
        lemma_run_keeps_unused_bit(pre, mid, (n - 1) as nat);
        lemma_step_keeps_unused_bit(mid, post, Result::Ok(c));
    }
}

/// The same invariant at the grain of [`crate::cpu::CPU::run`]'s contract:
/// every state the interpreter reaches from one with the unused status bit
/// set has it set.
pub proof fn lemma_reachable_keeps_unused_bit(pre: CPU, post: CPU)
    requires
        reaches(pre, post),
        pre.status.bits & BREAK2 == BREAK2,
    ensures
        post.status.bits & BREAK2 == BREAK2,
{
    let (n, s) = choose|n: nat, s: CPU| #[trigger] steps_n(pre, s, n) && state_eq(s, post);
    lemma_run_keeps_unused_bit(pre, s, n);
}

/// The mnemonics that rewrite the program counter themselves: everything
/// else leaves it to the interpreter's advance past the operand bytes.
pub open spec fn is_control(mn: Mnemonic) -> bool {
    match mn {
        Mnemonic::BRK | Mnemonic::JMP | Mnemonic::JSR | Mnemonic::RTS | Mnemonic::RTI
            | Mnemonic::BCC | Mnemonic::BCS | Mnemonic::BEQ | Mnemonic::BNE | Mnemonic::BMI
            | Mnemonic::BPL | Mnemonic::BVC | Mnemonic::BVS => true,
        _ => false,
    }
}

/// After any instruction that is not a branch, jump, call, return or BRK,
/// the program counter has advanced by exactly the instruction's length.
pub proof fn lemma_step_advances_pc(pre: CPU, post: CPU, cont: bool, op: OpCode)
    requires
        spec_decode(pre.mem()[pre.program_counter as int]) == Some(op),
        step_rel(pre, post, Result::Ok(cont)),
        !is_control(op.mnemonic),
    ensures
        post.program_counter == add16(pre.program_counter, op.len as u16),
{
}

/// Pushing a 16-bit value on the stack and then popping 16 bits yields the
/// value back and restores the stack pointer, for every value and every
/// stack position, across the 8-bit wrap of the pointer.  The hypotheses
/// are exactly what `CPU::stack_push_u16` ensures of the machine `mid` it
/// leaves behind; the conclusions are what `CPU::stack_pop_u16`'s contract
/// then returns from `mid`, and that the pointer comes back to where it
/// stood.
pub proof fn lemma_push_pop_u16(pre: CPU, mid: CPU, v: u16)
    requires
        pre.wf(),
        mid.mem() == pre.mem().update(0x100 + pre.stack_pointer as int, hi8(v)).update(
            0x100 + sub8(pre.stack_pointer, 1) as int,
            lo8(v),
        ),
        mid.stack_pointer == sub8(pre.stack_pointer, 2),
    ensures
        make16(
            mid.mem()[0x100 + add8(mid.stack_pointer, 2) as int],
            mid.mem()[0x100 + add8(mid.stack_pointer, 1) as int],
        ) == v,
        add8(mid.stack_pointer, 2) == pre.stack_pointer,
{
}

/// The same round trip at the grain of the two instruction handlers, whose
/// program counters point at the byte after the JSR opcode: the hypotheses
/// are exactly what `CPU::jsr` ensures of the machine `mid` it leaves
/// behind and what `CPU::rts` ensures of `post` given `mid`; the
/// conclusions are that control comes back to the byte just past the
/// three-byte JSR instruction with the stack pointer restored.
pub proof fn lemma_jsr_rts_contracts(pre: CPU, mid: CPU, post: CPU)
    requires
        pre.wf(),
        ({
            let ret = add16(pre.program_counter, 1);
            let m1 = pre.mem().update(0x100 + pre.stack_pointer as int, hi8(ret)).update(
                0x100 + sub8(pre.stack_pointer, 1) as int,
                lo8(ret),
            );
            crate::cpu::cpu_is(
                mid,
                pre.register_a,
                pre.register_x,
                pre.register_y,
                sub8(pre.stack_pointer, 2),
                pre.status.bits,
                mem16(m1, pre.program_counter),
                m1,
            )
        }),
        ({
            let lo = mid.mem()[0x100 + add8(mid.stack_pointer, 1) as int];
            let hi = mid.mem()[0x100 + add8(mid.stack_pointer, 2) as int];
            crate::cpu::cpu_is(
                post,
                mid.register_a,
                mid.register_x,
                mid.register_y,
                add8(mid.stack_pointer, 2),
                mid.status.bits,
                add16(make16(hi, lo), 1),
                mid.mem(),
            )
        }),
    ensures
        post.program_counter == add16(pre.program_counter, 2),
        post.stack_pointer == pre.stack_pointer,
{
    let ret = add16(pre.program_counter, 1);
    assert(make16(hi8(ret), lo8(ret)) == ret);
}

/// A JSR followed at its target by an RTS returns the program counter to
/// the byte just past the three-byte JSR instruction.
pub proof fn lemma_jsr_rts(pre: CPU, mid: CPU, post: CPU, op1: OpCode, op2: OpCode)
    requires
        pre.mem().len() == 0x10000,
        spec_decode(pre.mem()[pre.program_counter as int]) == Some(op1),
        op1.mnemonic == Mnemonic::JSR,
        step_rel(pre, mid, Result::Ok(true)),
        spec_decode(mid.mem()[mid.program_counter as int]) == Some(op2),
        op2.mnemonic == Mnemonic::RTS,
        step_rel(mid, post, Result::Ok(true)),
    ensures
        post.program_counter == add16(pre.program_counter, 3),
{
    let ret = add16(pre.program_counter, 2);
    assert(make16(hi8(ret), lo8(ret)) == ret);
}

/// A PHP followed by a PLP restores the status byte up to the forced-bit
/// normalization: BREAK comes back clear and the unused bit set, and every
/// other flag keeps its value.
pub proof fn lemma_php_plp(pre: CPU, mid: CPU, post: CPU, op1: OpCode, op2: OpCode)
    requires
        pre.mem().len() == 0x10000,
        spec_decode(pre.mem()[pre.program_counter as int]) == Some(op1),
        op1.mnemonic == Mnemonic::PHP,
        step_rel(pre, mid, Result::Ok(true)),
        spec_decode(mid.mem()[mid.program_counter as int]) == Some(op2),
        op2.mnemonic == Mnemonic::PLP,
        step_rel(mid, post, Result::Ok(true)),
    ensures
        post.status.bits == p_pulled(pre.status.bits),
{
    let p = pre.status.bits;
    assert(p_pulled(p | BREAK | BREAK2) == p_pulled(p)) by (bit_vector);
}

} // verus!

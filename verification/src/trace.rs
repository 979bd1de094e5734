//! The execution trace: one fixed-width line per instruction in the
//! Nintendulator log format, written before the instruction runs.  Every
//! column is specified exactly, down to the byte: the program counter, the
//! instruction bytes, the mnemonic, the operand with its resolved address
//! and current memory value, and the register snapshot.

use vstd::prelude::*;
use vstd::string::StringExecFns;

use crate::cpu::{
    add8, add16, branch_target, ea_spec, hi8, jmp_ind_target, lo8, mem16, reaches, state_eq,
    step_rel, steps_n, sub16, AddressingMode, CPU, DecodeError,
};
use crate::opcodes::{decode, spec_decode, Mnemonic, OpCode};

verus! {

/// The hexadecimal digit for a nibble, upper case.
pub open spec fn hex_digit(n: u8) -> char {
    if n == 0 {
        '0'
    } else if n == 1 {
        '1'
    } else if n == 2 {
        '2'
    } else if n == 3 {
        '3'
    } else if n == 4 {
        '4'
    } else if n == 5 {
        '5'
    } else if n == 6 {
        '6'
    } else if n == 7 {
        '7'
    } else if n == 8 {
        '8'
    } else if n == 9 {
        '9'
    } else if n == 10 {
        'A'
    } else if n == 11 {
        'B'
    } else if n == 12 {
        'C'
    } else if n == 13 {
        'D'
    } else if n == 14 {
        'E'
    } else {
        'F'
    }
}

/// Two hexadecimal digits of a byte.
pub open spec fn hex2(v: u8) -> Seq<char> {
    seq![hex_digit(v >> 4), hex_digit(v & 0x0f)]
}

/// Four hexadecimal digits of a 16-bit value.
pub open spec fn hex4(v: u16) -> Seq<char> {
    hex2(hi8(v)) + hex2(lo8(v))
}

/// The three letters of a mnemonic.
pub open spec fn mnemonic_chars(m: Mnemonic) -> Seq<char> {
    match m {
        Mnemonic::ADC => seq!['A', 'D', 'C'],
        Mnemonic::AND => seq!['A', 'N', 'D'],
        Mnemonic::ASL => seq!['A', 'S', 'L'],
        Mnemonic::BCC => seq!['B', 'C', 'C'],
        Mnemonic::BCS => seq!['B', 'C', 'S'],
        Mnemonic::BEQ => seq!['B', 'E', 'Q'],
        Mnemonic::BIT => seq!['B', 'I', 'T'],
        Mnemonic::BMI => seq!['B', 'M', 'I'],
        Mnemonic::BNE => seq!['B', 'N', 'E'],
        Mnemonic::BPL => seq!['B', 'P', 'L'],
        Mnemonic::BRK => seq!['B', 'R', 'K'],
        Mnemonic::BVC => seq!['B', 'V', 'C'],
        Mnemonic::BVS => seq!['B', 'V', 'S'],
        Mnemonic::CLC => seq!['C', 'L', 'C'],
        Mnemonic::CLD => seq!['C', 'L', 'D'],
        Mnemonic::CLI => seq!['C', 'L', 'I'],
        Mnemonic::CLV => seq!['C', 'L', 'V'],
        Mnemonic::CMP => seq!['C', 'M', 'P'],
        Mnemonic::CPX => seq!['C', 'P', 'X'],
        Mnemonic::CPY => seq!['C', 'P', 'Y'],
        Mnemonic::DEC => seq!['D', 'E', 'C'],
        Mnemonic::DEX => seq!['D', 'E', 'X'],
        Mnemonic::DEY => seq!['D', 'E', 'Y'],
        Mnemonic::EOR => seq!['E', 'O', 'R'],
        Mnemonic::INC => seq!['I', 'N', 'C'],
        Mnemonic::INX => seq!['I', 'N', 'X'],
        Mnemonic::INY => seq!['I', 'N', 'Y'],
        Mnemonic::JMP => seq!['J', 'M', 'P'],
        Mnemonic::JSR => seq!['J', 'S', 'R'],
        Mnemonic::LDA => seq!['L', 'D', 'A'],
        Mnemonic::LDX => seq!['L', 'D', 'X'],
        Mnemonic::LDY => seq!['L', 'D', 'Y'],
        Mnemonic::LSR => seq!['L', 'S', 'R'],
        Mnemonic::NOP => seq!['N', 'O', 'P'],
        Mnemonic::ORA => seq!['O', 'R', 'A'],
        Mnemonic::PHA => seq!['P', 'H', 'A'],
        Mnemonic::PHP => seq!['P', 'H', 'P'],
        Mnemonic::PLA => seq!['P', 'L', 'A'],
        Mnemonic::PLP => seq!['P', 'L', 'P'],
        Mnemonic::ROL => seq!['R', 'O', 'L'],
        Mnemonic::ROR => seq!['R', 'O', 'R'],
        Mnemonic::RTI => seq!['R', 'T', 'I'],
        Mnemonic::RTS => seq!['R', 'T', 'S'],
        Mnemonic::SBC => seq!['S', 'B', 'C'],
        Mnemonic::SEC => seq!['S', 'E', 'C'],
        Mnemonic::SED => seq!['S', 'E', 'D'],
        Mnemonic::SEI => seq!['S', 'E', 'I'],
        Mnemonic::STA => seq!['S', 'T', 'A'],
        Mnemonic::STX => seq!['S', 'T', 'X'],
        Mnemonic::STY => seq!['S', 'T', 'Y'],
        Mnemonic::TAX => seq!['T', 'A', 'X'],
        Mnemonic::TAY => seq!['T', 'A', 'Y'],
        Mnemonic::TSX => seq!['T', 'S', 'X'],
        Mnemonic::TXA => seq!['T', 'X', 'A'],
        Mnemonic::TXS => seq!['T', 'X', 'S'],
        Mnemonic::TYA => seq!['T', 'Y', 'A'],
    }
}

/// The instruction bytes column with its padding: up to three bytes, padded
/// so that the mnemonic always starts at the same column.
pub open spec fn dump_spec(m: Seq<u8>, pc: u16, code: u8, len: u8) -> Seq<char> {
    if len == 1 {
        hex2(code) + "        "@
    } else if len == 2 {
        hex2(code) + " "@ + hex2(m[add16(pc, 1) as int]) + "     "@
    } else {
        hex2(code) + " "@ + hex2(m[add16(pc, 1) as int]) + " "@ + hex2(m[add16(pc, 2) as int])
            + "  "@
    }
}

/// The operand column with its padding: the operand as written in assembly,
/// followed for memory operands by the resolved address and the byte it
/// holds, padded to the register column.
pub open spec fn opnd_spec(c: CPU, op: OpCode) -> Seq<char> {
    let m = c.mem();
    let pc = c.program_counter;
    let code = m[pc as int];
    let opp = add16(pc, 1);
    let b1 = m[opp as int];
    let ea = ea_spec(m, c.register_x, c.register_y, op.mode, opp);
    let v = m[ea as int];
    match op.mode {
        AddressingMode::Immediate => " #$"@ + hex2(b1) + "                       "@,
        AddressingMode::ZeroPage => " $"@ + hex2(lo8(ea)) + " = "@ + hex2(v) + "                   "@,
        AddressingMode::ZeroPage_X => " $"@ + hex2(b1) + ",X @ "@ + hex2(lo8(ea)) + " = "@
            + hex2(v) + "            "@,
        AddressingMode::ZeroPage_Y => " $"@ + hex2(b1) + ",Y @ "@ + hex2(lo8(ea)) + " = "@
            + hex2(v) + "            "@,
        AddressingMode::Absolute => " $"@ + hex4(ea) + " = "@ + hex2(v) + "                 "@,
        AddressingMode::Absolute_X => " $"@ + hex4(mem16(m, opp)) + ",X @ "@ + hex4(ea) + " = "@
            + hex2(v) + "        "@,
        AddressingMode::Absolute_Y => " $"@ + hex4(mem16(m, opp)) + ",Y @ "@ + hex4(ea) + " = "@
            + hex2(v) + "        "@,
        AddressingMode::Indirect_X => " ($"@ + hex2(b1) + ",X) @ "@ + hex2(add8(b1, c.register_x))
            + " = "@ + hex4(ea) + " = "@ + hex2(v) + "   "@,
        AddressingMode::Indirect_Y => " ($"@ + hex2(b1) + "),Y = "@ + hex4(
            sub16(ea, c.register_y as u16),
        ) + " @ "@ + hex4(ea) + " = "@ + hex2(v) + " "@,
        AddressingMode::NoneAddressing => if op.len == 2 {
            " $"@ + hex4(branch_target(m, opp)) + "                      "@
        } else if op.len == 3 {
            if code == 0x6c {
                " ($"@ + hex4(mem16(m, opp)) + ") = "@ + hex4(jmp_ind_target(m, mem16(m, opp)))
                    + "             "@
            } else {
                " $"@ + hex4(mem16(m, opp)) + "                      "@
            }
        } else {
            if code == 0x0a || code == 0x4a || code == 0x2a || code == 0x6a {
                " A"@ + "                          "@
            } else {
                "                            "@
            }
        },
    }
}

/// The register snapshot column.
pub open spec fn regs_spec(c: CPU) -> Seq<char> {
    " A:"@ + hex2(c.register_a) + " X:"@ + hex2(c.register_x) + " Y:"@ + hex2(c.register_y)
        + " P:"@ + hex2(c.status.bits) + " SP:"@ + hex2(c.stack_pointer)
}

/// The whole trace line for the instruction the program counter points at.
pub open spec fn trace_spec(c: CPU) -> Seq<char> {
    let m = c.mem();
    let pc = c.program_counter;
    let code = m[pc as int];
    let op = spec_decode(code)->0;
    hex4(pc) + "  "@ + dump_spec(m, pc, code, op.len) + mnemonic_chars(op.mnemonic) + opnd_spec(
        c,
        op,
    ) + regs_spec(c)
}

/// Both nibbles of a byte are nibbles.
proof fn lemma_nibbles(v: u8)
    by (bit_vector)
    ensures
        v >> 4 < 16,
        v & 0x0f < 16,
{
}

/// The one-character string for a nibble's hexadecimal digit.
fn hex_digit_str(n: u8) -> (r: &'static str)
    requires
        n < 16,
    ensures
        r@ == seq![hex_digit(n)],
{
    proof {
        reveal_strlit("0");
        reveal_strlit("1");
        reveal_strlit("2");
        reveal_strlit("3");
        reveal_strlit("4");
        reveal_strlit("5");
        reveal_strlit("6");
        reveal_strlit("7");
        reveal_strlit("8");
        reveal_strlit("9");
        reveal_strlit("A");
        reveal_strlit("B");
        reveal_strlit("C");
        reveal_strlit("D");
        reveal_strlit("E");
        reveal_strlit("F");
    }
    match n {
        0 => "0",
        1 => "1",
        2 => "2",
        3 => "3",
        4 => "4",
        5 => "5",
        6 => "6",
        7 => "7",
        8 => "8",
        9 => "9",
        10 => "A",
        11 => "B",
        12 => "C",
        13 => "D",
        14 => "E",
        _ => "F",
    }
}

/// Append a byte as two hexadecimal digits.
fn push_hex2(s: &mut String, v: u8)
    ensures
        final(s)@ == old(s)@ + hex2(v),
{
    proof {
        lemma_nibbles(v);
    }
    let d1 = hex_digit_str(v >> 4);
    s.append(d1);
    let d2 = hex_digit_str(v & 0x0f);
    s.append(d2);
    proof {
        assert(s@ =~= old(s)@ + hex2(v));
    }
}

/// Append a 16-bit value as four hexadecimal digits.
fn push_hex4(s: &mut String, v: u16)
    ensures
        final(s)@ == old(s)@ + hex4(v),
{
    push_hex2(s, (v / 0x100) as u8);
    push_hex2(s, (v % 0x100) as u8);
    proof {
        assert(s@ =~= old(s)@ + hex4(v));
    }
}

/// The three-letter name of a mnemonic.
fn mnemonic_str(m: Mnemonic) -> (r: &'static str)
    ensures
        r@ == mnemonic_chars(m),
{
    proof {
        reveal_strlit("ADC");
        reveal_strlit("AND");
        reveal_strlit("ASL");
        reveal_strlit("BCC");
        reveal_strlit("BCS");
        reveal_strlit("BEQ");
        reveal_strlit("BIT");
        reveal_strlit("BMI");
        reveal_strlit("BNE");
        reveal_strlit("BPL");
        reveal_strlit("BRK");
        reveal_strlit("BVC");
        reveal_strlit("BVS");
        reveal_strlit("CLC");
        reveal_strlit("CLD");
        reveal_strlit("CLI");
        reveal_strlit("CLV");
        reveal_strlit("CMP");
        reveal_strlit("CPX");
        reveal_strlit("CPY");
        reveal_strlit("DEC");
        reveal_strlit("DEX");
        reveal_strlit("DEY");
        reveal_strlit("EOR");
        reveal_strlit("INC");
        reveal_strlit("INX");
        reveal_strlit("INY");
        reveal_strlit("JMP");
        reveal_strlit("JSR");
        reveal_strlit("LDA");
        reveal_strlit("LDX");
        reveal_strlit("LDY");
        reveal_strlit("LSR");
        reveal_strlit("NOP");
        reveal_strlit("ORA");
        reveal_strlit("PHA");
        reveal_strlit("PHP");
        reveal_strlit("PLA");
        reveal_strlit("PLP");
        reveal_strlit("ROL");
        reveal_strlit("ROR");
        reveal_strlit("RTI");
        reveal_strlit("RTS");
        reveal_strlit("SBC");
        reveal_strlit("SEC");
        reveal_strlit("SED");
        reveal_strlit("SEI");
        reveal_strlit("STA");
        reveal_strlit("STX");
        reveal_strlit("STY");
        reveal_strlit("TAX");
        reveal_strlit("TAY");
        reveal_strlit("TSX");
        reveal_strlit("TXA");
        reveal_strlit("TXS");
        reveal_strlit("TYA");
    }
    match m {
        Mnemonic::ADC => "ADC",
        Mnemonic::AND => "AND",
        Mnemonic::ASL => "ASL",
        Mnemonic::BCC => "BCC",
        Mnemonic::BCS => "BCS",
        Mnemonic::BEQ => "BEQ",
        Mnemonic::BIT => "BIT",
        Mnemonic::BMI => "BMI",
        Mnemonic::BNE => "BNE",
        Mnemonic::BPL => "BPL",
        Mnemonic::BRK => "BRK",
        Mnemonic::BVC => "BVC",
        Mnemonic::BVS => "BVS",
        Mnemonic::CLC => "CLC",
        Mnemonic::CLD => "CLD",
        Mnemonic::CLI => "CLI",
        Mnemonic::CLV => "CLV",
        Mnemonic::CMP => "CMP",
        Mnemonic::CPX => "CPX",
        Mnemonic::CPY => "CPY",
        Mnemonic::DEC => "DEC",
        Mnemonic::DEX => "DEX",
        Mnemonic::DEY => "DEY",
        Mnemonic::EOR => "EOR",
        Mnemonic::INC => "INC",
        Mnemonic::INX => "INX",
        Mnemonic::INY => "INY",
        Mnemonic::JMP => "JMP",
        Mnemonic::JSR => "JSR",
        Mnemonic::LDA => "LDA",
        Mnemonic::LDX => "LDX",
        Mnemonic::LDY => "LDY",
        Mnemonic::LSR => "LSR",
        Mnemonic::NOP => "NOP",
        Mnemonic::ORA => "ORA",
        Mnemonic::PHA => "PHA",
        Mnemonic::PHP => "PHP",
        Mnemonic::PLA => "PLA",
        Mnemonic::PLP => "PLP",
        Mnemonic::ROL => "ROL",
        Mnemonic::ROR => "ROR",
        Mnemonic::RTI => "RTI",
        Mnemonic::RTS => "RTS",
        Mnemonic::SBC => "SBC",
        Mnemonic::SEC => "SEC",
        Mnemonic::SED => "SED",
        Mnemonic::SEI => "SEI",
        Mnemonic::STA => "STA",
        Mnemonic::STX => "STX",
        Mnemonic::STY => "STY",
        Mnemonic::TAX => "TAX",
        Mnemonic::TAY => "TAY",
        Mnemonic::TSX => "TSX",
        Mnemonic::TXA => "TXA",
        Mnemonic::TXS => "TXS",
        Mnemonic::TYA => "TYA",
    }
}

/// Append the register snapshot column.
fn push_regs(s: &mut String, cpu: &CPU)
    ensures
        final(s)@ == old(s)@ + regs_spec(*cpu),
{
    s.append(" A:");
    push_hex2(s, cpu.register_a);
    s.append(" X:");
    push_hex2(s, cpu.register_x);
    s.append(" Y:");
    push_hex2(s, cpu.register_y);
    s.append(" P:");
    push_hex2(s, cpu.status.bits());
    s.append(" SP:");
    push_hex2(s, cpu.stack_pointer);
    proof {
        assert(s@ =~= old(s)@ + regs_spec(*cpu));
    }
}

/// Append the operand column for `op` at the current program counter.
fn push_operand(s: &mut String, cpu: &CPU, op: OpCode)
    requires
        cpu.wf(),
    ensures
        final(s)@ == old(s)@ + opnd_spec(*cpu, op),
{
    let begin = cpu.program_counter;
    let code = cpu.read(begin);
    let opp = begin.wrapping_add(1);
    match op.mode {
        AddressingMode::Immediate => {
            s.append(" #$");
            push_hex2(s, cpu.read(opp));
            s.append("                       ");
        },
        AddressingMode::ZeroPage => {
            let ea = cpu.get_absolute_address(op.mode, opp);
            let v = cpu.read(ea);
            s.append(" $");
            push_hex2(s, (ea % 0x100) as u8);
            s.append(" = ");
            push_hex2(s, v);
            s.append("                   ");
        },
        AddressingMode::ZeroPage_X => {
            let ea = cpu.get_absolute_address(op.mode, opp);
            let v = cpu.read(ea);
            s.append(" $");
            push_hex2(s, cpu.read(opp));
            s.append(",X @ ");
            push_hex2(s, (ea % 0x100) as u8);
            s.append(" = ");
            push_hex2(s, v);
            s.append("            ");
        },
        AddressingMode::ZeroPage_Y => {
            let ea = cpu.get_absolute_address(op.mode, opp);
            let v = cpu.read(ea);
            s.append(" $");
            push_hex2(s, cpu.read(opp));
            s.append(",Y @ ");
            push_hex2(s, (ea % 0x100) as u8);
            s.append(" = ");
            push_hex2(s, v);
            s.append("            ");
        },
        AddressingMode::Absolute => {
            let ea = cpu.get_absolute_address(op.mode, opp);
            let v = cpu.read(ea);
            s.append(" $");
            push_hex4(s, ea);
            s.append(" = ");
            push_hex2(s, v);
            s.append("                 ");
        },
        AddressingMode::Absolute_X => {
            let ea = cpu.get_absolute_address(op.mode, opp);
            let v = cpu.read(ea);
            s.append(" $");
            push_hex4(s, cpu.read16(opp));
            s.append(",X @ ");
            push_hex4(s, ea);
            s.append(" = ");
            push_hex2(s, v);
            s.append("        ");
        },
        AddressingMode::Absolute_Y => {
            let ea = cpu.get_absolute_address(op.mode, opp);
            let v = cpu.read(ea);
            s.append(" $");
            push_hex4(s, cpu.read16(opp));
            s.append(",Y @ ");
            push_hex4(s, ea);
            s.append(" = ");
            push_hex2(s, v);
            s.append("        ");
        },
        AddressingMode::Indirect_X => {
            let ea = cpu.get_absolute_address(op.mode, opp);
            let v = cpu.read(ea);
            let b1 = cpu.read(opp);
            s.append(" ($");
            push_hex2(s, b1);
            s.append(",X) @ ");
            push_hex2(s, b1.wrapping_add(cpu.register_x));
            s.append(" = ");
            push_hex4(s, ea);
            s.append(" = ");
            push_hex2(s, v);
            s.append("   ");
        },
        AddressingMode::Indirect_Y => {
            let ea = cpu.get_absolute_address(op.mode, opp);
            let v = cpu.read(ea);
            let b1 = cpu.read(opp);
            s.append(" ($");
            push_hex2(s, b1);
            s.append("),Y = ");
            push_hex4(s, ea.wrapping_sub(cpu.register_y as u16));
            s.append(" @ ");
            push_hex4(s, ea);
            s.append(" = ");
            push_hex2(s, v);
            s.append(" ");
        },
        AddressingMode::NoneAddressing => {
            if op.len == 2 {
                let offset = cpu.read(opp);
                let fall = opp.wrapping_add(1);
                let target = if offset < 0x80 {
                    fall.wrapping_add(offset as u16)
                } else {
                    fall.wrapping_add(offset as u16).wrapping_sub(0x100)
                };
                s.append(" $");
                push_hex4(s, target);
                s.append("                      ");
            } else if op.len == 3 {
                let base = cpu.read16(opp);
                if code == 0x6c {
                    let target = if base & 0x00ff == 0x00ff {
                        let lo = cpu.read(base);
                        let hi = cpu.read(base & 0xff00);
                        (hi as u16) * 0x100 + (lo as u16)
                    } else {
                        cpu.read16(base)
                    };
                    s.append(" ($");
                    push_hex4(s, base);
                    s.append(") = ");
                    push_hex4(s, target);
                    s.append("             ");
                } else {
                    s.append(" $");
                    push_hex4(s, base);
                    s.append("                      ");
                }
            } else {
                if code == 0x0a || code == 0x4a || code == 0x2a || code == 0x6a {
                    s.append(" A");
                    s.append("                          ");
                } else {
                    s.append("                            ");
                }
            }
        },
    }
    proof {
        assert(s@ =~= old(s)@ + opnd_spec(*cpu, op));
    }
}

/// Format the trace line for the instruction the program counter points at:
/// the line the register snapshot describes is the machine as it stands,
/// before the instruction executes.
pub fn trace(cpu: &CPU) -> (r: String)
    requires
        cpu.wf(),
        spec_decode(cpu.mem()[cpu.program_counter as int]) is Some,
    ensures
        r@ == trace_spec(*cpu),
{
    let begin = cpu.program_counter;
    let code = cpu.read(begin);
    let op = match decode(code) {
        Option::Some(op) => op,
        Option::None => OpCode::new(0, Mnemonic::BRK, 1, 7, AddressingMode::NoneAddressing),
    };
    let opp = begin.wrapping_add(1);
    let mut s = String::new();
    push_hex4(&mut s, begin);
    s.append("  ");
    if op.len == 1 {
        push_hex2(&mut s, code);
        s.append("        ");
    } else if op.len == 2 {
        push_hex2(&mut s, code);
        s.append(" ");
        push_hex2(&mut s, cpu.read(opp));
        s.append("     ");
    } else {
        push_hex2(&mut s, code);
        s.append(" ");
        push_hex2(&mut s, cpu.read(opp));
        s.append(" ");
        push_hex2(&mut s, cpu.read(begin.wrapping_add(2)));
        s.append("  ");
    }
    let name = mnemonic_str(op.mnemonic);
    s.append(name);
    push_operand(&mut s, cpu, op);
    push_regs(&mut s, cpu);
    proof {
        assert(s@ =~= trace_spec(*cpu));
    }
    s
}


/// The returned lines of a trace run, tied to the run itself: `states` are
/// the successive machine states before each traced instruction, starting
/// at `pre`, each linked to the next by one dispatch; line `i` is the exact
/// trace of state `i`.  A run that returns without an error traced at least
/// one instruction and ended on the last state's BRK dispatch (or, after
/// `u64::MAX` instructions, on the budget); one that returns a decode error
/// stopped at the state after the last traced dispatch, which the error
/// describes.
pub open spec fn trace_chain(
    pre: CPU,
    post: CPU,
    states: Seq<CPU>,
    lines: Seq<String>,
    r: Result<(), DecodeError>,
) -> bool {
    &&& states.len() == lines.len()
    &&& forall|i: int| 0 <= i < states.len() ==> (#[trigger] lines[i])@ == trace_spec(states[i])
    &&& forall|i: int|
        0 <= i < states.len() - 1 ==> #[trigger] step_rel(
            states[i],
            states[i + 1],
            Result::Ok(true),
        )
    &&& states.len() > 0 ==> state_eq(pre, states[0])
    &&& (match r {
        Result::Ok(_) => states.len() > 0 && (step_rel(
            states[states.len() - 1],
            post,
            Result::Ok(false),
        ) || (states.len() == 0xffff_ffff_ffff_ffff && exists|s: CPU|
            #[trigger] step_rel(states[states.len() - 1], s, Result::Ok(true)) && state_eq(
                s,
                post,
            ))),
        Result::Err(_) => if states.len() == 0 {
            state_eq(pre, post)
        } else {
            exists|s: CPU|
                #[trigger] step_rel(states[states.len() - 1], s, Result::Ok(true)) && state_eq(
                    s,
                    post,
                )
        },
    })
}

impl CPU {
    /// Run the fetch-decode-execute loop as [`CPU::run`] does, collecting
    /// the trace line of each instruction before it executes.  The returned
    /// lines are exactly the traces of this run's successive states, in
    /// execution order, as [`trace_chain`] states; an illegal opcode ends
    /// the run without a line for the offending state.
    #[verifier::rlimit(100)]
    #[verifier::spinoff_prover]
    pub fn run_with_trace(&mut self) -> (r: (Vec<String>, Result<(), DecodeError>))
        requires
            old(self).wf(),
        ensures
            final(self).wf(),
            reaches(*old(self), *final(self)),
            (match r.1 {
                Result::Ok(_) => true,
                Result::Err(e) => {
                    &&& e.pc == final(self).program_counter
                    &&& e.opcode == final(self).mem()[e.pc as int]
                    &&& spec_decode(e.opcode) is None
                },
            }),
            (exists|states: Seq<CPU>|
                #[trigger] trace_chain(*old(self), *final(self), states, r.0@, r.1)),
    {
        let ghost init = *self;
        let ghost mut n: nat = 0;
        let ghost mut states: Seq<CPU> = Seq::empty();
        let mut lines: Vec<String> = Vec::new();
        let mut fuel: u64 = u64::MAX;
        proof {
            assert(steps_n(init, *self, 0));
        }
        while fuel > 0
            invariant
                self.wf(),
                init == *old(self),
                steps_n(init, *self, n),
                n == u64::MAX - fuel,
                states.len() == lines@.len(),
                n == states.len(),
                forall|i: int|
                    0 <= i < states.len() ==> (#[trigger] lines@[i])@ == trace_spec(states[i]),
                forall|i: int|
                    0 <= i < states.len() - 1 ==> #[trigger] step_rel(
                        states[i],
                        states[i + 1],
                        Result::Ok(true),
                    ),
                states.len() == 0 ==> state_eq(init, *self),
                states.len() > 0 ==> state_eq(init, states[0]) && step_rel(
                    states[states.len() - 1],
                    *self,
                    Result::Ok(true),
                ),
            decreases fuel,
        {
            let ghost prev = *self;
            let code = self.read(self.program_counter);
            match decode(code) {
                Option::Some(_) => {
                    let line = trace(self);
                    lines.push(line);
                    proof {
                        states = states.push(prev);
                    }
                },
                Option::None => {
                    let e = DecodeError { pc: self.program_counter, opcode: code };
                    let result = (lines, Result::Err::<(), DecodeError>(e));
                    proof {
                        assert(trace_chain(init, *self, states, result.0@, result.1));
                        assert(exists|st: Seq<CPU>|
                            #[trigger] trace_chain(init, *self, st, result.0@, result.1));
                    }
                    return result;
                },
            }
            let ghost prev2 = *self;
            match self.step() {
                Result::Ok(true) => {
                    proof {
                        assert(steps_n(init, prev2, n) && step_rel(
                            prev2,
                            *self,
                            Result::Ok(true),
                        ));
                        n = n + 1;
                        assert(steps_n(init, *self, n));
                    }
                    fuel = fuel - 1;
                },
                Result::Ok(false) => {
                    let result = (lines, Result::Ok::<(), DecodeError>(()));
                    proof {
                        assert(steps_n(init, prev2, n) && step_rel(
                            prev2,
                            *self,
                            Result::Ok(false),
                        ));
                        assert(steps_n(init, *self, n + 1));
                        assert(state_eq(*self, *self));
                        assert(trace_chain(init, *self, states, result.0@, result.1));
                        assert(exists|st: Seq<CPU>|
                            #[trigger] trace_chain(init, *self, st, result.0@, result.1));
                    }
                    return result;
                },
                Result::Err(e) => {
                    let result = (lines, Result::Err::<(), DecodeError>(e));
                    proof {
                        assert(state_eq(prev2, *self));
                        assert(steps_n(init, prev2, n) && state_eq(prev2, *self));
                        assert(step_rel(states[states.len() - 1], prev2, Result::Ok(true))
                            && state_eq(prev2, *self));
                        assert(trace_chain(init, *self, states, result.0@, result.1));
                        assert(exists|st: Seq<CPU>|
                            #[trigger] trace_chain(init, *self, st, result.0@, result.1));
                    }
                    return result;
                },
            }
        }
        let result = (lines, Result::Ok::<(), DecodeError>(()));
        proof {
            assert(steps_n(init, *self, n) && state_eq(*self, *self));
            assert(step_rel(states[states.len() - 1], *self, Result::Ok(true)) && state_eq(
                *self,
                *self,
            ));
            assert(trace_chain(init, *self, states, result.0@, result.1));
            assert(exists|st: Seq<CPU>|
                #[trigger] trace_chain(init, *self, st, result.0@, result.1));
        }
        result
    }
}

} // verus!


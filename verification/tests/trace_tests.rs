//! The trace lines held against the fixed reference format, byte for byte.

use nes_core::cpu::CPU;
use nes_core::cpu::Mem;

#[test]
fn test_format_trace() {
    let mut cpu = CPU::new();
    cpu.mem_write(100, 0xa2);
    cpu.mem_write(101, 0x01);
    cpu.mem_write(102, 0xca);
    cpu.mem_write(103, 0x88);
    cpu.mem_write(104, 0x00);
    cpu.program_counter = 0x64;
    cpu.register_a = 1;
    cpu.register_x = 2;
    cpu.register_y = 3;
    let (result, outcome) = cpu.run_with_trace();
    assert!(outcome.is_ok());
    assert_eq!(
        "0064  A2 01     LDX #$01                        A:01 X:02 Y:03 P:24 SP:FD",
        result[0]
    );
    assert_eq!(
        "0066  CA        DEX                             A:01 X:01 Y:03 P:24 SP:FD",
        result[1]
    );
    assert_eq!(
        "0067  88        DEY                             A:01 X:00 Y:03 P:26 SP:FD",
        result[2]
    );
}

#[test]
fn test_format_mem_access() {
    let mut cpu = CPU::new();
    cpu.mem_write(100, 0x11);
    cpu.mem_write(101, 0x33);
    cpu.mem_write(0x33, 0x00);
    cpu.mem_write(0x34, 0x04);
    cpu.mem_write(0x400, 0xaa);
    cpu.program_counter = 0x64;
    cpu.register_y = 0;
    let (result, outcome) = cpu.run_with_trace();
    assert!(outcome.is_ok());
    assert_eq!(
        "0064  11 33     ORA ($33),Y = 0400 @ 0400 = AA  A:00 X:00 Y:00 P:24 SP:FD",
        result[0]
    );
}

#[test]
fn trace_accumulator_operand() {
    let mut cpu = CPU::new();
    cpu.mem_write(0x64, 0x0a);
    cpu.program_counter = 0x64;
    let (result, _) = cpu.run_with_trace();
    assert_eq!("0064  0A        ASL A                           A:00 X:00 Y:00 P:24 SP:FD", result[0]);
}

#[test]
fn trace_absolute_operand() {
    let mut cpu = CPU::new();
    cpu.mem_write(0x64, 0xad);
    cpu.mem_write(0x65, 0x05);
    cpu.mem_write(0x66, 0x03);
    cpu.program_counter = 0x64;
    let (result, _) = cpu.run_with_trace();
    assert_eq!("0064  AD 05 03  LDA $0305 = 00                  A:00 X:00 Y:00 P:24 SP:FD", result[0]);
}

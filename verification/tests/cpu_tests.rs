//! The interpreter run end to end on small programs: the concrete scenarios
//! for loads, transfers, arithmetic, shifts, branches, the stack round
//! trips, the indirect-jump page defect, and the decode error.

use nes_core::cpu::CPU;
use nes_core::cpu::Mem;

#[test]
fn test_0xa9_lda_immediate_load_data() {
    let mut cpu = CPU::new();
    cpu.load_and_run(vec![0xa9, 0x05, 0x00]).unwrap();
    assert_eq!(cpu.register_a, 5);
    assert!(cpu.status.bits() & 0b0000_0010 == 0b00);
    assert!(cpu.status.bits() & 0b1000_0000 == 0);
}

#[test]
fn test_0xaa_tax_move_a_to_x() {
    let mut cpu = CPU::new();
    cpu.load(vec![0xaa, 0x00]);
    cpu.reset();
    cpu.register_a = 10;
    cpu.run().unwrap();
    assert_eq!(cpu.register_x, 10)
}

#[test]
fn test_5_ops_working_together() {
    let mut cpu = CPU::new();
    cpu.load_and_run(vec![0xa9, 0xc0, 0xaa, 0xe8, 0x00]).unwrap();
    assert_eq!(cpu.register_x, 0xc1)
}

#[test]
fn test_inx_overflow() {
    let mut cpu = CPU::new();
    cpu.load(vec![0xe8, 0xe8, 0x00]);
    cpu.reset();
    cpu.register_x = 0xff;
    cpu.run().unwrap();
    assert_eq!(cpu.register_x, 1)
}

#[test]
fn test_lda_from_memory() {
    let mut cpu = CPU::new();
    cpu.mem_write(0x10, 0x55);
    cpu.load_and_run(vec![0xa5, 0x10, 0x00]).unwrap();
    assert_eq!(cpu.register_a, 0x55);
}

#[test]
fn lda_zero_sets_zero_flag() {
    let mut cpu = CPU::new();
    cpu.load_and_run(vec![0xa9, 0x00, 0x00]).unwrap();
    assert_eq!(cpu.register_a, 0x00);
    assert!(cpu.status.bits() & 0b0000_0010 != 0);
}

#[test]
fn unused_status_bit_stays_set() {
    let mut cpu = CPU::new();
    cpu.load_and_run(vec![0xa9, 0x80, 0x48, 0x28, 0x00]).unwrap();
    assert!(cpu.status.bits() & 0b0010_0000 != 0);
}

#[test]
fn step_advances_pc_by_instruction_length() {
    let mut cpu = CPU::new();
    cpu.load(vec![0xad, 0x05, 0x03, 0x00]);
    cpu.reset();
    let pc = cpu.program_counter;
    assert_eq!(cpu.step(), Ok(true));
    assert_eq!(cpu.program_counter, pc.wrapping_add(3));
}

#[test]
fn adc_sets_overflow_and_negative() {
    let mut cpu = CPU::new();
    cpu.load_and_run(vec![0xa9, 0x50, 0x69, 0x50, 0x00]).unwrap();
    assert_eq!(cpu.register_a, 0xa0);
    assert!(cpu.status.bits() & 0b0100_0000 != 0);
    assert!(cpu.status.bits() & 0b0000_0001 == 0);
    assert!(cpu.status.bits() & 0b1000_0000 != 0);
}

#[test]
fn adc_carry_chain() {
    let mut cpu = CPU::new();
    cpu.load_and_run(vec![0xa9, 0xff, 0x69, 0x01, 0x00]).unwrap();
    assert_eq!(cpu.register_a, 0x00);
    assert!(cpu.status.bits() & 0b0000_0001 != 0);
    assert!(cpu.status.bits() & 0b0000_0010 != 0);
}

#[test]
fn sbc_with_carry_set() {
    let mut cpu = CPU::new();
    cpu.load_and_run(vec![0xa9, 0x50, 0x38, 0xe9, 0x10, 0x00]).unwrap();
    assert_eq!(cpu.register_a, 0x40);
    assert!(cpu.status.bits() & 0b0000_0001 != 0);
}

#[test]
fn cmp_equal_sets_zero_and_carry() {
    let mut cpu = CPU::new();
    cpu.load_and_run(vec![0xa9, 0x10, 0xc9, 0x10, 0x00]).unwrap();
    assert!(cpu.status.bits() & 0b0000_0010 != 0);
    assert!(cpu.status.bits() & 0b0000_0001 != 0);
}

#[test]
fn asl_accumulator_shifts_into_carry() {
    let mut cpu = CPU::new();
    cpu.load_and_run(vec![0xa9, 0x81, 0x0a, 0x00]).unwrap();
    assert_eq!(cpu.register_a, 0x02);
    assert!(cpu.status.bits() & 0b0000_0001 != 0);
}

#[test]
fn lsr_memory_operand() {
    let mut cpu = CPU::new();
    cpu.mem_write(0x10, 0x03);
    cpu.load_and_run(vec![0x46, 0x10, 0x00]).unwrap();
    assert_eq!(cpu.mem_read(0x10), 0x01);
    assert!(cpu.status.bits() & 0b0000_0001 != 0);
}

#[test]
fn rol_through_carry() {
    let mut cpu = CPU::new();
    cpu.load_and_run(vec![0x38, 0xa9, 0x40, 0x2a, 0x00]).unwrap();
    assert_eq!(cpu.register_a, 0x81);
    assert!(cpu.status.bits() & 0b0000_0001 == 0);
}

#[test]
fn ror_through_carry() {
    let mut cpu = CPU::new();
    cpu.load_and_run(vec![0x38, 0xa9, 0x02, 0x6a, 0x00]).unwrap();
    assert_eq!(cpu.register_a, 0x81);
    assert!(cpu.status.bits() & 0b0000_0001 == 0);
}

#[test]
fn inc_memory_wraps_to_zero() {
    let mut cpu = CPU::new();
    cpu.mem_write(0x10, 0xff);
    cpu.load_and_run(vec![0xe6, 0x10, 0x00]).unwrap();
    assert_eq!(cpu.mem_read(0x10), 0x00);
    assert!(cpu.status.bits() & 0b0000_0010 != 0);
}

#[test]
fn sta_absolute_stores() {
    let mut cpu = CPU::new();
    cpu.load_and_run(vec![0xa9, 0x42, 0x8d, 0x00, 0x02, 0x00]).unwrap();
    assert_eq!(cpu.mem_read(0x0200), 0x42);
}

#[test]
fn bit_sets_all_three_flags() {
    let mut cpu = CPU::new();
    cpu.mem_write(0x10, 0xc0);
    cpu.load_and_run(vec![0xa9, 0x0f, 0x24, 0x10, 0x00]).unwrap();
    assert!(cpu.status.bits() & 0b0000_0010 != 0);
    assert!(cpu.status.bits() & 0b1000_0000 != 0);
    assert!(cpu.status.bits() & 0b0100_0000 != 0);
    assert_eq!(cpu.register_a, 0x0f);
}

#[test]
fn branch_taken_skips_load() {
    let mut cpu = CPU::new();
    cpu.load_and_run(vec![0xa9, 0x01, 0xd0, 0x02, 0xa9, 0xff, 0x00]).unwrap();
    assert_eq!(cpu.register_a, 0x01);
}

#[test]
fn branch_backwards_counts_down() {
    let mut cpu = CPU::new();
    cpu.load_and_run(vec![0xa2, 0x03, 0xca, 0xd0, 0xfd, 0x00]).unwrap();
    assert_eq!(cpu.register_x, 0x00);
    assert!(cpu.status.bits() & 0b0000_0010 != 0);
}

#[test]
fn jsr_rts_returns_past_the_call() {
    let mut cpu = CPU::new();
    cpu.load_and_run(vec![0x20, 0x05, 0x80, 0x00, 0x00, 0x60]).unwrap();
    assert_eq!(cpu.program_counter, 0x8004);
    assert_eq!(cpu.stack_pointer, 0xfd);
}

#[test]
fn php_plp_restores_flags() {
    let mut cpu = CPU::new();
    cpu.load_and_run(vec![0x38, 0x08, 0x18, 0x28, 0x00]).unwrap();
    assert!(cpu.status.bits() & 0b0000_0001 != 0);
    assert!(cpu.status.bits() & 0b0010_0000 != 0);
    assert!(cpu.status.bits() & 0b0001_0000 == 0);
}

#[test]
fn pha_pla_round_trips_accumulator() {
    let mut cpu = CPU::new();
    cpu.load_and_run(vec![0xa9, 0x7b, 0x48, 0xa9, 0x00, 0x68, 0x00]).unwrap();
    assert_eq!(cpu.register_a, 0x7b);
}

#[test]
fn stack_pointer_wraps_through_zero() {
    let mut cpu = CPU::new();
    cpu.load_and_run(vec![0xa2, 0x00, 0x9a, 0xa9, 0x11, 0x48, 0x48, 0x00]).unwrap();
    assert_eq!(cpu.stack_pointer, 0xfe);
    assert_eq!(cpu.mem_read(0x0100), 0x11);
    assert_eq!(cpu.mem_read(0x01ff), 0x11);
}

#[test]
fn jmp_indirect_page_boundary_defect() {
    let mut cpu = CPU::new();
    cpu.load(vec![0x6c, 0xff, 0x30]);
    cpu.reset();
    cpu.mem_write(0x30ff, 0x40);
    cpu.mem_write(0x3000, 0x80);
    cpu.mem_write(0x3100, 0x50);
    assert_eq!(cpu.step(), Ok(true));
    assert_eq!(cpu.program_counter, 0x8040);
}

#[test]
fn indirect_x_wraps_in_zero_page() {
    let mut cpu = CPU::new();
    cpu.mem_write(0x00ff, 0x34);
    cpu.mem_write(0x0000, 0x12);
    cpu.mem_write(0x1234, 0x99);
    cpu.load_and_run(vec![0xa1, 0xff, 0x00]).unwrap();
    assert_eq!(cpu.register_a, 0x99);
}

#[test]
fn zero_page_x_wraps() {
    let mut cpu = CPU::new();
    cpu.mem_write(0x05, 0x66);
    cpu.load_and_run(vec![0xa2, 0x10, 0xb5, 0xf5, 0x00]).unwrap();
    assert_eq!(cpu.register_a, 0x66);
}

#[test]
fn indirect_x_preindexes_pointer() {
    let mut cpu = CPU::new();
    cpu.mem_write(0x24, 0x00);
    cpu.mem_write(0x25, 0x02);
    cpu.mem_write(0x0200, 0x5a);
    cpu.load_and_run(vec![0xa2, 0x04, 0xa1, 0x20, 0x00]).unwrap();
    assert_eq!(cpu.register_a, 0x5a);
}

#[test]
fn transfers_set_flags_from_destination() {
    let mut cpu = CPU::new();
    cpu.load_and_run(vec![0xa9, 0x80, 0xa8, 0x00]).unwrap();
    assert_eq!(cpu.register_y, 0x80);
    assert!(cpu.status.bits() & 0b1000_0000 != 0);
}

#[test]
fn cycles_count_base_costs() {
    let mut cpu = CPU::new();
    cpu.load_and_run(vec![0xa9, 0x05, 0x00]).unwrap();
    assert_eq!(cpu.cycles, 9);
}

#[test]
fn cycles_add_page_cross_penalty() {
    let mut cpu = CPU::new();
    cpu.mem_write(0x0100, 0x77);
    cpu.load_and_run(vec![0xa2, 0x01, 0xbd, 0xff, 0x00, 0x00]).unwrap();
    assert_eq!(cpu.register_a, 0x77);
    assert_eq!(cpu.cycles, 2 + 5 + 7);
}

#[test]
fn illegal_opcode_is_a_decode_error() {
    let mut cpu = CPU::new();
    let r = cpu.load_and_run(vec![0x02]);
    match r {
        Ok(_) => panic!("an illegal opcode must not run"),
        Err(e) => {
            assert_eq!(e.pc, 0x8000);
            assert_eq!(e.opcode, 0x02);
        }
    }
}

#[test]
fn rti_restores_status_and_pc() {
    let mut cpu = CPU::new();
    cpu.load(vec![0x40, 0x00]);
    cpu.reset();
    cpu.stack_pointer = 0xfa;
    cpu.mem_write(0x01fb, 0x81);
    cpu.mem_write(0x01fc, 0x03);
    cpu.mem_write(0x01fd, 0x80);
    cpu.run().unwrap();
    assert_eq!(cpu.status.bits(), 0xa1);
    assert_eq!(cpu.program_counter, 0x8004);
    assert_eq!(cpu.stack_pointer, 0xfd);
}

#[test]
fn stx_and_sty_store_without_flags() {
    let mut cpu = CPU::new();
    cpu.load_and_run(vec![0xa2, 0x21, 0xa0, 0x99, 0x86, 0x15, 0x84, 0x16, 0x00]).unwrap();
    assert_eq!(cpu.mem_read(0x15), 0x21);
    assert_eq!(cpu.mem_read(0x16), 0x99);
}

#[test]
fn logic_chain_and_ora_eor() {
    let mut cpu = CPU::new();
    cpu.load_and_run(vec![0xa9, 0x0c, 0x29, 0x0a, 0x09, 0x03, 0x49, 0xff, 0x00]).unwrap();
    assert_eq!(cpu.register_a, 0xf4);
    assert!(cpu.status.bits() & 0b1000_0000 != 0);
}

#[test]
fn dec_memory_and_compare_x() {
    let mut cpu = CPU::new();
    cpu.mem_write(0x20, 0x05);
    cpu.load_and_run(vec![0xc6, 0x20, 0xa2, 0x05, 0xe0, 0x03, 0x00]).unwrap();
    assert_eq!(cpu.mem_read(0x20), 0x04);
    assert!(cpu.status.bits() & 0b0000_0001 != 0);
    assert!(cpu.status.bits() & 0b0000_0010 == 0);
}

#[test]
fn tsx_reads_stack_pointer() {
    let mut cpu = CPU::new();
    cpu.load_and_run(vec![0xba, 0x00]).unwrap();
    assert_eq!(cpu.register_x, 0xfd);
    assert!(cpu.status.bits() & 0b1000_0000 != 0);
}

#[test]
fn indirect_y_postindexes_pointer() {
    let mut cpu = CPU::new();
    cpu.mem_write(0x33, 0x00);
    cpu.mem_write(0x34, 0x04);
    cpu.mem_write(0x0401, 0x5f);
    cpu.load_and_run(vec![0xa0, 0x01, 0xb1, 0x33, 0x00]).unwrap();
    assert_eq!(cpu.register_a, 0x5f);
}

#[test]
fn memory_reaches_the_top_byte() {
    let mut cpu = CPU::new();
    cpu.mem_write(0xffff, 0x07);
    assert_eq!(cpu.mem_read(0xffff), 0x07);
    assert_eq!(cpu.mem_read_u16(0xffff), (cpu.mem_read(0x0000) as u16) * 0x100 + 0x07);
}

#[test]
fn branch_taken_costs_one_extra_cycle() {
    let mut cpu = CPU::new();
    cpu.load_and_run(vec![0xa9, 0x01, 0xd0, 0x00, 0x00]).unwrap();
    assert_eq!(cpu.cycles, 2 + 3 + 7);
}

#[test]
fn branch_to_other_page_costs_two_extra_cycles() {
    let mut cpu = CPU::new();
    cpu.load_and_run(vec![0xd0, 0xfd]).unwrap();
    assert_eq!(cpu.program_counter, 0x8000);
    assert_eq!(cpu.cycles, 4 + 7);
}

#[test]
fn flag_instructions_drive_their_bits() {
    let mut cpu = CPU::new();
    cpu.load_and_run(vec![0x38, 0xf8, 0x78, 0x00]).unwrap();
    assert_eq!(cpu.status.bits() & 0b0000_1101, 0b0000_1101);
    let mut cpu2 = CPU::new();
    cpu2.load_and_run(vec![0x38, 0xf8, 0x18, 0xd8, 0x58, 0x00]).unwrap();
    assert_eq!(cpu2.status.bits() & 0b0000_1101, 0);
}

//! The packed status register's operations.

use nes_core::flags::CpuFlags;
use nes_core::flags::{BREAK2, CARRY, NEGATIV, ZERO};

#[test]
fn insert_remove_contains() {
    let mut p = CpuFlags::from_bits_truncate(0b0010_0100);
    assert!(!p.contains(CARRY));
    p.insert(CARRY);
    assert!(p.contains(CARRY));
    assert_eq!(p.bits(), 0b0010_0101);
    p.remove(CARRY);
    assert!(!p.contains(CARRY));
    assert_eq!(p.bits(), 0b0010_0100);
}

#[test]
fn set_drives_both_ways() {
    let mut p = CpuFlags::from_bits_truncate(0);
    p.set(ZERO, true);
    p.set(NEGATIV, true);
    assert_eq!(p.bits(), 0b1000_0010);
    p.set(ZERO, false);
    assert_eq!(p.bits(), 0b1000_0000);
}

#[test]
fn from_bits_truncate_keeps_all_defined_bits() {
    let p = CpuFlags::from_bits_truncate(0xff);
    assert_eq!(p.bits(), 0xff);
    assert!(p.contains(BREAK2));
}

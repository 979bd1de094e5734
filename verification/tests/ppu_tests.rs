//! The picture-processing unit's register file and data port.

use nes_core::cartridge::Mirroring;
use nes_core::nes_ppu::NesPPU;

fn chr(n: usize) -> Vec<u8> {
    let mut v = Vec::new();
    for i in 0..n {
        v.push((i % 256) as u8);
    }
    v
}

#[test]
fn data_port_reads_are_buffered() {
    let mut ppu = NesPPU::new(chr(0x2000), Mirroring::VERTICAL);
    ppu.write_to_ppu_addr(0x00);
    ppu.write_to_ppu_addr(0x05);
    let first = ppu.read_data();
    let second = ppu.read_data();
    assert_eq!(first, 0x00);
    assert_eq!(second, 0x05);
}

#[test]
fn vram_write_then_read_round_trips() {
    let mut ppu = NesPPU::new(chr(0x2000), Mirroring::VERTICAL);
    ppu.write_to_ppu_addr(0x23);
    ppu.write_to_ppu_addr(0x05);
    ppu.write_to_data(0x66);
    ppu.write_to_ppu_addr(0x23);
    ppu.write_to_ppu_addr(0x05);
    let _ = ppu.read_data();
    let value = ppu.read_data();
    assert_eq!(value, 0x66);
}

#[test]
fn horizontal_mirroring_joins_left_nametables() {
    let mut ppu = NesPPU::new(chr(0x2000), Mirroring::HORIZONTAL);
    ppu.write_to_ppu_addr(0x24);
    ppu.write_to_ppu_addr(0x05);
    ppu.write_to_data(0x77);
    ppu.write_to_ppu_addr(0x20);
    ppu.write_to_ppu_addr(0x05);
    let _ = ppu.read_data();
    let value = ppu.read_data();
    assert_eq!(value, 0x77);
}

#[test]
fn vertical_mirroring_joins_stacked_nametables() {
    let mut ppu = NesPPU::new(chr(0x2000), Mirroring::VERTICAL);
    ppu.write_to_ppu_addr(0x28);
    ppu.write_to_ppu_addr(0x05);
    ppu.write_to_data(0x55);
    ppu.write_to_ppu_addr(0x20);
    ppu.write_to_ppu_addr(0x05);
    let _ = ppu.read_data();
    let value = ppu.read_data();
    assert_eq!(value, 0x55);
}

#[test]
fn tick_latches_nmi_at_scanline_241() {
    let mut ppu = NesPPU::new(chr(0x2000), Mirroring::VERTICAL);
    ppu.write_to_ctrl(0x80);
    for _ in 0..241 {
        ppu.tick(171);
        ppu.tick(171);
    }
    assert_eq!(ppu.scanline, 241);
    assert!(ppu.poll_nmi_interrupt().is_some());
    assert!(ppu.poll_nmi_interrupt().is_none());
}

#[test]
fn read_status_closes_vblank_and_resets_latch() {
    let mut ppu = NesPPU::new(chr(0x2000), Mirroring::VERTICAL);
    ppu.write_to_ctrl(0x80);
    for _ in 0..241 {
        ppu.tick(171);
        ppu.tick(171);
    }
    let first = ppu.read_status();
    assert!(first & 0x80 != 0);
    let second = ppu.read_status();
    assert!(second & 0x80 == 0);
    ppu.write_to_ppu_addr(0x23);
    ppu.write_to_ppu_addr(0x05);
    assert_eq!(ppu.addr.get(), 0x2305);
}

#[test]
fn ctrl_rising_nmi_inside_vblank_latches() {
    let mut ppu = NesPPU::new(chr(0x2000), Mirroring::VERTICAL);
    ppu.status.set_vblank_status(true);
    ppu.write_to_ctrl(0x00);
    assert!(ppu.poll_nmi_interrupt().is_none());
    ppu.write_to_ctrl(0x80);
    assert!(ppu.poll_nmi_interrupt().is_some());
}

#[test]
fn oam_port_steps_on_writes() {
    let mut ppu = NesPPU::new(chr(0x2000), Mirroring::VERTICAL);
    ppu.write_to_oam_addr(0x10);
    ppu.write_to_oam_data(0xab);
    ppu.write_to_oam_data(0xcd);
    ppu.write_to_oam_addr(0x10);
    assert_eq!(ppu.read_oam_data(), 0xab);
    ppu.write_to_oam_addr(0x11);
    assert_eq!(ppu.read_oam_data(), 0xcd);
}

#[test]
fn palette_mirror_cells_fold_back() {
    let mut ppu = NesPPU::new(chr(0x2000), Mirroring::VERTICAL);
    ppu.write_to_ppu_addr(0x3f);
    ppu.write_to_ppu_addr(0x10);
    ppu.write_to_data(0x31);
    ppu.write_to_ppu_addr(0x3f);
    ppu.write_to_ppu_addr(0x00);
    let value = ppu.read_data();
    assert_eq!(value, 0x31);
}

#[test]
fn scroll_latch_takes_x_then_y() {
    let mut ppu = NesPPU::new(chr(0x2000), Mirroring::VERTICAL);
    ppu.write_to_scroll(0x15);
    ppu.write_to_scroll(0x27);
    assert_eq!(ppu.scroll.scroll_x, 0x15);
    assert_eq!(ppu.scroll.scroll_y, 0x27);
}

//! Instruction-level emulation core for the 8-bit MOS 6502 microprocessor as
//! used in the Nintendo Entertainment System: the packed processor-status
//! register, the legal-opcode decode table, the effective-address resolver for
//! the eleven addressing modes, the downward-growing stack in page one, and
//! the fetch-decode-execute interpreter, together with the iNES cartridge
//! header reader and the picture-processing-unit register file that surround
//! the processor.

pub mod cartridge;
pub mod cpu;
pub mod flags;
pub mod laws;
pub mod nes_ppu;
pub mod opcodes;
pub mod ppu_registers;
pub mod trace;

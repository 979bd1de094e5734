//! The iNES cartridge image reader: the 16-byte header with its magic tag,
//! page counts, mapper number, mirroring arrangement and optional 512-byte
//! trainer, followed by the PRG and CHR banks.

use vstd::prelude::*;
use vstd::string::StringExecFns;

use crate::cpu::CPU;

verus! {

/// Size of one PRG-ROM page.
pub const PRG_ROM_PAGE_SIZE: usize = 16384;

/// Size of one CHR-ROM page.
pub const CHR_ROM_PAGE_SIZE: usize = 8192;

/// Nametable mirroring arrangement wired on the cartridge.
#[allow(non_camel_case_types)]
#[derive(Clone, Copy, Debug, PartialEq, Eq, Structural)]
pub enum Mirroring {
    VERTICAL,
    HORIZONTAL,
    FOUR_SCREEN,
}

/// A parsed cartridge: the two ROM banks and the header facts the rest of
/// the machine needs.
pub struct Rom {
    pub prg_rom: Vec<u8>,
    pub chr_rom: Vec<u8>,
    pub mapper: u8,
    pub screen_mirroring: Mirroring,
}

/// The image begins with the iNES magic tag.
pub open spec fn ines_tag_ok(raw: Seq<u8>) -> bool {
    &&& raw.len() >= 16
    &&& raw[0] == 0x4e
    &&& raw[1] == 0x45
    &&& raw[2] == 0x53
    &&& raw[3] == 0x1a
}

/// The header's format version: zero for iNES 1.0.
pub open spec fn ines_version(raw: Seq<u8>) -> u8 {
    (raw[7] >> 2) & 0b11
}

/// The mapper number: high nibble from byte 7, low nibble from byte 6.
pub open spec fn mapper_of(raw: Seq<u8>) -> u8 {
    (raw[7] & 0xf0) | (raw[6] >> 4)
}

/// The mirroring arrangement: four-screen overrides the vertical bit.
pub open spec fn mirroring_of(raw: Seq<u8>) -> Mirroring {
    if raw[6] & 0b1000 != 0 {
        Mirroring::FOUR_SCREEN
    } else if raw[6] & 0b1 != 0 {
        Mirroring::VERTICAL
    } else {
        Mirroring::HORIZONTAL
    }
}

/// Bytes of PRG ROM: byte 4 counts 16 KiB pages.
pub open spec fn prg_size_of(raw: Seq<u8>) -> int {
    raw[4] * 0x4000
}

/// Bytes of CHR ROM: byte 5 counts 8 KiB pages.
pub open spec fn chr_size_of(raw: Seq<u8>) -> int {
    raw[5] * 0x2000
}

/// Where PRG ROM starts: after the header and, when byte 6 announces one,
/// a 512-byte trainer.
pub open spec fn prg_start_of(raw: Seq<u8>) -> int {
    16 + (if raw[6] & 0b100 != 0 {
        512int
    } else {
        0int
    })
}

/// The image is long enough to hold the banks its header announces.
pub open spec fn ines_complete(raw: Seq<u8>) -> bool {
    raw.len() >= prg_start_of(raw) + prg_size_of(raw) + chr_size_of(raw)
}

/// A copy of `src[start .. start + len]`.
fn copy_range(src: &Vec<u8>, start: usize, len: usize) -> (r: Vec<u8>)
    requires
        start + len <= src@.len(),
    ensures
        r@ == src@.subrange(start as int, start as int + len as int),
{
    let n = src.len();
    let mut r: Vec<u8> = Vec::new();
    let mut i: usize = 0;
    while i < len
        invariant
            i <= len,
            n == src@.len(),
            start + len <= n,
            r@ =~= src@.subrange(start as int, start as int + i as int),
        decreases len - i,
    {
        let b = src[start + i];
        r.push(b);
        proof {
            assert(r@ =~= src@.subrange(start as int, start as int + i as int + 1));
        }
        i = i + 1;
    }
    r
}

impl Rom {
    /// Parse an iNES image.  The two errors are exact: the tag message when
    /// the magic bytes are wrong, the version message when the header
    /// announces a later format.  On success the banks are the exact byte
    /// ranges the header lays out, and the mapper and mirroring come from
    /// the header bits.  An image shorter than its header announces is not
    /// handled; the caller keeps such a file out.
    pub fn new(raw: &Vec<u8>) -> (r: Result<Rom, String>)
        requires
            raw@.len() >= 16,
            ines_tag_ok(raw@) && ines_version(raw@) == 0 ==> ines_complete(raw@),
        ensures
            (match r {
                Result::Ok(rom) => {
                    &&& ines_tag_ok(raw@)
                    &&& ines_version(raw@) == 0
                    &&& rom.mapper == mapper_of(raw@)
                    &&& rom.screen_mirroring == mirroring_of(raw@)
                    &&& rom.prg_rom@ == raw@.subrange(
                        prg_start_of(raw@),
                        prg_start_of(raw@) + prg_size_of(raw@),
                    )
                    &&& rom.chr_rom@ == raw@.subrange(
                        prg_start_of(raw@) + prg_size_of(raw@),
                        prg_start_of(raw@) + prg_size_of(raw@) + chr_size_of(raw@),
                    )
                },
                Result::Err(msg) => {
                    &&& !(ines_tag_ok(raw@) && ines_version(raw@) == 0)
                    &&& (if !ines_tag_ok(raw@) {
                        msg@ == "File is not in iNES file format"@
                    } else {
                        msg@ == "NES2.0 format is not supported"@
                    })
                },
            }),
    {
        if !(raw[0] == 0x4e && raw[1] == 0x45 && raw[2] == 0x53 && raw[3] == 0x1a) {
            return Result::Err(String::from_str("File is not in iNES file format"));
        }
        let mapper = (raw[7] & 0xf0) | (raw[6] >> 4);
        let ines_ver = (raw[7] >> 2) & 0b11;
        if ines_ver != 0 {
            return Result::Err(String::from_str("NES2.0 format is not supported"));
        }
        let four_screen = raw[6] & 0b1000 != 0;
        let vertical_mirroring = raw[6] & 0b1 != 0;
        let screen_mirroring = if four_screen {
            Mirroring::FOUR_SCREEN
        } else if vertical_mirroring {
            Mirroring::VERTICAL
        } else {
            Mirroring::HORIZONTAL
        };
        let prg_rom_size = raw[4] as usize * PRG_ROM_PAGE_SIZE;
        let chr_rom_size = raw[5] as usize * CHR_ROM_PAGE_SIZE;
        let skip_trainer = raw[6] & 0b100 != 0;
        let prg_rom_start: usize = 16 + (if skip_trainer {
            512
        } else {
            0
        });
        let chr_rom_start = prg_rom_start + prg_rom_size;
        Result::Ok(
            Rom {
                prg_rom: copy_range(raw, prg_rom_start, prg_rom_size),
                chr_rom: copy_range(raw, chr_rom_start, chr_rom_size),
                mapper,
                screen_mirroring,
            },
        )
    }
}

impl CPU {
    /// Copy a cartridge's first PRG page to `0x8000`, the load address the
    /// interpreter's programs use.
    pub fn load_rom_page(&mut self, rom: &Rom)
        requires
            old(self).wf(),
            rom.prg_rom@.len() <= 0x8000,
        ensures
            final(self).wf(),
            final(self).mem() == crate::cpu::spec_load(old(self).mem(), rom.prg_rom@),
            crate::cpu::same_regs(*old(self), *final(self)),
    {
        let page = copy_range(&rom.prg_rom, 0, rom.prg_rom.len());
        self.load(page);
    }
}

} // verus!

//! iNES (version 1) cartridges: the parsed ROM image the bus is built from.
//!
//! A cartridge image is a 16-byte header beginning with the magic
//! `N E S 0x1A`, optionally a 512-byte trainer, then 16 KiB times `header[4]`
//! of PRG ROM and 8 KiB times `header[5]` of CHR ROM. Only mapper 0 is
//! supported, which fixes the PRG ROM at 16 KiB or 32 KiB.

use vstd::prelude::*;

verus! {

/// Nametable arrangement requested by the cartridge.
#[derive(Clone, Copy, PartialEq, Eq, Structural)]
pub enum Mirroring {
    Vertical,
    Horizontal,
    FourScreen,
}

/// Why an image was rejected, each with the exact condition that raises it.
#[derive(Clone, Copy, PartialEq, Eq, Structural, Debug)]
pub enum RomError {
    /// The image is shorter than the 16-byte header.
    TooShort,
    /// The first four bytes are not the iNES magic.
    BadMagic,
    /// Header flags announce the iNES 2.0 layout.
    UnsupportedVersion,
    /// The mapper id is not 0.
    UnsupportedMapper,
    /// Mapper 0 carries one or two PRG banks; the header says otherwise.
    BadPrgSize,
    /// The image ends before the announced PRG and CHR data does.
    Truncated,
}

pub struct Rom {
    pub prg_rom: Vec<u8>,
    pub chr_rom: Vec<u8>,
    pub mapper: u8,
    pub screen_mirroring: Mirroring,
}

/// A loaded mapper-0 cartridge: PRG is one or two 16 KiB banks.
pub open spec fn rom_wf(r: Rom) -> bool {
    r.prg_rom@.len() == 0x4000 || r.prg_rom@.len() == 0x8000
}

/// Header magic: 'N', 'E', 'S', 0x1A.
pub open spec fn magic_ok(raw: Seq<u8>) -> bool {
    raw[0] == 0x4e && raw[1] == 0x45 && raw[2] == 0x53 && raw[3] == 0x1a
}

/// Mapper id: high nibble of flags 7 joined with high nibble of flags 6.
pub open spec fn header_mapper(raw: Seq<u8>) -> u8 {
    (raw[7] & 0xf0) | (raw[6] >> 4)
}

/// The header announces iNES 2.0 when bits 2..4 of flags 7 read 2.
pub open spec fn header_version_2(raw: Seq<u8>) -> bool {
    (raw[7] >> 2) & 0x03 != 0
}

/// Where PRG data starts: after the header and, if flags 6 bit 2 is set,
/// after a 512-byte trainer.
pub open spec fn prg_start(raw: Seq<u8>) -> int {
    16 + if raw[6] & 0x04 != 0 { 512int } else { 0int }
}

pub open spec fn prg_size(raw: Seq<u8>) -> int {
    raw[4] * 0x4000
}

pub open spec fn chr_size(raw: Seq<u8>) -> int {
    raw[5] * 0x2000
}

/// Mirroring: flags 6 bit 3 selects four-screen, otherwise bit 0 picks
/// vertical over horizontal.
pub open spec fn header_mirroring(raw: Seq<u8>) -> Mirroring {
    if raw[6] & 0x08 != 0 {
        Mirroring::FourScreen
    } else if raw[6] & 0x01 != 0 {
        Mirroring::Vertical
    } else {
        Mirroring::Horizontal
    }
}

/// Every condition under which an image is accepted.
pub open spec fn rom_parse_ok(raw: Seq<u8>) -> bool {
    &&& raw.len() >= 16
    &&& magic_ok(raw)
    &&& !header_version_2(raw)
    &&& header_mapper(raw) == 0
    &&& (raw[4] == 1 || raw[4] == 2)
    &&& raw.len() >= prg_start(raw) + prg_size(raw) + chr_size(raw)
}

/// The error reported for a rejected image, checking the conditions in the
/// order the parser does.
pub open spec fn rom_parse_err(raw: Seq<u8>) -> RomError {
    if raw.len() < 16 {
        RomError::TooShort
    } else if !magic_ok(raw) {
        RomError::BadMagic
    } else if header_version_2(raw) {
        RomError::UnsupportedVersion
    } else if header_mapper(raw) != 0 {
        RomError::UnsupportedMapper
    } else if !(raw[4] == 1 || raw[4] == 2) {
        RomError::BadPrgSize
    } else {
        RomError::Truncated
    }
}

/// Copies `raw[start .. start + n]` into a fresh vector.
fn copy_range(raw: &Vec<u8>, start: usize, n: usize) -> (out: Vec<u8>)
    requires
        start + n <= raw@.len(),
    ensures
        out@ == raw@.subrange(start as int, start as int + n as int),
{
    let total: usize = raw.len();
    let mut out: Vec<u8> = Vec::new();
    let mut i: usize = 0;
    while i < n
        invariant
            i <= n,
            start + n <= total,
            total == raw@.len(),
            out@ == raw@.subrange(start as int, start as int + i as int),
        decreases n - i,
    {
        out.push(raw[start + i]);
        proof {
            assert(out@ =~= raw@.subrange(start as int, start as int + i as int + 1));
        }
        i = i + 1;
    }
    out
}

impl Rom {
    /// Parses an iNES image. Returns the cartridge exactly when
    /// `rom_parse_ok` holds of the bytes, and otherwise the error that
    /// `rom_parse_err` names.
    pub fn new(raw: &Vec<u8>) -> (result: Result<Rom, RomError>)
        ensures
            result is Ok <==> rom_parse_ok(raw@),
            result matches Ok(rom) ==> {
                &&& rom.prg_rom@ == raw@.subrange(prg_start(raw@), prg_start(raw@) + prg_size(raw@))
                &&& rom.chr_rom@ == raw@.subrange(
                    prg_start(raw@) + prg_size(raw@),
                    prg_start(raw@) + prg_size(raw@) + chr_size(raw@),
                )
                &&& rom.mapper == 0
                &&& rom.screen_mirroring == header_mirroring(raw@)
                &&& rom_wf(rom)
            },
            result matches Err(e) ==> e == rom_parse_err(raw@),
    {
        if raw.len() < 16 {
            return Err(RomError::TooShort);
        }
        if !(raw[0] == 0x4e && raw[1] == 0x45 && raw[2] == 0x53 && raw[3] == 0x1a) {
            return Err(RomError::BadMagic);
        }
        if (raw[7] >> 2) & 0x03 != 0 {
            return Err(RomError::UnsupportedVersion);
        }
        let mapper: u8 = (raw[7] & 0xf0) | (raw[6] >> 4);
        if mapper != 0 {
            return Err(RomError::UnsupportedMapper);
        }
        if !(raw[4] == 1 || raw[4] == 2) {
            return Err(RomError::BadPrgSize);
        }
        let prg_rom_size: usize = (raw[4] as usize) * 0x4000;
        let chr_rom_size: usize = (raw[5] as usize) * 0x2000;
        let prg_rom_start: usize = if raw[6] & 0x04 != 0 { 16 + 512 } else { 16 };
        let chr_rom_start: usize = prg_rom_start + prg_rom_size;
        if raw.len() < chr_rom_start + chr_rom_size {
            return Err(RomError::Truncated);
        }
        let screen_mirroring: Mirroring = if raw[6] & 0x08 != 0 {
            Mirroring::FourScreen
        } else if raw[6] & 0x01 != 0 {
            Mirroring::Vertical
        } else {
            Mirroring::Horizontal
        };
        let prg_rom: Vec<u8> = copy_range(raw, prg_rom_start, prg_rom_size);
        let chr_rom: Vec<u8> = copy_range(raw, chr_rom_start, chr_rom_size);
        Ok(Rom { prg_rom, chr_rom, mapper, screen_mirroring })
    }
}

} // verus!

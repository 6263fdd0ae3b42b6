use nes_core::cartridge::{Mirroring, Rom, RomError};

fn image(prg_banks: u8, chr_banks: u8, flags6: u8, flags7: u8) -> Vec<u8> {
    let mut raw: Vec<u8> = vec![0x4e, 0x45, 0x53, 0x1a, prg_banks, chr_banks, flags6, flags7];
    raw.resize(
        16 + (prg_banks as usize) * 0x4000 + (chr_banks as usize) * 0x2000,
        0,
    );
    raw
}

#[test]
fn test_parse_accepts_mapper_zero() {
    let rom = Rom::new(&image(2, 1, 0, 0)).unwrap();
    assert_eq!(rom.mapper, 0);
    assert_eq!(rom.prg_rom.len(), 0x8000);
    assert_eq!(rom.chr_rom.len(), 0x2000);
    assert!(matches!(rom.screen_mirroring, Mirroring::Horizontal));
}

#[test]
fn test_parse_single_bank() {
    let rom = Rom::new(&image(1, 0, 1, 0)).unwrap();
    assert_eq!(rom.prg_rom.len(), 0x4000);
    assert_eq!(rom.chr_rom.len(), 0);
    assert!(matches!(rom.screen_mirroring, Mirroring::Vertical));
}

#[test]
fn test_parse_four_screen() {
    let rom = Rom::new(&image(1, 1, 0b1000, 0)).unwrap();
    assert!(matches!(rom.screen_mirroring, Mirroring::FourScreen));
}

#[test]
fn test_parse_rejects_bad_magic() {
    let mut raw = image(1, 1, 0, 0);
    raw[0] = 0x4d;
    assert!(matches!(Rom::new(&raw), Err(RomError::BadMagic)));
}

#[test]
fn test_parse_rejects_short_header() {
    let raw: Vec<u8> = vec![0x4e, 0x45, 0x53];
    assert!(matches!(Rom::new(&raw), Err(RomError::TooShort)));
}

#[test]
fn test_parse_rejects_later_version() {
    let raw = image(1, 1, 0, 0b0000_1000);
    assert!(matches!(Rom::new(&raw), Err(RomError::UnsupportedVersion)));
}

#[test]
fn test_parse_rejects_other_mappers() {
    let raw = image(1, 1, 0b0001_0000, 0);
    assert!(matches!(Rom::new(&raw), Err(RomError::UnsupportedMapper)));
}

#[test]
fn test_parse_rejects_odd_prg_size() {
    let raw = image(3, 1, 0, 0);
    assert!(matches!(Rom::new(&raw), Err(RomError::BadPrgSize)));
}

#[test]
fn test_parse_rejects_truncated_image() {
    let mut raw = image(2, 1, 0, 0);
    raw.truncate(raw.len() - 1);
    assert!(matches!(Rom::new(&raw), Err(RomError::Truncated)));
}

#[test]
fn test_parse_skips_trainer() {
    let mut raw: Vec<u8> = vec![0x4e, 0x45, 0x53, 0x1a, 1, 0, 0b0000_0100, 0];
    raw.resize(16 + 512 + 0x4000, 0);
    raw[16 + 512] = 0x77; // first PRG byte, after the trainer
    let rom = Rom::new(&raw).unwrap();
    assert_eq!(rom.prg_rom[0], 0x77);
}

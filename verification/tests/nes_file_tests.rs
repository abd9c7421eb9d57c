use mos6502::nes_file::{
    ConsoleType, NametableLayout, NesFile, NesFileError, TimingMode,
};

/// A minimal header: one 16 KiB PRG unit, one 8 KiB CHR unit.
fn minimal_image() -> Vec<u8> {
    let mut data = vec![0u8; 16 + 16384 + 8192];
    data[0] = 0x4E; // 'N'
    data[1] = 0x45; // 'E'
    data[2] = 0x53; // 'S'
    data[3] = 0x1A;
    data[4] = 1; // PRG ROM size LSB
    data[5] = 1; // CHR ROM size LSB
    data
}

#[test]
fn parses_minimal_image() {
    let mut data = minimal_image();
    data[16] = 0xA9; // first PRG byte
    let f = NesFile::from_bytes(&data).unwrap();
    assert_eq!(f.prg_rom.len(), 16384);
    assert_eq!(f.chr_rom.len(), 8192);
    assert_eq!(f.prg_rom[0], 0xA9);
    assert_eq!(f.mapper.id, 0);
    assert_eq!(f.mapper.sub_id, 0);
    assert_eq!(f.timing, TimingMode::NTSC);
    assert_eq!(f.console_type, ConsoleType::NES);
    assert_eq!(f.nametable_layout, NametableLayout::Vertical);
    assert!(!f.nvram_present);
    assert!(f.trainer.is_none());
    assert!(f.misc_rom.is_empty());
    assert_eq!(f.prg_ram_size, 0);
}

#[test]
fn parses_packed_header_fields() {
    let mut data = minimal_image();
    data[6] = 0b1011_1111; // horizontal+alternate, nvram, trainer, mapper low 0xB
    data[7] = 0b1100_0001; // VsSystem base, mapper mid 0xC
    data[8] = 0x5A; // mapper high 0xA, submapper 5
    data[10] = 0x27; // prg ram 64<<7, prg nvram 64<<2
    data[12] = 0x01; // PAL
    data[13] = 0x42; // Vs PPU 2, hardware 4
    data[14] = 0x02;
    data[15] = 0x21;
    // make room for the 512-byte trainer
    data.splice(16..16, std::iter::repeat(0xEE).take(512));
    let f = NesFile::from_bytes(&data).unwrap();
    assert_eq!(f.nametable_layout, NametableLayout::AlternateHorizontal);
    assert!(f.nvram_present);
    assert_eq!(f.mapper.id, 0xACB);
    assert_eq!(f.mapper.sub_id, 5);
    assert_eq!(f.timing, TimingMode::PAL);
    assert_eq!(f.console_type, ConsoleType::VsSystem { ppu: 2, hardware: 4 });
    assert_eq!(f.misc_rom_count, 2);
    assert_eq!(f.default_expansion_device, 0x21);
    assert_eq!(f.prg_ram_size, 64 << 7);
    assert_eq!(f.prg_nvram_size, 64 << 2);
    let trainer = f.trainer.expect("trainer present");
    assert_eq!(trainer.len(), 512);
    assert!(trainer.iter().all(|&b| b == 0xEE));
}

#[test]
fn misc_rom_is_the_remainder() {
    let mut data = minimal_image();
    data.extend_from_slice(&[1, 2, 3]);
    let f = NesFile::from_bytes(&data).unwrap();
    assert_eq!(f.misc_rom, vec![1, 2, 3]);
}

#[test]
fn short_header_is_truncated() {
    assert!(matches!(NesFile::from_bytes(&[0x4E, 0x45]), Err(NesFileError::Truncated)));
}

#[test]
fn missing_segment_is_truncated() {
    let mut data = minimal_image();
    data.truncate(16 + 1000);
    assert!(matches!(NesFile::from_bytes(&data), Err(NesFileError::Truncated)));
}

#[test]
fn bad_magic_is_rejected() {
    let mut data = minimal_image();
    data[3] = 0x00;
    assert!(matches!(NesFile::from_bytes(&data), Err(NesFileError::InvalidMagic)));
}

#[test]
fn bad_extended_console_type_is_rejected() {
    let mut data = minimal_image();
    data[7] = 0x03; // extended console base
    data[13] = 0x0D; // no such extended code
    assert!(matches!(
        NesFile::from_bytes(&data),
        Err(NesFileError::InvalidConsoleExtended(0x0D))
    ));
}

#[test]
fn oversized_exponent_rom_is_rejected() {
    let mut data = minimal_image();
    data[9] = 0x0F; // PRG size in exponent form
    data[4] = 0xFC; // exponent 63
    assert!(matches!(NesFile::from_bytes(&data), Err(NesFileError::RomSizeTooLarge)));
}

#[test]
fn exponent_form_rom_size() {
    // exponent 10, multiplier 1: (1*2+1) << 10 = 3072 bytes of PRG
    let mut data = vec![0u8; 16 + 3072];
    data[0] = 0x4E;
    data[1] = 0x45;
    data[2] = 0x53;
    data[3] = 0x1A;
    data[4] = (10 << 2) | 1;
    data[9] = 0x0F;
    let f = NesFile::from_bytes(&data).unwrap();
    assert_eq!(f.prg_rom.len(), 3072);
    assert_eq!(f.chr_rom.len(), 0);
}

#[test]
fn timing_mode_codes() {
    assert_eq!(TimingMode::from_u8(0), Ok(TimingMode::NTSC));
    assert_eq!(TimingMode::from_u8(1), Ok(TimingMode::PAL));
    assert_eq!(TimingMode::from_u8(2), Ok(TimingMode::MultiRegion));
    assert_eq!(TimingMode::from_u8(3), Ok(TimingMode::Dendy));
    assert_eq!(TimingMode::from_u8(4), Err(NesFileError::InvalidTimingMode(4)));
}

#[test]
fn console_type_codes() {
    assert_eq!(ConsoleType::from_flags(0, 0), Ok(ConsoleType::NES));
    assert_eq!(ConsoleType::from_flags(2, 0), Ok(ConsoleType::Playchoice));
    assert_eq!(ConsoleType::from_flags(3, 0x03), Ok(ConsoleType::FamicloneDecimal));
    assert_eq!(ConsoleType::from_flags(3, 0x0C), Ok(ConsoleType::FamicomNetworkSystem));
    assert_eq!(
        ConsoleType::from_flags(3, 0x0F),
        Err(NesFileError::InvalidConsoleExtended(0x0F))
    );
    assert_eq!(ConsoleType::from_flags(7, 0), Err(NesFileError::InvalidConsoleBase(7)));
}

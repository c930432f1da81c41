use nintendrust::cartridge::CartridgeInfo;
use nintendrust::cartridge::Mirroring as HeaderMirroring;
use nintendrust::rom::LoadError;
use nintendrust::rom::Mirroring;
use nintendrust::rom::Rom;

fn image(prg_banks: u8, chr_banks: u8, flags_6: u8, flags_7: u8) -> Vec<u8> {
    let mut bytes = vec![
        0x4E, 0x45, 0x53, 0x1A, prg_banks, chr_banks, flags_6, flags_7, 0, 0, 0, 0, 0, 0, 0, 0,
    ];
    bytes.extend(std::iter::repeat(0u8).take(prg_banks as usize * 16384));
    bytes.extend(std::iter::repeat(0u8).take(chr_banks as usize * 8192));
    bytes
}

#[test]
fn short_buffer_is_rejected() {
    let r = Rom::new(&vec![0x4E, 0x45, 0x53, 0x1A, 1, 0]);
    assert!(matches!(r, Err(LoadError::TooShort)));
}

#[test]
fn empty_buffer_is_rejected() {
    let r = Rom::new(&Vec::new());
    assert!(matches!(r, Err(LoadError::TooShort)));
}

#[test]
fn wrong_magic_is_rejected() {
    let mut bytes = image(1, 0, 0, 0);
    bytes[3] = 0x00;
    assert!(matches!(Rom::new(&bytes), Err(LoadError::BadMagic)));
}

#[test]
fn truncated_banks_are_rejected() {
    let mut bytes = image(2, 1, 0, 0);
    bytes.truncate(16 + 16384);
    assert!(matches!(Rom::new(&bytes), Err(LoadError::Truncated)));
}

#[test]
fn nonzero_mapper_is_rejected() {
    // Mapper id 4: high nibble of byte 6 is 4, high nibble of byte 7 is 0.
    let bytes = image(1, 0, 0x40, 0);
    assert!(matches!(Rom::new(&bytes), Err(LoadError::UnsupportedMapper(4))));
}

#[test]
fn four_screen_mirroring_is_rejected() {
    let bytes = image(1, 0, 0x08, 0);
    assert!(matches!(Rom::new(&bytes), Err(LoadError::UnsupportedMirroring)));
}

#[test]
fn one_program_bank_no_pattern_banks() {
    let bytes = image(1, 0, 0, 0);
    let rom = Rom::new(&bytes).unwrap();
    assert_eq!(rom.prg_rom.len(), 16384);
    assert_eq!(rom.chr_rom.len(), 0);
    assert_eq!(rom.mapper, 0);
    assert!(matches!(rom.screen_mirroring, Mirroring::Horizontal));
    // An image without pattern banks gets RAM-backed pattern memory.
    assert_eq!(rom.cartridge_info.chr_ram_size, 8192);
    let bus = nintendrust::bus::Bus::new(rom);
    assert!(bus.ppu.chr_is_ram);
    assert_eq!(bus.ppu.chr_memory.len(), 8192);
}

#[test]
fn banks_are_sliced_in_order() {
    let mut bytes = image(1, 1, 1, 0);
    bytes[16] = 0xAB;
    bytes[16 + 16383] = 0xCD;
    bytes[16 + 16384] = 0x12;
    let rom = Rom::new(&bytes).unwrap();
    assert_eq!(rom.prg_rom[0], 0xAB);
    assert_eq!(rom.prg_rom[16383], 0xCD);
    assert_eq!(rom.chr_rom.len(), 8192);
    assert_eq!(rom.chr_rom[0], 0x12);
    assert!(matches!(rom.screen_mirroring, Mirroring::Vertical));
    assert_eq!(rom.header[..4], [0x4E, 0x45, 0x53, 0x1A]);
}

#[test]
fn header_flags_decode() {
    let mut header = [0u8; 16];
    header[5] = 1;
    header[6] = 0x07;
    let info = CartridgeInfo::from_header(&header);
    assert!(matches!(info.mirroring, HeaderMirroring::Vertical));
    assert!(info.has_battery_backed_ram);
    assert!(info.has_trainer);
    assert_eq!(info.chr_ram_size, 0);

    header[6] = 0x08;
    let info = CartridgeInfo::from_header(&header);
    assert!(matches!(info.mirroring, HeaderMirroring::FourScreen));

    header[5] = 0;
    header[6] = 0x00;
    let info = CartridgeInfo::from_header(&header);
    assert!(matches!(info.mirroring, HeaderMirroring::Horizontal));
    assert!(!info.has_battery_backed_ram);
    assert!(!info.has_trainer);
    assert_eq!(info.chr_ram_size, 8192);
}

use nintendrust::cartridge::CartridgeInfo;
use nintendrust::cartridge::Mirroring;
use nintendrust::ppu::Ppu;

fn fresh_ppu(mirroring: Mirroring) -> Ppu {
    let info = CartridgeInfo {
        mirroring,
        has_battery_backed_ram: false,
        has_trainer: false,
        chr_ram_size: 8192,
    };
    Ppu::new(info, Vec::new())
}

fn set_address(ppu: &mut Ppu, address: u16) {
    ppu.ppu_addr((address / 256) as u8);
    ppu.ppu_addr((address % 256) as u8);
}

#[test]
fn address_latch_sets_live_address() {
    let mut ppu = fresh_ppu(Mirroring::Vertical);
    ppu.ppu_addr(0x21);
    assert_eq!(ppu.vram_address, 0);
    ppu.ppu_addr(0x08);
    assert_eq!(ppu.vram_address, 0x2108);
}

#[test]
fn address_latch_discards_top_two_bits() {
    let mut ppu = fresh_ppu(Mirroring::Vertical);
    ppu.ppu_addr(0xFF);
    ppu.ppu_addr(0x00);
    assert_eq!(ppu.vram_address, 0x3F00);
}

#[test]
fn latch_toggle_is_independent() {
    let mut ppu = fresh_ppu(Mirroring::Vertical);
    ppu.ppu_addr(0x21);
    // A data access between the two latch writes does not reset the toggle.
    ppu.ppu_data(0x55);
    ppu.ppu_addr(0x08);
    assert_eq!(ppu.vram_address, 0x2108);
}

#[test]
fn auto_increment_by_one() {
    let mut ppu = fresh_ppu(Mirroring::Vertical);
    set_address(&mut ppu, 0x2000);
    for _ in 0..5 {
        ppu.ppu_data(0);
    }
    assert_eq!(ppu.vram_address, 0x2005);
}

#[test]
fn auto_increment_by_thirty_two() {
    let mut ppu = fresh_ppu(Mirroring::Vertical);
    ppu.vram_increment_32 = true;
    set_address(&mut ppu, 0x2000);
    for _ in 0..3 {
        ppu.ppu_data(0);
    }
    assert_eq!(ppu.vram_address, 0x2000 + 32 * 3);
}

#[test]
fn auto_increment_wraps_to_fourteen_bits() {
    let mut ppu = fresh_ppu(Mirroring::Vertical);
    set_address(&mut ppu, 0x3FFF);
    ppu.ppu_data(0);
    assert_eq!(ppu.vram_address, 0x0000);
}

#[test]
fn read_increment_matches_write_increment() {
    let mut ppu = fresh_ppu(Mirroring::Vertical);
    set_address(&mut ppu, 0x0000);
    for n in 1..=4u16 {
        ppu.read_register(0x2007);
        assert_eq!(ppu.vram_address, n);
    }
}

#[test]
fn vertical_mirroring_aliases() {
    let mut ppu = fresh_ppu(Mirroring::Vertical);
    assert_eq!(
        ppu.map_vram_address(0x2000),
        ppu.map_vram_address(0x2800)
    );
    set_address(&mut ppu, 0x2000);
    ppu.ppu_data(0x5A);
    set_address(&mut ppu, 0x2800);
    // Prime the delayed-read buffer, then read the aliased cell.
    ppu.read_register(0x2007);
    set_address(&mut ppu, 0x2800);
    assert_eq!(ppu.read_register(0x2007), 0x5A);
}

#[test]
fn horizontal_mirroring_aliases() {
    let ppu = fresh_ppu(Mirroring::Horizontal);
    assert_eq!(
        ppu.map_vram_address(0x2000),
        ppu.map_vram_address(0x2400)
    );
    // The two nametable pairs stay distinct.
    assert_ne!(
        ppu.map_vram_address(0x2000),
        ppu.map_vram_address(0x2800)
    );
}

#[test]
fn data_port_reads_are_delayed_one_access() {
    let mut ppu = fresh_ppu(Mirroring::Vertical);
    // Pattern memory is RAM-backed here, so fill a byte through the port.
    set_address(&mut ppu, 0x0123);
    ppu.ppu_data(0x77);
    set_address(&mut ppu, 0x0123);
    let first = ppu.read_register(0x2007);
    assert_eq!(first, 0x00);
    set_address(&mut ppu, 0x0123);
    let second = ppu.read_register(0x2007);
    assert_eq!(second, 0x77);
}

#[test]
fn pattern_writes_ignored_on_rom_backed_memory() {
    let info = CartridgeInfo {
        mirroring: Mirroring::Vertical,
        has_battery_backed_ram: false,
        has_trainer: false,
        chr_ram_size: 0,
    };
    let chr = vec![0xEE; 8192];
    let mut ppu = Ppu::new(info, chr);
    assert!(!ppu.chr_is_ram);
    set_address(&mut ppu, 0x0040);
    ppu.ppu_data(0x11);
    assert_eq!(ppu.chr_memory[0x40], 0xEE);
    // The address still auto-increments on the ignored write.
    assert_eq!(ppu.vram_address, 0x0041);
}

#[test]
fn palette_background_aliasing() {
    let mut ppu = fresh_ppu(Mirroring::Vertical);
    // Entry 0x3F10 aliases into the background group at index 0.
    set_address(&mut ppu, 0x3F10);
    ppu.ppu_data(0x2A);
    assert_eq!(ppu.palette_ram[0x00], 0x2A);
    // A non-multiple-of-four entry lands at its 5-bit index.
    set_address(&mut ppu, 0x3F11);
    ppu.ppu_data(0x2B);
    assert_eq!(ppu.palette_ram[0x11], 0x2B);
}

#[test]
fn peek_register_has_no_side_effects() {
    let mut ppu = fresh_ppu(Mirroring::Vertical);
    set_address(&mut ppu, 0x1234);
    assert_eq!(ppu.peek_register(0x2002), 0x80);
    assert_eq!(ppu.peek_register(0x2007), 0x00);
    assert_eq!(ppu.peek_register(0x2005), 0x00);
    assert_eq!(ppu.vram_address, 0x1234);
}

#[test]
fn unimplemented_register_writes_are_no_ops() {
    let mut ppu = fresh_ppu(Mirroring::Vertical);
    ppu.write_register(0x2000, 0xFF);
    ppu.write_register(0x2001, 0xFF);
    ppu.write_register(0x2005, 0xFF);
    assert_eq!(ppu.vram_address, 0);
    assert!(!ppu.write_latch);
    // Routed registers work through write_register as well.
    ppu.write_register(0x2006, 0x21);
    ppu.write_register(0x2006, 0x08);
    assert_eq!(ppu.vram_address, 0x2108);
    ppu.write_register(0x2007, 0x99);
    let idx = ppu.map_vram_address(0x2108);
    assert_eq!(ppu.vram[idx], 0x99);
}

#[test]
fn pattern_table_raster_decodes_tiles() {
    let info = CartridgeInfo {
        mirroring: Mirroring::Vertical,
        has_battery_backed_ram: false,
        has_trainer: false,
        chr_ram_size: 0,
    };
    let mut chr = vec![0u8; 8192];
    // Tile 0, row 0: low plane bit 7 set, high plane bit 6 set.
    chr[0] = 0x80;
    chr[8] = 0x40;
    let ppu = Ppu::new(info, chr);
    let frame = ppu.debug_draw_pattern_tables();
    assert_eq!(frame.len(), 256 * 128 * 3);
    // Pixel (0,0): shade 1 of the gray ramp.
    assert_eq!(&frame[0..3], &[85, 85, 85]);
    // Pixel (1,0): shade 2.
    assert_eq!(&frame[3..6], &[170, 170, 170]);
    // Pixel (2,0): blank.
    assert_eq!(&frame[6..9], &[0, 0, 0]);
}

#[test]
fn nametable_raster_reads_mirrored_vram() {
    let mut ppu = fresh_ppu(Mirroring::Vertical);
    // Tile 1 is solid shade 3: both planes all ones.
    for row in 0..8 {
        set_address(&mut ppu, 16 + row);
        ppu.ppu_data(0xFF);
        set_address(&mut ppu, 16 + row + 8);
        ppu.ppu_data(0xFF);
    }
    // Top-left nametable cell selects tile 1.
    set_address(&mut ppu, 0x2000);
    ppu.ppu_data(0x01);
    let frame = ppu.debug_draw_nametable();
    assert_eq!(frame.len(), 512 * 240 * 3);
    assert_eq!(&frame[0..3], &[255, 255, 255]);
    // The cell one tile to the right still shows tile 0 (blank).
    let idx = 8 * 3;
    assert_eq!(&frame[idx..idx + 3], &[0, 0, 0]);
}

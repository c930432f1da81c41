use nintendrust::bus::Bus;
use nintendrust::fault::Fault;
use nintendrust::rom::Rom;

fn bus_with_program(program: &[u8]) -> Bus {
    // Two 16KB program banks so the vectors at the top of the address
    // space resolve; program bytes land at 0x8000.
    let mut bytes = vec![0x4E, 0x45, 0x53, 0x1A, 2, 0, 0, 0, 0, 0, 0, 0, 0, 0, 0, 0];
    let mut prg = vec![0u8; 32768];
    prg[..program.len()].copy_from_slice(program);
    bytes.extend(prg);
    Bus::new(Rom::new(&bytes).unwrap())
}

#[test]
fn ram_mirroring_reads_back_everywhere() {
    let mut bus = bus_with_program(&[]);
    bus.write(0x0123, 0x42).unwrap();
    assert_eq!(bus.read(0x0123).unwrap(), 0x42);
    assert_eq!(bus.read(0x0923).unwrap(), 0x42);
    assert_eq!(bus.read(0x1123).unwrap(), 0x42);
    assert_eq!(bus.read(0x1923).unwrap(), 0x42);
    // Writing through a mirror lands in the same cell.
    bus.write(0x1923, 0x43).unwrap();
    assert_eq!(bus.read(0x0123).unwrap(), 0x43);
}

#[test]
fn audio_io_stub_reads_zero_and_ignores_writes() {
    let mut bus = bus_with_program(&[]);
    assert_eq!(bus.read(0x4000).unwrap(), 0);
    assert_eq!(bus.read(0x4017).unwrap(), 0);
    bus.write(0x4000, 0xFF).unwrap();
    bus.write(0x4017, 0xFF).unwrap();
    assert_eq!(bus.read(0x4000).unwrap(), 0);
}

#[test]
fn unmapped_window_faults() {
    let mut bus = bus_with_program(&[]);
    assert_eq!(bus.read(0x4018), Err(Fault::UnmappedAccess(0x4018)));
    assert_eq!(bus.read(0x7FFF), Err(Fault::UnmappedAccess(0x7FFF)));
    assert_eq!(bus.write(0x4018, 1), Err(Fault::UnmappedAccess(0x4018)));
    // Program ROM is not writable.
    assert_eq!(bus.write(0x8000, 1), Err(Fault::UnmappedAccess(0x8000)));
}

#[test]
fn program_rom_maps_linearly() {
    let mut program = vec![0u8; 3];
    program[0] = 0x11;
    program[2] = 0x33;
    let bus = bus_with_program(&program);
    assert_eq!(bus.read(0x8000).unwrap(), 0x11);
    assert_eq!(bus.read(0x8002).unwrap(), 0x33);
    assert_eq!(bus.read(0xFFFF).unwrap(), 0x00);
}

#[test]
fn short_program_rom_faults_out_of_bounds() {
    // A single 16KB bank covers 0x8000..0xBFFF only.
    let mut bytes = vec![0x4E, 0x45, 0x53, 0x1A, 1, 0, 0, 0, 0, 0, 0, 0, 0, 0, 0, 0];
    bytes.extend(vec![0u8; 16384]);
    let bus = Bus::new(Rom::new(&bytes).unwrap());
    assert_eq!(bus.read(0xBFFF).unwrap(), 0);
    assert_eq!(bus.read(0xC000), Err(Fault::OutOfBoundsRom(0xC000)));
}

#[test]
fn ppu_registers_reached_through_mirrored_window() {
    let mut bus = bus_with_program(&[]);
    // The address-select register mirrors every 8 bytes across the window.
    bus.write(0x2006, 0x21).unwrap();
    bus.write(0x3FFE, 0x08).unwrap();
    assert_eq!(bus.ppu.vram_address, 0x2108);
    bus.write(0x2007, 0x5C).unwrap();
    let idx = bus.ppu.map_vram_address(0x2108);
    assert_eq!(bus.ppu.vram[idx], 0x5C);
    // Status peeks read the stub pattern through any mirror.
    assert_eq!(bus.read(0x2002).unwrap(), 0x80);
    assert_eq!(bus.read(0x3FFA).unwrap(), 0x80);
}

use vstd::prelude::*;

verus! {

/// Nametable mirroring mode declared by the cartridge.
#[derive(Debug, Clone, Copy, PartialEq, Eq, Structural)]
pub enum Mirroring {
    Horizontal,
    Vertical,
    FourScreen,
}

/// Cartridge facts decoded from the 16-byte image header, shared by the bus
/// and the PPU for the session's lifetime.
#[derive(Debug, Clone, Copy)]
pub struct CartridgeInfo {
    pub mirroring: Mirroring,
    pub has_battery_backed_ram: bool,
    pub has_trainer: bool,
    pub chr_ram_size: usize,
}

/// Mirroring mode encoded in header byte 6: bit 3 overrides to four-screen,
/// otherwise bit 0 selects vertical (1) or horizontal (0).
pub open spec fn header_mirroring(flags_6: u8) -> Mirroring {
    if (flags_6 / 8) % 2 == 1 {
        Mirroring::FourScreen
    } else if flags_6 % 2 == 1 {
        Mirroring::Vertical
    } else {
        Mirroring::Horizontal
    }
}

impl CartridgeInfo {
    /// Decodes the flag byte and the pattern-bank count of an image header.
    /// A pattern-bank count of zero means the PPU backs pattern memory with
    /// an 8KB internal RAM.
    pub fn from_header(header: &[u8; 16]) -> (info: CartridgeInfo)
        ensures
            info.mirroring == header_mirroring(header@[6]),
            info.has_battery_backed_ram == ((header@[6] / 2) % 2 == 1),
            info.has_trainer == ((header@[6] / 4) % 2 == 1),
            info.chr_ram_size == if header@[5] == 0 { 8192int } else { 0int },
    {
        let flags_6 = header[6];
        let chr_rom_size = header[5] as usize * 8192;

        let mirroring = if (flags_6 / 8) % 2 == 1 {
            Mirroring::FourScreen
        } else if flags_6 % 2 == 1 {
            Mirroring::Vertical
        } else {
            Mirroring::Horizontal
        };

        CartridgeInfo {
            mirroring,
            has_battery_backed_ram: (flags_6 / 2) % 2 == 1,
            has_trainer: (flags_6 / 4) % 2 == 1,
            chr_ram_size: if chr_rom_size == 0 { 8192 } else { 0 },
        }
    }
}

} // verus!

use vstd::prelude::*;

use crate::cartridge::CartridgeInfo;
use crate::cartridge::header_mirroring;

verus! {

/// Nametable mirroring mode as stored on the loaded image.
#[derive(Debug, Clone, Copy, PartialEq, Eq, Structural)]
pub enum Mirroring {
    Vertical,
    Horizontal,
    FourScreen,
}

/// Why a raw buffer was rejected by the loader. Load failures are
/// recoverable values reported to the caller; no image is constructed.
#[derive(Debug, Clone, Copy, PartialEq, Eq, Structural)]
pub enum LoadError {
    /// The buffer is shorter than the 16-byte header.
    TooShort,
    /// The first four header bytes are not the required magic sequence.
    BadMagic,
    /// The buffer ends before the declared program and pattern banks do.
    Truncated,
    /// Only the linear, unbanked mapper (id 0) is honored, so any other id
    /// is rejected before execution begins.
    UnsupportedMapper(u8),
    /// Four-screen mirroring would need four times the video RAM and is
    /// rejected before execution begins.
    UnsupportedMirroring,
}

/// A cartridge image parsed once from a raw byte buffer: program-code bytes,
/// pattern-data bytes (possibly empty), mapper id and mirroring mode.
/// Immutable after loading.
pub struct Rom {
    pub header: [u8; 16],
    pub prg_rom: Vec<u8>,
    pub chr_rom: Vec<u8>,
    pub mapper: u8,
    pub screen_mirroring: Mirroring,
    pub cartridge_info: CartridgeInfo,
}

/// The 4-byte magic sequence that opens every valid image header.
pub open spec fn magic_ok(bytes: Seq<u8>) -> bool {
    &&& bytes.len() >= 4
    &&& bytes[0] == 0x4Eu8
    &&& bytes[1] == 0x45u8
    &&& bytes[2] == 0x53u8
    &&& bytes[3] == 0x1Au8
}

/// Declared program-bank bytes: header byte 4 counts 16KB banks.
pub open spec fn prg_size(bytes: Seq<u8>) -> int
    recommends
        bytes.len() >= 16,
{
    bytes[4] * 16384
}

/// Declared pattern-bank bytes: header byte 5 counts 8KB banks.
pub open spec fn chr_size(bytes: Seq<u8>) -> int
    recommends
        bytes.len() >= 16,
{
    bytes[5] * 8192
}

/// Mapper id: high nibble of header byte 7 above the high nibble of byte 6.
pub open spec fn header_mapper(bytes: Seq<u8>) -> int
    recommends
        bytes.len() >= 16,
{
    (bytes[7] / 16) * 16 + bytes[6] / 16
}

/// Whether the loader accepts the buffer as a cartridge image.
pub open spec fn load_ok(bytes: Seq<u8>) -> bool {
    &&& bytes.len() >= 16
    &&& magic_ok(bytes)
    &&& bytes.len() >= 16 + prg_size(bytes) + chr_size(bytes)
    &&& header_mapper(bytes) == 0
    &&& (bytes[6] / 8) % 2 == 0
}

/// The error reported for a rejected buffer, in the order the loader checks.
pub open spec fn load_err(bytes: Seq<u8>) -> LoadError {
    if bytes.len() < 16 {
        LoadError::TooShort
    } else if !magic_ok(bytes) {
        LoadError::BadMagic
    } else if bytes.len() < 16 + prg_size(bytes) + chr_size(bytes) {
        LoadError::Truncated
    } else if header_mapper(bytes) != 0 {
        LoadError::UnsupportedMapper(header_mapper(bytes) as u8)
    } else {
        LoadError::UnsupportedMirroring
    }
}

/// Copies `len` bytes of `bytes` starting at `start` into a fresh buffer.
fn copy_range(bytes: &Vec<u8>, start: usize, len: usize) -> (r: Vec<u8>)
    requires
        start + len <= bytes@.len(),
    ensures
        r@ == bytes@.subrange(start as int, start as int + len as int),
{
    let mut r: Vec<u8> = Vec::new();
    let mut i: usize = 0;
    proof {
        assert(bytes.len() == bytes@.len());
    }
    while i < len
        invariant
            i <= len,
            start + len <= bytes@.len(),
            bytes@.len() <= usize::MAX,
            r@ == bytes@.subrange(start as int, start as int + i as int),
        decreases len - i,
    {
        r.push(bytes[start + i]);
        i = i + 1;
        proof {
            assert(r@ =~= bytes@.subrange(start as int, start as int + i as int));
        }
    }
    r
}

impl Rom {
    /// Parses a raw buffer: 16-byte header, then the program bytes, then the
    /// pattern bytes (absent when header byte 5 is 0). Rejects short buffers,
    /// a wrong magic sequence, truncated bank data, mappers other than the
    /// linear id 0, and the four-screen mirroring override.
    ///
    /// The trainer flag (header byte 6, bit 2) is decoded into the cartridge
    /// facts, but a 512-byte trainer block, when present, is not skipped
    /// before the program bytes.
    pub fn new(raw_bytes: &Vec<u8>) -> (r: Result<Rom, LoadError>)
        ensures
            r is Ok <==> load_ok(raw_bytes@),
            r matches Err(e) ==> e == load_err(raw_bytes@),
            r matches Ok(rom) ==> {
                &&& rom.header@ == raw_bytes@.subrange(0, 16)
                &&& rom.prg_rom@ == raw_bytes@.subrange(16, 16 + prg_size(raw_bytes@))
                &&& rom.chr_rom@ == raw_bytes@.subrange(
                    16 + prg_size(raw_bytes@),
                    16 + prg_size(raw_bytes@) + chr_size(raw_bytes@),
                )
                &&& rom.mapper == 0
                &&& rom.screen_mirroring == if raw_bytes@[6] % 2 == 1 {
                    Mirroring::Vertical
                } else {
                    Mirroring::Horizontal
                }
                &&& rom.cartridge_info.mirroring == header_mirroring(raw_bytes@[6])
                &&& rom.cartridge_info.has_battery_backed_ram == ((raw_bytes@[6] / 2) % 2 == 1)
                &&& rom.cartridge_info.has_trainer == ((raw_bytes@[6] / 4) % 2 == 1)
                &&& rom.cartridge_info.chr_ram_size == if raw_bytes@[5] == 0 {
                    8192int
                } else {
                    0int
                }
            },
    {
        if raw_bytes.len() < 16 {
            return Err(LoadError::TooShort);
        }

        if raw_bytes[0] != 0x4E || raw_bytes[1] != 0x45 || raw_bytes[2] != 0x53
            || raw_bytes[3] != 0x1A {
            return Err(LoadError::BadMagic);
        }

        let prg_rom_size = raw_bytes[4] as usize * 16384;
        let chr_rom_size = raw_bytes[5] as usize * 8192;

        if raw_bytes.len() < 16 + prg_rom_size + chr_rom_size {
            return Err(LoadError::Truncated);
        }

        let flags_6 = raw_bytes[6];
        let flags_7 = raw_bytes[7];

        let mapper = (flags_7 / 16) * 16 + flags_6 / 16;
        if mapper != 0 {
            return Err(LoadError::UnsupportedMapper(mapper));
        }

        if (flags_6 / 8) % 2 == 1 {
            return Err(LoadError::UnsupportedMirroring);
        }

        let mut header: [u8; 16] = [0u8; 16];
        let mut i: usize = 0;
        while i < 16
            invariant
                i <= 16,
                raw_bytes@.len() >= 16,
                forall|j: int| 0 <= j < i ==> header@[j] == raw_bytes@[j],
            decreases 16 - i,
        {
            header[i] = raw_bytes[i];
            i = i + 1;
        }
        proof {
            assert(header@ =~= raw_bytes@.subrange(0, 16));
        }

        let prg_rom = copy_range(raw_bytes, 16, prg_rom_size);
        let chr_rom = copy_range(raw_bytes, 16 + prg_rom_size, chr_rom_size);

        let screen_mirroring = if flags_6 % 2 == 1 {
            Mirroring::Vertical
        } else {
            Mirroring::Horizontal
        };

        let cartridge_info = CartridgeInfo::from_header(&header);

        Ok(Rom {
            header,
            prg_rom,
            chr_rom,
            mapper,
            screen_mirroring,
            cartridge_info,
        })
    }
}

} // verus!

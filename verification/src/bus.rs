use vstd::prelude::*;

use crate::fault::Fault;
use crate::ppu::Ppu;
use crate::ppu::ppu_reg_write_rel;
use crate::ppu::zero_filled;
use crate::rom::Rom;

verus! {

/// Memory bus: owns the 2KB system RAM, the cartridge image and the PPU,
/// and dispatches every read and write by address range. RAM is mirrored
/// four times across 0x0000-0x1FFF; the 8 PPU registers are mirrored every
/// 8 bytes across 0x2000-0x3FFF; 0x4000-0x4017 is the audio/IO stub;
/// program ROM maps linearly from 0x8000.
pub struct Bus {
    pub ram: Vec<u8>,
    pub rom: Rom,
    pub ppu: Ppu,
}

impl Bus {
    /// Well-formedness: the RAM has its fixed 2KB size and the PPU is
    /// well-formed.
    pub open spec fn wf(self) -> bool {
        &&& self.ram@.len() == 0x800
        &&& self.ppu.wf()
    }

    /// Whether a read of `addr` resolves to an owned byte. Addresses in no
    /// known window, and program-ROM offsets beyond the image length, do
    /// not.
    pub open spec fn read_ok(self, addr: u16) -> bool {
        if addr < 0x4018 {
            true
        } else if addr < 0x8000 {
            false
        } else {
            addr - 0x8000 < self.rom.prg_rom@.len()
        }
    }

    /// The byte a read of `addr` returns when it resolves: mirrored RAM,
    /// a side-effect-free PPU register peek, the constant 0 of the audio/IO
    /// stub, or linear program ROM.
    pub open spec fn spec_read(self, addr: u16) -> u8
        recommends
            self.wf(),
            self.read_ok(addr),
    {
        if addr < 0x2000 {
            self.ram@[addr as int % 0x800]
        } else if addr < 0x4000 {
            let reg = 0x2000 + addr % 8;
            if reg == 0x2002 {
                0x80
            } else if reg == 0x2007 {
                self.ppu.read_buffer
            } else {
                0
            }
        } else if addr < 0x4018 {
            0
        } else {
            self.rom.prg_rom@[addr - 0x8000]
        }
    }

    /// The fault a read of `addr` reports when it does not resolve.
    pub open spec fn read_fault(self, addr: u16) -> Fault
        recommends
            !self.read_ok(addr),
    {
        if addr < 0x8000 {
            Fault::UnmappedAccess(addr)
        } else {
            Fault::OutOfBoundsRom(addr)
        }
    }

    /// The exact outcome of a read of `addr`.
    pub open spec fn read_result(self, addr: u16) -> Result<u8, Fault>
        recommends
            self.wf(),
    {
        if self.read_ok(addr) {
            Ok(self.spec_read(addr))
        } else {
            Err(self.read_fault(addr))
        }
    }

    /// Builds a bus for one session around a loaded cartridge image: RAM
    /// starts zeroed, and the PPU receives the cartridge facts and its own
    /// copy of the pattern data.
    pub fn new(rom: Rom) -> (b: Bus)
        requires
            rom.cartridge_info.mirroring != crate::cartridge::Mirroring::FourScreen,
            rom.chr_rom@.len() == 0 || rom.chr_rom@.len() >= 0x2000,
        ensures
            b.wf(),
            b.rom == rom,
            forall|i: int| 0 <= i < 0x800 ==> b.ram@[i] == 0u8,
            b.ppu.cartridge_info == rom.cartridge_info,
            b.ppu.chr_is_ram == (rom.chr_rom@.len() == 0),
            rom.chr_rom@.len() > 0 ==> b.ppu.chr_memory@ == rom.chr_rom@,
            rom.chr_rom@.len() == 0 ==> b.ppu.chr_memory@.len() == 8192 && forall|i: int|
                0 <= i < 8192 ==> b.ppu.chr_memory@[i] == 0u8,
            forall|i: int| 0 <= i < 2048 ==> b.ppu.vram@[i] == 0u8,
            forall|i: int| 0 <= i < 32 ==> b.ppu.palette_ram@[i] == 0u8,
            !b.ppu.write_latch,
            b.ppu.vram_address == 0,
            !b.ppu.vram_increment_32,
            b.ppu.read_buffer == 0,
    {
        let chr_copy = rom.chr_rom.clone();
        proof {
            assert forall|i: int| 0 <= i < rom.chr_rom@.len() implies chr_copy@[i]
                == rom.chr_rom@[i] by {
                assert(cloned::<u8>(rom.chr_rom@[i], chr_copy@[i]));
            }
            assert(chr_copy@ =~= rom.chr_rom@);
        }
        let ppu = Ppu::new(rom.cartridge_info.clone(), chr_copy);

        Bus { ram: zero_filled(0x800), rom, ppu }
    }

    /// Reads one byte, routing by address range. Reads have no side
    /// effects: the PPU window is served by the register peek. An address
    /// in no known window, or a program-ROM offset beyond the image length,
    /// is a typed fault.
    pub fn read(&self, addr: u16) -> (r: Result<u8, Fault>)
        requires
            self.wf(),
        ensures
            r == self.read_result(addr),
    {
        if addr < 0x2000 {
            Ok(self.ram[(addr % 0x800) as usize])
        } else if addr < 0x4000 {
            let ppu_address = 0x2000 + addr % 8;
            Ok(self.ppu.peek_register(ppu_address))
        } else if addr < 0x4018 {
            Ok(0)
        } else if addr < 0x8000 {
            Err(Fault::UnmappedAccess(addr))
        } else {
            let rom_index = (addr - 0x8000) as usize;
            if rom_index < self.rom.prg_rom.len() {
                Ok(self.rom.prg_rom[rom_index])
            } else {
                Err(Fault::OutOfBoundsRom(addr))
            }
        }
    }
}

/// Whether a write to `addr` lands in a writable window (RAM, a PPU
/// register, or the ignoring audio/IO stub).
pub open spec fn write_ok(addr: u16) -> bool {
    addr < 0x4018
}

/// The exact effect of a write: RAM takes the byte at its mirrored offset,
/// the PPU window forwards to the mirrored register, the audio/IO stub
/// ignores it, and any other address is an unmapped-access fault that
/// leaves the bus unchanged.
pub open spec fn write_rel(pre: Bus, post: Bus, addr: u16, value: u8, r: Result<(), Fault>) -> bool {
    if addr < 0x2000 {
        &&& post.ram@ == pre.ram@.update(addr as int % 0x800, value)
        &&& post.ppu == pre.ppu
        &&& post.rom == pre.rom
        &&& r == Ok::<(), Fault>(())
    } else if addr < 0x4000 {
        &&& post.ram@ == pre.ram@
        &&& post.rom == pre.rom
        &&& ppu_reg_write_rel(pre.ppu, post.ppu, (0x2000 + addr % 8) as u16, value)
        &&& r == Ok::<(), Fault>(())
    } else if addr < 0x4018 {
        &&& post == pre
        &&& r == Ok::<(), Fault>(())
    } else {
        &&& post == pre
        &&& r == Err::<(), Fault>(Fault::UnmappedAccess(addr))
    }
}

impl Bus {
    /// Writes one byte, routing by address range. Program ROM is not
    /// writable, so any address from 0x4018 up is an unmapped-access
    /// fault returned as a value.
    pub fn write(&mut self, address: u16, value: u8) -> (r: Result<(), Fault>)
        requires
            old(self).wf(),
        ensures
            final(self).wf(),
            write_rel(*old(self), *final(self), address, value, r),
    {
        if address < 0x2000 {
            let idx = (address % 0x800) as usize;
            self.ram[idx] = value;
            Ok(())
        } else if address < 0x4000 {
            let ppu_address = 0x2000 + address % 8;
            self.ppu.write_register(ppu_address, value);
            Ok(())
        } else if address < 0x4018 {
            Ok(())
        } else {
            Err(Fault::UnmappedAccess(address))
        }
    }
}

/// RAM-mirroring law: a byte written at address `A` (`A` < 0x0800) reads
/// back identically at `A`, `A`+0x0800, `A`+0x1000 and `A`+0x1800.
pub proof fn lemma_ram_mirroring(pre: Bus, post: Bus, addr: u16, value: u8, r: Result<(), Fault>)
    requires
        pre.wf(),
        addr < 0x0800,
        write_rel(pre, post, addr, value, r),
    ensures
        post.read_result(addr) == Ok::<u8, Fault>(value),
        post.read_result((addr + 0x0800) as u16) == Ok::<u8, Fault>(value),
        post.read_result((addr + 0x1000) as u16) == Ok::<u8, Fault>(value),
        post.read_result((addr + 0x1800) as u16) == Ok::<u8, Fault>(value),
{
    assert(addr as int % 0x800 == addr as int);
    assert((addr + 0x0800) as u16 as int % 0x800 == addr as int);
    assert((addr + 0x1000) as u16 as int % 0x800 == addr as int);
    assert((addr + 0x1800) as u16 as int % 0x800 == addr as int);
}

} // verus!

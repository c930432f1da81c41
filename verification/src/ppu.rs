use vstd::prelude::*;

use crate::cartridge::CartridgeInfo;
use crate::cartridge::Mirroring;

verus! {

/// Picture-processing unit: pattern memory (cartridge-supplied read-only, or
/// an internal 8KB RAM when the cartridge supplies none), 2KB nametable VRAM,
/// 32-byte palette RAM, 256-byte sprite memory, and the register-file state
/// for the two-write address latch and the auto-incrementing data port.
pub struct Ppu {
    pub cartridge_info: CartridgeInfo,
    pub chr_memory: Vec<u8>,
    pub chr_is_ram: bool,
    pub vram: Vec<u8>,
    pub palette_ram: Vec<u8>,
    pub oam: Vec<u8>,
    pub write_latch: bool,
    pub vram_address: u16,
    pub temporary_vram_address: u16,
    pub vram_increment_32: bool,
    pub read_buffer: u8,
}

/// Allocates a buffer of `n` zero bytes.
pub(crate) fn zero_filled(n: usize) -> (r: Vec<u8>)
    ensures
        r@.len() == n,
        forall|i: int| 0 <= i < n ==> r@[i] == 0u8,
{
    let mut r: Vec<u8> = Vec::new();
    let mut i: usize = 0;
    while i < n
        invariant
            i <= n,
            r@.len() == i,
            forall|j: int| 0 <= j < i ==> r@[j] == 0u8,
        decreases n - i,
    {
        r.push(0);
        i = i + 1;
    }
    r
}

/// Reduces a logical nametable address to an index into the 2KB physical
/// VRAM. Horizontal mode folds the vertical-select bit (bit 11) into the
/// horizontal one; vertical mode keeps the low 11 bits unchanged.
/// Four-screen mode is unimplemented and never reached.
pub open spec fn map_addr(mirroring: Mirroring, addr: u16) -> int
    recommends
        mirroring != Mirroring::FourScreen,
{
    let m = addr % 0x1000;
    match mirroring {
        Mirroring::Horizontal => m % 0x400 + 0x400 * ((m / 0x800) % 2),
        Mirroring::Vertical => (m % 0x800) as int,
        Mirroring::FourScreen => 0,
    }
}

/// Index into the 32-byte palette RAM for a data-port access: masked to
/// 5 bits, with every 4th entry aliased into the 16-entry
/// background-color mirror group.
pub open spec fn palette_index(addr: u16) -> int {
    if addr % 4 == 0 {
        (addr % 16) as int
    } else {
        (addr % 32) as int
    }
}

/// The live VRAM address after one data-port access: auto-incremented by 1
/// or 32 and masked back into the 14-bit space.
pub open spec fn next_vram_address(addr: u16, increment_32: bool) -> u16 {
    (((addr + if increment_32 {
        32int
    } else {
        1int
    })) % 0x4000) as u16
}

/// The byte a data-port access fetches at the live VRAM address: pattern
/// memory below 0x2000, mirrored nametable VRAM below 0x3F00, palette RAM
/// above.
pub open spec fn data_fetch(p: Ppu) -> u8
    recommends
        p.wf(),
{
    if p.vram_address < 0x2000 {
        p.chr_memory@[p.vram_address as int]
    } else if p.vram_address < 0x3F00 {
        p.vram@[map_addr(p.cartridge_info.mirroring, p.vram_address)]
    } else {
        p.palette_ram@[palette_index(p.vram_address)]
    }
}

/// The live VRAM address after `n` data-port accesses, each advancing it by
/// the auto-increment step.
pub open spec fn advanced_vram_address(addr: u16, increment_32: bool, n: nat) -> u16
    decreases n,
{
    if n == 0 {
        addr
    } else {
        advanced_vram_address(next_vram_address(addr, increment_32), increment_32, (n - 1) as nat)
    }
}

/// Auto-increment law: after `n` data-port accesses with increment 1 the
/// live address is `(initial + n) mod 0x4000`; with increment 32 it is
/// `(initial + 32 n) mod 0x4000`.
pub proof fn lemma_auto_increment(addr: u16, increment_32: bool, n: nat)
    requires
        addr < 0x4000,
    ensures
        advanced_vram_address(addr, increment_32, n) == (addr + n * (if increment_32 {
            32int
        } else {
            1int
        })) % 0x4000,
    decreases n,
{
    let step: int = if increment_32 {
        32int
    } else {
        1int
    };
    if n == 0 {
        assert((addr + 0 * step) % 0x4000 == addr) by {
            vstd::arithmetic::div_mod::lemma_small_mod(addr as nat, 0x4000nat);
        }
    } else {
        let a1 = next_vram_address(addr, increment_32);
        lemma_auto_increment(a1, increment_32, (n - 1) as nat);
        assert((n - 1) * step + step == n * step) by (nonlinear_arith);
        assert(((n - 1) * step + (addr + step)) % 0x4000 == ((n - 1) * step + a1) % 0x4000) by {
            vstd::arithmetic::div_mod::lemma_add_mod_noop_right(
                (n - 1) * step,
                addr + step,
                0x4000,
            );
        }
    }
}

/// Nametable-mirroring law, vertical mode: a logical address and the one a
/// full nametable stride (0x800) above it map to the same physical index.
pub proof fn lemma_vertical_mirroring(addr: u16)
    requires
        0x2000 <= addr < 0x2800,
    ensures
        map_addr(Mirroring::Vertical, addr) == map_addr(Mirroring::Vertical, (addr + 0x800) as u16),
{
}

/// Nametable-mirroring law, horizontal mode: a logical address and the one
/// half a stride (0x400) above it map to the same physical index.
pub proof fn lemma_horizontal_mirroring(addr: u16)
    requires
        0x2000 <= addr < 0x2400,
    ensures
        map_addr(Mirroring::Horizontal, addr) == map_addr(
            Mirroring::Horizontal,
            (addr + 0x400) as u16,
        ),
{
}

/// Fields a data-port access never touches.
pub open spec fn same_except_data_port(pre: Ppu, post: Ppu) -> bool {
    &&& post.cartridge_info == pre.cartridge_info
    &&& post.chr_is_ram == pre.chr_is_ram
    &&& post.oam@ == pre.oam@
    &&& post.write_latch == pre.write_latch
    &&& post.temporary_vram_address == pre.temporary_vram_address
    &&& post.vram_increment_32 == pre.vram_increment_32
}

/// Effect of one data-port write: the value lands in exactly one of the
/// three disjoint regions (pattern memory only when RAM-backed, nametable
/// VRAM through the mirroring function, or aliased palette RAM), and the
/// live address auto-increments.
pub open spec fn ppu_data_rel(pre: Ppu, post: Ppu, value: u8) -> bool {
    &&& same_except_data_port(pre, post)
    &&& post.read_buffer == pre.read_buffer
    &&& post.vram_address == next_vram_address(pre.vram_address, pre.vram_increment_32)
    &&& if pre.vram_address < 0x2000 {
        &&& post.chr_memory@ == if pre.chr_is_ram {
            pre.chr_memory@.update(pre.vram_address as int, value)
        } else {
            pre.chr_memory@
        }
        &&& post.vram@ == pre.vram@
        &&& post.palette_ram@ == pre.palette_ram@
    } else if pre.vram_address < 0x3F00 {
        &&& post.chr_memory@ == pre.chr_memory@
        &&& post.vram@ == pre.vram@.update(
            map_addr(pre.cartridge_info.mirroring, pre.vram_address),
            value,
        )
        &&& post.palette_ram@ == pre.palette_ram@
    } else {
        &&& post.chr_memory@ == pre.chr_memory@
        &&& post.vram@ == pre.vram@
        &&& post.palette_ram@ == pre.palette_ram@.update(palette_index(pre.vram_address), value)
    }
}

/// Effect of one address-select write: the first write of a pair sets the
/// high 6 bits of the shadow address (top 2 bits discarded), the second ORs
/// in the low byte and commits the shadow to the live address; the toggle
/// flips on every write.
pub open spec fn ppu_addr_rel(pre: Ppu, post: Ppu, value: u8) -> bool {
    &&& post.cartridge_info == pre.cartridge_info
    &&& post.chr_is_ram == pre.chr_is_ram
    &&& post.chr_memory@ == pre.chr_memory@
    &&& post.vram@ == pre.vram@
    &&& post.palette_ram@ == pre.palette_ram@
    &&& post.oam@ == pre.oam@
    &&& post.vram_increment_32 == pre.vram_increment_32
    &&& post.read_buffer == pre.read_buffer
    &&& post.write_latch == !pre.write_latch
    &&& if !pre.write_latch {
        &&& post.temporary_vram_address == (value % 64) * 256
        &&& post.vram_address == pre.vram_address
    } else {
        &&& post.temporary_vram_address == pre.temporary_vram_address
        &&& post.vram_address == pre.temporary_vram_address + value
    }
}

/// Effect of a write to one of the 8 registers: only the address-select
/// (0x2006) and data (0x2007) registers are implemented; the others are
/// no-ops.
pub open spec fn ppu_reg_write_rel(pre: Ppu, post: Ppu, address: u16, value: u8) -> bool {
    if address == 0x2006 {
        ppu_addr_rel(pre, post, value)
    } else if address == 0x2007 {
        ppu_data_rel(pre, post, value)
    } else {
        post == pre
    }
}

/// Effect of a read from one of the 8 registers: the status register reads
/// a constant, the data register returns the previously buffered byte while
/// the freshly fetched byte becomes the new buffer, and the live address
/// auto-increments; the others read 0 without effect.
pub open spec fn ppu_reg_read_rel(pre: Ppu, post: Ppu, address: u16, r: u8) -> bool {
    if address == 0x2002 {
        r == 0x80 && post == pre
    } else if address == 0x2007 {
        &&& r == pre.read_buffer
        &&& same_except_data_port(pre, post)
        &&& post.chr_memory@ == pre.chr_memory@
        &&& post.vram@ == pre.vram@
        &&& post.palette_ram@ == pre.palette_ram@
        &&& post.read_buffer == data_fetch(pre)
        &&& post.vram_address == next_vram_address(pre.vram_address, pre.vram_increment_32)
    } else {
        r == 0 && post == pre
    }
}

impl Ppu {
    /// Well-formedness: the memories have their fixed sizes, the live and
    /// shadow VRAM addresses stay in the 14-bit space, the shadow address
    /// has an empty low byte between latch pairs, and the mirroring mode is
    /// one of the two implemented ones.
    pub open spec fn wf(self) -> bool {
        &&& self.chr_memory@.len() >= 0x2000
        &&& self.vram@.len() == 2048
        &&& self.palette_ram@.len() == 32
        &&& self.oam@.len() == 256
        &&& self.vram_address < 0x4000
        &&& self.temporary_vram_address < 0x4000
        &&& self.temporary_vram_address % 256 == 0
        &&& self.cartridge_info.mirroring != Mirroring::FourScreen
    }

    /// Builds a PPU for one session: pattern memory is the cartridge's
    /// pattern data, or a zeroed 8KB RAM when the cartridge supplies none;
    /// all other memories and registers start cleared.
    pub fn new(cartridge_info: CartridgeInfo, chr_rom: Vec<u8>) -> (p: Ppu)
        requires
            cartridge_info.mirroring != Mirroring::FourScreen,
            chr_rom@.len() == 0 || chr_rom@.len() >= 0x2000,
        ensures
            p.wf(),
            p.cartridge_info == cartridge_info,
            p.chr_is_ram == (chr_rom@.len() == 0),
            chr_rom@.len() == 0 ==> p.chr_memory@.len() == 8192 && forall|i: int|
                0 <= i < 8192 ==> p.chr_memory@[i] == 0u8,
            chr_rom@.len() > 0 ==> p.chr_memory@ == chr_rom@,
            forall|i: int| 0 <= i < 2048 ==> p.vram@[i] == 0u8,
            forall|i: int| 0 <= i < 32 ==> p.palette_ram@[i] == 0u8,
            forall|i: int| 0 <= i < 256 ==> p.oam@[i] == 0u8,
            !p.write_latch,
            p.vram_address == 0,
            p.temporary_vram_address == 0,
            !p.vram_increment_32,
            p.read_buffer == 0,
    {
        let chr_is_ram = chr_rom.len() == 0;
        let chr_memory = if chr_is_ram {
            zero_filled(8192)
        } else {
            chr_rom
        };

        Ppu {
            cartridge_info,
            chr_memory,
            chr_is_ram,
            vram: zero_filled(2048),
            palette_ram: zero_filled(32),
            oam: zero_filled(256),
            write_latch: false,
            vram_address: 0,
            temporary_vram_address: 0,
            vram_increment_32: false,
            read_buffer: 0,
        }
    }

    /// Reduces a logical nametable address to its physical VRAM index under
    /// this cartridge's mirroring mode.
    pub fn map_vram_address(&self, addr: u16) -> (idx: usize)
        requires
            self.cartridge_info.mirroring != Mirroring::FourScreen,
        ensures
            idx == map_addr(self.cartridge_info.mirroring, addr),
            idx < 2048,
    {
        let mirrored_addr = addr % 0x1000;

        match self.cartridge_info.mirroring {
            Mirroring::Horizontal => {
                (mirrored_addr % 0x400 + 0x400 * ((mirrored_addr / 0x800) % 2)) as usize
            },
            Mirroring::Vertical => (mirrored_addr % 0x800) as usize,
            Mirroring::FourScreen => 0,
        }
    }

    /// Reads a register without side effects, for diagnostic inspection:
    /// the status register reads a constant, the data register shows the
    /// delayed-read buffer, every other register reads 0.
    pub fn peek_register(&self, address: u16) -> (r: u8)
        ensures
            address == 0x2002 ==> r == 0x80,
            address == 0x2007 ==> r == self.read_buffer,
            address != 0x2002 && address != 0x2007 ==> r == 0,
    {
        if address == 0x2002 {
            0x80
        } else if address == 0x2007 {
            self.read_buffer
        } else {
            0
        }
    }

    /// Reads a register with its architectural side effects: a data-port
    /// read returns the previously buffered byte (one-access read latency),
    /// buffers the freshly fetched byte, and auto-increments the live
    /// address.
    pub fn read_register(&mut self, address: u16) -> (r: u8)
        requires
            old(self).wf(),
        ensures
            final(self).wf(),
            ppu_reg_read_rel(*old(self), *final(self), address, r),
    {
        if address == 0x2002 {
            0x80
        } else if address == 0x2007 {
            let previous_buffer = self.read_buffer;
            if self.vram_address < 0x2000 {
                self.read_buffer = self.chr_memory[self.vram_address as usize];
            } else if self.vram_address < 0x3F00 {
                let mapped = self.map_vram_address(self.vram_address);
                self.read_buffer = self.vram[mapped];
            } else {
                let index = if self.vram_address % 4 == 0 {
                    (self.vram_address % 16) as usize
                } else {
                    (self.vram_address % 32) as usize
                };
                self.read_buffer = self.palette_ram[index];
            }
            self.vram_address = (self.vram_address + if self.vram_increment_32 {
                32
            } else {
                1
            }) % 0x4000;
            previous_buffer
        } else {
            0
        }
    }

    /// Writes a register: only the address-select (0x2006) and data (0x2007)
    /// registers are implemented; writes to the other six are no-ops.
    pub fn write_register(&mut self, address: u16, value: u8)
        requires
            old(self).wf(),
            0x2000 <= address <= 0x2007,
        ensures
            final(self).wf(),
            ppu_reg_write_rel(*old(self), *final(self), address, value),
    {
        if address == 0x2006 {
            self.ppu_addr(value);
        } else if address == 0x2007 {
            self.ppu_data(value);
        }
    }

    /// One data-port write: routes the value by the live VRAM address into
    /// pattern memory (ignored unless RAM-backed), mirrored nametable VRAM,
    /// or aliased palette RAM, then auto-increments the live address.
    pub fn ppu_data(&mut self, value: u8)
        requires
            old(self).wf(),
        ensures
            final(self).wf(),
            ppu_data_rel(*old(self), *final(self), value),
    {
        if self.vram_address < 0x2000 {
            // Pattern memory is writable only when the cartridge supplied
            // none and it is backed by internal RAM.
            if self.chr_is_ram {
                self.chr_memory[self.vram_address as usize] = value;
            }
        } else if self.vram_address < 0x3F00 {
            let mapped_vram_index = self.map_vram_address(self.vram_address);
            self.vram[mapped_vram_index] = value;
        } else {
            if self.vram_address % 4 == 0 {
                self.palette_ram[(self.vram_address % 16) as usize] = value;
            } else {
                self.palette_ram[(self.vram_address % 32) as usize] = value;
            }
        }
        self.vram_address = (self.vram_address + if self.vram_increment_32 {
            32
        } else {
            1
        }) % 0x4000;
    }

    /// One address-select write: the first write of a pair sets the high
    /// 6 bits of the shadow address, the second adds the low byte and
    /// commits the shadow to the live address; the toggle flips every write.
    pub fn ppu_addr(&mut self, value: u8)
        requires
            old(self).wf(),
        ensures
            final(self).wf(),
            ppu_addr_rel(*old(self), *final(self), value),
    {
        if !self.write_latch {
            self.temporary_vram_address = (value % 64) as u16 * 256;
        } else {
            self.vram_address = self.temporary_vram_address + value as u16;
        }
        self.write_latch = !self.write_latch;
    }
}

/// Powers of two up to 128, for selecting a bit of a byte.
pub open spec fn pow2_8(i: int) -> int {
    if i <= 0 {
        1
    } else if i == 1 {
        2
    } else if i == 2 {
        4
    } else if i == 3 {
        8
    } else if i == 4 {
        16
    } else if i == 5 {
        32
    } else if i == 6 {
        64
    } else {
        128
    }
}

/// Bit `i` of a byte, as 0 or 1.
pub open spec fn bit_of(b: u8, i: int) -> int
    recommends
        0 <= i < 8,
{
    (b as int / pow2_8(i)) % 2
}

/// The 2-bit shade of pixel (`row`, `col`) of the 8x8 tile at `offset` in
/// pattern memory: the tile's two bit planes sit at `offset + row` and
/// `offset + row + 8`, and the column counts down from bit 7.
pub open spec fn tile_shade(chr: Seq<u8>, offset: int, row: int, col: int) -> int
    recommends
        0 <= row < 8,
        0 <= col < 8,
        0 <= offset,
        offset + 16 <= chr.len(),
{
    2 * bit_of(chr[offset + row + 8], 7 - col) + bit_of(chr[offset + row], 7 - col)
}

/// The grayscale value of one pixel of the pattern-table raster: the two
/// 16x16-tile tables sit side by side, and each 2-bit shade maps to the
/// fixed 4-step gray palette 0, 85, 170, 255.
pub open spec fn pattern_pixel_shade(chr: Seq<u8>, x: int, y: int) -> int
    recommends
        0 <= x < 256,
        0 <= y < 128,
        chr.len() >= 0x2000,
{
    let offset = (x / 128) * 4096 + ((y / 8) * 16 + (x / 8) % 16) * 16;
    85 * tile_shade(chr, offset, y % 8, x % 8)
}

/// The grayscale value of one pixel of the two-nametable raster: the tile
/// index comes from mirrored VRAM, the tile bitmap from pattern table 0.
pub open spec fn nametable_pixel_shade(p: Ppu, x: int, y: int) -> int
    recommends
        0 <= x < 512,
        0 <= y < 240,
        p.wf(),
{
    let nt_index = 0x2000 + (x / 256) * 0x400 + (y / 8) * 32 + (x / 8) % 32;
    let tile_index = p.vram@[map_addr(p.cartridge_info.mirroring, nt_index as u16)];
    85 * tile_shade(p.chr_memory@, tile_index * 16, y % 8, x % 8)
}

/// Whether the three color bytes of the pixel at `base` all hold `shade`.
pub open spec fn gray_pixel_at(frame: Seq<u8>, base: int, shade: int) -> bool {
    &&& frame[base] == shade
    &&& frame[base + 1] == shade
    &&& frame[base + 2] == shade
}

/// The power of two selecting bit `i` of a byte.
fn pow2_of(i: usize) -> (p: u8)
    requires
        i < 8,
    ensures
        p == pow2_8(i as int),
        p >= 1,
{
    if i == 0 {
        1
    } else if i == 1 {
        2
    } else if i == 2 {
        4
    } else if i == 3 {
        8
    } else if i == 4 {
        16
    } else if i == 5 {
        32
    } else if i == 6 {
        64
    } else {
        128
    }
}

impl Ppu {
    /// Renders pattern memory as a 256x128 grayscale raster: the two
    /// pattern tables side by side as 16x16 grids of 8x8 tiles, each 2-bit
    /// pixel decoded from the tile's two bit planes into a 4-shade gray.
    /// A read-only diagnostic projection; palette RAM is not consulted.
    pub fn debug_draw_pattern_tables(&self) -> (frame: Vec<u8>)
        requires
            self.wf(),
        ensures
            frame@.len() == 256 * 128 * 3,
            forall|x: int, y: int|
                0 <= x < 256 && 0 <= y < 128 ==> gray_pixel_at(
                    frame@,
                    (y * 256 + x) * 3,
                    pattern_pixel_shade(self.chr_memory@, x, y),
                ),
    {
        let mut frame: Vec<u8> = Vec::new();
        let mut y: usize = 0;
        while y < 128
            invariant
                self.wf(),
                y <= 128,
                frame@.len() == y * 768,
                forall|px: int, py: int|
                    0 <= px < 256 && 0 <= py < 128 && py * 256 + px < y * 256 ==> gray_pixel_at(
                        frame@,
                        (py * 256 + px) * 3,
                        pattern_pixel_shade(self.chr_memory@, px, py),
                    ),
            decreases 128 - y,
        {
            let mut x: usize = 0;
            while x < 256
                invariant
                    self.wf(),
                    y < 128,
                    x <= 256,
                    frame@.len() == (y * 256 + x) * 3,
                    forall|px: int, py: int|
                        0 <= px < 256 && 0 <= py < 128 && py * 256 + px < y * 256 + x
                            ==> gray_pixel_at(
                            frame@,
                            (py * 256 + px) * 3,
                            pattern_pixel_shade(self.chr_memory@, px, py),
                        ),
                decreases 256 - x,
            {
                let table = x / 128;
                let tile_x = (x / 8) % 16;
                let tile_y = y / 8;
                let row = y % 8;
                let col = x % 8;
                let offset = table * 4096 + (tile_y * 16 + tile_x) * 16;
                let tile_lsb = self.chr_memory[offset + row];
                let tile_msb = self.chr_memory[offset + row + 8];
                let pow = pow2_of(7 - col);
                let shade = 85 * (2 * ((tile_msb / pow) % 2) + (tile_lsb / pow) % 2);
                frame.push(shade);
                frame.push(shade);
                frame.push(shade);
                x = x + 1;
            }
            y = y + 1;
        }
        frame
    }

    /// Renders the two live nametables side by side as a 512x240 grayscale
    /// raster: each tile index is fetched through the mirroring function
    /// and its bitmap decoded from pattern table 0. A read-only diagnostic
    /// projection; palette RAM is not consulted.
    pub fn debug_draw_nametable(&self) -> (frame: Vec<u8>)
        requires
            self.wf(),
        ensures
            frame@.len() == 512 * 240 * 3,
            forall|x: int, y: int|
                0 <= x < 512 && 0 <= y < 240 ==> gray_pixel_at(
                    frame@,
                    (y * 512 + x) * 3,
                    nametable_pixel_shade(*self, x, y),
                ),
    {
        let mut frame: Vec<u8> = Vec::new();
        let mut y: usize = 0;
        while y < 240
            invariant
                self.wf(),
                y <= 240,
                frame@.len() == y * 1536,
                forall|px: int, py: int|
                    0 <= px < 512 && 0 <= py < 240 && py * 512 + px < y * 512 ==> gray_pixel_at(
                        frame@,
                        (py * 512 + px) * 3,
                        nametable_pixel_shade(*self, px, py),
                    ),
            decreases 240 - y,
        {
            let mut x: usize = 0;
            while x < 512
                invariant
                    self.wf(),
                    y < 240,
                    x <= 512,
                    frame@.len() == (y * 512 + x) * 3,
                    forall|px: int, py: int|
                        0 <= px < 512 && 0 <= py < 240 && py * 512 + px < y * 512 + x
                            ==> gray_pixel_at(
                            frame@,
                            (py * 512 + px) * 3,
                            nametable_pixel_shade(*self, px, py),
                        ),
                decreases 512 - x,
            {
                let nametable = x / 256;
                let tile_x = (x / 8) % 32;
                let tile_y = y / 8;
                let row = y % 8;
                let col = x % 8;
                let nt_index = 0x2000 + nametable * 0x400 + tile_y * 32 + tile_x;
                let mapped = self.map_vram_address(nt_index as u16);
                let tile_index = self.vram[mapped] as usize;
                let offset = tile_index * 16;
                let tile_lsb = self.chr_memory[offset + row];
                let tile_msb = self.chr_memory[offset + row + 8];
                let pow = pow2_of(7 - col);
                let shade = 85 * (2 * ((tile_msb / pow) % 2) + (tile_lsb / pow) % 2);
                frame.push(shade);
                frame.push(shade);
                frame.push(shade);
                x = x + 1;
            }
            y = y + 1;
        }
        frame
    }
}

} // verus!

use std::rc::Rc;
use vstd::prelude::*;
use crate::cartridge::{Cartridge, Mapper};
use crate::ppu::PpuRegisters;

verus! {

/// The 16-bit little-endian word made of the bytes `low` and `high`.
pub open spec fn word(low: u8, high: u8) -> u16 {
    (high as int * 256 + low as int) as u16
}

/// The address after `address` within its own 256-byte page: the last byte of a page is
/// followed by the first byte of the same page.
pub open spec fn next_in_page(address: u16) -> u16 {
    (address - address % 256 + (address % 256 + 1) % 256) as u16
}

proof fn lemma_word_bits(low: u16, high: u16) by (bit_vector)
    requires
        high < 256,
        low < 256,
    ensures
        (high << 8u16) | low == high * 256 + low,
{
}

proof fn lemma_ram_index(address: u16) by (bit_vector)
    ensures
        address & 0x07FF == address % 0x800,
{
}

proof fn lemma_palette_offset(offset: u16) by (bit_vector)
    ensures
        offset & 0x0020 == (offset / 0x20 % 2) * 0x20,
{
}

/// A word's low byte is its first byte and its high byte its second.
pub proof fn lemma_word(low: u8, high: u8)
    ensures
        word(low, high) % 256 == low,
        word(low, high) / 256 == high,
{
}

/// The address after `address` within its page stays in that page: it is the next address,
/// except that the last byte of a page is followed by the first byte of the same page.
pub proof fn lemma_next_in_page(address: u16)
    ensures
        next_in_page(address) / 256 == address / 256,
        address % 256 != 255 ==> next_in_page(address) == address + 1,
        address % 256 == 255 ==> next_in_page(address) % 256 == 0,
{
}

/// Something that answers reads and takes writes at 16-bit addresses.
pub trait Bus: Sized {
    /// Whether a read at `address` is defined.
    spec fn readable(&self, address: u16) -> bool;

    /// The byte that a read at `address` returns.
    spec fn peek(&self, address: u16) -> u8;

    /// Whether a write at `address` is defined.
    spec fn writable(&self, address: u16) -> bool;

    /// The bus after `value` is written at `address`.
    spec fn poke(&self, value: u8, address: u16) -> Self;

    fn read(&self, address: u16) -> (r: u8)
        requires
            self.readable(address),
        ensures
            r == self.peek(address),
    ;

    /// Reads the little-endian word at `address` and the address after it.
    fn read_u16(&self, address: u16) -> (r: u16)
        requires
            self.readable(address),
            self.readable(address.wrapping_add(1)),
        ensures
            r == word(self.peek(address), self.peek(address.wrapping_add(1))),
    {
        let low = self.read(address) as u16;
        let high = self.read(address.wrapping_add(1)) as u16;
        proof {
            lemma_word_bits(low, high);
        }
        (high << 8) | low
    }

    fn write(&mut self, value: u8, address: u16)
        requires
            old(self).writable(address),
        ensures
            *final(self) == old(self).poke(value, address),
    ;

    /// Reads the word at a zero-page address; the high byte of the word at 0xFF comes from 0x00.
    fn read_u16_zp(&self, address: u8) -> (r: u16)
        requires
            self.readable(address as u16),
            self.readable(address.wrapping_add(1) as u16),
        ensures
            r == word(self.peek(address as u16), self.peek(address.wrapping_add(1) as u16)),
    {
        let low = self.read(address as u16) as u16;
        let high = self.read(address.wrapping_add(1) as u16) as u16;
        proof {
            lemma_word_bits(low, high);
        }
        (high << 8) | low
    }

    /// Reads a word whose high byte comes from the next address in the same page, as the
    /// 6502 does for indirect jumps.
    fn read_u16_bug(&self, address: u16) -> (r: u16)
        requires
            self.readable(address),
            self.readable(next_in_page(address)),
        ensures
            r == word(self.peek(address), self.peek(next_in_page(address))),
    {
        let low = self.read(address) as u16;
        let high_address = if (address & 0x00FF) == 0x00FF {
            address & 0xFF00
        } else {
            address.wrapping_add(1)
        };
        assert(high_address == next_in_page(address)) by (bit_vector)
            requires
                high_address == if (address & 0x00FF) == 0x00FF {
                    address & 0xFF00
                } else {
                    address.wrapping_add(1)
                },
        ;
        let high = self.read(high_address) as u16;
        proof {
            lemma_word_bits(low, high);
        }
        (high << 8) | low
    }
}

/// The CPU's view of memory: 2 KiB of RAM mirrored over 0x0000-0x1FFF, the cartridge from
/// 0x4020 up, and nothing in between.
pub struct CpuBus {
    pub ram: [u8; 0x0800],
    pub cartridge: Rc<Cartridge>,
    /// The PPU registers as the CPU bus holds them. No address of the bus reaches them:
    /// 0x2000-0x401F reads 0 and takes no writes.
    pub ppu_registers: PpuRegisters,
}

impl Bus for CpuBus {
    open spec fn readable(&self, address: u16) -> bool {
        address < 0x4020 || self.cartridge.mapper.cpu_readable(self.cartridge.prg_rom@, address)
    }

    open spec fn peek(&self, address: u16) -> u8 {
        if address <= 0x1FFF {
            self.ram@[address as int % 0x800]
        } else if address >= 0x4020 {
            self.cartridge.mapper.cpu_value(self.cartridge.prg_rom@, address)
        } else {
            0
        }
    }

    open spec fn writable(&self, address: u16) -> bool {
        true
    }

    open spec fn poke(&self, value: u8, address: u16) -> Self {
        if address <= 0x1FFF {
            CpuBus {
                ram: vstd::array::spec_array_update(self.ram, address as int % 0x800, value),
                cartridge: self.cartridge,
                ppu_registers: self.ppu_registers,
            }
        } else {
            *self
        }
    }

    fn read(&self, address: u16) -> (r: u8) {
        if address <= 0x1FFF {
            proof {
                lemma_ram_index(address);
            }
            self.ram[(address & 0x07FF) as usize]
        } else if address >= 0x4020 {
            self.cartridge.cpu_read(address)
        } else {
            0
        }
    }

    fn write(&mut self, value: u8, address: u16) {
        if address <= 0x1FFF {
            proof {
                lemma_ram_index(address);
            }
            self.ram[(address & 0x07FF) as usize] = value;
            assert(self.ram =~= vstd::array::spec_array_update(old(self).ram, address as int % 0x800, value));
        }
        // Writes from 0x4020 up go to the cartridge, whose `cpu_write` ignores them.
    }
}

impl CpuBus {
    /// Whether the bus is as it powers on: RAM cleared, with `cartridge` and `ppu_registers`.
    pub open spec fn is_power_on(self, cartridge: Rc<Cartridge>, ppu_registers: PpuRegisters) -> bool {
        &&& self.ram@ == Seq::new(0x800, |i: int| 0u8)
        &&& self.cartridge == cartridge
        &&& self.ppu_registers == ppu_registers
    }

    pub fn new(cartridge: Rc<Cartridge>, ppu_registers: PpuRegisters) -> (b: Self)
        ensures
            b.is_power_on(cartridge, ppu_registers),
    {
        let b = Self { ram: [0; 0x0800], cartridge, ppu_registers };
        assert(b.ram@ =~= Seq::new(0x800, |i: int| 0u8));
        b
    }
}

/// Index into palette RAM that the PPU address `address` (0x3F00-0x3FFF) selects: bit 5 of
/// its offset from 0x3F00, left in place. Only the index 0 lies within palette RAM, so every
/// palette address that can be read or written reaches its first byte.
pub open spec fn palette_index(address: u16) -> int {
    ((address - 0x3F00) / 0x20 % 2) * 0x20
}

/// The PPU's view of memory: the cartridge's pattern tables and nametables below 0x3F00,
/// palette RAM from 0x3F00 to 0x3FFF. Only palette RAM takes writes.
pub struct PpuBus {
    pub cartridge: Rc<Cartridge>,
    pub vram: [u8; 0x0800],
    pub palette_ram: [u8; 0x0020],
}

impl Bus for PpuBus {
    open spec fn readable(&self, address: u16) -> bool {
        if address <= 0x3EFF {
            self.cartridge.mapper.ppu_readable(self.cartridge.chr, self.vram@, address)
        } else if address <= 0x3FFF {
            palette_index(address) < 0x20
        } else {
            true
        }
    }

    open spec fn peek(&self, address: u16) -> u8 {
        if address <= 0x3EFF {
            self.cartridge.mapper.ppu_value(self.cartridge.chr, self.vram@, address)
        } else if address <= 0x3FFF {
            self.palette_ram@[palette_index(address)]
        } else {
            0
        }
    }

    open spec fn writable(&self, address: u16) -> bool {
        0x3F00 <= address <= 0x3FFF ==> palette_index(address) < 0x20
    }

    open spec fn poke(&self, value: u8, address: u16) -> Self {
        if 0x3F00 <= address <= 0x3FFF {
            PpuBus {
                cartridge: self.cartridge,
                vram: self.vram,
                palette_ram: vstd::array::spec_array_update(
                    self.palette_ram,
                    palette_index(address),
                    value,
                ),
            }
        } else {
            *self
        }
    }

    fn read(&self, address: u16) -> (r: u8) {
        if address <= 0x3EFF {
            self.cartridge.mapper.ppu_read(&self.cartridge.chr, &self.vram, address)
        } else if address <= 0x3FFF {
            let offset = address - 0x3F00;
            proof {
                lemma_palette_offset(offset);
            }
            self.palette_ram[(offset & 0x0020) as usize]
        } else {
            0
        }
    }

    fn write(&mut self, value: u8, address: u16) {
        if 0x3F00 <= address && address <= 0x3FFF {
            let offset = address - 0x3F00;
            proof {
                lemma_palette_offset(offset);
            }
            self.palette_ram[(offset & 0x0020) as usize] = value;
            assert(self.palette_ram =~= vstd::array::spec_array_update(
                old(self).palette_ram,
                palette_index(address),
                value,
            ));
        }
    }
}

impl PpuBus {
    /// Whether the bus is as it powers on: VRAM and palette RAM cleared, with `cartridge`.
    pub open spec fn is_power_on(self, cartridge: Rc<Cartridge>) -> bool {
        &&& self.cartridge == cartridge
        &&& self.vram@ == Seq::new(0x800, |i: int| 0u8)
        &&& self.palette_ram@ == Seq::new(0x20, |i: int| 0u8)
    }

    pub fn new(cartridge: Rc<Cartridge>) -> (b: Self)
        ensures
            b.is_power_on(cartridge),
    {
        let b = Self { cartridge, vram: [0; 0x0800], palette_ram: [0; 0x0020] };
        assert(b.vram@ =~= Seq::new(0x800, |i: int| 0u8));
        assert(b.palette_ram@ =~= Seq::new(0x20, |i: int| 0u8));
        b
    }
}

/// A read from the CPU bus gives back the last write to the same RAM cell (0x0000-0x1FFF,
/// mirrored every 2 KiB); writes anywhere else, and writes to other cells, leave every read
/// as it was.
pub proof fn lemma_cpu_bus_read_after_write(bus: CpuBus, value: u8, written: u16, read: u16)
    ensures
        bus.poke(value, written).readable(read) == bus.readable(read),
        bus.poke(value, written).peek(read) == if written <= 0x1FFF && read <= 0x1FFF && written
            % 0x800 == read % 0x800 {
            value
        } else {
            bus.peek(read)
        },
{
}

/// The CPU bus reads RAM below 0x2000, 0 from 0x2000 to 0x401F, and the cartridge's PRG ROM
/// from 0x8000 up, where it can be read.
pub proof fn lemma_cpu_memory_map(bus: CpuBus, address: u16)
    ensures
        address < 0x2000 ==> bus.readable(address) && bus.peek(address) == bus.ram@[address as int % 0x800],
        0x2000 <= address < 0x4020 ==> bus.readable(address) && bus.peek(address) == 0,
        0x4020 <= address < 0x8000 ==> !bus.readable(address),
        0x8000 <= address ==> bus.peek(address) == bus.cartridge.prg_rom@[bus.cartridge.mapper.prg_index(address)],
{
}

/// The 2 KiB of CPU RAM repeat four times over 0x0000-0x1FFF.
pub proof fn lemma_cpu_ram_mirroring(bus: CpuBus, address: u16)
    requires
        address <= 0x1FFF,
    ensures
        bus.peek(address) == bus.peek(address % 0x800),
        bus.peek(address) == bus.peek((address % 0x800 + 0x800) as u16),
        bus.peek(address) == bus.peek((address % 0x800 + 0x1000) as u16),
        bus.peek(address) == bus.peek((address % 0x800 + 0x1800) as u16),
{
}

/// Incrementing and then decrementing a byte of CPU memory, as INC and DEC do, leaves every
/// read as it was.
pub proof fn lemma_cpu_bus_increment_decrement(bus: CpuBus, address: u16, read: u16)
    ensures
        ({
            let up = bus.poke(bus.peek(address).wrapping_add(1), address);
            let down = up.poke(up.peek(address).wrapping_sub(1), address);
            down.peek(read) == bus.peek(read)
        }),
{
}

/// A read of palette RAM gives back the last write to it: every palette address that can be
/// read and written reaches the same byte.
pub proof fn lemma_palette_read_after_write(bus: PpuBus, value: u8, written: u16, read: u16)
    requires
        0x3F00 <= written <= 0x3FFF,
        bus.writable(written),
        0x3F00 <= read <= 0x3FFF,
        bus.readable(read),
    ensures
        bus.poke(value, written).peek(read) == value,
{
}

/// With vertical mirroring the nametables at 0x2000 and 0x2800 (and at 0x2400 and 0x2C00)
/// are the same memory; with horizontal mirroring all four read the first kilobyte of VRAM,
/// 0x2800-0x2BFF excepted, which cannot be read.
pub proof fn lemma_nametable_mirroring(bus: PpuBus, address: u16)
    requires
        bus.cartridge.chr is Rom,
        0x2000 <= address < 0x2400,
    ensures
        bus.cartridge.mapper.header.vertical_mirroring ==> {
            &&& bus.readable(address) && bus.readable((address + 0x800) as u16)
            &&& bus.peek(address) == bus.peek((address + 0x800) as u16)
            &&& bus.peek((address + 0x400) as u16) == bus.peek((address + 0xC00) as u16)
        },
        !bus.cartridge.mapper.header.vertical_mirroring ==> {
            &&& bus.readable(address) && bus.readable((address + 0x400) as u16)
            &&& bus.readable((address + 0xC00) as u16)
            &&& !bus.readable((address + 0x800) as u16)
            &&& bus.peek(address) == bus.peek((address + 0x400) as u16)
            &&& bus.peek(address) == bus.peek((address + 0xC00) as u16)
        },
{
}

/// The first nametable (0x2000-0x23FF) is the first kilobyte of VRAM; with vertical
/// mirroring the second (0x2400-0x27FF) is the second kilobyte, and with horizontal
/// mirroring it is the first kilobyte again.
pub proof fn lemma_nametable_memory(bus: PpuBus, offset: u16)
    requires
        bus.cartridge.chr is Rom,
        offset < 0x400,
    ensures
        bus.peek((0x2000 + offset) as u16) == bus.vram@[offset as int],
        bus.cartridge.mapper.header.vertical_mirroring ==> bus.peek((0x2400 + offset) as u16)
            == bus.vram@[0x400 + offset],
        !bus.cartridge.mapper.header.vertical_mirroring ==> bus.peek((0x2400 + offset) as u16)
            == bus.vram@[offset as int],
{
}

/// PPU addresses 0x3000-0x3EFF read the pattern tables at 0x0000-0x0EFF.
pub proof fn lemma_upper_mirror(bus: PpuBus, address: u16)
    requires
        0x3000 <= address <= 0x3EFF,
    ensures
        bus.readable(address) == bus.readable((address - 0x3000) as u16),
        bus.peek(address) == bus.peek((address - 0x3000) as u16),
{
}

} // verus!

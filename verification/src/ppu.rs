use vstd::prelude::*;
use crate::bus::{Bus, PpuBus};

verus! {

pub const CTRL_NMI: u8 = 0b1000_0000;

pub const STATUS_VBLANK: u8 = 0b1000_0000;

/// Dots in a scanline.
pub const DOTS: u16 = 341;

/// Scanlines in a frame.
pub const SCANLINES: u16 = 262;

/// The PPU's registers as the CPU sees them at 0x2000-0x2007.
pub struct PpuRegisters {
    pub ppuctrl: u8,
    pub ppumask: u8,
    pub ppustatus: u8,
    pub oamaddr: u8,
    pub oamdata: u8,
    pub ppuscroll: u8,
    pub ppuaddr: u8,
    pub ppudata: u8,
}

/// Bit `i` of `b`, as 0 or 1.
pub open spec fn bit_of(b: u8, i: u8) -> u8 {
    (b >> i) & 1
}

/// Coarse X scroll (bits 0-4) of a VRAM address.
pub open spec fn coarse_x_of(v: u16) -> int {
    v as int % 32
}

/// Coarse Y scroll (bits 5-9) of a VRAM address.
pub open spec fn coarse_y_of(v: u16) -> int {
    v as int / 32 % 32
}

/// Horizontal nametable select (bit 10) of a VRAM address.
pub open spec fn nametable_x_of(v: u16) -> int {
    v as int / 0x400 % 2
}

/// Vertical nametable select (bit 11) of a VRAM address.
pub open spec fn nametable_y_of(v: u16) -> int {
    v as int / 0x800 % 2
}

/// Fine Y scroll (bits 12-14) of a VRAM address.
pub open spec fn fine_y_of(v: u16) -> int {
    v as int / 0x1000 % 8
}

/// Bit 15 of a VRAM address, which no scroll field uses.
pub open spec fn top_bit_of(v: u16) -> int {
    v as int / 0x8000
}

/// Address of the nametable byte for VRAM address `v`.
pub open spec fn nametable_address(v: u16) -> u16 {
    (0x2000 + v % 0x1000) as u16
}

/// Address of the attribute byte for VRAM address `v`: the attribute table of the selected
/// nametable, at the 4x4-tile block that holds the coarse position.
pub open spec fn attribute_address(v: u16) -> u16 {
    (0x23C0 + (nametable_y_of(v) * 2 + nametable_x_of(v)) * 0x400 + (coarse_y_of(v) / 4) * 8 + coarse_x_of(v) / 4) as u16
}

/// The nametable byte of VRAM address `v` lies in the nametable that v selects (bits 10-11),
/// at the tile of its coarse position; the attribute byte lies in the attribute table
/// (the last 64 bytes) of that same nametable, at the 4x4-tile block of the coarse position.
pub proof fn lemma_background_addresses(v: u16)
    ensures
        0x2000 <= nametable_address(v) < 0x3000,
        nametable_address(v) / 0x400 % 4 == v / 0x400 % 4,
        nametable_address(v) % 0x400 == coarse_y_of(v) * 32 + coarse_x_of(v),
        0x2000 <= attribute_address(v) < 0x3000,
        attribute_address(v) / 0x400 % 4 == v / 0x400 % 4,
        attribute_address(v) % 0x400 == 0x3C0 + (coarse_y_of(v) / 4) * 8 + coarse_x_of(v) / 4,
{
    let vi = v as int;
    let cx = vi % 32;
    let cy = vi / 32 % 32;
    let nt = vi / 0x400 % 4;
    assert(vi % 0x1000 == nt * 0x400 + cy * 32 + cx) by (nonlinear_arith)
        requires
            0 <= vi,
            cx == vi % 32,
            cy == vi / 32 % 32,
            nt == vi / 0x400 % 4,
    {
        vstd::arithmetic::div_mod::lemma_fundamental_div_mod(vi, 32);
        vstd::arithmetic::div_mod::lemma_fundamental_div_mod(vi / 32, 32);
        vstd::arithmetic::div_mod::lemma_div_denominator(vi, 32, 32);
        vstd::arithmetic::div_mod::lemma_fundamental_div_mod(vi / 0x400, 4);
        vstd::arithmetic::div_mod::lemma_div_denominator(vi, 0x400, 4);
        vstd::arithmetic::div_mod::lemma_fundamental_div_mod(vi, 0x1000);
    }
    assert(nametable_x_of(v) + nametable_y_of(v) * 2 == nt) by {
        vstd::arithmetic::div_mod::lemma_div_denominator(vi, 0x400, 2);
        vstd::arithmetic::div_mod::lemma_fundamental_div_mod(vi / 0x400, 2);
        vstd::arithmetic::div_mod::lemma_mod_mod(vi / 0x400, 2, 2);
        vstd::arithmetic::div_mod::lemma_fundamental_div_mod(vi / 0x400, 4);
    }
}

/// The register that a CPU read at `address` returns (0 outside 0x2000-0x2007).
pub open spec fn register_value(r: PpuRegisters, address: u16) -> u8 {
    if address == 0x2000 {
        r.ppuctrl
    } else if address == 0x2001 {
        r.ppumask
    } else if address == 0x2002 {
        r.ppustatus
    } else if address == 0x2003 {
        r.oamaddr
    } else if address == 0x2004 {
        r.oamdata
    } else if address == 0x2005 {
        r.ppuscroll
    } else if address == 0x2006 {
        r.ppuaddr
    } else if address == 0x2007 {
        r.ppudata
    } else {
        0
    }
}

impl PpuRegisters {
    /// The registers after the CPU writes `value` at `address`; PPUSTATUS (0x2002) and
    /// addresses outside 0x2000-0x2007 take no writes.
    pub open spec fn written(self, address: u16, value: u8) -> PpuRegisters {
        PpuRegisters {
            ppuctrl: if address == 0x2000 { value } else { self.ppuctrl },
            ppumask: if address == 0x2001 { value } else { self.ppumask },
            ppustatus: self.ppustatus,
            oamaddr: if address == 0x2003 { value } else { self.oamaddr },
            oamdata: if address == 0x2004 { value } else { self.oamdata },
            ppuscroll: if address == 0x2005 { value } else { self.ppuscroll },
            ppuaddr: if address == 0x2006 { value } else { self.ppuaddr },
            ppudata: if address == 0x2007 { value } else { self.ppudata },
        }
    }

    pub open spec fn with_ctrl(self, ppuctrl: u8) -> PpuRegisters {
        PpuRegisters { ppuctrl, ..self }
    }

    pub open spec fn with_status(self, ppustatus: u8) -> PpuRegisters {
        PpuRegisters { ppustatus, ..self }
    }

    /// The registers with the vertical-blank bit of PPUSTATUS set to `value`.
    pub open spec fn with_vblank(self, value: bool) -> PpuRegisters {
        self.with_status(
            if value {
                self.ppustatus | STATUS_VBLANK
            } else {
                self.ppustatus & !STATUS_VBLANK
            },
        )
    }

    /// The registers at power-on: all zero.
    pub open spec fn power_on() -> PpuRegisters {
        PpuRegisters {
            ppuctrl: 0,
            ppumask: 0,
            ppustatus: 0,
            oamaddr: 0,
            oamdata: 0,
            ppuscroll: 0,
            ppuaddr: 0,
            ppudata: 0,
        }
    }

    pub fn new() -> (r: Self)
        ensures
            r == PpuRegisters::power_on(),
    {
        Self {
            ppuctrl: 0,
            ppumask: 0,
            ppustatus: 0,
            oamaddr: 0,
            oamdata: 0,
            ppuscroll: 0,
            ppuaddr: 0,
            ppudata: 0,
        }
    }

    pub fn set_ctrl_nmi(&mut self, value: bool)
        ensures
            *final(self) == old(self).with_ctrl(
                if value {
                    old(self).ppuctrl | CTRL_NMI
                } else {
                    old(self).ppuctrl & !CTRL_NMI
                },
            ),
    {
        if value {
            self.ppuctrl |= CTRL_NMI
        } else {
            self.ppuctrl &= !CTRL_NMI
        }
    }

    pub fn set_status_vblank(&mut self, value: bool)
        ensures
            *final(self) == old(self).with_vblank(value),
    {
        if value {
            self.ppustatus |= STATUS_VBLANK
        } else {
            self.ppustatus &= !STATUS_VBLANK
        }
    }

    /// Which pattern table (0 or 1) PPUCTRL selects for the background: its bit 4.
    pub fn ctrl_pattern_table(&self) -> (r: u8)
        ensures
            r == self.ppuctrl / 16 % 2,
    {
        let c = self.ppuctrl;
        assert((c & 0x10) >> 4 == c / 16 % 2) by (bit_vector);
        (c & 0x10) >> 4
    }
}

/// The picture processing unit: its internal scroll registers, its position in the frame,
/// its bus and the shift registers of the background pipeline.
pub struct Ppu {
    pub v: u16,
    pub t: u16,
    pub x: u8,
    pub w: bool,
    pub mmio: PpuRegisters,
    pub dot: u16,
    pub scanline: u16,
    pub bus: PpuBus,
    pub oam: [u8; 256],
    pub attribute_shift_low: u8,
    pub attribute_shift_high: u8,
    pub pattern_shift_low: u16,
    pub pattern_shift_high: u16,
}

/// The (dot, scanline) that follows (dot, scanline): the dot advances, and past the last
/// dot of a line the next line starts, the line after the last one being line 0.
pub open spec fn next_position(dot: u16, scanline: u16) -> (u16, u16) {
    if dot + 1 == DOTS {
        (0, if scanline + 1 == SCANLINES { 0 } else { (scanline + 1) as u16 })
    } else {
        ((dot + 1) as u16, scanline)
    }
}

/// Whether (dot, scanline) is a dot of the frame.
pub open spec fn in_frame(dot: u16, scanline: u16) -> bool {
    dot < DOTS && scanline < SCANLINES
}

/// How many dots from the start of the frame (dot, scanline) is.
pub open spec fn position_in_frame(dot: u16, scanline: u16) -> int {
    scanline * DOTS + dot
}

/// The (dot, scanline) that `n` ticks from (dot, scanline) reach.
pub open spec fn position_after(dot: u16, scanline: u16, n: nat) -> (u16, u16)
    decreases n,
{
    if n == 0 {
        (dot, scanline)
    } else {
        let (d, s) = position_after(dot, scanline, (n - 1) as nat);
        next_position(d, s)
    }
}

/// One tick moves a dot of the frame one place on, the last dot of the frame being followed
/// by the first.
pub proof fn lemma_next_position(dot: u16, scanline: u16)
    requires
        in_frame(dot, scanline),
    ensures
        in_frame(next_position(dot, scanline).0, next_position(dot, scanline).1),
        position_in_frame(next_position(dot, scanline).0, next_position(dot, scanline).1) == (
        position_in_frame(dot, scanline) + 1) % (DOTS * SCANLINES),
{
    let p = position_in_frame(dot, scanline);
    if p + 1 < DOTS * SCANLINES {
        vstd::arithmetic::div_mod::lemma_small_mod((p + 1) as nat, (DOTS * SCANLINES) as nat);
    } else {
        vstd::arithmetic::div_mod::lemma_mod_self_0((DOTS * SCANLINES) as int);
    }
}

/// `n` ticks move a dot of the frame `n` places on, around the frame.
pub proof fn lemma_ticks_advance(dot: u16, scanline: u16, n: nat)
    requires
        in_frame(dot, scanline),
    ensures
        in_frame(position_after(dot, scanline, n).0, position_after(dot, scanline, n).1),
        position_in_frame(position_after(dot, scanline, n).0, position_after(dot, scanline, n).1)
            == (position_in_frame(dot, scanline) + n) % (DOTS * SCANLINES),
    decreases n,
{
    let f = (DOTS * SCANLINES) as int;
    let p = position_in_frame(dot, scanline);
    if n == 0 {
        vstd::arithmetic::div_mod::lemma_small_mod(p as nat, f as nat);
    } else {
        lemma_ticks_advance(dot, scanline, (n - 1) as nat);
        let (d, s) = position_after(dot, scanline, (n - 1) as nat);
        lemma_next_position(d, s);
        vstd::arithmetic::div_mod::lemma_add_mod_noop(p + n - 1, 1, f);
        vstd::arithmetic::div_mod::lemma_small_mod(1, f as nat);
        vstd::arithmetic::div_mod::lemma_mod_twice(p + n - 1, f);
    }
}

/// After a frame's worth of ticks (341 dots times 262 scanlines) the PPU is back at the dot
/// it started from.
pub proof fn lemma_frame_period(dot: u16, scanline: u16)
    requires
        in_frame(dot, scanline),
    ensures
        position_after(dot, scanline, (DOTS * SCANLINES) as nat) == (dot, scanline),
{
    let f = (DOTS * SCANLINES) as int;
    lemma_ticks_advance(dot, scanline, f as nat);
    let p = position_in_frame(dot, scanline);
    vstd::arithmetic::div_mod::lemma_mod_add_multiples_vanish(p, f);
    vstd::arithmetic::div_mod::lemma_small_mod(p as nat, f as nat);
}

/// A CPU read of PPUSTATUS during the tick that starts the vertical blank sees bit 7 set,
/// and during the tick that ends it sees bit 7 clear.
pub proof fn lemma_vblank_flag(ppu: Ppu)
    ensures
        ppu.scanline == 241 && ppu.dot == 1 ==> register_value(ppu.registers_after_tick(), 0x2002)
            >= 0x80,
        ppu.scanline == 261 && ppu.dot == 1 ==> register_value(ppu.registers_after_tick(), 0x2002)
            < 0x80,
{
    let st = ppu.mmio.ppustatus;
    assert(st | STATUS_VBLANK >= 0x80 && st & !STATUS_VBLANK < 0x80) by (bit_vector);
}

/// Setting or clearing the vertical-blank flag changes bit 7 of PPUSTATUS and nothing else.
pub proof fn lemma_vblank_bit(r: PpuRegisters, value: bool)
    ensures
        (r.with_vblank(value).ppustatus >= 0x80) == value,
        r.with_vblank(value).ppustatus % 0x80 == r.ppustatus % 0x80,
        registers_in_order(r.with_vblank(value)) == registers_in_order(r).update(
            2,
            r.with_vblank(value).ppustatus,
        ),
{
    let st = r.ppustatus;
    let set = st | STATUS_VBLANK;
    let clear = st & !STATUS_VBLANK;
    assert(set >= 0x80 && clear < 0x80 && set % 0x80 == st % 0x80 && clear % 0x80 == st % 0x80)
        by (bit_vector)
        requires
            set == st | STATUS_VBLANK,
            clear == st & !STATUS_VBLANK,
    ;
    assert(registers_in_order(r.with_vblank(value)) =~= registers_in_order(r).update(
        2,
        r.with_vblank(value).ppustatus,
    ));
}

/// A tick changes the registers only at dot 1 of scanline 241, where it sets the
/// vertical-blank flag, and at dot 1 of scanline 261, where it clears it; everywhere else the
/// registers stay as they are.
pub proof fn lemma_tick_registers(ppu: Ppu)
    ensures
        !(ppu.dot == 1 && (ppu.scanline == 241 || ppu.scanline == 261)) ==> ppu.registers_after_tick()
            == ppu.mmio,
        ppu.dot == 1 && ppu.scanline == 241 ==> ppu.registers_after_tick().ppustatus >= 0x80
            && ppu.registers_after_tick().ppustatus % 0x80 == ppu.mmio.ppustatus % 0x80
            && registers_in_order(ppu.registers_after_tick()) == registers_in_order(ppu.mmio).update(
            2,
            ppu.registers_after_tick().ppustatus,
        ),
        ppu.dot == 1 && ppu.scanline == 261 ==> ppu.registers_after_tick().ppustatus < 0x80
            && ppu.registers_after_tick().ppustatus % 0x80 == ppu.mmio.ppustatus % 0x80
            && registers_in_order(ppu.registers_after_tick()) == registers_in_order(ppu.mmio).update(
            2,
            ppu.registers_after_tick().ppustatus,
        ),
{
    lemma_vblank_bit(ppu.mmio, true);
    lemma_vblank_bit(ppu.mmio, false);
}

/// The eight registers in the order of their CPU addresses 0x2000-0x2007: PPUCTRL,
/// PPUMASK, PPUSTATUS, OAMADDR, OAMDATA, PPUSCROLL, PPUADDR, PPUDATA.
pub open spec fn registers_in_order(r: PpuRegisters) -> Seq<u8> {
    seq![r.ppuctrl, r.ppumask, r.ppustatus, r.oamaddr, r.oamdata, r.ppuscroll, r.ppuaddr, r.ppudata]
}

/// Address 0x2000 + k reaches register k of the PPU's register order: a CPU read there
/// returns that register, and a CPU write there sets that register and no other (PPUSTATUS
/// takes no writes). Addresses outside 0x2000-0x2007 read 0 and take no writes.
pub proof fn lemma_register_addresses(r: PpuRegisters, address: u16, value: u8)
    ensures
        0x2000 <= address <= 0x2007 ==> register_value(r, address) == registers_in_order(r)[address
            - 0x2000],
        0x2000 <= address <= 0x2007 && address != 0x2002 ==> registers_in_order(
            r.written(address, value),
        ) == registers_in_order(r).update(address - 0x2000, value),
        !(0x2000 <= address <= 0x2007) ==> register_value(r, address) == 0,
        !(0x2000 <= address <= 0x2007) || address == 0x2002 ==> r.written(address, value) == r,
{
    assert(registers_in_order(r.written(address, value)) =~= if 0x2000 <= address <= 0x2007
        && address != 0x2002 {
        registers_in_order(r).update(address - 0x2000, value)
    } else {
        registers_in_order(r)
    });
}

/// A CPU read of a PPU register gives back what the CPU last wrote to it, PPUSTATUS aside,
/// which takes no writes; a write to one register leaves the others as they were.
pub proof fn lemma_register_read_after_write(r: PpuRegisters, written: u16, value: u8, read: u16)
    ensures
        0x2000 <= written <= 0x2007 && written != 0x2002 ==> register_value(
            r.written(written, value),
            written,
        ) == value,
        r.written(0x2002, value) == r,
        read != written ==> register_value(r.written(written, value), read) == register_value(
            r,
            read,
        ),
{
}

impl Ppu {
    /// Whether the PPU is at a dot of the frame: dot below 341, scanline below 262.
    pub open spec fn in_frame(self) -> bool {
        in_frame(self.dot, self.scanline)
    }

    /// How many dots from the start of the frame the PPU is.
    pub open spec fn frame_position(self) -> int {
        position_in_frame(self.dot, self.scanline)
    }

    pub open spec fn with_mmio(self, mmio: PpuRegisters) -> Ppu {
        Ppu { mmio, ..self }
    }

    pub open spec fn with_timing(self, dot: u16, scanline: u16) -> Ppu {
        Ppu { dot, scanline, ..self }
    }

    pub open spec fn with_w(self, w: bool) -> Ppu {
        Ppu { w, ..self }
    }

    pub open spec fn with_v(self, v: u16) -> Ppu {
        Ppu { v, ..self }
    }

    /// The registers after the tick at the current position: the vertical blank starts at
    /// dot 1 of line 241 and ends at dot 1 of line 261.
    pub open spec fn registers_after_tick(self) -> PpuRegisters {
        if self.scanline == 241 && self.dot == 1 {
            self.mmio.with_vblank(true)
        } else if self.scanline == 261 && self.dot == 1 {
            self.mmio.with_vblank(false)
        } else {
            self.mmio
        }
    }

    /// Whether the PPU is as it powers on with `registers` and `bus`: at the start of the
    /// frame, with its scroll, shift registers and OAM cleared.
    pub open spec fn is_power_on(self, registers: PpuRegisters, bus: PpuBus) -> bool {
        &&& self.v == 0 && self.t == 0 && self.x == 0 && !self.w
        &&& self.mmio == registers
        &&& self.dot == 0 && self.scanline == 0
        &&& self.bus == bus
        &&& self.oam@ == Seq::new(256, |i: int| 0u8)
        &&& self.attribute_shift_low == 0 && self.attribute_shift_high == 0
        &&& self.pattern_shift_low == 0 && self.pattern_shift_high == 0
    }

    pub fn new(registers: PpuRegisters, bus: PpuBus) -> (p: Self)
        ensures
            p.is_power_on(registers, bus),
    {
        let p = Self {
            v: 0,
            t: 0,
            x: 0,
            w: false,
            mmio: registers,
            dot: 0,
            scanline: 0,
            bus,
            oam: [0; 256],
            attribute_shift_low: 0,
            attribute_shift_high: 0,
            pattern_shift_low: 0,
            pattern_shift_high: 0,
        };
        assert(p.oam@ =~= Seq::new(256, |i: int| 0u8));
        p
    }

    /// Advances the PPU by one dot.
    pub fn tick(&mut self)
        requires
            old(self).dot < 0xFFFF,
            old(self).dot + 1 == DOTS ==> old(self).scanline < 0xFFFF,
        ensures
            *final(self) == old(self).with_mmio(old(self).registers_after_tick()).with_timing(
                next_position(old(self).dot, old(self).scanline).0,
                next_position(old(self).dot, old(self).scanline).1,
            ),
            old(self).in_frame() ==> final(self).in_frame() && final(self).frame_position() == (
            old(self).frame_position() + 1) % (DOTS * SCANLINES),
    {
        proof {
            if old(self).in_frame() {
                lemma_next_position(old(self).dot, old(self).scanline);
            }
        }
        if self.scanline == 241 && self.dot == 1 {
            self.mmio.set_status_vblank(true);
        } else if self.scanline == 261 && self.dot == 1 {
            self.mmio.set_status_vblank(false);
        }
        self.dot += 1;

        if self.dot == 341 {
            self.dot = 0;

            self.scanline += 1;

            if self.scanline == 262 {
                self.scanline = 0;
            }
        }
    }

    /// A CPU read of a PPU register; reading PPUSTATUS ends the vertical blank and resets
    /// the write toggle.
    pub fn cpu_read(&mut self, address: u16) -> (r: u8)
        ensures
            r == register_value(old(self).mmio, address),
            *final(self) == if address == 0x2002 {
                old(self).with_mmio(old(self).mmio.with_vblank(false)).with_w(false)
            } else {
                *old(self)
            },
    {
        if address == 0x2000 {
            self.mmio.ppuctrl
        } else if address == 0x2001 {
            self.mmio.ppumask
        } else if address == 0x2002 {
            let status = self.mmio.ppustatus;
            self.mmio.set_status_vblank(false);
            self.w = false;
            status
        } else if address == 0x2003 {
            self.mmio.oamaddr
        } else if address == 0x2004 {
            self.mmio.oamdata
        } else if address == 0x2005 {
            self.mmio.ppuscroll
        } else if address == 0x2006 {
            self.mmio.ppuaddr
        } else if address == 0x2007 {
            self.mmio.ppudata
        } else {
            0
        }
    }

    /// A CPU write to a PPU register.
    pub fn cpu_write(&mut self, address: u16, value: u8)
        ensures
            *final(self) == old(self).with_mmio(old(self).mmio.written(address, value)),
    {
        if address == 0x2000 {
            self.mmio.ppuctrl = value
        } else if address == 0x2001 {
            self.mmio.ppumask = value
        } else if address == 0x2003 {
            self.mmio.oamaddr = value
        } else if address == 0x2004 {
            self.mmio.oamdata = value
        } else if address == 0x2005 {
            self.mmio.ppuscroll = value
        } else if address == 0x2006 {
            self.mmio.ppuaddr = value
        } else if address == 0x2007 {
            self.mmio.ppudata = value
        }
    }
}

/// Which 2x2-tile quadrant of its attribute block the coarse position of `v` is in, as the
/// attribute fetch numbers them: bit 1 of coarse Y gives 1, bit 1 of coarse X gives 2.
pub open spec fn palette_quadrant(v: u16) -> int {
    coarse_y_of(v) / 2 % 2 + (coarse_x_of(v) / 2 % 2) * 2
}

// background fetches
impl Ppu {
    /// Reads the nametable byte of the tile at the current VRAM address.
    pub fn fetch_nametable_byte(&self) -> (r: u8)
        requires
            self.bus.readable(nametable_address(self.v)),
        ensures
            r == self.bus.peek(nametable_address(self.v)),
    {
        let v = self.v;
        let address = 0x2000 | (v & 0x0FFF);
        assert(address == 0x2000 + v % 0x1000) by (bit_vector)
            requires
                address == 0x2000 | (v & 0x0FFF),
        ;
        self.bus.read(address)
    }

    /// Reads the attribute byte of the tile at the current VRAM address.
    pub fn fetch_attribute_byte(&self) -> (r: u8)
        requires
            self.bus.readable(attribute_address(self.v)),
        ensures
            r == self.bus.peek(attribute_address(self.v)),
    {
        let v = self.v;
        let address = 0x23C0 | (v & 0x0C00) | ((v >> 4) & 0x38) | ((v >> 2) & 0x07);
        assert(address == 0x23C0 + ((v / 0x800 % 2) * 2 + v / 0x400 % 2) * 0x400 + ((v / 32 % 32)
            / 4) * 8 + (v % 32) / 4) by (bit_vector)
            requires
                address == 0x23C0 | (v & 0x0C00) | ((v >> 4) & 0x38) | ((v >> 2) & 0x07),
        ;
        self.bus.read(address)
    }

    /// Address of the pattern row for `tile` at the current fine Y, in the pattern table that
    /// PPUCTRL selects.
    pub fn fetch_pattern_address(&self, tile: u8) -> (r: u16)
        ensures
            r == (self.mmio.ppuctrl / 16 % 2) * 0x1000 + tile * 16 + fine_y_of(self.v),
    {
        let table = self.mmio.ctrl_pattern_table() as u16;
        let fine_y = self.fine_y() as u16;
        let t = tile as u16;
        assert((table << 12u16) | (t << 4u16) | fine_y == table * 0x1000 + t * 16 + fine_y)
            by (bit_vector)
            requires
                table <= 1,
                t < 256,
                fine_y < 8,
        ;
        (table << 0xC) | (t << 4) | fine_y
    }

    pub fn fetch_pattern_byte_low(&self, address: u16) -> (r: u8)
        requires
            self.bus.readable(address),
        ensures
            r == self.bus.peek(address),
    {
        self.bus.read(address)
    }

    /// Reads the high bit plane of the pattern row at `address`, eight bytes further on.
    pub fn fetch_pattern_byte_high(&self, address: u16) -> (r: u8)
        requires
            address + 8 <= 0xFFFF,
            self.bus.readable((address + 8) as u16),
        ensures
            r == self.bus.peek((address + 8) as u16),
    {
        self.bus.read(address + 8)
    }

    /// The low palette bit for the current tile: bit 2q of `attribute`, q being the tile's
    /// quadrant.
    pub fn fetch_palette_low(&self, attribute: u8) -> (r: u8)
        ensures
            r == bit_of(attribute, (2 * palette_quadrant(self.v)) as u8),
    {
        let cy = self.course_y();
        let cx = self.course_x();
        let quadrant = ((cy & 2) >> 1) | (cx & 2);
        proof {
            lemma_quadrant_bits(cy, cx);
            lemma_attribute_bits(attribute);
        }
        match quadrant {
            0 => attribute & 0x01,
            1 => (attribute & 0x04) >> 2,
            2 => (attribute & 0x10) >> 4,
            3 => (attribute & 0x40) >> 6,
            _ => 0,
        }
    }

    /// The high palette bit for the current tile: bit 2q + 1 of `attribute`, q being the
    /// tile's quadrant.
    pub fn fetch_palette_high(&self, attribute: u8) -> (r: u8)
        ensures
            r == bit_of(attribute, (2 * palette_quadrant(self.v) + 1) as u8),
    {
        let cy = self.course_y();
        let cx = self.course_x();
        let quadrant = ((cy & 2) >> 1) | (cx & 2);
        proof {
            lemma_quadrant_bits(cy, cx);
            lemma_attribute_bits(attribute);
        }
        match quadrant {
            0 => (attribute & 0x02) >> 1,
            1 => (attribute & 0x08) >> 3,
            2 => (attribute & 0x20) >> 5,
            3 => (attribute & 0x80) >> 7,
            _ => 0,
        }
    }

    /// The pixel that the shift registers give, each masked with the fine X scroll: the two
    /// pattern bits in bits 0-1 and the two attribute bits in bits 2-3.
    pub fn fetch_pixel(&self) -> (r: u8)
        ensures
            r == ((self.pattern_shift_low as u8) & self.x) | (((self.pattern_shift_high as u8)
                & self.x) << 1u8) | ((self.attribute_shift_low & self.x) << 2u8) | ((
            self.attribute_shift_high & self.x) << 3u8),
    {
        ((self.pattern_shift_low as u8) & self.x) | (((self.pattern_shift_high as u8) & self.x)
            << 1) | ((self.attribute_shift_low & self.x) << 2) | ((self.attribute_shift_high
            & self.x) << 3)
    }

    /// Shifts the four background shift registers right by one.
    pub fn shift_registers(&mut self)
        ensures
            *final(self) == (Ppu {
                attribute_shift_high: old(self).attribute_shift_high / 2,
                attribute_shift_low: old(self).attribute_shift_low / 2,
                pattern_shift_high: old(self).pattern_shift_high / 2,
                pattern_shift_low: old(self).pattern_shift_low / 2,
                ..*old(self)
            }),
    {
        let ah = self.attribute_shift_high;
        let al = self.attribute_shift_low;
        let ph = self.pattern_shift_high;
        let pl = self.pattern_shift_low;
        assert(ah >> 1 == ah / 2 && al >> 1 == al / 2 && ph >> 1 == ph / 2 && pl >> 1 == pl / 2)
            by (bit_vector);
        self.attribute_shift_high >>= 1;
        self.attribute_shift_low >>= 1;
        self.pattern_shift_high >>= 1;
        self.pattern_shift_low >>= 1;
    }
}

// scrolling
impl Ppu {
    /// Moves the VRAM address to the next tile to the right: coarse X advances, and past the
    /// last column it wraps to 0 and switches to the horizontally adjacent nametable.
    pub fn increment_horizontal(&mut self)
        ensures
            *final(self) == old(self).with_v(final(self).v),
            coarse_x_of(final(self).v) == (coarse_x_of(old(self).v) + 1) % 32,
            nametable_x_of(final(self).v) == if coarse_x_of(old(self).v) == 31 {
                1 - nametable_x_of(old(self).v)
            } else {
                nametable_x_of(old(self).v)
            },
            coarse_y_of(final(self).v) == coarse_y_of(old(self).v),
            nametable_y_of(final(self).v) == nametable_y_of(old(self).v),
            fine_y_of(final(self).v) == fine_y_of(old(self).v),
            top_bit_of(final(self).v) == top_bit_of(old(self).v),
    {
        let v = self.v;
        if (self.v & 0x001F) == 31 {
            self.v &= !0x001F;
            self.v ^= 0x0400;
            proof {
                lemma_scroll_fields(v);
                lemma_coarse_x_wrap(v, self.v);
            }
        } else {
            proof {
                lemma_scroll_fields(v);
                lemma_coarse_x_step(v);
            }
            self.v += 1;
        }
    }

    /// Moves the VRAM address to the next pixel row: fine Y advances, and past the last row
    /// of a tile coarse Y advances; past row 29 it wraps to 0 and switches to the vertically
    /// adjacent nametable, and past row 31 it wraps to 0 without switching.
    pub fn increment_vertical(&mut self)
        ensures
            *final(self) == old(self).with_v(final(self).v),
            fine_y_of(final(self).v) == (fine_y_of(old(self).v) + 1) % 8,
            coarse_y_of(final(self).v) == if fine_y_of(old(self).v) < 7 {
                coarse_y_of(old(self).v)
            } else if coarse_y_of(old(self).v) == 29 || coarse_y_of(old(self).v) == 31 {
                0
            } else {
                coarse_y_of(old(self).v) + 1
            },
            nametable_y_of(final(self).v) == if fine_y_of(old(self).v) == 7 && coarse_y_of(
                old(self).v,
            ) == 29 {
                1 - nametable_y_of(old(self).v)
            } else {
                nametable_y_of(old(self).v)
            },
            coarse_x_of(final(self).v) == coarse_x_of(old(self).v),
            nametable_x_of(final(self).v) == nametable_x_of(old(self).v),
            top_bit_of(final(self).v) == top_bit_of(old(self).v),
    {
        let v0 = self.v;
        if (self.v & 0x7000) != 0x7000 {
            proof {
                lemma_fine_y_advance(v0);
            }
            self.v += 0x1000;
        } else {
            self.v &= !0x7000;
            let mut y: u16 = (self.v & 0x03E0) >> 5;
            let v1 = self.v;
            proof {
                lemma_coarse_y_field(v0, v1, y);
            }
            let flip = y == 29;
            if y == 29 {
                y = 0;
                self.v ^= 0x0800;
            } else if y == 31 {
                y = 0;
            } else {
                y += 1;
            }
            let v2 = self.v;
            self.v = (self.v & !0x03E0) | (y << 5);
            proof {
                lemma_coarse_y_advance(v0, v1, v2, self.v, y, flip);
            }
        }
    }

    /// Fine Y scroll of the current VRAM address.
    pub fn fine_y(&self) -> (r: u8)
        ensures
            r == fine_y_of(self.v),
    {
        let v = self.v;
        proof {
            lemma_scroll_fields(v);
        }
        ((v & 0x7000) >> 12) as u8
    }

    /// Coarse X scroll of the current VRAM address.
    pub fn course_x(&self) -> (r: u8)
        ensures
            r == coarse_x_of(self.v),
    {
        let v = self.v;
        proof {
            lemma_scroll_fields(v);
        }
        (v & 0x001F) as u8
    }

    /// Coarse Y scroll of the current VRAM address.
    pub fn course_y(&self) -> (r: u8)
        ensures
            r == coarse_y_of(self.v),
    {
        let v = self.v;
        proof {
            lemma_scroll_fields(v);
        }
        ((v & 0x03E0) >> 5) as u8
    }
}

proof fn lemma_quadrant_bits(cy: u8, cx: u8)
    ensures
        ((cy & 2) >> 1) | (cx & 2) == cy / 2 % 2 + (cx / 2 % 2) * 2,
{
    assert(((cy & 2) >> 1) | (cx & 2) == cy / 2 % 2 + (cx / 2 % 2) * 2) by (bit_vector);
}

proof fn lemma_attribute_bits(a: u8)
    ensures
        a & 0x01 == bit_of(a, 0),
        (a & 0x02) >> 1 == bit_of(a, 1),
        (a & 0x04) >> 2 == bit_of(a, 2),
        (a & 0x08) >> 3 == bit_of(a, 3),
        (a & 0x10) >> 4 == bit_of(a, 4),
        (a & 0x20) >> 5 == bit_of(a, 5),
        (a & 0x40) >> 6 == bit_of(a, 6),
        (a & 0x80) >> 7 == bit_of(a, 7),
{
    assert(a & 0x01 == bit_of(a, 0) && (a & 0x02) >> 1 == bit_of(a, 1) && (a & 0x04) >> 2
        == bit_of(a, 2) && (a & 0x08) >> 3 == bit_of(a, 3) && (a & 0x10) >> 4 == bit_of(a, 4) && (
    a & 0x20) >> 5 == bit_of(a, 5) && (a & 0x40) >> 6 == bit_of(a, 6) && (a & 0x80) >> 7
        == bit_of(a, 7)) by (bit_vector);
}

proof fn lemma_scroll_fields(v: u16)
    ensures
        v & 0x001F == v % 32,
        (v & 0x03E0) >> 5 == v / 32 % 32,
        (v & 0x7000) >> 12 == v / 0x1000 % 8,
{
    assert(v & 0x001F == v % 32 && (v & 0x03E0) >> 5 == v / 32 % 32 && (v & 0x7000) >> 12 == v
        / 0x1000 % 8) by (bit_vector);
}

proof fn lemma_coarse_x_step(v: u16) by (bit_vector)
    requires
        v & 0x001F != 31,
    ensures
        v + 1 <= 0xFFFF,
        ({
            let w = (v + 1) as u16;
            &&& w % 32 == v % 32 + 1
            &&& w / 0x400 % 2 == v / 0x400 % 2
            &&& w / 32 % 32 == v / 32 % 32
            &&& w / 0x800 % 2 == v / 0x800 % 2
            &&& w / 0x1000 % 8 == v / 0x1000 % 8
            &&& w / 0x8000 == v / 0x8000
        }),
{
}

proof fn lemma_coarse_x_wrap(v: u16, w: u16) by (bit_vector)
    requires
        w == (v & !0x001F) ^ 0x0400,
    ensures
        v % 32 == 31 ==> {
            &&& w % 32 == 0
            &&& w / 0x400 % 2 == 1 - v / 0x400 % 2
            &&& w / 32 % 32 == v / 32 % 32
            &&& w / 0x800 % 2 == v / 0x800 % 2
            &&& w / 0x1000 % 8 == v / 0x1000 % 8
            &&& w / 0x8000 == v / 0x8000
        },
{
}

proof fn lemma_fine_y_advance(v0: u16) by (bit_vector)
    requires
        (v0 & 0x7000) != 0x7000,
    ensures
        v0 + 0x1000 <= 0xFFFF,
        ({
            let w = (v0 + 0x1000) as u16;
            &&& w / 0x1000 % 8 == v0 / 0x1000 % 8 + 1
            &&& w % 32 == v0 % 32
            &&& w / 32 % 32 == v0 / 32 % 32
            &&& w / 0x400 % 2 == v0 / 0x400 % 2
            &&& w / 0x800 % 2 == v0 / 0x800 % 2
            &&& w / 0x8000 == v0 / 0x8000
        }),
        v0 / 0x1000 % 8 < 7,
{
}

proof fn lemma_coarse_y_field(v0: u16, v1: u16, y: u16) by (bit_vector)
    requires
        (v0 & 0x7000) == 0x7000,
        v1 == v0 & !0x7000,
        y == (v1 & 0x03E0) >> 5,
    ensures
        y == v0 / 32 % 32,
        y < 32,
        v0 / 0x1000 % 8 == 7,
{
}

proof fn lemma_coarse_y_advance(v0: u16, v1: u16, v2: u16, w: u16, y: u16, flip: bool) by (bit_vector)
    requires
        y < 32,
        v1 == v0 & !0x7000,
        v2 == if flip { v1 ^ 0x0800 } else { v1 },
        w == (v2 & !0x03E0) | (y << 5),
    ensures
        w / 0x1000 % 8 == 0,
        w / 32 % 32 == y,
        w % 32 == v0 % 32,
        w / 0x400 % 2 == v0 / 0x400 % 2,
        w / 0x800 % 2 == if flip { (1 - v0 / 0x800 % 2) as u16 } else { v0 / 0x800 % 2 },
        w / 0x8000 == v0 / 0x8000,
{
}

} // verus!

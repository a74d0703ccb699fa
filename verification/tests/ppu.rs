use nes_emulator::bus::PpuBus;
use nes_emulator::cartridge::Cartridge;
use nes_emulator::ppu::{Ppu, PpuRegisters, CTRL_NMI, STATUS_VBLANK};
use std::rc::Rc;

/// A PPU on a bus whose cartridge has CHR byte i = i % 256 and vertical mirroring.
fn ppu() -> Ppu {
    let mut bytes = vec![0x4E, 0x45, 0x53, 0x1A, 1, 1, 1, 0];
    bytes.resize(16 + 0x4000, 0);
    for i in 0..0x2000usize {
        bytes.push((i % 256) as u8);
    }
    let cartridge = Rc::new(Cartridge::load_from_bytes(&bytes));
    Ppu::new(PpuRegisters::new(), PpuBus::new(cartridge))
}

#[test]
fn registers_start_at_zero() {
    let r = PpuRegisters::new();
    assert_eq!(
        [r.ppuctrl, r.ppumask, r.ppustatus, r.oamaddr, r.oamdata, r.ppuscroll, r.ppuaddr, r.ppudata],
        [0; 8]
    );
}

#[test]
fn register_bit_setters() {
    let mut r = PpuRegisters::new();
    r.ppuctrl = 0x10;
    r.set_ctrl_nmi(true);
    assert_eq!(r.ppuctrl, 0x10 | CTRL_NMI);
    assert_eq!(r.ctrl_pattern_table(), 1);
    r.set_ctrl_nmi(false);
    assert_eq!(r.ppuctrl, 0x10);
    r.ppustatus = 0x01;
    r.set_status_vblank(true);
    assert_eq!(r.ppustatus, 0x01 | STATUS_VBLANK);
    r.set_status_vblank(false);
    assert_eq!(r.ppustatus, 0x01);
    r.ppuctrl = 0xEF;
    assert_eq!(r.ctrl_pattern_table(), 0);
}

#[test]
fn new_ppu_is_at_frame_start() {
    let p = ppu();
    assert_eq!((p.dot, p.scanline, p.v, p.t, p.x, p.w), (0, 0, 0, 0, 0, false));
    assert!(p.oam.iter().all(|&b| b == 0));
}

#[test]
fn tick_advances_dot_and_scanline() {
    let mut p = ppu();
    p.tick();
    assert_eq!((p.dot, p.scanline), (1, 0));
    p.dot = 340;
    p.tick();
    assert_eq!((p.dot, p.scanline), (0, 1));
    p.dot = 340;
    p.scanline = 261;
    p.tick();
    assert_eq!((p.dot, p.scanline), (0, 0));
}

#[test]
fn vblank_starts_and_ends() {
    let mut p = ppu();
    p.scanline = 241;
    p.dot = 1;
    p.tick();
    assert_eq!(p.mmio.ppustatus & STATUS_VBLANK, STATUS_VBLANK);
    assert_eq!((p.dot, p.scanline), (2, 241));
    p.scanline = 261;
    p.dot = 1;
    p.tick();
    assert_eq!(p.mmio.ppustatus & STATUS_VBLANK, 0);
}

#[test]
fn a_frame_of_ticks_returns_to_the_start() {
    let mut p = ppu();
    p.dot = 17;
    p.scanline = 100;
    let mut vblank_seen = false;
    for _ in 0..(341u32 * 262) {
        p.tick();
        if p.mmio.ppustatus & STATUS_VBLANK != 0 {
            vblank_seen = true;
        }
    }
    assert_eq!((p.dot, p.scanline), (17, 100));
    assert!(vblank_seen);
    assert_eq!(p.mmio.ppustatus & STATUS_VBLANK, 0);
}

#[test]
fn cpu_reads_and_writes_registers() {
    let mut p = ppu();
    for (address, value) in [(0x2000u16, 1u8), (0x2001, 2), (0x2003, 3), (0x2004, 4), (0x2005, 5), (0x2006, 6), (0x2007, 7)] {
        p.cpu_write(address, value);
        assert_eq!(p.cpu_read(address), value);
    }
    p.cpu_write(0x2002, 0xFF);
    assert_eq!(p.cpu_read(0x2002), 0);
    assert_eq!(p.cpu_read(0x2008), 0);
    assert_eq!(p.mmio.ppuctrl, 1);
}

#[test]
fn reading_status_ends_vblank_and_resets_the_toggle() {
    let mut p = ppu();
    p.mmio.ppustatus = 0xE0;
    p.w = true;
    assert_eq!(p.cpu_read(0x2002), 0xE0);
    assert_eq!(p.mmio.ppustatus, 0x60);
    assert!(!p.w);
    p.w = true;
    p.cpu_read(0x2000);
    assert!(p.w);
}

#[test]
fn scroll_fields() {
    let mut p = ppu();
    p.v = 0b0_101_10_10110_01101;
    assert_eq!(p.fine_y(), 0b101);
    assert_eq!(p.course_y(), 0b10110);
    assert_eq!(p.course_x(), 0b01101);
}

#[test]
fn increment_horizontal_wraps_into_next_nametable() {
    let mut p = ppu();
    p.v = 0x0005;
    p.increment_horizontal();
    assert_eq!(p.v, 0x0006);
    p.v = 0x001F;
    p.increment_horizontal();
    assert_eq!(p.v, 0x0400);
    p.v = 0x041F;
    p.increment_horizontal();
    assert_eq!(p.v, 0x0000);
}

#[test]
fn increment_vertical_steps_fine_then_coarse() {
    let mut p = ppu();
    p.v = 0x0000;
    p.increment_vertical();
    assert_eq!(p.v, 0x1000);
    // fine Y 7, coarse Y 5 -> fine 0, coarse 6
    p.v = 0x7000 | (5 << 5);
    p.increment_vertical();
    assert_eq!(p.v, 6 << 5);
    // coarse Y 29 wraps and switches nametable
    p.v = 0x7000 | (29 << 5) | 3;
    p.increment_vertical();
    assert_eq!(p.v, 0x0800 | 3);
    // coarse Y 31 wraps without switching
    p.v = 0x7000 | (31 << 5);
    p.increment_vertical();
    assert_eq!(p.v, 0x0000);
}

#[test]
fn nametable_and_attribute_fetches() {
    let mut p = ppu();
    p.bus.vram[0x123] = 0x44;
    p.v = 0x0123;
    assert_eq!(p.fetch_nametable_byte(), 0x44);
    // coarse x 0x1D, coarse y 0x12: attribute at 0x23C0 + 4 * 8 + 7 = 0x23E7
    p.v = (0x12 << 5) | 0x1D;
    p.bus.vram[0x3E7] = 0x5A;
    assert_eq!(p.fetch_attribute_byte(), 0x5A);
}

#[test]
fn pattern_fetches() {
    let mut p = ppu();
    p.v = 0x3000;
    assert_eq!(p.fetch_pattern_address(0x12), 0x0123);
    p.mmio.ppuctrl = 0x10;
    assert_eq!(p.fetch_pattern_address(0x12), 0x1123);
    assert_eq!(p.fetch_pattern_byte_low(0x0123), 0x23);
    assert_eq!(p.fetch_pattern_byte_high(0x0123), 0x2B);
}

#[test]
fn palette_bits_by_quadrant() {
    let mut p = ppu();
    let attribute = 0b11_10_01_00;
    p.v = 0; // quadrant 0
    assert_eq!((p.fetch_palette_low(attribute), p.fetch_palette_high(attribute)), (0, 0));
    p.v = 2 << 5; // coarse y bit 1: quadrant 1
    assert_eq!((p.fetch_palette_low(attribute), p.fetch_palette_high(attribute)), (1, 0));
    p.v = 2; // coarse x bit 1: quadrant 2
    assert_eq!((p.fetch_palette_low(attribute), p.fetch_palette_high(attribute)), (0, 1));
    p.v = (2 << 5) | 2; // quadrant 3
    assert_eq!((p.fetch_palette_low(attribute), p.fetch_palette_high(attribute)), (1, 1));
}

#[test]
fn pixel_and_shifts() {
    let mut p = ppu();
    p.x = 0x01;
    p.pattern_shift_low = 0x0101;
    p.pattern_shift_high = 0x0001;
    p.attribute_shift_low = 0x01;
    p.attribute_shift_high = 0x00;
    assert_eq!(p.fetch_pixel(), 0b0111);
    p.shift_registers();
    assert_eq!(p.pattern_shift_low, 0x0080);
    assert_eq!(p.pattern_shift_high, 0);
    assert_eq!(p.attribute_shift_low, 0);
    assert_eq!(p.fetch_pixel(), 0);
}

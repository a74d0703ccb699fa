use nes_emulator::bus::{Bus, CpuBus, PpuBus};
use nes_emulator::cartridge::Cartridge;
use nes_emulator::ppu::PpuRegisters;
use std::rc::Rc;

/// A cartridge with one PRG bank whose byte i holds i % 251 and one CHR bank whose byte i
/// holds (i * 7) % 256.
fn cartridge(flags6: u8) -> Rc<Cartridge> {
    let mut bytes = vec![0x4E, 0x45, 0x53, 0x1A, 1, 1, flags6, 0];
    bytes.resize(16, 0);
    for i in 0..0x4000usize {
        bytes.push((i % 251) as u8);
    }
    for i in 0..0x2000usize {
        bytes.push(((i * 7) % 256) as u8);
    }
    Rc::new(Cartridge::load_from_bytes(&bytes))
}

#[test]
fn cpu_bus_starts_cleared() {
    let b = CpuBus::new(cartridge(0), PpuRegisters::new());
    assert!(b.ram.iter().all(|&x| x == 0));
    assert_eq!(b.read(0x07FF), 0);
}

#[test]
fn cpu_ram_reads_back_writes_through_mirrors() {
    let mut b = CpuBus::new(cartridge(0), PpuRegisters::new());
    b.write(0x42, 0x0123);
    assert_eq!(b.read(0x0123), 0x42);
    assert_eq!(b.read(0x0923), 0x42);
    assert_eq!(b.read(0x1123), 0x42);
    assert_eq!(b.read(0x1923), 0x42);
    b.write(0x17, 0x1FFF);
    assert_eq!(b.read(0x07FF), 0x17);
    assert_eq!(b.read(0x0123), 0x42);
}

#[test]
fn cpu_bus_io_range_reads_zero_and_ignores_writes() {
    let mut b = CpuBus::new(cartridge(0), PpuRegisters::new());
    b.write(0x55, 0x2000);
    assert_eq!(b.read(0x2000), 0);
    assert_eq!(b.read(0x4017), 0);
    assert_eq!(b.read(0x401F), 0);
}

#[test]
fn cpu_bus_reads_the_cartridge() {
    let mut b = CpuBus::new(cartridge(0), PpuRegisters::new());
    assert_eq!(b.read(0x8005), 5);
    assert_eq!(b.read(0xC005), 5);
    b.write(0x99, 0x8005);
    assert_eq!(b.read(0x8005), 5);
}

#[test]
fn read_u16_is_little_endian() {
    let mut b = CpuBus::new(cartridge(0), PpuRegisters::new());
    b.write(0x34, 0x0010);
    b.write(0x12, 0x0011);
    assert_eq!(b.read_u16(0x0010), 0x1234);
    // reset vector region of the cartridge
    assert_eq!(b.read_u16(0xFFFC), u16::from_le_bytes([(0x3FFC % 251) as u8, (0x3FFD % 251) as u8]));
}

#[test]
fn read_u16_wraps_at_the_top_of_memory() {
    let mut b = CpuBus::new(cartridge(0), PpuRegisters::new());
    b.write(0x77, 0x0000);
    let high = b.read(0x0000);
    let low = b.read(0xFFFF);
    assert_eq!(b.read_u16(0xFFFF), (high as u16) << 8 | low as u16);
}

#[test]
fn read_u16_zp_wraps_within_zero_page() {
    let mut b = CpuBus::new(cartridge(0), PpuRegisters::new());
    b.write(0xCD, 0x00FF);
    b.write(0xAB, 0x0000);
    b.write(0xEE, 0x0100);
    assert_eq!(b.read_u16_zp(0xFF), 0xABCD);
    assert_eq!(b.read_u16_zp(0x0F), 0x0000);
}

#[test]
fn read_u16_bug_stays_in_the_page() {
    let mut b = CpuBus::new(cartridge(0), PpuRegisters::new());
    b.write(0x80, 0x02FF);
    b.write(0x12, 0x0200);
    b.write(0x34, 0x0300);
    assert_eq!(b.read_u16_bug(0x02FF), 0x1280);
    b.write(0x56, 0x0250);
    b.write(0x78, 0x0251);
    assert_eq!(b.read_u16_bug(0x0250), 0x7856);
}

#[test]
fn palette_reads_back_writes() {
    let mut b = PpuBus::new(cartridge(0));
    assert_eq!(b.read(0x3F00), 0);
    b.write(0x2A, 0x3F05);
    assert_eq!(b.read(0x3F05), 0x2A);
    assert_eq!(b.read(0x3F00), 0x2A);
    assert_eq!(b.read(0x3F1F), 0x2A);
    assert_eq!(b.read(0x3F40), 0x2A);
    assert_eq!(b.palette_ram[0], 0x2A);
}

#[test]
fn ppu_bus_reads_pattern_tables_and_nametables() {
    let mut b = PpuBus::new(cartridge(1));
    assert_eq!(b.read(0x0001), 7);
    assert_eq!(b.read(0x1FFF), ((0x1FFF * 7) % 256) as u8);
    b.vram[0x10] = 0x99;
    assert_eq!(b.read(0x2010), 0x99);
    assert_eq!(b.read(0x2810), 0x99);
    assert_eq!(b.read(0x3001), 7);
    assert_eq!(b.read(0x4000), 0);
    // writes outside palette RAM are dropped
    b.write(0x11, 0x2010);
    assert_eq!(b.read(0x2010), 0x99);
}

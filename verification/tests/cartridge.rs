use nes_emulator::bus::{Bus, PpuBus};
use nes_emulator::cartridge::{Cartridge, ChrMemory, InesHeader, Mapper, Nrom};
use std::rc::Rc;

/// An iNES image with the given header bytes; PRG byte i holds i % 251, CHR byte i holds
/// (i * 7) % 256.
fn image(prg_mult: u8, chr_mult: u8, flags6: u8, flags7: u8) -> Vec<u8> {
    let mut bytes = vec![0x4E, 0x45, 0x53, 0x1A, prg_mult, chr_mult, flags6, flags7];
    bytes.resize(16, 0);
    if flags6 & 0x04 != 0 {
        bytes.extend(std::iter::repeat(0xEE).take(512));
    }
    for i in 0..(prg_mult as usize * 0x4000) {
        bytes.push((i % 251) as u8);
    }
    for i in 0..(chr_mult as usize * 0x2000) {
        bytes.push(((i * 7) % 256) as u8);
    }
    bytes
}

#[test]
fn parse_reads_header_fields() {
    let h = InesHeader::parse(&[0x4E, 0x45, 0x53, 0x1A, 2, 1, 0x01, 0x00]);
    assert_eq!(h.prg_rom_mult, 2);
    assert_eq!(h.chr_rom_mult, 1);
    assert_eq!(h.mapper, 0);
    assert!(h.vertical_mirroring);
    assert!(!h.trainer);

    let h = InesHeader::parse(&[0x4E, 0x45, 0x53, 0x1A, 1, 0, 0x14, 0x30]);
    assert_eq!(h.mapper, 0x31);
    assert!(!h.vertical_mirroring);
    assert!(h.trainer);
}

#[test]
fn can_load_accepts_nrom_images() {
    assert!(Cartridge::can_load(&image(1, 1, 0, 0)));
    assert!(Cartridge::can_load(&image(2, 1, 1, 0)));
    assert!(Cartridge::can_load(&image(1, 1, 0x04, 0)));
}

#[test]
fn can_load_rejects_what_load_panics_on() {
    // header cut short
    assert!(!Cartridge::can_load(&[0x4E, 0x45, 0x53]));
    // mapper 1
    assert!(!Cartridge::can_load(&image(1, 1, 0x10, 0)));
    // file shorter than its ROMs
    let mut short = image(1, 1, 0, 0);
    short.pop();
    assert!(!Cartridge::can_load(&short));
    // four PRG banks overflow the 16-bit offset
    let mut header = vec![0x4E, 0x45, 0x53, 0x1A, 4, 0, 0, 0];
    header.resize(16, 0);
    assert!(!Cartridge::can_load(&header));
    // three PRG banks and four CHR banks end past 0xFFFF
    let mut header = vec![0x4E, 0x45, 0x53, 0x1A, 3, 4, 0, 0];
    header.resize(16, 0);
    assert!(!Cartridge::can_load(&header));
}

#[test]
fn load_splits_prg_and_chr() {
    let bytes = image(2, 1, 0, 0);
    let c = Cartridge::load_from_bytes(&bytes);
    assert_eq!(c.prg_rom.len(), 0x8000);
    assert_eq!(c.prg_rom[..], bytes[16..16 + 0x8000]);
    match &c.chr {
        ChrMemory::Rom(chr) => {
            assert_eq!(chr.len(), 0x2000);
            assert_eq!(chr[..], bytes[16 + 0x8000..]);
        }
        ChrMemory::Ram(_) => panic!("expected CHR ROM"),
    }
    assert_eq!(c.mapper.header.prg_rom_mult, 2);
}

#[test]
fn load_skips_the_trainer() {
    let bytes = image(1, 1, 0x04, 0);
    let c = Cartridge::load_from_bytes(&bytes);
    assert_eq!(c.prg_rom[..], bytes[16 + 512..16 + 512 + 0x4000]);
    assert_eq!(c.prg_rom[0], 0);
    assert_eq!(c.prg_rom[300], (300 % 251) as u8);
}

#[test]
fn nrom_128_mirrors_its_bank() {
    let c = Cartridge::load_from_bytes(&image(1, 1, 0, 0));
    assert_eq!(c.cpu_read(0x8000), 0);
    assert_eq!(c.cpu_read(0x8123), (0x123 % 251) as u8);
    assert_eq!(c.cpu_read(0xC123), (0x123 % 251) as u8);
    assert_eq!(c.cpu_read(0xFFFF), (0x3FFF % 251) as u8);
}

#[test]
fn nrom_256_maps_both_banks() {
    let c = Cartridge::load_from_bytes(&image(2, 1, 0, 0));
    assert_eq!(c.cpu_read(0xC123), (0x4123 % 251) as u8);
}

#[test]
fn cpu_writes_to_the_cartridge_are_ignored() {
    let mut c = Cartridge::load_from_bytes(&image(1, 1, 0, 0));
    c.cpu_write(0x8000, 0x99);
    assert_eq!(c.cpu_read(0x8000), 0);
}

#[test]
fn nrom_ppu_reads() {
    let c = Cartridge::load_from_bytes(&image(1, 1, 1, 0));
    let mut vram = [0u8; 2048];
    vram[0x005] = 0x11;
    vram[0x405] = 0x22;
    // pattern tables
    assert_eq!(c.mapper.ppu_read(&c.chr, &vram, 0x0010), (0x10 * 7) as u8);
    // vertical mirroring: 0x2000 and 0x2800 are the same, 0x2400 and 0x2C00 too
    assert_eq!(c.mapper.ppu_read(&c.chr, &vram, 0x2005), 0x11);
    assert_eq!(c.mapper.ppu_read(&c.chr, &vram, 0x2805), 0x11);
    assert_eq!(c.mapper.ppu_read(&c.chr, &vram, 0x2405), 0x22);
    assert_eq!(c.mapper.ppu_read(&c.chr, &vram, 0x2C05), 0x22);
    // 0x3000 up reads the pattern tables
    assert_eq!(c.mapper.ppu_read(&c.chr, &vram, 0x3010), (0x10 * 7) as u8);
    // beyond 0x3F1F
    assert_eq!(c.mapper.ppu_read(&c.chr, &vram, 0x3F20), 0);
}

#[test]
fn horizontal_mirroring_reads_the_first_kilobyte() {
    let c = Cartridge::load_from_bytes(&image(1, 1, 0, 0));
    let mut vram = [0u8; 2048];
    vram[0x005] = 0x11;
    vram[0x405] = 0x22;
    assert_eq!(c.mapper.ppu_read(&c.chr, &vram, 0x2005), 0x11);
    assert_eq!(c.mapper.ppu_read(&c.chr, &vram, 0x2405), 0x11);
    assert_eq!(c.mapper.ppu_read(&c.chr, &vram, 0x2C05), 0x11);
}

#[test]
fn chr_ram_reads_zero() {
    let header = InesHeader::parse(&[0x4E, 0x45, 0x53, 0x1A, 1, 0, 0, 0]);
    let nrom = Nrom { header };
    let vram = [7u8; 2048];
    assert_eq!(nrom.ppu_read(&ChrMemory::Ram(vec![5; 0x2000]), &vram, 0x0000), 0);
    assert_eq!(nrom.ppu_read(&ChrMemory::Ram(vec![5; 0x2000]), &vram, 0x2000), 0);
}

#[test]
fn ppu_bus_reaches_the_cartridge() {
    let c = Rc::new(Cartridge::load_from_bytes(&image(1, 1, 1, 0)));
    let bus = PpuBus::new(c);
    assert_eq!(bus.read(0x0003), 21);
    assert_eq!(bus.read(0x2000), 0);
}

#[test]
fn chr_slice_gives_character_memory() {
    let bytes = image(1, 1, 0, 0);
    let c = Cartridge::load_from_bytes(&bytes);
    assert_eq!(c.chr_slice(), &bytes[16 + 0x4000..]);
    let header = InesHeader::parse(&[0x4E, 0x45, 0x53, 0x1A, 1, 0, 0, 0]);
    let ram = Cartridge { prg_rom: vec![], chr: ChrMemory::Ram(vec![9; 4]), mapper: Nrom { header } };
    assert_eq!(ram.chr_slice(), &[9, 9, 9, 9]);
}

use nes_emulator::bitmap::Bitmap;
use nes_emulator::console::Console;
use nes_emulator::debug::draw_pattern_framebuffer;

/// Pattern data whose tile t has plane 0 rows all 0xF0 and plane 1 rows all 0xCC when t is
/// odd, zero otherwise.
fn chr(len: usize) -> Vec<u8> {
    let mut chr = vec![0u8; len];
    for tile in 0..(len / 16) {
        if tile % 2 == 1 {
            for row in 0..8 {
                chr[tile * 16 + row] = 0xF0;
                chr[tile * 16 + 8 + row] = 0xCC;
            }
        }
    }
    chr
}

#[test]
fn framebuffer_pixels() {
    let fb = draw_pattern_framebuffer(&chr(0x1000));
    assert_eq!(fb.len(), 128 * 128);
    // tile 0 is blank
    assert_eq!(fb[0], 0x000000FF);
    // tile 1 (x 8-15): columns with plane bits (0,1),(1,1),(0,0)...: F0 = 11110000, CC = 11001100
    let row: Vec<u32> = (8..16).map(|x| fb[3 * 128 + x]).collect();
    assert_eq!(
        row,
        vec![0xFFFFFFFF, 0xFFFFFFFF, 0x555555FF, 0x555555FF, 0xAAAAAAFF, 0xAAAAAAFF, 0x000000FF, 0x000000FF]
    );
    // tile 17 is at tile row 1, column 1
    assert_eq!(fb[8 * 128 + 8], 0xFFFFFFFF);
    assert_eq!(fb[127 * 128 + 127], 0x000000FF);
}

#[test]
fn bitmap_from_second_pattern_table() {
    let mut data = vec![0u8; 0x1000];
    data.extend(chr(0x1000));
    let b = Bitmap::from_pattern_table(&data, 1);
    assert_eq!((b.width, b.height), (128, 128));
    assert_eq!(b.pixels.len(), 128 * 128);
    assert_eq!(b.pixels[3 * 128 + 8], [0xFF, 0xFF, 0xFF, 0xFF]);
    assert_eq!(b.pixels[3 * 128 + 10], [0x55, 0x55, 0x55, 0xFF]);
    assert_eq!(b.pixels[3 * 128 + 12], [0xAA, 0xAA, 0xAA, 0xFF]);
    assert_eq!(b.pixels[0], [0x00, 0x00, 0x00, 0xFF]);
    let b = Bitmap::from_pattern_table(&data, 0);
    assert!(b.pixels.iter().all(|p| *p == [0x00, 0x00, 0x00, 0xFF]));
}

#[test]
fn bitmap_new_keeps_its_parts() {
    let b = Bitmap::new(vec![[1, 2, 3, 4]], 1, 1);
    assert_eq!(b.pixels, vec![[1, 2, 3, 4]]);
    assert_eq!((b.width, b.height), (1, 1));
}

#[test]
fn console_powers_on() {
    let mut rom = vec![0x4E, 0x45, 0x53, 0x1A, 1, 1, 0, 0];
    rom.resize(16 + 0x4000 + 0x2000, 0x33);
    let console = Console::new(&rom);
    assert_eq!(console.cpu.pc, 0);
    assert_eq!(console.cpu_bus.ram[0], 0);
    assert_eq!(console.cartridge.prg_rom.len(), 0x4000);
    assert_eq!(console.ppu.dot, 0);
    assert_eq!(console.ppu.bus.palette_ram, [0; 32]);
}

# nes_emulator

The core of an NTSC NES emulator, with its behaviour stated in contracts and proved.

- `src/cpu.rs`, `src/opcodes.rs`: the 6502 registers, its opcode table, addressing modes
  and instructions.
- `src/bus.rs`: the `Bus` abstraction and the CPU and PPU memory maps.
- `src/cartridge.rs`: iNES images and the NROM board.
- `src/ppu.rs`: PPU registers, timing and the background fetch and scroll logic.
- `src/debug.rs`, `src/bitmap.rs`: pattern-table images.
- `src/console.rs`: a console with a cartridge inserted.
- `src/device.rs`: the choices a graphics view makes: device, presentation mode, surface
  format, swap-chain image count and extent.
- `app/main.rs`: a window that shows the first pattern table of a ROM.

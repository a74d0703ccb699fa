pub mod bus;
pub mod cartridge;
pub mod ppu;
pub mod opcodes;
pub mod cpu;
pub mod debug;
pub mod bitmap;
pub mod console;
pub mod device;

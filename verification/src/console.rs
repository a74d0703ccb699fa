use std::rc::Rc;
use vstd::prelude::*;
use crate::bus::{CpuBus, PpuBus};
use crate::cartridge::{Cartridge, ChrMemory, chr_end, header_of, loadable, prg_end, prg_start};
use crate::cpu::Cpu;
use crate::ppu::{Ppu, PpuRegisters};

verus! {

/// A console with a cartridge inserted: the CPU on its bus and the PPU on its own, both
/// reaching the one cartridge. The PPU holds the registers that it updates; the CPU bus
/// holds them as they were at power-on, and reads none of them.
pub struct Console {
    pub cpu: Cpu,
    pub cpu_bus: CpuBus,
    pub cartridge: Rc<Cartridge>,
    pub ppu: Ppu,
}

impl Console {
    /// Powers on a console with the cartridge that the iNES image `rom` describes.
    pub fn new(rom: &[u8]) -> (c: Self)
        requires
            loadable(rom@),
        ensures
            c.cartridge.mapper.header == header_of(rom@),
            c.cartridge.prg_rom@ == rom@.subrange(prg_start(header_of(rom@)), prg_end(header_of(rom@))),
            c.cartridge.chr matches ChrMemory::Rom(chr_rom) && chr_rom@ == rom@.subrange(
                prg_end(header_of(rom@)),
                chr_end(header_of(rom@)),
            ),
            c.cpu == Cpu::power_on(),
            c.cpu_bus.is_power_on(c.cartridge, PpuRegisters::power_on()),
            c.ppu.bus.is_power_on(c.cartridge),
            c.ppu.is_power_on(PpuRegisters::power_on(), c.ppu.bus),
    {
        let cartridge = Rc::new(Cartridge::load_from_bytes(rom));
        let cpu = Cpu::new();
        let cpu_bus = CpuBus::new(cartridge.clone(), PpuRegisters::new());
        let ppu_bus = PpuBus::new(cartridge.clone());
        let ppu = Ppu::new(PpuRegisters::new(), ppu_bus);
        Self { cpu, cpu_bus, cartridge, ppu }
    }
}

} // verus!

use vstd::prelude::*;

use crate::bus::InterruptFlags;
use crate::nes::cartridge::{CartridgeCore, MirrorType};
use crate::nes::cartridge::mappers::Mapper;

verus! {

/// Mapper 94: a switchable 16K program bank.
pub struct HvcUN1Rom {
    pub core: CartridgeCore,
}

impl HvcUN1Rom {
    pub fn new(core: CartridgeCore) -> (r: HvcUN1Rom)
        requires
            core.wf(),
        ensures
            r.inv(),
            r.core.same_contents(&core),
            r.core.prg_rom.bank_size == 0x4000,
            r.core.prg_rom.bank_map == core.prg_rom.bank_map,
    {
        let mut core = core;
        core.prg_rom.set_bank_size_k(16);
        HvcUN1Rom { core }
    }

    /// The effect of a write to program space; the previous setting is returned.
    pub open spec fn configured(&self, after: Self, value: u8, r: u8) -> bool {
        let map = self.core.prg_rom.bank_map@;
        &&& r == (map[0].0 as u8) >> 2u8
        &&& after.core.prg_rom.banked_as(&self.core.prg_rom, map.update(0, ((((value & 0x1C) << 2u8) as i16), map[0].1)))
        &&& after.core.nes_header == self.core.nes_header
        &&& after.core.rom_expansion == self.core.rom_expansion
        &&& after.core.sram == self.core.sram
        &&& after.core.chr_ram == self.core.chr_ram
        &&& after.core.vram == self.core.vram
    }

    fn configure(&mut self, value: u8) -> (r: u8)
        requires
            old(self).inv(),
        ensures
            final(self).inv(),
            old(self).configured(*final(self), value, r),
    {
        let old = (self.core.prg_rom.get_bank(0) as u8) >> 2;
        self.core.prg_rom.set_bank(0, ((value & 0b00011100) << 2) as i16);
        old
    }

}

impl Mapper for HvcUN1Rom {
    open spec fn inv(&self) -> bool { self.core.wf() }

    open spec fn cpu_clock_ok(&self) -> bool { true }

    open spec fn cpu_clock_post(&self, after: Self, r: u8) -> bool { r == 0 && after == *self }

    open spec fn cpu_read_ok(&self, addr: u16) -> bool { self.core.can_access_cpu(addr) }

    open spec fn cpu_read_post(&self, after: Self, addr: u16, r: u8) -> bool {
        r == self.core.cpu_value(addr) && after == *self
    }

    open spec fn cpu_write_ok(&self, addr: u16, value: u8) -> bool {
        self.core.prg_rom.start_address <= addr <= self.core.prg_rom.end_address || self.core.can_access_cpu(addr)
    }

    open spec fn cpu_write_post(&self, after: Self, addr: u16, value: u8, r: u8) -> bool {
        if self.core.prg_rom.start_address <= addr <= self.core.prg_rom.end_address {
            self.configured(after, value, r)
        } else {
            &&& r == self.core.cpu_value(addr)
            &&& CartridgeCore::cpu_written(after.core, self.core, addr, value)
        }
    }

    open spec fn ppu_clock_ok(&self) -> bool { true }

    open spec fn ppu_clock_post(&self, after: Self) -> bool { after == *self }

    open spec fn ppu_read_ok(&self, addr: u16) -> bool { self.core.can_access_ppu(addr) }

    open spec fn ppu_read_post(&self, after: Self, addr: u16, r: u8) -> bool {
        r == self.core.ppu_value(addr) && after == *self
    }

    open spec fn ppu_write_ok(&self, addr: u16) -> bool { self.core.can_access_ppu(addr) }

    open spec fn ppu_write_post(&self, after: Self, addr: u16, value: u8, r: u8) -> bool {
        &&& r == self.core.ppu_value(addr)
        &&& CartridgeCore::ppu_written(after.core, self.core, addr, value)
    }

    fn cpu_bus_clock(&mut self) -> (r: u8) {
        InterruptFlags::empty()
    }

    fn read_cpu(&mut self, addr: u16) -> (r: u8) {
        self.core.read_cpu(addr)
    }

    fn write_cpu(&mut self, addr: u16, value: u8) -> (r: u8) {
        if self.core.prg_rom.contains_addr(addr) {
            self.configure(value)
        } else {
            self.core.write_cpu(addr, value)
        }
    }

    fn ppu_bus_clock(&mut self) {
    }

    fn read_ppu(&mut self, addr: u16) -> (r: u8) {
        self.core.read_ppu(addr)
    }

    fn write_ppu(&mut self, addr: u16, value: u8) -> (r: u8) {
        self.core.write_ppu(addr, value)
    }
}

} // verus!

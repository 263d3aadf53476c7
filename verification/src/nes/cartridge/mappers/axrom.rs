use vstd::prelude::*;

use crate::bus::InterruptFlags;
use crate::nes::cartridge::{CartridgeCore, MirrorType};
use crate::nes::cartridge::mappers::Mapper;

verus! {

/// Mapper 7: one 32K program bank and a single nametable, both chosen by a write to
/// program space.
pub struct AxRom {
    pub mirror_mode: u8,
    pub core: CartridgeCore,
}

impl AxRom {
    pub fn new(core: CartridgeCore) -> (r: AxRom)
        requires
            core.wf(),
        ensures
            r.inv(),
            r.mirror_mode == 0,
            r.core.same_contents(&core),
            r.core.vram.mirrored(MirrorType::SingleScreen(0)),
            r.core.prg_rom.bank_size == 0x8000,
            r.core.prg_rom.bank_map == core.prg_rom.bank_map,
    {
        let mut core = core;
        core.vram.set_mirror_type(MirrorType::SingleScreen(0));
        core.prg_rom.set_bank_size_k(32);
        AxRom { mirror_mode: 0, core }
    }

    /// The effect of a write to program space: bits 0-2 select the program bank,
    /// bit 4 the nametable; the previous settings are returned.
    pub open spec fn configured(&self, after: Self, value: u8, r: u8) -> bool {
        let prg = self.core.prg_rom.bank_map@;
        &&& r == ((prg[0].0 as u8) | (self.mirror_mode << 4u8))
        &&& after.mirror_mode == (value & 0x10) >> 4u8
        &&& after.core.prg_rom.banked_as(&self.core.prg_rom, prg.update(0, ((value & 0x07) as i16, prg[0].1)))
        &&& after.core.vram.rebanked(&self.core.vram)
        &&& after.core.vram.mirrored(MirrorType::SingleScreen(after.mirror_mode))
        &&& after.core.nes_header == self.core.nes_header
        &&& after.core.rom_expansion == self.core.rom_expansion
        &&& after.core.sram == self.core.sram
        &&& after.core.chr_ram == self.core.chr_ram
    }

    fn configure(&mut self, value: u8) -> (r: u8)
        requires
            old(self).inv(),
        ensures
            final(self).inv(),
            old(self).configured(*final(self), value, r),
    {
        let old = (self.core.prg_rom.get_bank(0) as u8) | (self.mirror_mode << 4);
        self.core.prg_rom.set_bank(0, (value & 0b00000111) as i16);
        self.mirror_mode = (value & 0b00010000) >> 4;
        self.core.vram.set_mirror_type(MirrorType::SingleScreen(self.mirror_mode));
        old
    }
}

impl Mapper for AxRom {
    open spec fn inv(&self) -> bool { self.core.wf() }

    open spec fn cpu_clock_ok(&self) -> bool { true }

    open spec fn cpu_clock_post(&self, after: Self, r: u8) -> bool { r == 0 && after == *self }

    open spec fn cpu_read_ok(&self, addr: u16) -> bool { self.core.can_access_cpu(addr) }

    open spec fn cpu_read_post(&self, after: Self, addr: u16, r: u8) -> bool {
        r == self.core.cpu_value(addr) && after == *self
    }

    open spec fn cpu_write_ok(&self, addr: u16, value: u8) -> bool {
        self.core.prg_rom.start_address <= addr <= self.core.prg_rom.end_address || self.core.can_access_cpu(addr)
    }

    open spec fn cpu_write_post(&self, after: Self, addr: u16, value: u8, r: u8) -> bool {
        if self.core.prg_rom.start_address <= addr <= self.core.prg_rom.end_address {
            self.configured(after, value, r)
        } else {
            &&& r == self.core.cpu_value(addr)
            &&& CartridgeCore::cpu_written(after.core, self.core, addr, value)
            &&& after.mirror_mode == self.mirror_mode
        }
    }

    open spec fn ppu_clock_ok(&self) -> bool { true }

    open spec fn ppu_clock_post(&self, after: Self) -> bool { after == *self }

    open spec fn ppu_read_ok(&self, addr: u16) -> bool { self.core.can_access_ppu(addr) }

    open spec fn ppu_read_post(&self, after: Self, addr: u16, r: u8) -> bool {
        r == self.core.ppu_value(addr) && after == *self
    }

    open spec fn ppu_write_ok(&self, addr: u16) -> bool { self.core.can_access_ppu(addr) }

    open spec fn ppu_write_post(&self, after: Self, addr: u16, value: u8, r: u8) -> bool {
        &&& r == self.core.ppu_value(addr)
        &&& CartridgeCore::ppu_written(after.core, self.core, addr, value)
        &&& after.mirror_mode == self.mirror_mode
    }

    fn cpu_bus_clock(&mut self) -> (r: u8) {
        InterruptFlags::empty()
    }

    fn read_cpu(&mut self, addr: u16) -> (r: u8) {
        self.core.read_cpu(addr)
    }

    fn write_cpu(&mut self, addr: u16, value: u8) -> (r: u8) {
        if self.core.prg_rom.contains_addr(addr) {
            self.configure(value)
        } else {
            self.core.write_cpu(addr, value)
        }
    }

    fn ppu_bus_clock(&mut self) {
    }

    fn read_ppu(&mut self, addr: u16) -> (r: u8) {
        self.core.read_ppu(addr)
    }

    fn write_ppu(&mut self, addr: u16, value: u8) -> (r: u8) {
        self.core.write_ppu(addr, value)
    }
}

} // verus!

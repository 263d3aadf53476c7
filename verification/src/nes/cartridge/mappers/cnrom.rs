use vstd::prelude::*;

use crate::bus::InterruptFlags;
use crate::nes::cartridge::{CartridgeCore, MirrorType};
use crate::nes::cartridge::mappers::Mapper;

verus! {

/// Mapper 3, and mapper 185 with its copy protection: a switchable 8K pattern bank.
pub struct CNRom {
    pub core: CartridgeCore,
    pub remaining_junk_reads: u8,
}

impl CNRom {
    pub fn new(core: CartridgeCore, copy_protection: bool) -> (r: CNRom)
        requires
            core.wf(),
        ensures
            r.inv(),
            r.core.same_contents(&core),
            r.core.chr_ram.bank_size == 0x2000,
            r.core.chr_ram.bank_map == core.chr_ram.bank_map,
            r.remaining_junk_reads == if copy_protection { 2u8 } else { 0u8 },
    {
        let mut core = core;
        core.chr_ram.set_bank_size_k(8);
        let remaining_junk_reads = if copy_protection { 2 } else { 0 };
        CNRom { core, remaining_junk_reads }
    }

    /// The effect of a write to program space: it selects the 8K pattern bank; the
    /// previous one is returned.
    pub open spec fn configured(&self, after: Self, value: u8, r: u8) -> bool {
        let map = self.core.chr_ram.bank_map@;
        &&& r == map[0].0 as u8
        &&& after.core.chr_ram.banked_as(&self.core.chr_ram, map.update(0, (value as i16, map[0].1)))
        &&& after.core.nes_header == self.core.nes_header
        &&& after.core.rom_expansion == self.core.rom_expansion
        &&& after.core.sram == self.core.sram
        &&& after.core.prg_rom == self.core.prg_rom
        &&& after.core.vram == self.core.vram
        &&& after.remaining_junk_reads == self.remaining_junk_reads
    }

    fn configure(&mut self, value: u8) -> (r: u8)
        requires
            old(self).inv(),
        ensures
            final(self).inv(),
            old(self).configured(*final(self), value, r),
    {
        let old = self.core.chr_ram.get_bank(0) as u8;
        self.core.chr_ram.set_bank(0, value as i16);
        old
    }

}

impl Mapper for CNRom {
    open spec fn inv(&self) -> bool { self.core.wf() }

    open spec fn cpu_clock_ok(&self) -> bool { true }

    open spec fn cpu_clock_post(&self, after: Self, r: u8) -> bool { r == 0 && after == *self }

    open spec fn cpu_read_ok(&self, addr: u16) -> bool { self.core.can_access_cpu(addr) }

    open spec fn cpu_read_post(&self, after: Self, addr: u16, r: u8) -> bool {
        r == self.core.cpu_value(addr) && after == *self
    }

    open spec fn cpu_write_ok(&self, addr: u16, value: u8) -> bool {
        self.core.prg_rom.start_address <= addr <= self.core.prg_rom.end_address || self.core.can_access_cpu(addr)
    }

    open spec fn cpu_write_post(&self, after: Self, addr: u16, value: u8, r: u8) -> bool {
        if self.core.prg_rom.start_address <= addr <= self.core.prg_rom.end_address {
            self.configured(after, value, r)
        } else {
            &&& r == self.core.cpu_value(addr)
            &&& CartridgeCore::cpu_written(after.core, self.core, addr, value)
            &&& after.remaining_junk_reads == self.remaining_junk_reads
        }
    }

    open spec fn ppu_clock_ok(&self) -> bool { true }

    open spec fn ppu_clock_post(&self, after: Self) -> bool { after == *self }

    /// The first reads of PPU address 0x2007 on a protected cartridge give junk.
    open spec fn ppu_read_ok(&self, addr: u16) -> bool {
        (addr == 0x2007 && self.remaining_junk_reads > 0) || self.core.can_access_ppu(addr)
    }

    open spec fn ppu_read_post(&self, after: Self, addr: u16, r: u8) -> bool {
        if addr == 0x2007 && self.remaining_junk_reads > 0 {
            &&& r == 0xFF
            &&& after.core == self.core
            &&& after.remaining_junk_reads == self.remaining_junk_reads - 1
        } else {
            r == self.core.ppu_value(addr) && after == *self
        }
    }

    open spec fn ppu_write_ok(&self, addr: u16) -> bool { self.core.can_access_ppu(addr) }

    open spec fn ppu_write_post(&self, after: Self, addr: u16, value: u8, r: u8) -> bool {
        &&& r == self.core.ppu_value(addr)
        &&& CartridgeCore::ppu_written(after.core, self.core, addr, value)
            &&& after.remaining_junk_reads == self.remaining_junk_reads
    }

    fn cpu_bus_clock(&mut self) -> (r: u8) {
        InterruptFlags::empty()
    }

    fn read_cpu(&mut self, addr: u16) -> (r: u8) {
        self.core.read_cpu(addr)
    }

    fn write_cpu(&mut self, addr: u16, value: u8) -> (r: u8) {
        if self.core.prg_rom.contains_addr(addr) {
            self.configure(value)
        } else {
            self.core.write_cpu(addr, value)
        }
    }

    fn ppu_bus_clock(&mut self) {
    }

    fn read_ppu(&mut self, addr: u16) -> (r: u8) {
        if addr == 0x2007 && self.remaining_junk_reads > 0 {
            self.remaining_junk_reads = self.remaining_junk_reads - 1;
            0xFF
        } else {
            self.core.read_ppu(addr)
        }
    }

    fn write_ppu(&mut self, addr: u16, value: u8) -> (r: u8) {
        self.core.write_ppu(addr, value)
    }
}

} // verus!

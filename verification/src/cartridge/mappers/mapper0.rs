use vstd::prelude::*;

use crate::cartridge::mappers::{CartridgeCpuLocation, CartridgePpuLocation, Mapper};
use crate::cartridge::MirrorType;

verus! {

/// The 1K nametable bank that nametable `table` (0-3) shows under a mirroring
/// arrangement: vertical mirroring pairs 0 with 2 and 1 with 3, horizontal pairs 0
/// with 1 and 2 with 3; four-screen boards keep all four apart.
pub open spec fn nametable_bank(mirror_type: MirrorType, table: u16) -> u16 {
    match mirror_type {
        MirrorType::Vertical => table % 2,
        MirrorType::Horizontal => table / 2,
        MirrorType::FourScreen => table,
    }
}

/// Mapper 0: 8K of SRAM at 0x6000, program ROM from 0x8000, pattern ROM below 0x2000
/// and 2K of nametable RAM mirrored through 0x2000-0x3FFF.
#[derive(Clone, Copy, PartialEq, Eq, Debug, Structural)]
pub struct Mapper0 {
    pub mirror_type: MirrorType,
}

impl Mapper0 {
    pub fn new(mirror_type: MirrorType) -> (r: Mapper0)
        ensures
            r.mirror_type == mirror_type,
    {
        Mapper0 { mirror_type }
    }
}

impl Mapper for Mapper0 {
    open spec fn cpu_location(&self, addr: u16) -> CartridgeCpuLocation {
        if 0x6000 <= addr && addr <= 0x7FFF {
            CartridgeCpuLocation::SRam((addr - 0x6000) as u16)
        } else if addr >= 0x8000 {
            CartridgeCpuLocation::PrgRom((addr - 0x8000) as u16)
        } else {
            CartridgeCpuLocation::Unmapped
        }
    }

    /// Pattern addresses pass through; nametable addresses fold to 4K, pick their
    /// table's bank and keep the offset within the 1K table.
    open spec fn ppu_location(&self, addr: u16) -> CartridgePpuLocation {
        if addr <= 0x1FFF {
            CartridgePpuLocation::ChrRom(addr)
        } else if addr <= 0x3FFF {
            let offset = (addr - 0x2000) % 0x1000;
            let bank = nametable_bank(self.mirror_type, (offset / 0x400) as u16);
            CartridgePpuLocation::VRam((bank * 0x400 + offset % 0x400) as u16)
        } else {
            CartridgePpuLocation::Unmapped
        }
    }

    fn translate_cpu_addr(&mut self, addr: u16) -> (r: CartridgeCpuLocation)
        ensures
            *final(self) == *old(self),
    {
        if 0x6000 <= addr && addr <= 0x7FFF {
            CartridgeCpuLocation::SRam(addr - 0x6000)
        } else if addr >= 0x8000 {
            CartridgeCpuLocation::PrgRom(addr - 0x8000)
        } else {
            CartridgeCpuLocation::Unmapped
        }
    }

    fn translate_ppu_addr(&mut self, addr: u16) -> (r: CartridgePpuLocation)
        ensures
            *final(self) == *old(self),
    {
        if addr <= 0x1FFF {
            CartridgePpuLocation::ChrRom(addr)
        } else if addr <= 0x3FFF {
            let offset = (addr - 0x2000) % 0x1000;
            let table = offset / 0x400;
            let bank = match self.mirror_type {
                MirrorType::Vertical => table % 2,
                MirrorType::Horizontal => table / 2,
                MirrorType::FourScreen => table,
            };
            CartridgePpuLocation::VRam(bank * 0x400 + offset % 0x400)
        } else {
            CartridgePpuLocation::Unmapped
        }
    }
}

/// The nametable window repeats: 0x3000-0x3FFF reaches what 0x2000-0x2FFF reaches.
pub proof fn law_nametables_repeat(m: Mapper0, addr: u16)
    requires
        0x2000 <= addr <= 0x2FFF,
    ensures
        m.ppu_location(addr) == m.ppu_location((addr + 0x1000) as u16),
{
}

/// With vertical mirroring the nametable 2K above shows the same bytes; with
/// horizontal mirroring the one 1K above, within each half.
pub proof fn law_mirroring(m: Mapper0, addr: u16)
    requires
        0x2000 <= addr < 0x2800,
    ensures
        m.mirror_type == MirrorType::Vertical ==> m.ppu_location(addr) == m.ppu_location((addr + 0x0800) as u16),
        m.mirror_type == MirrorType::Horizontal && (addr < 0x2400) ==> m.ppu_location(addr) == m.ppu_location((addr + 0x0400) as u16),
        m.mirror_type == MirrorType::Horizontal && (addr < 0x2400) ==> m.ppu_location((addr + 0x0800) as u16) == m.ppu_location((addr + 0x0C00) as u16),
        m.mirror_type == MirrorType::Horizontal && (addr < 0x2400) ==> m.ppu_location(addr) != m.ppu_location((addr + 0x0800) as u16),
{
}

} // verus!

pub mod mapper0;

use vstd::prelude::*;

verus! {

/// Where a CPU address lands on the cartridge.
#[derive(Clone, Copy, PartialEq, Eq, Debug, Structural)]
pub enum CartridgeCpuLocation {
    Unmapped,
    SRam(u16),
    Trainer(u16),
    PrgRom(u16),
}

/// Where a PPU address lands on the cartridge.
#[derive(Clone, Copy, PartialEq, Eq, Debug, Structural)]
pub enum CartridgePpuLocation {
    Unmapped,
    ChrRom(u16),
    VRam(u16),
}

/// The address decoding of a cartridge board.
pub trait Mapper {
    /// Where the board puts a CPU address.
    spec fn cpu_location(&self, addr: u16) -> CartridgeCpuLocation;

    /// Where the board puts a PPU address.
    spec fn ppu_location(&self, addr: u16) -> CartridgePpuLocation;

    fn translate_cpu_addr(&mut self, addr: u16) -> (r: CartridgeCpuLocation)
        ensures
            r == old(self).cpu_location(addr),
    ;

    fn translate_ppu_addr(&mut self, addr: u16) -> (r: CartridgePpuLocation)
        ensures
            r == old(self).ppu_location(addr),
    ;
}

} // verus!

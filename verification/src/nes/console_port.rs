use vstd::prelude::*;

use crate::nes::cartridge::mappers::{AnyMapper, Mapper};

verus! {

/// A CPU access to the console's registers or cartridge, kept until the console applies
/// it.
#[derive(Clone, Copy, PartialEq, Eq, Debug, Structural)]
pub enum IoAccess {
    Read(u16),
    Write(u16, u8),
}

/// What a CPU read of `addr` gives through the console port: PPU register `addr & 7`
/// from 0x2000 to 0x3FFF, an APU or controller port up to 0x401F, and the cartridge
/// above; the port does not answer below 0x2000.
pub open spec fn console_read(ppu: Seq<u8>, apu: Seq<u8>, cartridge: AnyMapper, addr: u16) -> u8 {
    if addr < 0x2000 {
        0
    } else if addr <= 0x3FFF {
        ppu[(addr & 7) as int]
    } else if 0x4000 <= addr <= 0x401F {
        apu[addr - 0x4000]
    } else {
        cartridge.cpu_view(addr)
    }
}

/// The CPU's window onto 0x2000-0xFFFF: the PPU registers (repeated every eight bytes up
/// to 0x3FFF), the APU and controller ports (0x4000-0x401F) and the cartridge
/// (0x4020-0xFFFF). Reads give what the console last put here for the PPU and APU
/// registers, and what the cartridge holds; every access is kept, in order, for the
/// console to apply to the PPU, the APU and the cartridge when the CPU's cycle ends.
pub struct ConsolePort {
    pub ppu_registers: [u8; 8],
    pub apu_registers: [u8; 32],
    pub cartridge: AnyMapper,
    pub accesses: Vec<IoAccess>,
}

impl ConsolePort {
    pub open spec fn wf(&self) -> bool {
        self.cartridge.inv()
    }

    /// What a read of `addr` gives.
    pub open spec fn value(&self, addr: u16) -> u8 {
        console_read(self.ppu_registers@, self.apu_registers@, self.cartridge, addr)
    }

    /// The port before any register value is put in: every register reads 0.
    pub fn new(cartridge: AnyMapper) -> (r: ConsolePort)
        ensures
            r.cartridge == cartridge,
            r.ppu_registers@ == Seq::new(8, |i: int| 0u8),
            r.apu_registers@ == Seq::new(32, |i: int| 0u8),
            r.accesses@.len() == 0,
    {
        let r = ConsolePort { ppu_registers: [0; 8], apu_registers: [0; 32], cartridge, accesses: Vec::new() };
        assert(r.ppu_registers@ =~= Seq::new(8, |i: int| 0u8));
        assert(r.apu_registers@ =~= Seq::new(32, |i: int| 0u8));
        r
    }

    /// What a read of `addr` gives, with nothing kept.
    pub fn value_of(&mut self, addr: u16) -> (r: u8)
        requires
            old(self).wf(),
        ensures
            r == old(self).value(addr),
            *final(self) == *old(self),
    {
        if addr < 0x2000 {
            0
        } else if addr <= 0x3FFF {
            proof { crate::bits::lemma_and_bound16(addr, 7); }
            self.ppu_registers[(addr & 7) as usize]
        } else if addr <= 0x401F {
            self.apu_registers[(addr - 0x4000) as usize]
        } else {
            self.cartridge.peek_cpu(addr)
        }
    }

    /// A read: the value, with the access kept.
    pub fn read(&mut self, addr: u16) -> (r: u8)
        requires
            old(self).wf(),
        ensures
            r == old(self).value(addr),
            final(self).ppu_registers == old(self).ppu_registers,
            final(self).apu_registers == old(self).apu_registers,
            final(self).cartridge == old(self).cartridge,
            final(self).accesses@ == old(self).accesses@.push(IoAccess::Read(addr)),
    {
        let r = self.value_of(addr);
        self.accesses.push(IoAccess::Read(addr));
        r
    }

    /// A write: the access is kept; returns what a read of the address gives.
    pub fn write(&mut self, addr: u16, data: u8) -> (r: u8)
        requires
            old(self).wf(),
        ensures
            r == old(self).value(addr),
            final(self).ppu_registers == old(self).ppu_registers,
            final(self).apu_registers == old(self).apu_registers,
            final(self).cartridge == old(self).cartridge,
            final(self).accesses@ == old(self).accesses@.push(IoAccess::Write(addr, data)),
    {
        let r = self.value_of(addr);
        self.accesses.push(IoAccess::Write(addr, data));
        r
    }
}

} // verus!

use vstd::prelude::*;

use crate::device::BusDevice;

verus! {

pub const RANGE_START: u16 = 0x4000;
pub const RANGE_END: u16 = 0x401F;
pub const ADDR_MASK: u16 = 0x001F;

/// The first audio processing unit: 32 plain registers at 0x4000-0x401F, all 0xFF at
/// power-on.
pub struct APU {
    pub registers: [u8; 0x20],
}

impl APU {
    pub fn new() -> (r: APU)
        ensures
            forall|i: int| 0 <= i < 0x20 ==> r.registers@[i] == 0xFF,
    {
        APU { registers: [0xFFu8; 0x20] }
    }

    /// The register an address names: its low five bits.
    pub open spec fn physical_spec(addr: u16) -> int {
        ((addr & ADDR_MASK) - (RANGE_START & ADDR_MASK)) as int
    }

    pub fn physical(addr: u16) -> (r: usize)
        ensures
            r == APU::physical_spec(addr),
            r < 0x20,
    {
        proof { crate::bits::lemma_and_bound16(addr, ADDR_MASK); }
        assert(0x4000u16 & 0x001Fu16 == 0) by (bit_vector);
        ((addr & ADDR_MASK) - (RANGE_START & ADDR_MASK)) as usize
    }
}

impl BusDevice for APU {
    open spec fn claims(&self, addr: u16) -> bool {
        RANGE_START <= addr && addr <= RANGE_END
    }

    open spec fn cpu_value(&self, addr: u16) -> u8 {
        self.registers@[APU::physical_spec(addr)]
    }

    fn read_from_cpu_bus(&mut self, addr: u16) -> (r: Option<u8>)
        ensures
            *final(self) == *old(self),
    {
        if addr >= RANGE_START && addr <= RANGE_END {
            Some(self.registers[APU::physical(addr)])
        } else {
            None
        }
    }

    fn write_to_cpu_bus(&mut self, addr: u16, data: u8) -> (r: Option<u8>)
        ensures
            old(self).claims(addr) ==> final(self).registers@ == old(self).registers@.update(APU::physical_spec(addr), data),
            !old(self).claims(addr) ==> *final(self) == *old(self),
    {
        if addr >= RANGE_START && addr <= RANGE_END {
            let i = APU::physical(addr);
            let old = self.registers[i];
            self.registers[i] = data;
            Some(old)
        } else {
            None
        }
    }
}

} // verus!

use vstd::prelude::*;

use crate::bus::BusDevice;

verus! {

/// Plain read/write memory mapped at `start_address..=end_address`.
/// Addresses are mirrored by masking them with `address_mask`, so the
/// backing store holds `address_mask + 1` bytes.
pub struct RAM {
    pub start_address: u16,
    pub end_address: u16,
    pub address_mask: u16,
    pub memory: Vec<u8>,
}

impl RAM {
    /// The backing store is exactly large enough for every masked address.
    pub open spec fn wf(&self) -> bool {
        self.memory@.len() == self.address_mask as nat + 1
    }

    /// The byte cell that `addr` selects.
    pub open spec fn cell(&self, addr: u16) -> int {
        (addr & self.address_mask) as int
    }

    pub fn new(start_address: u16, end_address: u16, address_mask: u16) -> (r: RAM)
        ensures
            r.wf(),
            r.start_address == start_address,
            r.end_address == end_address,
            r.address_mask == address_mask,
            forall|i: int| 0 <= i < r.memory@.len() ==> r.memory@[i] == 0,
    {
        let size: usize = address_mask as usize + 1;
        let memory = vec![0u8; size];
        RAM { start_address, end_address, address_mask, memory }
    }

    pub fn read_byte(&self, addr: u16) -> (r: u8)
        requires
            self.wf(),
        ensures
            r == self.memory@[self.cell(addr)],
    {
        let m = self.address_mask;
        assert((addr & m) <= m) by (bit_vector);
        self.memory[(addr & m) as usize]
    }

    pub fn write_byte(&mut self, addr: u16, data: u8) -> (r: u8)
        requires
            old(self).wf(),
        ensures
            final(self).wf(),
            r == old(self).memory@[old(self).cell(addr)],
            final(self).memory@ == old(self).memory@.update(old(self).cell(addr), data),
            final(self).start_address == old(self).start_address,
            final(self).end_address == old(self).end_address,
            final(self).address_mask == old(self).address_mask,
    {
        let m = self.address_mask;
        assert((addr & m) <= m) by (bit_vector);
        let i = (addr & m) as usize;
        let old = self.memory[i];
        self.memory.set(i, data);
        old
    }
}

impl BusDevice for RAM {
    open spec fn device_ok(&self) -> bool {
        self.wf()
    }

    open spec fn can_read(&self, addr: u16) -> bool { true }

    open spec fn can_write(&self, addr: u16, data: u8) -> bool { true }

    open spec fn can_clock(&self) -> bool { true }

    fn get_address_range(&self) -> (r: (u16, u16))
        ensures
            r == (self.start_address, self.end_address),
    {
        (self.start_address, self.end_address)
    }

    fn read(&mut self, addr: u16) -> (r: u8)
        ensures
            r == old(self).memory@[old(self).cell(addr)],
            *final(self) == *old(self),
    {
        self.read_byte(addr)
    }

    fn write(&mut self, addr: u16, data: u8) -> (r: u8)
        ensures
            r == old(self).memory@[old(self).cell(addr)],
            final(self).memory@ == old(self).memory@.update(old(self).cell(addr), data),
            final(self).start_address == old(self).start_address,
            final(self).end_address == old(self).end_address,
            final(self).address_mask == old(self).address_mask,
    {
        self.write_byte(addr, data)
    }

    /// Memory raises no interrupt.
    fn bus_clock(&mut self) -> (r: u8)
        ensures
            r == 0,
            *final(self) == *old(self),
    {
        0
    }
}

/// The console's 2K of work RAM repeats every 2K through 0x0000-0x1FFF: an address and
/// the one 2K above it read the same byte.
pub proof fn law_work_ram_mirrors(memory: Seq<u8>, addr: u16)
    requires
        addr <= 0x17FF,
    ensures
        (crate::bus::DeviceModel::Ram { mask: 0x07FF, memory }).read(addr)
            == (crate::bus::DeviceModel::Ram { mask: 0x07FF, memory }).read((addr + 0x0800) as u16),
{
    let above = (addr + 0x0800) as u16;
    assert(above & 0x07FF == addr & 0x07FF) by (bit_vector)
        requires
            addr <= 0x17FF,
            above == (addr + 0x0800) as u16,
    ;
}

} // verus!

use vstd::prelude::*;

verus! {

/// A device on the CPU bus that answers the addresses it claims and ignores the rest.
pub trait BusDevice {
    /// Whether the device answers `addr`.
    spec fn claims(&self, addr: u16) -> bool;

    /// What a read of a claimed address gives.
    spec fn cpu_value(&self, addr: u16) -> u8;

    /// A read: `Some` byte where the device answers, else `None`.
    fn read_from_cpu_bus(&mut self, addr: u16) -> (r: Option<u8>)
        ensures
            old(self).claims(addr) ==> r == Some(old(self).cpu_value(addr)),
            !old(self).claims(addr) ==> r is None,
    ;

    /// A write: `Some` previous byte where the device answers, else `None`.
    fn write_to_cpu_bus(&mut self, addr: u16, data: u8) -> (r: Option<u8>)
        ensures
            old(self).claims(addr) ==> r == Some(old(self).cpu_value(addr)),
            !old(self).claims(addr) ==> r is None,
    ;
}

} // verus!

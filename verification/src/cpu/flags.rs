use vstd::prelude::*;

verus! {

/// The bits of the processor status register.
pub struct Flag;

impl Flag {
    pub const Carry: u8 = 0b0000_0001;
    pub const Zero: u8 = 0b0000_0010;
    pub const InterruptDisable: u8 = 0b0000_0100;
    pub const Decimal: u8 = 0b0000_1000;
    pub const Break: u8 = 0b0001_0000;
    pub const Unused: u8 = 0b0010_0000;
    pub const Overflow: u8 = 0b0100_0000;
    pub const Negative: u8 = 0b1000_0000;
}

/// A single status bit.
pub open spec fn is_flag(flag: u8) -> bool {
    flag == 1 || flag == 2 || flag == 4 || flag == 8 || flag == 16 || flag == 32 || flag == 64 || flag == 128
}

} // verus!

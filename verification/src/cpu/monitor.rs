use vstd::prelude::*;

verus! {

/// Observes the CPU as it runs: the registers at the start of each instruction,
/// the bytes it fetches and the data it reads.
pub trait Monitor {
    fn new_instruction(&mut self, cycle: usize, pc: u16, sp: u8, a: u8, x: u8, y: u8, status: u8);

    fn fetch_instruction_byte(&mut self, byte: u8);

    fn read_data_byte(&mut self, addr: u16, data: u8);

    fn end_instruction(&mut self);
}

/// A monitor that ignores everything.
pub struct NulMonitor {}

impl Monitor for NulMonitor {
    fn new_instruction(&mut self, _cycle: usize, _pc: u16, _sp: u8, _a: u8, _x: u8, _y: u8, _status: u8) {
    }

    fn fetch_instruction_byte(&mut self, _byte: u8) {
    }

    fn read_data_byte(&mut self, _addr: u16, _data: u8) {
    }

    fn end_instruction(&mut self) {
    }
}

} // verus!

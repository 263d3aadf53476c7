pub mod alu;
pub mod decode;
pub mod flags;
pub mod instructions;
pub mod monitor;
pub mod semantics;

use vstd::prelude::*;

use crate::bits::{lemma_byte_bits, lemma_byte_pair_bits, lemma_sum_sign, lemma_word_bits};

use crate::bus::{bus_read, bus_target, bus_touch, bus_write, group_touch, AddrRange, Bus, Device, DeviceModel};
use crate::cpu::alu::{lemma_adc_binary, lemma_sbc_binary, lemma_shift_left_bits, lemma_shift_right_bits, adc_binary, adc_decimal, compare_flags, negative, sbc_binary, sbc_decimal, shifted_left, shifted_right, wrap_dec, wrap_inc};
use crate::cpu::decode::{decode, decode_spec};
use crate::cpu::flags::Flag;
use crate::cpu::instructions::{Instruction, Mode};
use crate::cpu::monitor::{Monitor, NulMonitor};
use crate::cpu::semantics::{executable, Outcome};
use crate::ram::RAM;

verus! {

broadcast use group_touch;


pub const NMI_ADDR: u16 = 0xFFFA;
pub const RESET_ADDR: u16 = 0xFFFC;
pub const IRQ_ADDR: u16 = 0xFFFE;
pub const SIGN_BIT: u8 = 0b1000_0000;
pub const HIGH_BYTE_MASK: u16 = 0xFF00;
pub const LOW_BYTE_MASK: u16 = 0x00FF;
pub const STACK_BASE: u16 = 0x0100;

/// Whether the CPU reads or writes during a cycle, as DMA units need to know.
#[derive(Clone, Copy, PartialEq, Eq, Debug, Structural)]
pub enum CPUCycleType {
    Read,
    Write,
}

#[derive(Clone, Copy, PartialEq, Eq, Debug, Structural)]
pub enum CPUType {
    RP2A03,
    MOS6502,
}

/// Where an operand lives. `Addr(original, effective)` keeps the address before
/// indexing so the page-crossing penalty can be judged.
#[derive(Clone, Copy, PartialEq, Eq, Debug, Structural)]
pub enum Location {
    A,
    X,
    Y,
    SP,
    Status,
    Addr(u16, u16),
    Imm,
    Imp,
}

#[derive(Clone, Copy, PartialEq, Eq, Debug, Structural)]
pub enum BranchType {
    CC, CS, EQ, MI, NE, PL, VC, VS, JMP, JSR,
}

#[derive(Clone, Copy, PartialEq, Eq, Debug, Structural)]
pub enum Branch {
    NotTaken,
    Taken,
}

#[derive(Clone, Copy, PartialEq, Eq, Debug, Structural)]
pub enum PageBoundary {
    NotCrossed,
    Crossed,
}

#[derive(Clone, Copy, PartialEq, Eq, Debug, Structural)]
pub enum ShiftStyle {
    ShiftOff,
    Rotate,
}

#[derive(Clone, Copy, PartialEq, Eq, Debug, Structural)]
pub enum Interrupt {
    BRK,
    IRQ,
    NMI,
    RST,
}

/// Bitwise operations of the accumulator with an operand.
#[derive(Clone, Copy, PartialEq, Eq, Debug, Structural)]
pub enum BinaryOp {
    And,
    Or,
    Xor,
}

/// In-place increments and decrements.
#[derive(Clone, Copy, PartialEq, Eq, Debug, Structural)]
pub enum UnaryOp {
    Inc,
    Dec,
}

// ---------------------------------------------------------------------------
// The model: what the CPU's registers and its bus hold.

/// The architectural state an instruction reads and changes.
pub ghost struct CpuState {
    pub a: u8,
    pub x: u8,
    pub y: u8,
    pub status: u8,
    pub sp: u8,
    pub pc: u16,
    pub trapped: bool,
    pub interrupt: Option<Interrupt>,
    pub mem: Seq<(AddrRange, DeviceModel)>,
}

/// The sequencing state of the clocked CPU.
pub ghost struct CpuControl {
    pub cpu_type: CPUType,
    pub jammed: bool,
    pub cycles: usize,
    pub rdy: bool,
    pub instruction: Instruction,
    pub mode: Mode,
    pub remaining_cycles: u8,
    pub extra_cycles: u8,
    pub cycle_on_page_boundary: bool,
}

pub open spec fn inc16(v: u16, n: int) -> u16 {
    ((v as int + n) % 0x10000) as u16
}

pub open spec fn word(lo: u8, hi: u8) -> u16 {
    (hi as int * 256 + lo as int) as u16
}

pub open spec fn low_of(v: u16) -> u8 {
    (v as int % 256) as u8
}

pub open spec fn high_of(v: u16) -> u8 {
    (v as int / 256) as u8
}

pub open spec fn flag_set(status: u8, flag: u8, value: bool) -> u8 {
    if value { status | flag } else { status & !flag }
}

pub open spec fn flag_of(status: u8, flag: u8) -> bool {
    status & flag != 0
}

/// Sets N and Z from a value.
pub open spec fn with_nz(status: u8, v: u8) -> u8 {
    flag_set(flag_set(status, Flag::Negative, v & SIGN_BIT != 0), Flag::Zero, v == 0)
}

pub open spec fn boundary_of(loc: Location) -> PageBoundary {
    match loc {
        Location::Addr(a1, a2) => if (a1 & HIGH_BYTE_MASK) != (a2 & HIGH_BYTE_MASK) {
            PageBoundary::Crossed
        } else {
            PageBoundary::NotCrossed
        },
        _ => PageBoundary::NotCrossed,
    }
}

pub open spec fn is_addr(loc: Location) -> bool {
    loc matches Location::Addr(_, _)
}

/// Modes that name a memory operand.
pub open spec fn is_memory_mode(m: Mode) -> bool {
    m == Mode::Abs || m == Mode::AbsX || m == Mode::AbsY || m == Mode::AbsInd || m == Mode::IndX
        || m == Mode::IndY || m == Mode::Rel || m == Mode::Zp || m == Mode::Zpx || m == Mode::Zpy
}

/// Modes an operand can be read from.
pub open spec fn is_readable_mode(m: Mode) -> bool {
    m != Mode::Imp
}

/// Modes an operand can be written to.
pub open spec fn is_writable_mode(m: Mode) -> bool {
    m != Mode::Imp && m != Mode::Imm
}

impl CpuState {
    pub open spec fn rd(self, addr: u16) -> u8 {
        bus_read(self.mem, addr)
    }

    /// The state after a read of `addr`: the answering device keeps the access where it
    /// is a console port.
    pub open spec fn touch(self, addr: u16) -> CpuState {
        CpuState { mem: bus_touch(self.mem, addr), ..self }
    }

    /// The state after reading the word at `addr`.
    pub open spec fn touch_word(self, addr: u16) -> CpuState {
        self.touch(addr).touch(inc16(addr, 1))
    }

    pub open spec fn wr(self, addr: u16, v: u8) -> CpuState {
        CpuState { mem: bus_write(self.mem, addr, v), ..self }
    }

    pub open spec fn flag(self, flag: u8) -> bool {
        flag_of(self.status, flag)
    }

    pub open spec fn set_flag(self, flag: u8, value: bool) -> CpuState {
        CpuState { status: flag_set(self.status, flag, value), ..self }
    }

    pub open spec fn with_pc(self, pc: u16) -> CpuState {
        CpuState { pc, ..self }
    }

    /// The byte at the program counter, and the state past it.
    pub open spec fn fetch(self) -> (u8, CpuState) {
        (self.rd(self.pc), self.touch(self.pc).with_pc(inc16(self.pc, 1)))
    }

    /// The little-endian word at the program counter, and the state past it.
    pub open spec fn fetch_word(self) -> (u16, CpuState) {
        (word(self.rd(self.pc), self.rd(inc16(self.pc, 1))), self.touch_word(self.pc).with_pc(inc16(self.pc, 2)))
    }

    pub open spec fn push(self, v: u8) -> CpuState {
        CpuState { sp: ((self.sp as int + 255) % 256) as u8, ..self.wr((STACK_BASE + self.sp) as u16, v) }
    }

    pub open spec fn pop(self) -> (u8, CpuState) {
        let sp = ((self.sp as int + 1) % 256) as u8;
        (self.rd((STACK_BASE + sp) as u16), CpuState { sp, ..self.touch((STACK_BASE + sp) as u16) })
    }

    pub open spec fn push_word(self, v: u16) -> CpuState {
        self.push(high_of(v)).push(low_of(v))
    }

    pub open spec fn pop_word(self) -> (u16, CpuState) {
        let (lo, s1) = self.pop();
        let (hi, s2) = s1.pop();
        (word(lo, hi), s2)
    }

    pub open spec fn read_word(self, addr: u16) -> u16 {
        word(self.rd(addr), self.rd(inc16(addr, 1)))
    }

    /// The operand location of a mode, and the state after its bytes are fetched.
    pub open spec fn locate(self, mode: Mode) -> (Location, CpuState) {
        match mode {
            Mode::Abs => {
                let (w, s) = self.fetch_word();
                (Location::Addr(w, w), s)
            },
            Mode::AbsX => {
                let (w, s) = self.fetch_word();
                (Location::Addr(w, inc16(w, self.x as int)), s)
            },
            Mode::AbsY => {
                let (w, s) = self.fetch_word();
                (Location::Addr(w, inc16(w, self.y as int)), s)
            },
            Mode::Status => (Location::Status, self),
            Mode::A => (Location::A, self),
            Mode::X => (Location::X, self),
            Mode::Y => (Location::Y, self),
            Mode::SP => (Location::SP, self),
            Mode::Imm => (Location::Imm, self),
            Mode::Imp => (Location::Imp, self),
            Mode::AbsInd => {
                // the high byte of the pointer is read without carrying into its page
                let (w, s) = self.fetch_word();
                let hi_addr = word(((low_of(w) as int + 1) % 256) as u8, high_of(w));
                let lo = s.rd(w);
                let hi = s.rd(hi_addr);
                (Location::Addr(w, word(lo, hi)), s.touch(w).touch(hi_addr))
            },
            Mode::IndX => {
                let (b, s) = self.fetch();
                let zl = (b as int + self.x as int) % 256;
                let zh = (zl + 1) % 256;
                let addr = word(s.rd(zl as u16), s.rd(zh as u16));
                (Location::Addr(addr, addr), s.touch(zl as u16).touch(zh as u16))
            },
            Mode::IndY => {
                let (b, s) = self.fetch();
                let zh = (b as int + 1) % 256;
                let orig = word(s.rd(b as u16), s.rd(zh as u16));
                (Location::Addr(orig, inc16(orig, self.y as int)), s.touch(b as u16).touch(zh as u16))
            },
            Mode::Rel => {
                let (off, s) = self.fetch();
                let disp: int = if off >= 128 { off as int - 256 } else { off as int };
                (Location::Addr(s.pc, ((s.pc as int + disp + 0x10000) % 0x10000) as u16), s)
            },
            Mode::Zp => {
                let (b, s) = self.fetch();
                (Location::Addr(b as u16, b as u16), s)
            },
            Mode::Zpx => {
                let (b, s) = self.fetch();
                let z = ((b as int + self.x as int) % 256) as u16;
                (Location::Addr(z, z), s)
            },
            Mode::Zpy => {
                let (b, s) = self.fetch();
                let z = ((b as int + self.y as int) % 256) as u16;
                (Location::Addr(z, z), s)
            },
        }
    }

    /// The value at a location; an immediate operand is fetched.
    pub open spec fn operand(self, loc: Location) -> (u8, CpuState) {
        match loc {
            Location::A => (self.a, self),
            Location::X => (self.x, self),
            Location::Y => (self.y, self),
            Location::SP => (self.sp, self),
            Location::Status => (self.status, self),
            Location::Addr(_, addr) => (self.rd(addr), self.touch(addr)),
            Location::Imm => self.fetch(),
            Location::Imp => (0, self),
        }
    }

    /// The state after storing a value at a location, flags untouched.
    pub open spec fn store(self, loc: Location, v: u8) -> CpuState {
        match loc {
            Location::A => CpuState { a: v, ..self },
            Location::X => CpuState { x: v, ..self },
            Location::Y => CpuState { y: v, ..self },
            Location::SP => CpuState { sp: v, ..self },
            Location::Status => CpuState { status: v, ..self },
            Location::Addr(_, addr) => self.wr(addr, v),
            _ => self,
        }
    }

    /// The state after storing a value at a location and setting N and Z from it.
    pub open spec fn store_nz(self, loc: Location, v: u8) -> CpuState {
        let s = self.store(loc, v);
        CpuState { status: with_nz(s.status, v), ..s }
    }
}

/// The instruction an interrupt runs as.
pub open spec fn interrupt_instruction(i: Interrupt) -> Instruction {
    match i {
        Interrupt::BRK => Instruction::BRK,
        Interrupt::IRQ => Instruction::IRQ,
        Interrupt::NMI => Instruction::NMI,
        Interrupt::RST => Instruction::RST,
    }
}

/// One tick of the CPU clock. An instruction's effect happens all at once on the last of
/// its cycles; a page crossing (when the instruction pays for one) and a taken branch
/// each add a cycle. A pending interrupt is taken when the next instruction would start.
pub open spec fn clock_step(st: CpuState, ctl: CpuControl) -> (CpuState, CpuControl) {
    if ctl.jammed || !ctl.rdy {
        (st, ctl)
    } else if ctl.remaining_cycles > 0 {
        let (st2, extra) = if ctl.remaining_cycles == 1 {
            let (s, pb, br) = st.run(ctl.instruction, ctl.mode, ctl.cpu_type == CPUType::MOS6502);
            let e1 = if pb == PageBoundary::Crossed && ctl.cycle_on_page_boundary { ctl.extra_cycles + 1 } else { ctl.extra_cycles as int };
            let e2 = if br == Branch::Taken { e1 + 1 } else { e1 };
            (s, e2 as u8)
        } else {
            (st, ctl.extra_cycles)
        };
        (st2, CpuControl {
            jammed: ctl.jammed || (ctl.remaining_cycles == 1 && ctl.instruction == Instruction::JAM),
            remaining_cycles: (ctl.remaining_cycles - 1) as u8,
            extra_cycles: extra,
            cycles: (ctl.cycles + 1) as usize,
            ..ctl
        })
    } else if ctl.extra_cycles > 0 {
        (st, CpuControl { extra_cycles: (ctl.extra_cycles - 1) as u8, cycles: (ctl.cycles + 1) as usize, ..ctl })
    } else {
        match st.interrupt {
            Some(i) => (st, CpuControl {
                instruction: interrupt_instruction(i),
                mode: Mode::Imp,
                remaining_cycles: 6,
                extra_cycles: 0,
                cycle_on_page_boundary: false,
                cycles: (ctl.cycles + 1) as usize,
                ..ctl
            }),
            None => {
                let (op, s1) = st.fetch();
                let (i, m, c, b) = decode_spec(op);
                (s1, CpuControl {
                    instruction: i,
                    mode: m,
                    remaining_cycles: (c - 1) as u8,
                    extra_cycles: 0,
                    cycle_on_page_boundary: b,
                    cycles: (ctl.cycles + 1) as usize,
                    ..ctl
                })
            },
        }
    }
}

/// `n` ticks of the clock.
pub open spec fn clock_steps(st: CpuState, ctl: CpuControl, n: nat) -> (CpuState, CpuControl)
    decreases n,
{
    if n == 0 {
        (st, ctl)
    } else {
        let (s1, c1) = clock_steps(st, ctl, (n - 1) as nat);
        clock_step(s1, c1)
    }
}

pub open spec fn between_instructions(ctl: CpuControl) -> bool {
    ctl.remaining_cycles == 0 && ctl.extra_cycles == 0
}

// ---------------------------------------------------------------------------

/// A 6502 core. `bus` holds the devices it reads and writes.
pub struct CPU {
    pub cpu_type: CPUType,
    pub a: u8,
    pub x: u8,
    pub y: u8,
    pub status: u8,
    pub sp: u8,
    pub pc: u16,
    pub cycles: usize,
    pub rdy: bool,
    pub jammed: bool,
    pub trapped: bool,
    // internal state of the executing instruction
    pub instruction: Instruction,
    pub mode: Mode,
    pub remaining_cycles: u8,
    pub extra_cycles: u8,
    pub cycle_on_page_boundary: bool,
    pub interrupt: Option<Interrupt>,
    pub bus: Bus,
    pub monitor: Box<dyn Monitor>,
}

impl CPU {
    pub open spec fn state(&self) -> CpuState {
        CpuState {
            a: self.a,
            x: self.x,
            y: self.y,
            status: self.status,
            sp: self.sp,
            pc: self.pc,
            trapped: self.trapped,
            interrupt: self.interrupt,
            mem: self.bus@,
        }
    }

    pub open spec fn control(&self) -> CpuControl {
        CpuControl {
            cpu_type: self.cpu_type,
            jammed: self.jammed,
            cycles: self.cycles,
            rdy: self.rdy,
            instruction: self.instruction,
            mode: self.mode,
            remaining_cycles: self.remaining_cycles,
            extra_cycles: self.extra_cycles,
            cycle_on_page_boundary: self.cycle_on_page_boundary,
        }
    }

    pub open spec fn wf(&self) -> bool {
        self.bus.wf()
    }

    pub open spec fn bcd(&self) -> bool {
        self.cpu_type == CPUType::MOS6502
    }

    pub fn new(cpu_type: CPUType) -> (r: CPU)
        ensures
            r.wf(),
            r.cpu_type == cpu_type,
            r.a == 0 && r.x == 0 && r.y == 0 && r.sp == 0 && r.pc == 0,
            r.status == Flag::Break | Flag::Unused,
            r.jammed,
            !r.trapped,
            r.instruction == Instruction::NOP,
            r.mode == Mode::Imp,
            r.remaining_cycles == 0 && r.extra_cycles == 0,
            !r.cycle_on_page_boundary,
            r.interrupt.is_none(),
            r.cycles == 0,
            r.rdy,
            r.bus@ == Seq::<(AddrRange, DeviceModel)>::empty(),
    {
        CPU {
            cpu_type,
            a: 0,
            x: 0,
            y: 0,
            status: Flag::Break | Flag::Unused,
            sp: 0,
            pc: 0,
            jammed: true,
            trapped: false,
            instruction: Instruction::NOP,
            mode: Mode::Imp,
            remaining_cycles: 0,
            extra_cycles: 0,
            cycle_on_page_boundary: false,
            interrupt: None,
            cycles: 0,
            rdy: true,
            bus: Bus::new(),
            monitor: Box::new(NulMonitor {}),
        }
    }

    pub fn add_device(&mut self, device: Device)
        requires
            old(self).wf(),
            device.wf(),
        ensures
            final(self).wf(),
            final(self).bus@ == old(self).bus@.push((Bus::range_of(device.model(), device), device.model())),
            final(self).state() == (CpuState { mem: final(self).bus@, ..old(self).state() }),
            final(self).control() == old(self).control(),
    {
        self.bus.add_device(device);
    }

    /// Puts a block of RAM on the bus.
    pub fn add_bus_device(&mut self, device: Box<RAM>)
        requires
            old(self).wf(),
            device.wf(),
        ensures
            final(self).wf(),
            final(self).bus@ == old(self).bus@.push(((device.start_address, device.end_address),
                DeviceModel::Ram { mask: device.address_mask, memory: device.memory@ })),
            final(self).state() == (CpuState { mem: final(self).bus@, ..old(self).state() }),
            final(self).control() == old(self).control(),
    {
        self.bus.add_device(Device::Ram(*device));
    }

    pub fn set_rdy(&mut self, rdy: bool)
        ensures
            final(self).rdy == rdy,
            final(self).state() == old(self).state(),
            final(self).control() == (CpuControl { rdy, ..old(self).control() }),
            final(self).wf() == old(self).wf(),
    {
        self.rdy = rdy;
    }

    pub fn is_rdy(&self) -> (r: bool)
        ensures
            r == self.rdy,
    {
        self.rdy
    }

    pub fn cycles(&self) -> (r: usize)
        ensures
            r == self.cycles,
    {
        self.cycles
    }

    pub fn stuck(&self) -> (r: bool)
        ensures
            r == (self.jammed || self.trapped),
    {
        self.jammed || self.trapped
    }

    pub fn read_bus_byte(&mut self, addr: u16) -> (r: u8)
        requires
            old(self).wf(),
        ensures
            final(self).wf(),
            r == old(self).state().rd(addr),
            final(self).state() == old(self).state().touch(addr),
            final(self).control() == old(self).control(),
    {
        self.bus.read(addr)
    }

    pub fn read_bus_word(&mut self, addr: u16) -> (r: u16)
        requires
            old(self).wf(),
        ensures
            final(self).wf(),
            r == old(self).state().read_word(addr),
            final(self).state() == old(self).state().touch_word(addr),
            final(self).control() == old(self).control(),
    {
        let lb = self.read_bus_byte(addr);
        let hb = self.read_bus_byte(addr.wrapping_add(1));
        assert(addr.wrapping_add(1) == inc16(addr, 1));
        CPU::to_word(lb, hb)
    }

    pub fn write_bus_byte(&mut self, addr: u16, data: u8) -> (r: u8)
        requires
            old(self).wf(),
        ensures
            final(self).wf(),
            r == old(self).state().rd(addr),
            final(self).state() == old(self).state().wr(addr, data),
            final(self).control() == old(self).control(),
    {
        self.bus.write(addr, data)
    }

    pub fn low_byte(value: u16) -> (r: u8)
        ensures
            r == low_of(value),
    {
        proof { lemma_word_bits(value); }
        (value & LOW_BYTE_MASK) as u8
    }

    pub fn high_byte(value: u16) -> (r: u8)
        ensures
            r == high_of(value),
    {
        proof { lemma_word_bits(value); }
        (value >> 8) as u8
    }

    pub fn to_word(low_byte: u8, high_byte: u8) -> (r: u16)
        ensures
            r == word(low_byte, high_byte),
    {
        proof { lemma_byte_pair_bits(low_byte, high_byte); }
        (high_byte as u16) << 8 | (low_byte as u16)
    }

    pub fn push_byte(&mut self, value: u8)
        requires
            old(self).wf(),
        ensures
            final(self).wf(),
            final(self).state() == old(self).state().push(value),
            final(self).control() == old(self).control(),
    {
        let sp = self.sp;
        proof { lemma_byte_bits(sp); }
        self.write_bus_byte((self.sp as u16) | STACK_BASE, value);
        self.sp = self.sp.wrapping_sub(1);
    }

    pub fn push_word(&mut self, value: u16)
        requires
            old(self).wf(),
        ensures
            final(self).wf(),
            final(self).state() == old(self).state().push_word(value),
            final(self).control() == old(self).control(),
    {
        self.push_byte(CPU::high_byte(value));
        self.push_byte(CPU::low_byte(value));
    }

    pub fn pop_byte(&mut self) -> (r: u8)
        requires
            old(self).wf(),
        ensures
            final(self).wf(),
            (r, final(self).state()) == old(self).state().pop(),
            final(self).control() == old(self).control(),
    {
        self.sp = self.sp.wrapping_add(1);
        let sp = self.sp;
        proof { lemma_byte_bits(sp); }
        self.read_bus_byte((self.sp as u16) | STACK_BASE)
    }

    pub fn pop_word(&mut self) -> (r: u16)
        requires
            old(self).wf(),
        ensures
            final(self).wf(),
            (r, final(self).state()) == old(self).state().pop_word(),
            final(self).control() == old(self).control(),
    {
        let low_byte = self.pop_byte();
        let high_byte = self.pop_byte();
        CPU::to_word(low_byte, high_byte)
    }

    pub fn fetch_byte(&mut self) -> (r: u8)
        requires
            old(self).wf(),
        ensures
            final(self).wf(),
            (r, final(self).state()) == old(self).state().fetch(),
            final(self).control() == old(self).control(),
    {
        let value = self.read_bus_byte(self.pc);
        self.monitor.fetch_instruction_byte(value);
        self.pc = self.pc.wrapping_add(1);
        value
    }

    pub fn fetch_word(&mut self) -> (r: u16)
        requires
            old(self).wf(),
        ensures
            final(self).wf(),
            (r, final(self).state()) == old(self).state().fetch_word(),
            final(self).control() == old(self).control(),
    {
        let lb = self.fetch_byte();
        let hb = self.fetch_byte();
        CPU::to_word(lb, hb)
    }

    pub fn set_flag(&mut self, flag: u8, value: bool) -> (r: (PageBoundary, Branch))
        ensures
            final(self).state() == old(self).state().set_flag(flag, value),
            final(self).control() == old(self).control(),
            final(self).wf() == old(self).wf(),
            r == (PageBoundary::NotCrossed, Branch::NotTaken),
    {
        if value {
            self.status = self.status | flag;
        } else {
            self.status = self.status & !flag;
        }
        (PageBoundary::NotCrossed, Branch::NotTaken)
    }

    pub fn read_flag(&self, flag: u8) -> (r: bool)
        ensures
            r == flag_of(self.status, flag),
    {
        (self.status & flag) != 0
    }

    pub fn page_boundary(location: Location) -> (r: PageBoundary)
        ensures
            r == boundary_of(location),
    {
        match location {
            Location::Addr(addr1, addr2) => {
                if (addr1 & HIGH_BYTE_MASK) != (addr2 & HIGH_BYTE_MASK) {
                    PageBoundary::Crossed
                } else {
                    PageBoundary::NotCrossed
                }
            },
            _ => PageBoundary::NotCrossed,
        }
    }

    pub fn get_location(&mut self, mode: Mode) -> (r: Location)
        requires
            old(self).wf(),
        ensures
            final(self).wf(),
            (r, final(self).state()) == old(self).state().locate(mode),
            final(self).control() == old(self).control(),
    {
        match mode {
            Mode::Abs | Mode::AbsX | Mode::AbsY => self.locate_absolute(mode),
            Mode::Status => Location::Status,
            Mode::A => Location::A,
            Mode::X => Location::X,
            Mode::Y => Location::Y,
            Mode::SP => Location::SP,
            Mode::Imm => Location::Imm,
            Mode::Imp => Location::Imp,
            Mode::AbsInd => self.locate_absolute_indirect(),
            Mode::IndX | Mode::IndY => self.locate_indirect(mode),
            Mode::Rel => self.locate_relative(),
            Mode::Zp | Mode::Zpx | Mode::Zpy => self.locate_zero_page(mode),
        }
    }

    #[verifier::rlimit(40)]
    fn locate_absolute(&mut self, mode: Mode) -> (r: Location)
        requires
            old(self).wf(),
            mode == Mode::Abs || mode == Mode::AbsX || mode == Mode::AbsY,
        ensures
            final(self).wf(),
            (r, final(self).state()) == old(self).state().locate(mode),
            final(self).control() == old(self).control(),
    {
        let orig_addr = self.fetch_word();
        match mode {
            Mode::AbsX => Location::Addr(orig_addr, orig_addr.wrapping_add(self.x as u16)),
            Mode::AbsY => Location::Addr(orig_addr, orig_addr.wrapping_add(self.y as u16)),
            _ => Location::Addr(orig_addr, orig_addr),
        }
    }

    #[verifier::rlimit(40)]
    fn locate_absolute_indirect(&mut self) -> (r: Location)
        requires
            old(self).wf(),
        ensures
            final(self).wf(),
            (r, final(self).state()) == old(self).state().locate(Mode::AbsInd),
            final(self).control() == old(self).control(),
    {
        let orig_addr = self.fetch_word();
        let lb = self.read_bus_byte(orig_addr);
        // the 6502 increments only the low byte of the pointer before reading
        // the high byte, so a pointer at $xxFF takes its high byte from $xx00
        let addr_high = CPU::high_byte(orig_addr);
        let addr_low = CPU::low_byte(orig_addr).wrapping_add(1);
        let hb = self.read_bus_byte(CPU::to_word(addr_low, addr_high));
        let addr = CPU::to_word(lb, hb);
        Location::Addr(orig_addr, addr)
    }

    fn locate_indirect(&mut self, mode: Mode) -> (r: Location)
        requires
            old(self).wf(),
            mode == Mode::IndX || mode == Mode::IndY,
        ensures
            final(self).wf(),
            (r, final(self).state()) == old(self).state().locate(mode),
            final(self).control() == old(self).control(),
    {
        if mode == Mode::IndX {
            self.locate_indexed_indirect()
        } else {
            self.locate_indirect_indexed()
        }
    }

    /// `(zp,X)`: the pointer sits in the zero page at the operand plus X.
    #[verifier::rlimit(40)]
    fn locate_indexed_indirect(&mut self) -> (r: Location)
        requires
            old(self).wf(),
        ensures
            final(self).wf(),
            (r, final(self).state()) == old(self).state().locate(Mode::IndX),
            final(self).control() == old(self).control(),
    {
        let ghost s0 = self.state();
        let x = self.x;
        let b = self.fetch_byte();
        let ghost s1 = self.state();
        let zl = CPU::zero_page_sum(b, x);
        let zh = CPU::zero_page_sum(zl, 1);
        let addr = self.read_zero_page_pointer(zl, zh);
        Location::Addr(addr, addr)
    }

    /// `(zp),Y`: the pointer sits in the zero page at the operand, then Y is added.
    #[verifier::rlimit(40)]
    fn locate_indirect_indexed(&mut self) -> (r: Location)
        requires
            old(self).wf(),
        ensures
            final(self).wf(),
            (r, final(self).state()) == old(self).state().locate(Mode::IndY),
            final(self).control() == old(self).control(),
    {
        let ghost s0 = self.state();
        let y = self.y;
        let b = self.fetch_byte();
        let ghost s1 = self.state();
        let zh = CPU::zero_page_sum(b, 1);
        let addr = self.read_zero_page_pointer(b, zh);
        let effective = addr.wrapping_add(y as u16);
        Location::Addr(addr, effective)
    }

    fn read_zero_page_pointer(&mut self, zl: u8, zh: u8) -> (r: u16)
        requires
            old(self).wf(),
        ensures
            final(self).wf(),
            r == word(old(self).state().rd(zl as u16), old(self).state().rd(zh as u16)),
            final(self).state() == old(self).state().touch(zl as u16).touch(zh as u16),
            final(self).control() == old(self).control(),
    {
        let addr_low = self.read_bus_byte(zl as u16);
        let addr_high = self.read_bus_byte(zh as u16);
        CPU::to_word(addr_low, addr_high)
    }

    #[verifier::rlimit(40)]
    fn locate_relative(&mut self) -> (r: Location)
        requires
            old(self).wf(),
        ensures
            final(self).wf(),
            (r, final(self).state()) == old(self).state().locate(Mode::Rel),
            final(self).control() == old(self).control(),
    {
        let offset = self.fetch_byte();
        let pc = self.pc;
        let new_pc = CPU::relative_target(pc, offset);
        Location::Addr(self.pc, new_pc)
    }

    /// The target of a relative branch: the offset is a signed byte.
    pub fn relative_target(pc: u16, offset: u8) -> (r: u16)
        ensures
            r as int == (pc as int + (if offset >= 128 { offset as int - 256 } else { offset as int }) + 0x10000) % 0x10000,
    {
        if offset & SIGN_BIT != 0 {
            proof { lemma_byte_bits(offset); }
            let offset = !offset + 1;
            pc.wrapping_sub(offset as u16)
        } else {
            proof { lemma_byte_bits(offset); }
            pc.wrapping_add(offset as u16)
        }
    }

    #[verifier::rlimit(40)]
    fn locate_zero_page(&mut self, mode: Mode) -> (r: Location)
        requires
            old(self).wf(),
            mode == Mode::Zp || mode == Mode::Zpx || mode == Mode::Zpy,
        ensures
            final(self).wf(),
            (r, final(self).state()) == old(self).state().locate(mode),
            final(self).control() == old(self).control(),
    {
        let ghost s0 = self.state();
        let index = match mode {
            Mode::Zpx => self.x,
            Mode::Zpy => self.y,
            _ => 0,
        };
        let b = self.fetch_byte();
        let z = CPU::zero_page_sum(b, index);
        let addr = z as u16;
        proof {
            let (l, s) = s0.locate(mode);
            assert(s == s0.fetch().1);
            assert(l == Location::Addr(addr, addr));
        }
        Location::Addr(addr, addr)
    }

    fn zero_page_sum(b: u8, index: u8) -> (r: u8)
        ensures
            r as int == (b as int + index as int) % 256,
    {
        b.wrapping_add(index)
    }

    pub fn read_value(&mut self, location: Location) -> (r: (u8, PageBoundary))
        requires
            old(self).wf(),
            location != Location::Imp,
        ensures
            final(self).wf(),
            (r.0, final(self).state()) == old(self).state().operand(location),
            r.1 == boundary_of(location),
            final(self).control() == old(self).control(),
    {
        let boundary = CPU::page_boundary(location);
        let value = match location {
            Location::A => self.a,
            Location::X => self.x,
            Location::Y => self.y,
            Location::SP => self.sp,
            Location::Status => self.status,
            Location::Addr(_, addr) => {
                let value = self.read_bus_byte(addr);
                self.monitor.read_data_byte(addr, value);
                value
            },
            Location::Imm => self.fetch_byte(),
            Location::Imp => 0,
        };
        (value, boundary)
    }

    pub fn write_value_without_flags(&mut self, location: Location, value: u8) -> (r: PageBoundary)
        requires
            old(self).wf(),
            location != Location::Imp,
            location != Location::Imm,
        ensures
            final(self).wf(),
            final(self).state() == old(self).state().store(location, value),
            r == boundary_of(location),
            final(self).control() == old(self).control(),
    {
        let boundary = CPU::page_boundary(location);
        match location {
            Location::A => self.a = value,
            Location::X => self.x = value,
            Location::Y => self.y = value,
            Location::SP => self.sp = value,
            Location::Status => self.status = value,
            Location::Addr(_, addr) => {
                let old = self.write_bus_byte(addr, value);
                self.monitor.read_data_byte(addr, old);
            },
            _ => {},
        }
        boundary
    }

    pub fn write_value(&mut self, location: Location, value: u8) -> (r: PageBoundary)
        requires
            old(self).wf(),
            location != Location::Imp,
            location != Location::Imm,
        ensures
            final(self).wf(),
            final(self).state() == old(self).state().store_nz(location, value),
            r == boundary_of(location),
            final(self).control() == old(self).control(),
    {
        let page_boundary = self.write_value_without_flags(location, value);
        self.set_flag(Flag::Negative, value & SIGN_BIT != 0);
        self.set_flag(Flag::Zero, value == 0);
        page_boundary
    }

    #[verifier::rlimit(40)]
    pub fn shift_left(&mut self, shift_style: ShiftStyle, mode: Mode) -> (r: (PageBoundary, Branch))
        requires
            old(self).wf(),
            is_writable_mode(mode),
        ensures
            final(self).wf(),
            (final(self).state(), r.0, r.1) == old(self).state().run_shift_left(shift_style, mode),
            final(self).control() == old(self).control(),
    {
        let location = self.get_location(mode);
        let m = self.read_value(location);
        let carry_in: u8 = if shift_style == ShiftStyle::Rotate && self.read_flag(Flag::Carry) { 1 } else { 0 };
        proof { lemma_shift_left_bits(m.0, carry_in); }
        self.write_value(location, (m.0 << 1) | carry_in);
        self.set_flag(Flag::Carry, m.0 & SIGN_BIT != 0);
        (m.1, Branch::NotTaken)
    }

    #[verifier::rlimit(40)]
    pub fn shift_right(&mut self, shift_style: ShiftStyle, mode: Mode) -> (r: (PageBoundary, Branch))
        requires
            old(self).wf(),
            is_writable_mode(mode),
        ensures
            final(self).wf(),
            (final(self).state(), r.0, r.1) == old(self).state().run_shift_right(shift_style, mode),
            final(self).control() == old(self).control(),
    {
        let location = self.get_location(mode);
        let m = self.read_value(location);
        let carry_in: u8 = if shift_style == ShiftStyle::Rotate && self.read_flag(Flag::Carry) { SIGN_BIT } else { 0 };
        proof { lemma_shift_right_bits(m.0, carry_in); }
        self.write_value(location, (m.0 >> 1) | carry_in);
        self.set_flag(Flag::Carry, m.0 & 1 != 0);
        (m.1, Branch::NotTaken)
    }

    #[verifier::rlimit(40)]
    pub fn binary(&mut self, op: BinaryOp, mode: Mode) -> (r: (PageBoundary, Branch))
        requires
            old(self).wf(),
            is_readable_mode(mode),
        ensures
            final(self).wf(),
            (final(self).state(), r.0, r.1) == old(self).state().run_binary(op, mode),
            final(self).control() == old(self).control(),
    {
        let location = self.get_location(mode);
        let m = self.read_value(location);
        let v = match op {
            BinaryOp::And => self.a & m.0,
            BinaryOp::Or => self.a | m.0,
            BinaryOp::Xor => self.a ^ m.0,
        };
        self.write_value(Location::A, v);
        (m.1, Branch::NotTaken)
    }

    #[verifier::rlimit(40)]
    pub fn unary(&mut self, op: UnaryOp, mode: Mode) -> (r: (PageBoundary, Branch))
        requires
            old(self).wf(),
            is_writable_mode(mode),
        ensures
            final(self).wf(),
            (final(self).state(), r.0, r.1) == old(self).state().run_unary(op, mode),
            final(self).control() == old(self).control(),
    {
        let location = self.get_location(mode);
        let m = self.read_value(location);
        let v = CPU::step_value(op, m.0);
        self.write_value(location, v);
        (m.1, Branch::NotTaken)
    }

    pub fn sub8(a: u8, b: u8) -> (r: u8)
        ensures
            r as int == (a as int - b as int + 256) % 256,
    {
        a.wrapping_sub(b)
    }

    pub fn step_value(op: UnaryOp, m: u8) -> (r: u8)
        ensures
            r == crate::cpu::semantics::unary_result(op, m),
    {
        match op {
            UnaryOp::Inc => m.wrapping_add(1),
            UnaryOp::Dec => m.wrapping_sub(1),
        }
    }

    #[verifier::rlimit(60)]
    pub fn adc(&mut self, mode: Mode) -> (r: (PageBoundary, Branch))
        requires
            old(self).wf(),
            is_readable_mode(mode),
        ensures
            final(self).wf(),
            (final(self).state(), r.0, r.1) == old(self).state().run_adc(mode, old(self).bcd()),
            final(self).control() == old(self).control(),
    {
        let ghost s0 = self.state();
        let location = self.get_location(mode);
        let m_orig = self.read_value(location);
        let m = m_orig.0;
        let a = self.a;
        let c = self.read_flag(Flag::Carry);
        let decimal = self.read_flag(Flag::Decimal) && self.bcd_enabled();
        let (result, n, v, z, cf) = if decimal {
            CPU::add_decimal(a, m, c)
        } else {
            CPU::add_binary(a, m, c)
        };
        self.set_flag(Flag::Zero, z);
        self.set_flag(Flag::Negative, n);
        self.set_flag(Flag::Overflow, v);
        self.set_flag(Flag::Carry, cf);
        self.write_value_without_flags(Location::A, result);
        (m_orig.1, Branch::NotTaken)
    }

    /// Binary addition with carry, as the ALU computes it.
    pub fn add_binary(a: u8, m: u8, c: bool) -> (r: (u8, bool, bool, bool, bool))
        ensures
            r == adc_binary(a, m, c),
    {
        let carry: u16 = if c { 1 } else { 0 };
        let tmp: u16 = (a as u16).wrapping_add(m as u16).wrapping_add(carry);
        proof { lemma_adc_binary(a, m, c, tmp); }
        (
            (tmp & 0xFF) as u8,
            tmp & (SIGN_BIT as u16) != 0,
            (a ^ m) & SIGN_BIT == 0 && (a as u16 ^ tmp) & SIGN_BIT as u16 != 0,
            tmp & LOW_BYTE_MASK == 0,
            tmp > 0xFF,
        )
    }

    /// Decimal-mode addition with carry, as the NMOS ALU computes it.
    pub fn add_decimal(a: u8, m: u8, c: bool) -> (r: (u8, bool, bool, bool, bool))
        ensures
            r == adc_decimal(a, m, c),
    {
        let carry: u16 = if c { 1 } else { 0 };
        let mut tmp: u16 = (a as u16).wrapping_add(m as u16).wrapping_add(carry);
        let z = tmp & LOW_BYTE_MASK == 0;
        proof { lemma_word_bits(tmp); }
        let c8: u8 = if c { 1 } else { 0 };
        proof { lemma_byte_bits(a); lemma_byte_bits(m); }
        // if the sum of the lowest digits is > 9, add 6 to bring it back to a digit
        let fixup: u16 = if (a & 0x0F).wrapping_add(m & 0x0F).wrapping_add(c8) > 9 { 6 } else { 0 };
        tmp = tmp.wrapping_add(fixup);
        // N and V are set as if this were binary arithmetic up to this point
        let n = tmp & (SIGN_BIT as u16) != 0;
        let v = (a ^ m) & SIGN_BIT == 0 && (a as u16 ^ tmp) & SIGN_BIT as u16 != 0;
        let t1 = tmp;
        assert(t1 <= 0x206);
        proof { lemma_word_bits(t1); lemma_byte_pair_bits(a, m); lemma_sum_sign(a, t1); }
        // the high digit is fixed up after N and V are known
        if tmp > 0x99 {
            tmp = tmp.wrapping_add(96);
        }
        let cf = tmp > 0x99;
        proof { lemma_word_bits(tmp); }
        ((tmp & 0xFF) as u8, n, v, z, cf)
    }

    #[verifier::rlimit(60)]
    pub fn sbc(&mut self, mode: Mode) -> (r: (PageBoundary, Branch))
        requires
            old(self).wf(),
            is_readable_mode(mode),
        ensures
            final(self).wf(),
            (final(self).state(), r.0, r.1) == old(self).state().run_sbc(mode, old(self).bcd()),
            final(self).control() == old(self).control(),
    {
        let location = self.get_location(mode);
        let m_orig = self.read_value(location);
        let m = m_orig.0;
        let a = self.a;
        let c = self.read_flag(Flag::Carry);
        let decimal = self.read_flag(Flag::Decimal) && self.bcd_enabled();
        let (result, n, v, z, cf) = if decimal {
            CPU::subtract_decimal(a, m, c)
        } else {
            CPU::subtract_binary(a, m, c)
        };
        self.set_flag(Flag::Negative, n);
        self.set_flag(Flag::Zero, z);
        self.set_flag(Flag::Overflow, v);
        self.set_flag(Flag::Carry, cf);
        self.write_value_without_flags(Location::A, result);
        (m_orig.1, Branch::NotTaken)
    }

    /// Binary subtraction with borrow, as the ALU computes it.
    pub fn subtract_binary(a: u8, m: u8, c: bool) -> (r: (u8, bool, bool, bool, bool))
        ensures
            r == sbc_binary(a, m, c),
    {
        let borrow: u16 = if c { 0 } else { 1 };
        let tmp: u16 = (a as u16).wrapping_sub(m as u16).wrapping_sub(borrow);
        proof { lemma_sbc_binary(a, m, c, tmp); }
        (
            (tmp & 0xFF) as u8,
            tmp & (SIGN_BIT as u16) != 0,
            (a as u16 ^ tmp) & SIGN_BIT as u16 != 0 && (a ^ m) & SIGN_BIT != 0,
            tmp & LOW_BYTE_MASK == 0,
            tmp < 0x0100,
        )
    }

    /// Decimal-mode subtraction with borrow, as the NMOS ALU computes it.
    pub fn subtract_decimal(a: u8, m: u8, c: bool) -> (r: (u8, bool, bool, bool, bool))
        ensures
            r == sbc_decimal(a, m, c),
    {
        let (_, n, v, z, _) = CPU::subtract_binary(a, m, c);
        let borrow: u16 = if c { 0 } else { 1 };
        let tmp0: u16 = (a as u16).wrapping_sub(m as u16).wrapping_sub(borrow);
        let ghost diff = a as int - m as int - borrow as int;
        assert(tmp0 as int == diff % 65536);
        let b8: u8 = if c { 0 } else { 1 };
        proof { lemma_byte_bits(a); lemma_byte_bits(m); }
        let fixup: u16 = if (a & 0x0F) < (m & 0x0F).wrapping_add(b8) { 6 } else { 0 };
        let tmp1 = tmp0.wrapping_sub(fixup);
        assert(tmp1 as int == (diff - fixup as int) % 65536);
        let tmp2 = if tmp1 > 0x99 { tmp1 - 0x60 } else { tmp1 };
        proof { lemma_word_bits(tmp2); }
        ((tmp2 & 0xFF) as u8, n, v, z, tmp2 < 0x0100)
    }

    #[verifier::rlimit(80)]
    pub fn compare(&mut self, mode: Mode, register: u8) -> (r: (PageBoundary, Branch))
        requires
            old(self).wf(),
            is_readable_mode(mode),
        ensures
            final(self).wf(),
            (final(self).state(), r.0, r.1) == old(self).state().run_compare(mode, register),
            final(self).control() == old(self).control(),
    {
        let location = self.get_location(mode);
        let m = self.read_value(location);
        self.set_flag(Flag::Zero, register == m.0);
        self.set_flag(Flag::Carry, register >= m.0);
        let tmp = register.wrapping_sub(m.0);
        proof { lemma_byte_bits(tmp); }
        self.set_flag(Flag::Negative, (tmp & SIGN_BIT) != 0);
        (m.1, Branch::NotTaken)
    }

    #[verifier::rlimit(100)]
    pub fn branch(&mut self, mode: Mode, branch_type: BranchType) -> (r: (PageBoundary, Branch))
        requires
            old(self).wf(),
            is_memory_mode(mode),
        ensures
            final(self).wf(),
            (final(self).state(), r.0, r.1) == old(self).state().run_branch(mode, branch_type),
            final(self).control() == old(self).control(),
    {
        let ghost s0 = self.state();
        let condition = CPU::condition_holds(self.status, branch_type);
        let starting_pc = self.pc.wrapping_sub(1);
        let location = self.get_location(mode);
        if branch_type == BranchType::JSR {
            self.push_word(self.pc.wrapping_sub(1));
        }
        let ghost s2 = self.state();
        proof {
            let (loc, s1) = s0.locate(mode);
            assert(loc == location);
            assert(s2 == (if branch_type == BranchType::JSR { s1.push_word(inc16(s1.pc, 0xFFFF)) } else { s1 }));
            assert(starting_pc == inc16(s0.pc, 0xFFFF));
        }
        match location {
            Location::Addr(_, addr) => {
                if condition {
                    // a jump back to itself is the usual trap at the end of a test
                    // program, so noting it lets such programs be run to completion
                    if starting_pc == addr {
                        self.trapped = true;
                    }
                    self.pc = addr;
                    (CPU::page_boundary(location), Branch::Taken)
                } else {
                    (PageBoundary::NotCrossed, Branch::NotTaken)
                }
            },
            _ => (PageBoundary::NotCrossed, Branch::NotTaken),
        }
    }

    pub fn condition_holds(status: u8, branch_type: BranchType) -> (r: bool)
        ensures
            r == crate::cpu::semantics::branch_condition(status, branch_type),
    {
        match branch_type {
            BranchType::CC => status & Flag::Carry == 0,
            BranchType::CS => status & Flag::Carry != 0,
            BranchType::NE => status & Flag::Zero == 0,
            BranchType::EQ => status & Flag::Zero != 0,
            BranchType::PL => status & Flag::Negative == 0,
            BranchType::MI => status & Flag::Negative != 0,
            BranchType::VC => status & Flag::Overflow == 0,
            BranchType::VS => status & Flag::Overflow != 0,
            BranchType::JMP => true,
            BranchType::JSR => true,
        }
    }

    #[verifier::rlimit(40)]
    pub fn transfer(&mut self, in_mode: Mode, out_mode: Mode) -> (r: (PageBoundary, Branch))
        requires
            old(self).wf(),
            is_readable_mode(in_mode),
            is_writable_mode(out_mode),
        ensures
            final(self).wf(),
            (final(self).state(), r.0, r.1) == old(self).state().run_transfer(in_mode, out_mode, true),
            final(self).control() == old(self).control(),
    {
        let in_location = self.get_location(in_mode);
        let value = self.read_value(in_location);
        let out_location = self.get_location(out_mode);
        self.write_value(out_location, value.0);
        (value.1, Branch::NotTaken)
    }

    #[verifier::rlimit(40)]
    pub fn transfer_without_flags(&mut self, in_mode: Mode, out_mode: Mode) -> (r: (PageBoundary, Branch))
        requires
            old(self).wf(),
            is_readable_mode(in_mode),
            is_writable_mode(out_mode),
        ensures
            final(self).wf(),
            (final(self).state(), r.0, r.1) == old(self).state().run_transfer(in_mode, out_mode, false),
            final(self).control() == old(self).control(),
    {
        let in_location = self.get_location(in_mode);
        let value = self.read_value(in_location);
        let out_location = self.get_location(out_mode);
        self.write_value_without_flags(out_location, value.0);
        (value.1, Branch::NotTaken)
    }

    #[verifier::rlimit(40)]
    pub fn push(&mut self, mode: Mode) -> (r: (PageBoundary, Branch))
        requires
            old(self).wf(),
            is_readable_mode(mode),
        ensures
            final(self).wf(),
            (final(self).state(), r.0, r.1) == old(self).state().run_push(mode),
            final(self).control() == old(self).control(),
    {
        let location = self.get_location(mode);
        let m = self.read_value(location);
        self.push_byte(m.0);
        (m.1, Branch::NotTaken)
    }

    #[verifier::rlimit(40)]
    pub fn pop(&mut self, mode: Mode) -> (r: (PageBoundary, Branch))
        requires
            old(self).wf(),
            is_writable_mode(mode),
        ensures
            final(self).wf(),
            (final(self).state(), r.0, r.1) == old(self).state().run_pop(mode),
            final(self).control() == old(self).control(),
    {
        // Break and Unused are not real flags; they read as set when the status
        // is pulled, which is what pushing it shows them as
        let extra: u8 = if mode == Mode::Status { Flag::Break | Flag::Unused } else { 0 };
        let value = self.pop_byte() | extra;
        let location = self.get_location(mode);
        let page_boundary = if location == Location::Status {
            self.write_value_without_flags(location, value)
        } else {
            self.write_value(location, value)
        };
        (page_boundary, Branch::NotTaken)
    }

    #[verifier::rlimit(40)]
    pub fn rti(&mut self) -> (r: (PageBoundary, Branch))
        requires
            old(self).wf(),
        ensures
            final(self).wf(),
            (final(self).state(), r.0, r.1) == old(self).state().run_rti(),
            final(self).control() == old(self).control(),
    {
        self.pop(Mode::Status);
        self.pc = self.pop_word();
        (PageBoundary::NotCrossed, Branch::NotTaken)
    }

    pub fn rts(&mut self) -> (r: (PageBoundary, Branch))
        requires
            old(self).wf(),
        ensures
            final(self).wf(),
            (final(self).state(), r.0, r.1) == old(self).state().run_rts(),
            final(self).control() == old(self).control(),
    {
        self.pc = self.pop_word().wrapping_add(1);
        (PageBoundary::NotCrossed, Branch::NotTaken)
    }

    #[verifier::rlimit(40)]
    pub fn test_bits(&mut self, mode: Mode) -> (r: (PageBoundary, Branch))
        requires
            old(self).wf(),
            is_readable_mode(mode),
        ensures
            final(self).wf(),
            (final(self).state(), r.0, r.1) == old(self).state().run_test_bits(mode),
            final(self).control() == old(self).control(),
    {
        let location = self.get_location(mode);
        let m = self.read_value(location);
        let result = self.a & m.0;
        self.set_flag(Flag::Negative, (m.0 & Flag::Negative) != 0);
        self.set_flag(Flag::Overflow, (m.0 & Flag::Overflow) != 0);
        self.set_flag(Flag::Zero, result == 0);
        (m.1, Branch::NotTaken)
    }

    /// The undocumented NOPs still read their operand, so they have the bus side effects.
    #[verifier::rlimit(40)]
    pub fn nop(&mut self, mode: Mode) -> (r: (PageBoundary, Branch))
        requires
            old(self).wf(),
        ensures
            final(self).wf(),
            (final(self).state(), r.0, r.1) == old(self).state().run_nop(mode),
            final(self).control() == old(self).control(),
    {
        let location = self.get_location(mode);
        match location {
            Location::Addr(_, _) => {
                self.read_value(location);
            },
            Location::Imm => {
                self.read_value(location);
            },
            _ => {},
        }
        (CPU::page_boundary(location), Branch::NotTaken)
    }

    #[verifier::rlimit(60)]
    pub fn interrupt(&mut self, interrupt: Interrupt) -> (r: (PageBoundary, Branch))
        requires
            old(self).wf(),
        ensures
            final(self).wf(),
            (final(self).state(), r.0, r.1) == old(self).state().run_interrupt(interrupt),
            final(self).control() == old(self).control(),
    {
        if interrupt == Interrupt::RST {
            // reset doesn't push onto the stack, but moves the stack pointer as if it had
            self.sp = 0xFD;
        } else {
            self.push_word(self.pc.wrapping_add(if interrupt == Interrupt::BRK { 1 } else { 0 }));
            let status = if interrupt == Interrupt::BRK {
                self.status | Flag::Break
            } else {
                self.status & !Flag::Break
            };
            self.push_byte(status);
        }
        self.set_flag(Flag::InterruptDisable, true);

        let addr = match interrupt {
            Interrupt::BRK => IRQ_ADDR,
            Interrupt::IRQ => IRQ_ADDR,
            Interrupt::NMI => NMI_ADDR,
            Interrupt::RST => RESET_ADDR,
        };
        self.pc = self.read_bus_word(addr);
        self.interrupt = None;

        (PageBoundary::NotCrossed, Branch::NotTaken)
    }

    #[verifier::rlimit(40)]
    pub fn anc(&mut self, mode: Mode) -> (r: (PageBoundary, Branch))
        requires
            old(self).wf(),
            is_readable_mode(mode),
        ensures
            final(self).wf(),
            (final(self).state(), r.0, r.1) == old(self).state().run_anc(mode),
            final(self).control() == old(self).control(),
    {
        let result = self.binary(BinaryOp::And, mode);
        self.set_flag(Flag::Carry, self.a & SIGN_BIT != 0);
        result
    }

    #[verifier::rlimit(60)]
    pub fn arr(&mut self, mode: Mode) -> (r: (PageBoundary, Branch))
        requires
            old(self).wf(),
            is_readable_mode(mode),
        ensures
            final(self).wf(),
            (final(self).state(), r.0, r.1) == old(self).state().run_arr(mode, old(self).bcd()),
            final(self).control() == old(self).control(),
    {
        let location = self.get_location(mode);
        let operand = self.read_value(location);
        let anded = self.a & operand.0;
        let value = (anded >> 1) | if self.read_flag(Flag::Carry) { SIGN_BIT } else { 0 };
        self.write_value(Location::A, value);
        self.set_flag(Flag::Overflow, ((value & 0b1000_0000) >> 1) != value & 0b0010_0000);
        if self.bcd_enabled() && self.read_flag(Flag::Decimal) {
            let sum = (operand.0 & 0xF0).wrapping_add(operand.0 & 0x10);
            self.set_flag(Flag::Carry, sum > 0x50);
        } else {
            self.set_flag(Flag::Carry, value & 0b0100_0000 != 0);
        }
        (CPU::page_boundary(location), Branch::NotTaken)
    }

    #[verifier::rlimit(40)]
    pub fn asr(&mut self, mode: Mode) -> (r: (PageBoundary, Branch))
        requires
            old(self).wf(),
            is_readable_mode(mode),
        ensures
            final(self).wf(),
            (final(self).state(), r.0, r.1) == old(self).state().run_asr(mode),
            final(self).control() == old(self).control(),
    {
        let location = self.get_location(mode);
        let orig = self.a & self.read_value(location).0;
        let value = orig >> 1;
        self.set_flag(Flag::Negative, false);
        self.set_flag(Flag::Carry, orig & 1 != 0);
        self.set_flag(Flag::Zero, value == 0);
        self.a = value;
        (CPU::page_boundary(location), Branch::NotTaken)
    }

    #[verifier::rlimit(40)]
    pub fn dcp(&mut self, mode: Mode) -> (r: (PageBoundary, Branch))
        requires
            old(self).wf(),
            is_writable_mode(mode),
        ensures
            final(self).wf(),
            (final(self).state(), r.0, r.1) == old(self).state().run_dcp(mode),
            final(self).control() == old(self).control(),
    {
        let location = self.get_location(mode);
        let value = CPU::step_value(UnaryOp::Dec, self.read_value(location).0);
        let diff = CPU::sub8(self.a, value);
        self.set_flag(Flag::Negative, diff & SIGN_BIT != 0);
        self.set_flag(Flag::Zero, diff == 0);
        self.set_flag(Flag::Carry, value <= self.a);
        (self.write_value_without_flags(location, value), Branch::NotTaken)
    }

    #[verifier::rlimit(60)]
    pub fn isc(&mut self, mode: Mode) -> (r: (PageBoundary, Branch))
        requires
            old(self).wf(),
            is_writable_mode(mode),
        ensures
            final(self).wf(),
            (final(self).state(), r.0, r.1) == old(self).state().run_isc(mode),
            final(self).control() == old(self).control(),
    {
        let location = self.get_location(mode);
        let m = CPU::step_value(UnaryOp::Inc, self.read_value(location).0);
        let (result, n, v, z, c) = CPU::subtract_binary(self.a, m, self.read_flag(Flag::Carry));
        self.set_flag(Flag::Negative, n);
        self.set_flag(Flag::Zero, z);
        self.set_flag(Flag::Overflow, v);
        self.set_flag(Flag::Carry, c);
        self.write_value_without_flags(Location::A, result);
        (self.write_value_without_flags(location, m), Branch::NotTaken)
    }

    pub fn jam(&mut self) -> (r: (PageBoundary, Branch))
        ensures
            final(self).state() == old(self).state(),
            r == (PageBoundary::NotCrossed, Branch::NotTaken),
            final(self).control() == (CpuControl { jammed: true, ..old(self).control() }),
            final(self).wf() == old(self).wf(),
    {
        self.jammed = true;
        (PageBoundary::NotCrossed, Branch::NotTaken)
    }

    #[verifier::rlimit(40)]
    pub fn las(&mut self, mode: Mode) -> (r: (PageBoundary, Branch))
        requires
            old(self).wf(),
            is_readable_mode(mode),
        ensures
            final(self).wf(),
            (final(self).state(), r.0, r.1) == old(self).state().run_las(mode),
            final(self).control() == old(self).control(),
    {
        let location = self.get_location(mode);
        let v1 = self.read_value(location);
        let value = v1.0 & self.sp;
        self.write_value(Location::A, value);
        self.x = value;
        self.sp = value;
        (CPU::page_boundary(location), Branch::NotTaken)
    }

    #[verifier::rlimit(40)]
    pub fn lax(&mut self, mode: Mode) -> (r: (PageBoundary, Branch))
        requires
            old(self).wf(),
            is_readable_mode(mode),
        ensures
            final(self).wf(),
            (final(self).state(), r.0, r.1) == old(self).state().run_lax(mode),
            final(self).control() == old(self).control(),
    {
        let location = self.get_location(mode);
        let value = self.read_value(location);
        self.write_value(Location::A, value.0);
        self.write_value_without_flags(Location::X, value.0);
        (CPU::page_boundary(location), Branch::NotTaken)
    }

    #[verifier::rlimit(40)]
    pub fn sax(&mut self, mode: Mode) -> (r: (PageBoundary, Branch))
        requires
            old(self).wf(),
            is_writable_mode(mode),
        ensures
            final(self).wf(),
            (final(self).state(), r.0, r.1) == old(self).state().run_sax(mode),
            final(self).control() == old(self).control(),
    {
        let value = self.a & self.x;
        let location = self.get_location(mode);
        (self.write_value_without_flags(location, value), Branch::NotTaken)
    }

    /// The high byte of the unindexed address, plus one.
    pub fn h_plus_1(location: Location) -> (r: u8)
        requires
            is_addr(location),
        ensures
            r == crate::cpu::semantics::h_plus_1_of(location),
    {
        match location {
            Location::Addr(orig, _) => CPU::high_byte(orig).wrapping_add(1),
            _ => 0,
        }
    }

    #[verifier::rlimit(40)]
    pub fn sha(&mut self, mode: Mode) -> (r: (PageBoundary, Branch))
        requires
            old(self).wf(),
            is_memory_mode(mode),
        ensures
            final(self).wf(),
            (final(self).state(), r.0, r.1) == old(self).state().run_sha(mode),
            final(self).control() == old(self).control(),
    {
        let location = self.get_location(mode);
        let value = CPU::h_plus_1(location);
        let data = self.a & self.x & value;
        (self.write_value_without_flags(location, data), Branch::NotTaken)
    }

    #[verifier::rlimit(40)]
    pub fn shs(&mut self, mode: Mode) -> (r: (PageBoundary, Branch))
        requires
            old(self).wf(),
            is_memory_mode(mode),
        ensures
            final(self).wf(),
            (final(self).state(), r.0, r.1) == old(self).state().run_shs(mode),
            final(self).control() == old(self).control(),
    {
        let v1 = self.a & self.x;
        self.sp = v1;
        let location = self.get_location(mode);
        let value = v1 & CPU::h_plus_1(location);
        (self.write_value_without_flags(location, value), Branch::NotTaken)
    }

    #[verifier::rlimit(40)]
    pub fn shx(&mut self, mode: Mode) -> (r: (PageBoundary, Branch))
        requires
            old(self).wf(),
            is_memory_mode(mode),
        ensures
            final(self).wf(),
            (final(self).state(), r.0, r.1) == old(self).state().run_shx(mode),
            final(self).control() == old(self).control(),
    {
        let location = self.get_location(mode);
        let value = self.x & CPU::h_plus_1(location);
        (self.write_value_without_flags(location, value), Branch::NotTaken)
    }

    #[verifier::rlimit(40)]
    pub fn shy(&mut self, mode: Mode) -> (r: (PageBoundary, Branch))
        requires
            old(self).wf(),
            is_memory_mode(mode),
        ensures
            final(self).wf(),
            (final(self).state(), r.0, r.1) == old(self).state().run_shy(mode),
            final(self).control() == old(self).control(),
    {
        let location = self.get_location(mode);
        let value = self.y & CPU::h_plus_1(location);
        (self.write_value_without_flags(location, value), Branch::NotTaken)
    }

    #[verifier::rlimit(40)]
    pub fn rla(&mut self, mode: Mode) -> (r: (PageBoundary, Branch))
        requires
            old(self).wf(),
            is_writable_mode(mode),
        ensures
            final(self).wf(),
            (final(self).state(), r.0, r.1) == old(self).state().run_rla(mode),
            final(self).control() == old(self).control(),
    {
        let location = self.get_location(mode);
        let orig = self.read_value(location).0;
        let carry_in: u8 = if self.read_flag(Flag::Carry) { 1 } else { 0 };
        proof { lemma_shift_left_bits(orig, carry_in); }
        let m = (orig << 1) | carry_in;
        self.set_flag(Flag::Carry, orig & SIGN_BIT != 0);
        self.write_value(Location::A, self.a & m);
        (self.write_value_without_flags(location, m), Branch::NotTaken)
    }

    #[verifier::rlimit(60)]
    pub fn rra(&mut self, mode: Mode) -> (r: (PageBoundary, Branch))
        requires
            old(self).wf(),
            is_writable_mode(mode),
        ensures
            final(self).wf(),
            (final(self).state(), r.0, r.1) == old(self).state().run_rra(mode, old(self).bcd()),
            final(self).control() == old(self).control(),
    {
        let location = self.get_location(mode);
        let orig = self.read_value(location).0;
        let carry_in: u8 = if self.read_flag(Flag::Carry) { SIGN_BIT } else { 0 };
        proof { lemma_shift_right_bits(orig, carry_in); }
        let m = (orig >> 1) | carry_in;
        self.set_flag(Flag::Carry, orig & 1 != 0);
        let a = self.a;
        proof { lemma_byte_bits(orig); }
        let value = (a as u16).wrapping_add(m as u16).wrapping_add((orig & 1) as u16);
        if self.bcd_enabled() && self.read_flag(Flag::Decimal) {
            self.set_flag(Flag::Carry, value > 0x99);
        } else {
            self.set_flag(Flag::Carry, value > 0xFF);
        }
        proof { lemma_byte_pair_bits(a, m); }
        assert(value <= 511);
        proof { lemma_sum_sign(a, value); }
        self.set_flag(
            Flag::Overflow,
            (a ^ m) & SIGN_BIT == 0 && (a as u16 ^ value) & SIGN_BIT as u16 != 0,
        );
        proof { lemma_word_bits(value); }
        self.write_value(Location::A, (value & 0xFF) as u8);
        (self.write_value_without_flags(location, m), Branch::NotTaken)
    }

    #[verifier::rlimit(40)]
    pub fn sbx(&mut self, mode: Mode) -> (r: (PageBoundary, Branch))
        requires
            old(self).wf(),
            is_readable_mode(mode),
        ensures
            final(self).wf(),
            (final(self).state(), r.0, r.1) == old(self).state().run_sbx(mode),
            final(self).control() == old(self).control(),
    {
        let location = self.get_location(mode);
        let value = CPU::sub8(self.a & self.x, self.read_value(location).0);
        self.set_flag(Flag::Carry, (value & SIGN_BIT) == 0);
        (self.write_value(Location::X, value), Branch::NotTaken)
    }

    #[verifier::rlimit(40)]
    pub fn slo(&mut self, mode: Mode) -> (r: (PageBoundary, Branch))
        requires
            old(self).wf(),
            is_writable_mode(mode),
        ensures
            final(self).wf(),
            (final(self).state(), r.0, r.1) == old(self).state().run_slo(mode),
            final(self).control() == old(self).control(),
    {
        let location = self.get_location(mode);
        let orig = self.read_value(location).0;
        proof { lemma_shift_left_bits(orig, 0); }
        proof { lemma_byte_bits(orig); }
        let m = orig << 1;
        self.write_value_without_flags(location, m);
        self.set_flag(Flag::Carry, orig & SIGN_BIT != 0);
        self.write_value(Location::A, self.a | m);
        (CPU::page_boundary(location), Branch::NotTaken)
    }

    #[verifier::rlimit(40)]
    pub fn sre(&mut self, mode: Mode) -> (r: (PageBoundary, Branch))
        requires
            old(self).wf(),
            is_writable_mode(mode),
        ensures
            final(self).wf(),
            (final(self).state(), r.0, r.1) == old(self).state().run_sre(mode),
            final(self).control() == old(self).control(),
    {
        let location = self.get_location(mode);
        let orig = self.read_value(location).0;
        proof { lemma_shift_right_bits(orig, 0); }
        proof { lemma_byte_bits(orig); }
        let m = orig >> 1;
        self.write_value_without_flags(location, m);
        self.set_flag(Flag::Carry, orig & 1 != 0);
        self.write_value(Location::A, self.a ^ m);
        (CPU::page_boundary(location), Branch::NotTaken)
    }

    #[verifier::rlimit(40)]
    pub fn xxa(&mut self, mode: Mode) -> (r: (PageBoundary, Branch))
        requires
            old(self).wf(),
            is_writable_mode(mode),
        ensures
            final(self).wf(),
            (final(self).state(), r.0, r.1) == old(self).state().run_xxa(mode),
            final(self).control() == old(self).control(),
    {
        let location = self.get_location(mode);
        let m = self.read_value(location).0;
        let value = (self.a | 0xEE) & self.x & m;
        self.write_value(location, value);
        (CPU::page_boundary(location), Branch::NotTaken)
    }

    /// Executes one instruction (all of it at once; the clock accounts for its cycles).
    /// Source for the behaviour: https://www.pagetable.com/c64ref/6502/ and
    /// https://www.masswerk.at/6502/6502_instruction_set.html
    pub fn execute(&mut self, instruction: Instruction, mode: Mode) -> (r: (PageBoundary, Branch))
        requires
            old(self).wf(),
            executable(instruction, mode),
        ensures
            final(self).wf(),
            (final(self).state(), r.0, r.1) == old(self).state().run(instruction, mode, old(self).bcd()),
            final(self).control() == (CpuControl { jammed: old(self).jammed || instruction == Instruction::JAM, ..old(self).control() }),
    {
        match instruction {
            Instruction::ADC | Instruction::AND | Instruction::ASL | Instruction::BCC | Instruction::BCS | Instruction::BEQ | Instruction::BIT | Instruction::BMI | Instruction::BNE | Instruction::BPL | Instruction::BRK | Instruction::BVC | Instruction::BVS | Instruction::CLC | Instruction::CLD | Instruction::CLI | Instruction::CLV | Instruction::CMP | Instruction::CPX | Instruction::CPY => self.execute_group_a(instruction, mode),
            Instruction::DEC | Instruction::DEX | Instruction::DEY | Instruction::EOR | Instruction::INC | Instruction::INX | Instruction::INY | Instruction::JMP | Instruction::JSR | Instruction::LDA | Instruction::LDX | Instruction::LDY | Instruction::LSR | Instruction::NOP | Instruction::ORA | Instruction::PHA | Instruction::PHP | Instruction::PLA | Instruction::PLP | Instruction::ROL => self.execute_group_b(instruction, mode),
            Instruction::ROR | Instruction::RTI | Instruction::RTS | Instruction::SBC | Instruction::SEC | Instruction::SED | Instruction::SEI | Instruction::STA | Instruction::STX | Instruction::STY | Instruction::TAX | Instruction::TAY | Instruction::TSX | Instruction::TXA | Instruction::TXS | Instruction::TYA | Instruction::RST | Instruction::IRQ | Instruction::NMI => self.execute_group_c(instruction, mode),
            Instruction::ANC | Instruction::ASR | Instruction::ARR | Instruction::DCP | Instruction::ISC | Instruction::JAM | Instruction::LAS | Instruction::LAX | Instruction::RLA | Instruction::RRA | Instruction::SAX | Instruction::SBX | Instruction::SHA | Instruction::SHS | Instruction::SHX | Instruction::SHY | Instruction::SLO | Instruction::SRE | Instruction::XXA => self.execute_group_d(instruction, mode),
        }
    }

    #[verifier::rlimit(100)]
    fn execute_group_a(&mut self, instruction: Instruction, mode: Mode) -> (r: (PageBoundary, Branch))
        requires
            old(self).wf(),
            executable(instruction, mode),
            instruction == Instruction::ADC || instruction == Instruction::AND || instruction == Instruction::ASL || instruction == Instruction::BCC || instruction == Instruction::BCS || instruction == Instruction::BEQ || instruction == Instruction::BIT || instruction == Instruction::BMI || instruction == Instruction::BNE || instruction == Instruction::BPL || instruction == Instruction::BRK || instruction == Instruction::BVC || instruction == Instruction::BVS || instruction == Instruction::CLC || instruction == Instruction::CLD || instruction == Instruction::CLI || instruction == Instruction::CLV || instruction == Instruction::CMP || instruction == Instruction::CPX || instruction == Instruction::CPY,
        ensures
            final(self).wf(),
            (final(self).state(), r.0, r.1) == old(self).state().run(instruction, mode, old(self).bcd()),
            final(self).control() == (CpuControl { jammed: old(self).jammed || instruction == Instruction::JAM, ..old(self).control() }),
    {
        proof { reveal(CpuState::run); }
        match instruction {
            Instruction::ADC => self.adc(mode),
            Instruction::AND => self.binary(BinaryOp::And, mode),
            Instruction::ASL => self.shift_left(ShiftStyle::ShiftOff, mode),
            Instruction::BCC => self.branch(mode, BranchType::CC),
            Instruction::BCS => self.branch(mode, BranchType::CS),
            Instruction::BEQ => self.branch(mode, BranchType::EQ),
            Instruction::BIT => self.test_bits(mode),
            Instruction::BMI => self.branch(mode, BranchType::MI),
            Instruction::BNE => self.branch(mode, BranchType::NE),
            Instruction::BPL => self.branch(mode, BranchType::PL),
            Instruction::BRK => self.interrupt(Interrupt::BRK),
            Instruction::BVC => self.branch(mode, BranchType::VC),
            Instruction::BVS => self.branch(mode, BranchType::VS),
            Instruction::CLC => self.set_flag(Flag::Carry, false),
            Instruction::CLD => self.set_flag(Flag::Decimal, false),
            Instruction::CLI => self.set_flag(Flag::InterruptDisable, false),
            Instruction::CLV => self.set_flag(Flag::Overflow, false),
            Instruction::CMP => self.compare(mode, self.a),
            Instruction::CPX => self.compare(mode, self.x),
            Instruction::CPY => self.compare(mode, self.y),
            _ => (PageBoundary::NotCrossed, Branch::NotTaken),
        }
    }

    #[verifier::rlimit(100)]
    fn execute_group_b(&mut self, instruction: Instruction, mode: Mode) -> (r: (PageBoundary, Branch))
        requires
            old(self).wf(),
            executable(instruction, mode),
            instruction == Instruction::DEC || instruction == Instruction::DEX || instruction == Instruction::DEY || instruction == Instruction::EOR || instruction == Instruction::INC || instruction == Instruction::INX || instruction == Instruction::INY || instruction == Instruction::JMP || instruction == Instruction::JSR || instruction == Instruction::LDA || instruction == Instruction::LDX || instruction == Instruction::LDY || instruction == Instruction::LSR || instruction == Instruction::NOP || instruction == Instruction::ORA || instruction == Instruction::PHA || instruction == Instruction::PHP || instruction == Instruction::PLA || instruction == Instruction::PLP || instruction == Instruction::ROL,
        ensures
            final(self).wf(),
            (final(self).state(), r.0, r.1) == old(self).state().run(instruction, mode, old(self).bcd()),
            final(self).control() == (CpuControl { jammed: old(self).jammed || instruction == Instruction::JAM, ..old(self).control() }),
    {
        proof { reveal(CpuState::run); }
        match instruction {
            Instruction::DEC => self.unary(UnaryOp::Dec, mode),
            Instruction::DEX => self.unary(UnaryOp::Dec, Mode::X),
            Instruction::DEY => self.unary(UnaryOp::Dec, Mode::Y),
            Instruction::EOR => self.binary(BinaryOp::Xor, mode),
            Instruction::INC => self.unary(UnaryOp::Inc, mode),
            Instruction::INX => self.unary(UnaryOp::Inc, Mode::X),
            Instruction::INY => self.unary(UnaryOp::Inc, Mode::Y),
            Instruction::JMP => self.branch(mode, BranchType::JMP),
            Instruction::JSR => self.branch(mode, BranchType::JSR),
            Instruction::LDA => self.transfer(mode, Mode::A),
            Instruction::LDX => self.transfer(mode, Mode::X),
            Instruction::LDY => self.transfer(mode, Mode::Y),
            Instruction::LSR => self.shift_right(ShiftStyle::ShiftOff, mode),
            Instruction::NOP => self.nop(mode),
            Instruction::ORA => self.binary(BinaryOp::Or, mode),
            Instruction::PHA => self.push(Mode::A),
            Instruction::PHP => self.push(Mode::Status),
            Instruction::PLA => self.pop(Mode::A),
            Instruction::PLP => self.pop(Mode::Status),
            Instruction::ROL => self.shift_left(ShiftStyle::Rotate, mode),
            _ => (PageBoundary::NotCrossed, Branch::NotTaken),
        }
    }

    #[verifier::rlimit(100)]
    fn execute_group_c(&mut self, instruction: Instruction, mode: Mode) -> (r: (PageBoundary, Branch))
        requires
            old(self).wf(),
            executable(instruction, mode),
            instruction == Instruction::ROR || instruction == Instruction::RTI || instruction == Instruction::RTS || instruction == Instruction::SBC || instruction == Instruction::SEC || instruction == Instruction::SED || instruction == Instruction::SEI || instruction == Instruction::STA || instruction == Instruction::STX || instruction == Instruction::STY || instruction == Instruction::TAX || instruction == Instruction::TAY || instruction == Instruction::TSX || instruction == Instruction::TXA || instruction == Instruction::TXS || instruction == Instruction::TYA || instruction == Instruction::RST || instruction == Instruction::IRQ || instruction == Instruction::NMI,
        ensures
            final(self).wf(),
            (final(self).state(), r.0, r.1) == old(self).state().run(instruction, mode, old(self).bcd()),
            final(self).control() == (CpuControl { jammed: old(self).jammed || instruction == Instruction::JAM, ..old(self).control() }),
    {
        proof { reveal(CpuState::run); }
        match instruction {
            Instruction::ROR => self.shift_right(ShiftStyle::Rotate, mode),
            Instruction::RTI => self.rti(),
            Instruction::RTS => self.rts(),
            Instruction::SBC => self.sbc(mode),
            Instruction::SEC => self.set_flag(Flag::Carry, true),
            Instruction::SED => self.set_flag(Flag::Decimal, true),
            Instruction::SEI => self.set_flag(Flag::InterruptDisable, true),
            Instruction::STA => self.transfer_without_flags(Mode::A, mode),
            Instruction::STX => self.transfer_without_flags(Mode::X, mode),
            Instruction::STY => self.transfer_without_flags(Mode::Y, mode),
            Instruction::TAX => self.transfer(Mode::A, Mode::X),
            Instruction::TAY => self.transfer(Mode::A, Mode::Y),
            Instruction::TSX => self.transfer(Mode::SP, Mode::X),
            Instruction::TXA => self.transfer(Mode::X, Mode::A),
            Instruction::TXS => self.transfer_without_flags(Mode::X, Mode::SP),
            Instruction::TYA => self.transfer(Mode::Y, Mode::A),
            Instruction::RST => self.interrupt(Interrupt::RST),
            Instruction::IRQ => self.interrupt(Interrupt::IRQ),
            Instruction::NMI => self.interrupt(Interrupt::NMI),
            _ => (PageBoundary::NotCrossed, Branch::NotTaken),
        }
    }

    #[verifier::rlimit(100)]
    fn execute_group_d(&mut self, instruction: Instruction, mode: Mode) -> (r: (PageBoundary, Branch))
        requires
            old(self).wf(),
            executable(instruction, mode),
            instruction == Instruction::ANC || instruction == Instruction::ASR || instruction == Instruction::ARR || instruction == Instruction::DCP || instruction == Instruction::ISC || instruction == Instruction::JAM || instruction == Instruction::LAS || instruction == Instruction::LAX || instruction == Instruction::RLA || instruction == Instruction::RRA || instruction == Instruction::SAX || instruction == Instruction::SBX || instruction == Instruction::SHA || instruction == Instruction::SHS || instruction == Instruction::SHX || instruction == Instruction::SHY || instruction == Instruction::SLO || instruction == Instruction::SRE || instruction == Instruction::XXA,
        ensures
            final(self).wf(),
            (final(self).state(), r.0, r.1) == old(self).state().run(instruction, mode, old(self).bcd()),
            final(self).control() == (CpuControl { jammed: old(self).jammed || instruction == Instruction::JAM, ..old(self).control() }),
    {
        proof { reveal(CpuState::run); }
        match instruction {
            Instruction::ANC => self.anc(mode),
            Instruction::ASR => self.asr(mode),
            Instruction::ARR => self.arr(mode),
            Instruction::DCP => self.dcp(mode),
            Instruction::ISC => self.isc(mode),
            Instruction::JAM => self.jam(),
            Instruction::LAS => self.las(mode),
            Instruction::LAX => self.lax(mode),
            Instruction::RLA => self.rla(mode),
            Instruction::RRA => self.rra(mode),
            Instruction::SAX => self.sax(mode),
            Instruction::SBX => self.sbx(mode),
            Instruction::SHA => self.sha(mode),
            Instruction::SHS => self.shs(mode),
            Instruction::SHX => self.shx(mode),
            Instruction::SHY => self.shy(mode),
            Instruction::SLO => self.slo(mode),
            Instruction::SRE => self.sre(mode),
            Instruction::XXA => self.xxa(mode),
            _ => (PageBoundary::NotCrossed, Branch::NotTaken),
        }
    }

    /// The bookkeeping the clock keeps: no extra cycles are owed while an instruction
    /// is still counting down, and the counts stay within what an instruction can take.
    pub open spec fn sequencing_ok(&self) -> bool {
        &&& self.remaining_cycles > 0 ==> self.extra_cycles == 0
        &&& self.remaining_cycles <= 7
        &&& self.extra_cycles <= 2
    }

    /// The next clock tick is one the CPU can take: the instruction it would finish has a
    /// meaning, and the cycle counter has room.
    pub open spec fn can_clock(&self) -> bool {
        &&& self.wf()
        &&& self.sequencing_ok()
        &&& self.cycles < usize::MAX
        &&& (self.remaining_cycles == 1 && !self.jammed && self.rdy) ==> executable(self.instruction, self.mode)
    }

    /// Checks that the CPU is consistent and its next clock is one it can take, with the
    /// instruction in progress meaningful even while the CPU is halted.
    pub fn clock_ready(&self) -> (r: bool)
        ensures
            r == (self.wf() && self.sequencing_ok() && self.cycles < usize::MAX
                && ((self.remaining_cycles == 1 && !self.jammed) ==> executable(self.instruction, self.mode))),
    {
        self.bus.is_wf()
            && (self.remaining_cycles == 0 || self.extra_cycles == 0)
            && self.remaining_cycles <= 7
            && self.extra_cycles <= 2
            && self.cycles < usize::MAX
            && (!(self.remaining_cycles == 1 && !self.jammed) || crate::cpu::semantics::is_executable(self.instruction, self.mode))
    }

    pub fn reset(&mut self)
        ensures
            final(self).state() == (CpuState { trapped: false, interrupt: Some(Interrupt::RST), ..old(self).state() }),
            final(self).control() == (CpuControl { jammed: false, cycles: 0, remaining_cycles: 0, extra_cycles: 0, ..old(self).control() }),
            final(self).wf() == old(self).wf(),
    {
        self.cycles = 0;
        // other interrupts wait for the current instruction to complete,
        // a reset starts on the next clock
        self.remaining_cycles = 0;
        self.extra_cycles = 0;
        self.jammed = false;
        self.interrupt = Some(Interrupt::RST);
        self.trapped = false;
    }

    /// Signals a non-maskable interrupt; only a pending reset takes precedence.
    pub fn nmi(&mut self)
        ensures
            final(self).state() == (CpuState {
                trapped: false,
                interrupt: if old(self).interrupt == Some(Interrupt::RST) { old(self).interrupt } else { Some(Interrupt::NMI) },
                ..old(self).state()
            }),
            final(self).control() == old(self).control(),
            final(self).wf() == old(self).wf(),
    {
        let pending_reset = match self.interrupt {
            Some(Interrupt::RST) => true,
            _ => false,
        };
        if !pending_reset {
            self.interrupt = Some(Interrupt::NMI);
        }
        self.trapped = false;
    }

    /// Signals an interrupt request; it is ignored while another interrupt is pending
    /// or interrupts are disabled.
    pub fn irq(&mut self)
        ensures
            (old(self).interrupt.is_none() && !flag_of(old(self).status, Flag::InterruptDisable)) ==>
                final(self).state() == (CpuState { trapped: false, interrupt: Some(Interrupt::IRQ), ..old(self).state() }),
            !(old(self).interrupt.is_none() && !flag_of(old(self).status, Flag::InterruptDisable)) ==>
                final(self).state() == old(self).state(),
            final(self).control() == old(self).control(),
            final(self).wf() == old(self).wf(),
    {
        if self.interrupt.is_none() && !self.read_flag(Flag::InterruptDisable) {
            self.interrupt = Some(Interrupt::IRQ);
            self.trapped = false;
        }
    }

    pub fn clock(&mut self)
        requires
            old(self).can_clock(),
        ensures
            final(self).wf(),
            final(self).sequencing_ok(),
            (final(self).state(), final(self).control()) == clock_step(old(self).state(), old(self).control()),
    {
        if self.jammed || !self.rdy {
            return;
        }
        if self.remaining_cycles > 0 {
            self.count_down();
        } else if self.extra_cycles > 0 {
            self.extra_cycles = self.extra_cycles - 1;
        } else {
            self.begin_instruction();
        }
        self.cycles = self.cycles + 1;
    }

    /// One cycle of the instruction in progress; on its last cycle it takes effect.
    #[verifier::rlimit(60)]
    fn count_down(&mut self)
        requires
            old(self).can_clock(),
            !old(self).jammed && old(self).rdy,
            old(self).remaining_cycles > 0,
        ensures
            final(self).wf(),
            final(self).sequencing_ok(),
            final(self).cycles == old(self).cycles,
            (final(self).state(), CpuControl { cycles: (old(self).cycles + 1) as usize, ..final(self).control() })
                == clock_step(old(self).state(), old(self).control()),
    {
        if self.remaining_cycles == 1 {
            let (page_boundary, branch_taken) = self.execute(self.instruction, self.mode);
            if page_boundary == PageBoundary::Crossed && self.cycle_on_page_boundary {
                self.extra_cycles = self.extra_cycles + 1;
            }
            if branch_taken == Branch::Taken {
                self.extra_cycles = self.extra_cycles + 1;
            }
            self.monitor.end_instruction();
        }
        self.remaining_cycles = self.remaining_cycles - 1;
    }

    /// Starts the next instruction: a pending interrupt, or the opcode at the program counter.
    #[verifier::rlimit(60)]
    fn begin_instruction(&mut self)
        requires
            old(self).can_clock(),
            !old(self).jammed && old(self).rdy,
            old(self).remaining_cycles == 0,
            old(self).extra_cycles == 0,
        ensures
            final(self).wf(),
            final(self).sequencing_ok(),
            final(self).cycles == old(self).cycles,
            (final(self).state(), CpuControl { cycles: (old(self).cycles + 1) as usize, ..final(self).control() })
                == clock_step(old(self).state(), old(self).control()),
    {
        let (instruction, mode, cycles, cycle_on_boundary) = match self.interrupt {
            Some(interrupt) => {
                let instruction = match interrupt {
                    Interrupt::IRQ => Instruction::IRQ,
                    Interrupt::NMI => Instruction::NMI,
                    Interrupt::RST => Instruction::RST,
                    Interrupt::BRK => Instruction::BRK,
                };
                (instruction, Mode::Imp, 7u8, false)
            },
            None => {
                self.monitor.new_instruction(self.cycles, self.pc, self.sp, self.a, self.x, self.y, self.status);
                let op = self.fetch_byte();
                proof { crate::cpu::decode::lemma_decode_cycles(); }
                decode(op)
            },
        };
        self.instruction = instruction;
        self.mode = mode;
        self.remaining_cycles = cycles - 1;
        self.extra_cycles = 0;
        self.cycle_on_page_boundary = cycle_on_boundary;
    }

    /// The CPU can run up to the end of the next instruction: it is jammed or halted only
    /// between instructions, the instruction in progress has a meaning and is not the jam,
    /// and the opcode it would fetch next (when no interrupt is pending) is not the
    /// undocumented `XXA #imm`, whose write back to an immediate operand has no meaning.
    pub open spec fn can_run_instruction(&self) -> bool {
        &&& self.wf()
        &&& self.sequencing_ok()
        &&& self.cycles + 32 < usize::MAX
        &&& (self.jammed || !self.rdy) ==> between_instructions(self.control())
        &&& self.remaining_cycles > 0 ==> executable(self.instruction, self.mode) && self.instruction != Instruction::JAM
        &&& (between_instructions(self.control()) && self.interrupt.is_none() && !self.jammed && self.rdy)
            ==> self.state().rd(self.pc) != 0x8B
    }

    /// Clocks the CPU until the current instruction (or, between instructions, the next
    /// one) is complete, and returns the number of cycles taken.
    pub fn run_instruction(&mut self) -> (r: u8)
        requires
            old(self).can_run_instruction(),
        ensures
            final(self).wf(),
            final(self).sequencing_ok(),
            1 <= r <= 30,
            (final(self).state(), final(self).control()) == clock_steps(old(self).state(), old(self).control(), r as nat),
            between_instructions(final(self).control()),
            forall|k: nat| 1 <= k < r ==> !between_instructions(#[trigger] clock_steps(old(self).state(), old(self).control(), k).1),
            !old(self).jammed && old(self).rdy ==> final(self).cycles == old(self).cycles + r,
            old(self).jammed || !old(self).rdy ==> r == 1 && final(self).state() == old(self).state() && final(self).control() == old(self).control(),
    {
        let ghost st0 = self.state();
        let ghost ctl0 = self.control();
        let mut cycles: u8 = 0;

        if self.remaining_cycles == 0 && self.extra_cycles == 0 {
            proof {
                crate::cpu::decode::lemma_decode_executable();
                crate::cpu::decode::lemma_decode_cycles();
            }
            self.clock();
            cycles = cycles + 1;
            assert(clock_steps(st0, ctl0, 1) == clock_step(st0, ctl0)) by {
                reveal_with_fuel(clock_steps, 2);
            }
        }
        while self.remaining_cycles != 0 || self.extra_cycles != 0
            invariant
                self.wf(),
                self.sequencing_ok(),
                cycles <= 30,
                cycles as int + 3 * self.remaining_cycles as int + self.extra_cycles as int <= 30,
                self.cycles <= ctl0.cycles + cycles,
                ctl0.cycles + 32 < usize::MAX,
                (self.state(), self.control()) == clock_steps(st0, ctl0, cycles as nat),
                (self.jammed || !self.rdy) ==> between_instructions(self.control()),
                self.remaining_cycles > 0 ==> executable(self.instruction, self.mode) && self.instruction != Instruction::JAM,
                forall|k: nat| 1 <= k < cycles ==> !between_instructions(#[trigger] clock_steps(st0, ctl0, k).1),
                cycles == 0 ==> !between_instructions(ctl0),
                !ctl0.jammed && ctl0.rdy ==> self.cycles == ctl0.cycles + cycles && !self.jammed && self.rdy,
                ctl0.jammed || !ctl0.rdy ==> cycles == 1 && self.state() == st0 && self.control() == ctl0,
            decreases 3 * self.remaining_cycles as int + self.extra_cycles as int,
        {
            let ghost before = cycles;
            let ghost pre = self.control();
            assert(!between_instructions(pre));
            self.clock();
            cycles = cycles + 1;
            proof {
                assert(clock_steps(st0, ctl0, cycles as nat) == clock_step(clock_steps(st0, ctl0, before as nat).0, clock_steps(st0, ctl0, before as nat).1));
                assert forall|k: nat| 1 <= k < cycles implies !between_instructions(#[trigger] clock_steps(st0, ctl0, k).1) by {
                    if k == before {
                        assert(clock_steps(st0, ctl0, k).1 == pre);
                    }
                }
            }
        }
        cycles
    }

    /// Resets the CPU, runs the reset sequence, then starts execution at `addr`.
    /// Returns the cycles the reset took.
    pub fn reset_to(&mut self, addr: u16) -> (r: u8)
        requires
            old(self).wf(),
        ensures
            final(self).wf(),
            1 <= r <= 30,
            ({
                let st = CpuState { trapped: false, interrupt: Some(Interrupt::RST), ..old(self).state() };
                let ctl = CpuControl { jammed: false, cycles: 0, remaining_cycles: 0, extra_cycles: 0, ..old(self).control() };
                let (s, c) = clock_steps(st, ctl, r as nat);
                &&& final(self).state() == CpuState { pc: addr, ..s }
                &&& final(self).control() == c
                &&& between_instructions(c)
                &&& forall|k: nat| 1 <= k < r ==> !between_instructions(#[trigger] clock_steps(st, ctl, k).1)
            }),
    {
        self.reset();
        let cycles = self.run_instruction();
        self.pc = addr;
        cycles
    }

    pub fn bcd_enabled(&self) -> (r: bool)
        ensures
            r == self.bcd(),
    {
        match self.cpu_type {
            CPUType::RP2A03 => false,
            CPUType::MOS6502 => true,
        }
    }
}

impl Default for CPU {
    fn default() -> (r: CPU)
        ensures
            r.wf(),
            r.cpu_type == CPUType::MOS6502,
            r.jammed,
            r.bus@ == Seq::<(AddrRange, DeviceModel)>::empty(),
    {
        CPU::new(CPUType::MOS6502)
    }
}

/// A MOS 6502 with 64K of RAM covering the whole address space. Also returns the
/// position of that RAM on the bus.
pub fn create_test_configuration() -> (r: (CPU, usize))
    ensures
        r.0.wf(),
        r.0.cpu_type == CPUType::MOS6502,
        r.0.jammed,
        r.0.remaining_cycles == 0 && r.0.extra_cycles == 0 && r.0.cycles == 0,
        r.1 == 0,
        r.0.bus@.len() == 1,
        r.0.bus@[0].0 == (0x0000u16, 0xFFFFu16),
        r.0.bus@[0].1 matches DeviceModel::Ram { mask, memory }
            && mask == 0xFFFF && memory.len() == 0x10000 && forall|i: int| 0 <= i < 0x10000 ==> memory[i] == 0,
{
    let mut cpu = CPU::new(CPUType::MOS6502);
    let mem = RAM::new(0x0000, 0xFFFF, 0xFFFF);
    cpu.add_bus_device(Box::new(mem));
    (cpu, 0)
}

/// A byte pushed on the stack is the byte popped next, and the stack pointer comes
/// back where it was, where RAM holds the stack slot.
pub proof fn law_push_then_pop(st: CpuState, v: u8)
    requires
        bus_target(st.mem, (STACK_BASE + st.sp) as u16) < st.mem.len(),
        st.mem[bus_target(st.mem, (STACK_BASE + st.sp) as u16)].1 is Ram,
        st.mem[bus_target(st.mem, (STACK_BASE + st.sp) as u16)].1.wf(),
    ensures
        st.push(v).pop().0 == v,
        st.push(v).pop().1.sp == st.sp,
        st.push(v).pop().1 == st.wr((STACK_BASE + st.sp) as u16, v),
{
    let a = (STACK_BASE + st.sp) as u16;
    crate::bus::law_read_after_write(st.mem, a, v);
    let written = bus_write(st.mem, a, v);
    crate::bus::lemma_bus_target(st.mem, a);
    assert forall|i: int| 0 <= i < st.mem.len() implies (#[trigger] st.mem[i]).0 == written[i].0 by {}
    crate::bus::lemma_target_by_ranges(st.mem, written, a);
    crate::bus::lemma_touch_ram(written, a);
}

/// A reset starts on the next clock: between instructions, with a reset pending, the
/// CPU begins the seven-cycle reset sequence and changes nothing else yet.
pub proof fn law_reset_starts_next_clock(st: CpuState, ctl: CpuControl)
    requires
        st.interrupt == Some(Interrupt::RST),
        ctl.rdy,
        !ctl.jammed,
        between_instructions(ctl),
    ensures
        clock_step(st, ctl).0 == st,
        clock_step(st, ctl).1.instruction == Instruction::RST,
        clock_step(st, ctl).1.remaining_cycles == 6,
{
}

/// Interrupts wait for the instruction in progress: before its last cycle a clock
/// changes neither the state nor the instruction, so a pending interrupt stays
/// pending.
pub proof fn law_interrupt_waits_for_instruction(st: CpuState, ctl: CpuControl)
    requires
        ctl.remaining_cycles > 1,
    ensures
        clock_step(st, ctl).0 == st,
        clock_step(st, ctl).1.instruction == ctl.instruction,
        clock_step(st, ctl).0.interrupt == st.interrupt,
{
}

/// Every clock on which the CPU runs (neither jammed nor halted) adds one to its cycle
/// count; since a reset zeroes the count, `n` such clocks after a reset leave it at `n`.
pub proof fn law_cycles_count_clocks(st: CpuState, ctl: CpuControl, n: nat)
    requires
        ctl.cycles + n <= usize::MAX,
        forall|k: nat| k < n ==> !(#[trigger] clock_steps(st, ctl, k)).1.jammed && clock_steps(st, ctl, k).1.rdy,
    ensures
        clock_steps(st, ctl, n).1.cycles == ctl.cycles + n,
    decreases n,
{
    if n > 0 {
        let m = (n - 1) as nat;
        assert forall|k: nat| k < m implies !(#[trigger] clock_steps(st, ctl, k)).1.jammed && clock_steps(st, ctl, k).1.rdy by {
            assert(k < n);
        }
        law_cycles_count_clocks(st, ctl, m);
        assert(!clock_steps(st, ctl, m).1.jammed && clock_steps(st, ctl, m).1.rdy);
    }
}

} // verus!

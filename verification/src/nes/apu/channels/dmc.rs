use vstd::prelude::*;

use crate::cpu::{CPU, CPUCycleType, CpuControl, CpuState};
use crate::nes::apu::{APUCycleType, SoundEnableFlags};
use crate::nes::apu::channels::{Channel, FrequencyTimer};

verus! {

broadcast use crate::bus::group_touch;


/// The timer periods of the delta modulation channel.
pub open spec fn dmc_period_table() -> Seq<u16> {
    seq![428u16, 380, 340, 320, 286, 254, 226, 214, 190, 160, 142, 128, 106, 84, 72, 54]
}

pub fn dmc_period(index: u8) -> (r: u16)
    requires
        index < 16,
    ensures
        r == dmc_period_table()[index as int],
{
    match index {
        0 => 428, 1 => 380, 2 => 340, 3 => 320, 4 => 286, 5 => 254, 6 => 226, 7 => 214,
        8 => 190, 9 => 160, 10 => 142, 11 => 128, 12 => 106, 13 => 84, 14 => 72, _ => 54,
    }
}

/// The delta modulation channel: plays 1-bit deltas of samples it fetches from CPU
/// memory by DMA.
#[derive(Copy, Clone, PartialEq, Eq, Debug, Structural)]
pub struct DMCChannel {
    pub period_index: u8,
    pub memory_reader: MemoryReader,
    pub frequency_timer: FrequencyTimer,
    pub output_unit: OutputUnit,
}

impl DMCChannel {
    /// The channel after one APU cycle: the timer counts down and, where it fires, the
    /// waveform steps.
    pub open spec fn ticked(self, read_cycle: bool) -> DMCChannel {
        DMCChannel {
            frequency_timer: self.frequency_timer.clocked(read_cycle),
            output_unit: if self.frequency_timer.fires(read_cycle) { self.output_unit.advanced() } else { self.output_unit },
            ..self
        }
    }

    pub open spec fn wf(self) -> bool {
        self.output_unit.wf()
    }

    pub open spec fn register(self, n: u8) -> u8 {
        if n == 0 {
            self.memory_reader.flag_bits() | (self.period_index & 0x0F)
        } else if n == 1 {
            self.output_unit.output & 0x7F
        } else if n == 2 {
            (self.memory_reader.sample_address >> 6u16) as u8
        } else {
            (self.memory_reader.sample_length >> 4u16) as u8
        }
    }

    pub open spec fn written(self, n: u8, value: u8) -> DMCChannel {
        if n == 0 {
            DMCChannel {
                memory_reader: self.memory_reader.with_flag_bits(value),
                period_index: value & 0x0F,
                frequency_timer: FrequencyTimer { period: dmc_period_table()[(value & 0x0F) as int], ..self.frequency_timer },
                ..self
            }
        } else if n == 1 {
            DMCChannel { output_unit: OutputUnit { output: value & 0x7F, ..self.output_unit }, ..self }
        } else if n == 2 {
            DMCChannel { memory_reader: MemoryReader { sample_address: 0xC000 | ((value as u16) << 6u16), ..self.memory_reader }, ..self }
        } else {
            DMCChannel { memory_reader: MemoryReader { sample_length: (((value as u16) << 4u16) + 1) as u16, ..self.memory_reader }, ..self }
        }
    }

    /// A DMA step would not run the sample count below zero.
    pub open spec fn dma_ok(self) -> bool {
        self.output_unit.sample_buffer is None ==> self.memory_reader.dma_ok()
    }

    pub open spec fn new_spec() -> DMCChannel {
        DMCChannel {
            period_index: 0,
            memory_reader: MemoryReader::new_spec(),
            frequency_timer: FrequencyTimer { every_other_clock: false, period: 0, value: 0 },
            output_unit: OutputUnit::new_spec(),
        }
    }

    pub fn new() -> (r: DMCChannel)
        ensures
            r.wf(),
            r == DMCChannel::new_spec(),
    {
        DMCChannel {
            period_index: 0,
            memory_reader: MemoryReader::new(),
            frequency_timer: FrequencyTimer::new(false),
            output_unit: OutputUnit::new(),
        }
    }

    /// The CPU's memory after the channel's DMA turn: a fetch of the next sample byte
    /// reads it.
    pub open spec fn dma_touched(self, cpu_cycle_type: CPUCycleType, apu_cycle_type: APUCycleType, rdy: bool, s: CpuState)
        -> CpuState {
        if self.output_unit.sample_buffer is None && self.memory_reader.dma_reads(cpu_cycle_type, apu_cycle_type, rdy) {
            s.touch(self.memory_reader.fetch_address())
        } else {
            s
        }
    }

    /// Fetches the next sample byte when the output unit's buffer is empty.
    pub fn manage_dma(&mut self, cpu_cycle_type: CPUCycleType, apu_cycle_type: APUCycleType, cpu: &mut CPU)
        requires
            old(cpu).wf(),
            old(self).dma_ok(),
        ensures
            final(cpu).wf(),
            final(cpu).state() == old(self).dma_touched(cpu_cycle_type, apu_cycle_type, old(cpu).rdy, old(cpu).state()),
            final(cpu).control() == (CpuControl { rdy: final(cpu).rdy, ..old(cpu).control() }),
            old(self).output_unit.sample_buffer is Some ==> *final(self) == *old(self) && final(cpu).rdy == old(cpu).rdy,
            old(self).output_unit.sample_buffer is None ==> {
                let (reader, sample, rdy) = old(self).memory_reader.dma_step(
                    cpu_cycle_type, apu_cycle_type, old(cpu).rdy, old(cpu).state().rd(old(self).memory_reader.fetch_address()));
                &&& final(self).memory_reader == reader
                &&& final(self).output_unit == OutputUnit { sample_buffer: sample, ..old(self).output_unit }
                &&& final(self).period_index == old(self).period_index
                &&& final(self).frequency_timer == old(self).frequency_timer
                &&& final(cpu).rdy == rdy
            },
    {
        if self.output_unit.sample_buffer.is_none() {
            self.memory_reader.manage_dma(cpu_cycle_type, apu_cycle_type, cpu, &mut self.output_unit.sample_buffer)
        }
    }
}

impl Channel for DMCChannel {
    open spec fn channel_wf(&self) -> bool { self.wf() }

    fn set_register(&mut self, n: u8, value: u8) -> (r: u8)
        ensures
            r == old(self).register(n),
            *final(self) == old(self).written(n, value),
    {
        let old = self.read_register(n);
        if n == 0 {
            self.memory_reader.load_flag_bits(value);
            self.period_index = value & 0b00001111;
            proof { crate::nes::cartridge::mappers::mmc3::lemma_and_bound(value, 0x0F); }
            self.frequency_timer.period = dmc_period(self.period_index);
        } else if n == 1 {
            self.output_unit.load_bits(value);
        } else if n == 2 {
            self.memory_reader.load_sample_addres_bits(value);
        } else {
            self.memory_reader.load_sample_length_bits(value);
        }
        old
    }

    fn read_register(&self, n: u8) -> (r: u8)
        ensures
            r == self.register(n),
    {
        if n == 0 {
            self.memory_reader.read_flag_bits() | (self.period_index & 0b00001111)
        } else if n == 1 {
            self.output_unit.read_bits()
        } else if n == 2 {
            self.memory_reader.read_sample_address_bits()
        } else {
            self.memory_reader.read_sample_length_bits()
        }
    }

    /// Disabling drops the remaining samples; enabling restarts a finished sample.
    fn set_enabled(&mut self, value: bool)
        ensures
            *final(self) == (DMCChannel {
                memory_reader: if !value {
                    MemoryReader { samples_remaining: 0, ..old(self).memory_reader }
                } else if old(self).memory_reader.samples_remaining == 0 {
                    MemoryReader { start: true, ..old(self).memory_reader }
                } else {
                    old(self).memory_reader
                },
                ..*old(self)
            }),
    {
        if !value {
            self.memory_reader.samples_remaining = 0;
        } else if self.memory_reader.samples_remaining == 0 {
            self.memory_reader.start = true;
        }
    }

    fn get_enabled(&self) -> (r: bool)
        ensures
            r == (self.memory_reader.samples_remaining != 0),
    {
        self.memory_reader.samples_remaining != 0
    }

    fn get_enabled_flag(&self) -> (r: u8)
        ensures
            r == SoundEnableFlags::DMC,
    {
        SoundEnableFlags::DMC
    }

    fn clock(&mut self, read_cycle: bool) -> (r: u8)
        ensures
            *final(self) == old(self).ticked(read_cycle),
            *final(self) == (DMCChannel {
                frequency_timer: old(self).frequency_timer.clocked(read_cycle),
                output_unit: if old(self).frequency_timer.fires(read_cycle) { old(self).output_unit.advanced() } else { old(self).output_unit },
                ..*old(self)
            }),
            r == final(self).output_unit.output,
    {
        if self.frequency_timer.clock(read_cycle) {
            self.output_unit.advance_position();
        }
        self.output_unit.output
    }

    fn quarter_frame_clock(&mut self)
        ensures
            *final(self) == *old(self),
    {
    }

    fn half_frame_clock(&mut self)
        ensures
            *final(self) == *old(self),
    {
    }
}

/// Shifts a sample byte out one bit at a time, moving the output level by 2 per bit.
#[derive(Copy, Clone, PartialEq, Eq, Debug, Structural)]
pub struct OutputUnit {
    pub bits_remaining: u8,
    pub silence: bool,
    pub shift_register: u8,
    pub sample_buffer: Option<u8>,
    pub output: u8,
}

impl OutputUnit {
    pub open spec fn wf(self) -> bool {
        1 <= self.bits_remaining <= 8 && self.output <= 127
    }

    pub open spec fn new_spec() -> OutputUnit {
        OutputUnit { bits_remaining: 8, silence: true, shift_register: 0, sample_buffer: None, output: 0 }
    }

    /// One output step: unless silent, a 1 bit raises the level by 2 (up to 127) and a 0
    /// lowers it by 2 (down to 0); after eight bits the buffered sample is taken, or
    /// the unit falls silent.
    pub open spec fn advanced(self) -> OutputUnit {
        let output = if self.silence {
            self.output
        } else if self.shift_register & 1 == 1 && self.output <= 125 {
            (self.output + 2) as u8
        } else if !(self.shift_register & 1 == 1) && self.output >= 2 {
            (self.output - 2) as u8
        } else if self.shift_register & 1 == 1 && self.output >= 2 {
            (self.output - 2) as u8
        } else {
            self.output
        };
        let remaining = (self.bits_remaining - 1) as u8;
        let shifted = self.shift_register >> 1u8;
        if remaining == 0 {
            match self.sample_buffer {
                None => OutputUnit { output, bits_remaining: 8, silence: true, shift_register: shifted, ..self },
                Some(b) => OutputUnit { output, bits_remaining: 8, silence: false, shift_register: b, sample_buffer: None },
            }
        } else {
            OutputUnit { output, bits_remaining: remaining, shift_register: shifted, ..self }
        }
    }

    pub fn new() -> (r: OutputUnit)
        ensures
            r == OutputUnit::new_spec(),
    {
        OutputUnit { bits_remaining: 8, silence: true, shift_register: 0, sample_buffer: None, output: 0 }
    }

    pub fn advance_position(&mut self)
        requires
            old(self).wf(),
        ensures
            *final(self) == old(self).advanced(),
            final(self).wf(),
    {
        if !self.silence {
            let bit = self.shift_register & 1;
            if (bit == 1) && self.output <= 125 {
                self.output = self.output + 2;
            } else if self.output >= 2 {
                self.output = self.output - 2;
            }
        }
        self.shift_register = self.shift_register >> 1;
        self.bits_remaining = self.bits_remaining - 1;
        if self.bits_remaining == 0 {
            self.bits_remaining = 8;
            match self.sample_buffer {
                None => {
                    self.silence = true;
                },
                Some(b) => {
                    self.silence = false;
                    self.shift_register = b;
                    self.sample_buffer = None;
                },
            }
        }
    }

    pub fn load_bits(&mut self, value: u8)
        ensures
            *final(self) == (OutputUnit { output: value & 0x7F, ..*old(self) }),
            final(self).output <= 127,
    {
        self.output = value & 0b01111111;
        proof { crate::nes::cartridge::mappers::mmc3::lemma_and_bound(value, 0x7F); }
    }

    pub fn read_bits(&self) -> (r: u8)
        ensures
            r == self.output & 0x7F,
    {
        self.output & 0b01111111
    }
}

/// The states of a DMC sample fetch.
#[derive(Clone, Copy, PartialEq, Eq, Debug, Structural)]
pub enum DmcDmaState {
    NoDma,
    Requested,
    Executing,
}

/// Walks the sample in CPU memory and fetches its bytes.
#[derive(Copy, Clone, PartialEq, Eq, Debug, Structural)]
pub struct MemoryReader {
    pub irq_enabled: bool,
    pub irq_occurred: bool,
    pub loop_enabled: bool,
    pub samples_remaining: u16,
    pub sample_address: u16,
    pub current_address: u16,
    pub sample_length: u16,
    pub start: bool,
    pub dma_state: DmcDmaState,
    pub marked_not_ready: bool,
}

impl MemoryReader {
    pub open spec fn new_spec() -> MemoryReader {
        MemoryReader {
            irq_enabled: false,
            irq_occurred: false,
            loop_enabled: false,
            samples_remaining: 0,
            sample_address: 0xC000,
            current_address: 0xC000,
            sample_length: 1,
            start: false,
            dma_state: DmcDmaState::NoDma,
            marked_not_ready: false,
        }
    }

    /// The reader after a pending start: at the sample's beginning, with all of it left.
    pub open spec fn started(self) -> MemoryReader {
        if self.start {
            MemoryReader { start: false, current_address: self.sample_address, samples_remaining: self.sample_length, ..self }
        } else {
            self
        }
    }

    /// The address the next fetch reads.
    pub open spec fn fetch_address(self) -> u16 {
        self.started().current_address
    }

    /// A fetch never finds the sample already used up.
    pub open spec fn dma_ok(self) -> bool {
        let s = self.started();
        s.dma_state == DmcDmaState::Executing ==> s.samples_remaining > 0
    }

    /// One DMA step, given the CPU's cycle, the APU's cycle, whether the CPU was ready
    /// and the byte at the fetch address: the reader, the sample buffer, and the CPU's
    /// ready line after it.
    /// Whether a DMA step reads the sample byte.
    pub open spec fn dma_reads(self, cpu_cycle_type: CPUCycleType, apu_cycle_type: APUCycleType, rdy: bool) -> bool {
        let s = self.started();
        let s = if s.samples_remaining != 0 && cpu_cycle_type == CPUCycleType::Read && s.dma_state == DmcDmaState::NoDma {
            MemoryReader { dma_state: if rdy { DmcDmaState::Requested } else { DmcDmaState::Executing }, ..s }
        } else {
            s
        };
        s.dma_state == DmcDmaState::Executing && apu_cycle_type == APUCycleType::Put
    }

    pub open spec fn dma_step(self, cpu_cycle_type: CPUCycleType, apu_cycle_type: APUCycleType, rdy: bool, byte: u8)
        -> (MemoryReader, Option<u8>, bool)
    {
        let s = self.started();
        let s = if s.samples_remaining != 0 && cpu_cycle_type == CPUCycleType::Read && s.dma_state == DmcDmaState::NoDma {
            MemoryReader { dma_state: if rdy { DmcDmaState::Requested } else { DmcDmaState::Executing }, ..s }
        } else {
            s
        };
        if s.dma_state == DmcDmaState::Requested && cpu_cycle_type == CPUCycleType::Read {
            (MemoryReader { marked_not_ready: true, dma_state: DmcDmaState::Executing, ..s }, None, false)
        } else if s.dma_state == DmcDmaState::Executing && apu_cycle_type == APUCycleType::Put {
            let remaining = (s.samples_remaining - 1) as u16;
            (MemoryReader {
                current_address: if s.current_address == 0xFFFF { 0x8000 } else { (s.current_address + 1) as u16 },
                samples_remaining: remaining,
                start: if remaining == 0 { s.loop_enabled } else { s.start },
                irq_occurred: if remaining == 0 && !s.loop_enabled { s.irq_enabled } else { s.irq_occurred },
                marked_not_ready: false,
                dma_state: DmcDmaState::NoDma,
                ..s
            }, Some(byte), if s.marked_not_ready { true } else { rdy })
        } else {
            (s, None, rdy)
        }
    }

    pub open spec fn with_flag_bits(self, value: u8) -> MemoryReader {
        let irq_enabled = value & 0x80 != 0;
        MemoryReader {
            irq_enabled,
            irq_occurred: if !irq_enabled { false } else { self.irq_occurred },
            loop_enabled: value & 0x40 != 0,
            ..self
        }
    }

    pub open spec fn flag_bits(self) -> u8 {
        (if self.irq_enabled { 0x80u8 } else { 0u8 }) | (if self.loop_enabled { 0x40u8 } else { 0u8 })
    }

    pub fn new() -> (r: MemoryReader)
        ensures
            r == MemoryReader::new_spec(),
    {
        MemoryReader {
            irq_enabled: false,
            irq_occurred: false,
            loop_enabled: false,
            samples_remaining: 0,
            sample_address: 0xC000,
            current_address: 0xC000,
            sample_length: 1,
            start: false,
            dma_state: DmcDmaState::NoDma,
            marked_not_ready: false,
        }
    }

    pub fn manage_dma(
        &mut self,
        cpu_cycle_type: CPUCycleType,
        apu_cycle_type: APUCycleType,
        cpu: &mut CPU,
        sample: &mut Option<u8>,
    )
        requires
            old(cpu).wf(),
            old(self).dma_ok(),
            *old(sample) is None,
        ensures
            final(cpu).wf(),
            final(cpu).state() == if old(self).dma_reads(cpu_cycle_type, apu_cycle_type, old(cpu).rdy) {
                old(cpu).state().touch(old(self).fetch_address())
            } else {
                old(cpu).state()
            },
            final(cpu).control() == (CpuControl { rdy: final(cpu).rdy, ..old(cpu).control() }),
            (*final(self), *final(sample), final(cpu).rdy) == old(self).dma_step(
                cpu_cycle_type, apu_cycle_type, old(cpu).rdy, old(cpu).state().rd(old(self).fetch_address())),
    {
        if self.start {
            self.start = false;
            self.current_address = self.sample_address;
            self.samples_remaining = self.sample_length;
        }

        if self.samples_remaining != 0 && cpu_cycle_type == CPUCycleType::Read && self.dma_state == DmcDmaState::NoDma {
            self.dma_state = if cpu.is_rdy() {
                DmcDmaState::Requested
            } else {
                DmcDmaState::Executing
            }
        }
        if self.dma_state == DmcDmaState::Requested && cpu_cycle_type == CPUCycleType::Read {
            cpu.set_rdy(false);
            self.marked_not_ready = true;
            self.dma_state = DmcDmaState::Executing;
        } else if self.dma_state == DmcDmaState::Executing && apu_cycle_type == APUCycleType::Put {
            let sample_buffer = cpu.read_bus_byte(self.current_address);
            if self.current_address == 0xFFFF {
                self.current_address = 0x8000
            } else {
                self.current_address = self.current_address + 1;
            }
            *sample = Some(sample_buffer);
            self.samples_remaining = self.samples_remaining - 1;
            if self.samples_remaining == 0 {
                self.start = self.loop_enabled;
                if !self.loop_enabled {
                    self.irq_occurred = self.irq_enabled;
                }
            }
            if self.marked_not_ready {
                cpu.set_rdy(true);
                self.marked_not_ready = false;
            }
            self.dma_state = DmcDmaState::NoDma;
        }
    }

    pub fn load_flag_bits(&mut self, value: u8)
        ensures
            *final(self) == old(self).with_flag_bits(value),
    {
        self.irq_enabled = value & 0b10000000 != 0;
        if !self.irq_enabled {
            self.irq_occurred = false;
        }
        self.loop_enabled = value & 0b01000000 != 0;
    }

    pub fn read_flag_bits(&self) -> (r: u8)
        ensures
            r == self.flag_bits(),
    {
        (if self.irq_enabled { 0b10000000 } else { 0 }) | (if self.loop_enabled { 0b01000000 } else { 0 })
    }

    pub fn load_sample_length_bits(&mut self, value: u8)
        ensures
            *final(self) == (MemoryReader { sample_length: (((value as u16) << 4u16) + 1) as u16, ..*old(self) }),
    {
        let shifted = (value as u16) << 4;
        assert(((value as u16) << 4u16) <= 0x0FF0) by (bit_vector);
        self.sample_length = shifted + 1
    }

    pub fn read_sample_length_bits(&self) -> (r: u8)
        ensures
            r == (self.sample_length >> 4u16) as u8,
    {
        (self.sample_length >> 4) as u8
    }

    pub fn load_sample_addres_bits(&mut self, value: u8)
        ensures
            *final(self) == (MemoryReader { sample_address: 0xC000 | ((value as u16) << 6u16), ..*old(self) }),
    {
        self.sample_address = 0b1100000000000000 | ((value as u16) << 6);
    }

    pub fn read_sample_address_bits(&self) -> (r: u8)
        ensures
            r == (self.sample_address >> 6u16) as u8,
    {
        (self.sample_address >> 6) as u8
    }
}

} // verus!

pub mod channels;

use vstd::prelude::*;

use crate::bus::{BusDevice, InterruptFlags};
use crate::cpu::{CPU, CPUCycleType, CpuControl, CpuState};
use crate::nes::apu::channels::{Channel, FrequencyTimer, LengthCounter};
use crate::nes::apu::channels::dmc::{MemoryReader, OutputUnit};
use crate::nes::apu::channels::dmc::DMCChannel;
use crate::nes::apu::channels::noise::NoiseChannel;
use crate::nes::apu::channels::pulse::PulseChannel;
use crate::nes::apu::channels::triangle::TriangleChannel;

verus! {

broadcast use crate::bus::group_touch;


/// The bits of the APU status register (0x4015).
pub struct SoundEnableFlags;

impl SoundEnableFlags {
    pub const DMCInterrupt: u8 = 0b10000000;
    pub const FrameInterrupt: u8 = 0b01000000;

    pub const DMC: u8 = 0b00010000;
    pub const Noise: u8 = 0b00001000;
    pub const Triangle: u8 = 0b00000100;
    pub const Pulse2: u8 = 0b00000010;
    pub const Pulse1: u8 = 0b00000001;
}

} // verus!

verus! {

/// The two halves of an APU cycle.
#[derive(Clone, Copy, PartialEq, Eq, Debug, Structural)]
pub enum APUCycleType {
    Get,
    Put,
}

impl APUCycleType {
    pub open spec fn flipped(self) -> APUCycleType {
        match self {
            APUCycleType::Get => APUCycleType::Put,
            APUCycleType::Put => APUCycleType::Get,
        }
    }

    /// The other half.
    pub fn not(self) -> (r: APUCycleType)
        ensures
            r == self.flipped(),
    {
        match self {
            APUCycleType::Get => APUCycleType::Put,
            APUCycleType::Put => APUCycleType::Get,
        }
    }
}

} // verus!

verus! {

/// The bits of the frame counter control register (0x4017).
pub struct FrameCounterFlags;

impl FrameCounterFlags {
    pub const FiveStepMode: u8 = 0b10000000;
    pub const IRQInhibit: u8 = 0b01000000;
}

pub const RANGE_START: u16 = 0x4000;
pub const RANGE_END: u16 = 0x401F;
pub const ADDR_MASK: u16 = 0x401F;

/// The states of a sprite DMA transfer.
#[derive(Clone, Copy, PartialEq, Eq, Debug, Structural)]
pub enum OamDmaState {
    NoDma,
    Requested,
    Ready,
    Executing(u8),
}

/// What the sprite DMA unit in `state` does to the CPU's memory on an APU cycle of half
/// `half`: a get cycle of a transfer reads the next byte of page `page`, and a put cycle
/// writes the byte it holds to 0x2004.
pub open spec fn oam_dma_written(state: OamDmaState, half: APUCycleType, data: u8, page: u8, s: CpuState) -> CpuState {
    match state {
        OamDmaState::Ready => if half == APUCycleType::Get { s.touch(((page as u16) << 8u16) | 0u16) } else { s },
        OamDmaState::Executing(offset) => if half == APUCycleType::Put {
            s.wr(0x2004, data)
        } else {
            s.touch(((page as u16) << 8u16) | (offset as u16))
        },
        _ => s,
    }
}

/// The sprite DMA unit's state and data byte after its turn on an APU cycle of half
/// `half`, reading from the CPU's memory `s`: a request waits for a CPU read cycle, then
/// each get cycle reads the next byte of page `page` and each put cycle (which writes
/// it to 0x2004) moves on, until the 256th put ends the transfer.
pub open spec fn oam_dma_stepped(state: OamDmaState, half: APUCycleType, cpu_cycle_type: CPUCycleType, page: u8,
    data: u8, s: CpuState) -> (OamDmaState, u8) {
    match state {
        OamDmaState::NoDma => (OamDmaState::NoDma, data),
        OamDmaState::Requested => (if cpu_cycle_type == CPUCycleType::Read { OamDmaState::Ready } else { OamDmaState::Requested }, data),
        OamDmaState::Ready => if half == APUCycleType::Get {
            (OamDmaState::Executing(0), s.rd(((page as u16) << 8u16) | 0u16))
        } else {
            (OamDmaState::Ready, data)
        },
        OamDmaState::Executing(offset) => if half == APUCycleType::Get {
            (OamDmaState::Executing(offset), s.rd(((page as u16) << 8u16) | (offset as u16)))
        } else {
            (if offset == 255 { OamDmaState::NoDma } else { OamDmaState::Executing((offset + 1) as u8) }, data)
        },
    }
}

/// The CPU's ready line after the sprite DMA unit's turn: a request halts the CPU on a
/// read cycle, and the last put of a transfer releases it.
pub open spec fn oam_dma_rdy(state: OamDmaState, half: APUCycleType, cpu_cycle_type: CPUCycleType, rdy: bool) -> bool {
    match state {
        OamDmaState::Requested => if cpu_cycle_type == CPUCycleType::Read { false } else { rdy },
        OamDmaState::Executing(offset) => if half == APUCycleType::Put && offset == 255 { true } else { rdy },
        _ => rdy,
    }
}

#[derive(Clone, Copy, PartialEq, Eq, Debug, Structural)]
pub enum FrameCounterResetState {
    Idle,
    WaitingToReset(u8),
}

/// The APU stays silent after power-on until a channel is enabled, and then for 2048
/// more cycles.
#[derive(Clone, Copy, PartialEq, Eq, Debug, Structural)]
pub enum ResettingState {
    WaitingForEnable,
    CountingDown(u16),
    Ready,
}

/// The audio processing unit with the controller ports and the sprite DMA unit that
/// share its address range.
#[derive(Clone, Copy, Debug)]
pub struct APU {
    pub resetting_state: ResettingState,

    pub cycle_type: APUCycleType,
    pub last_read: u8,

    pub frame_counter: u16,
    pub frame_counter_reset_state: FrameCounterResetState,

    pub oam_dma_state: OamDmaState,
    pub oam_dma_data: u8,

    pub input_port1: u8,
    pub input_port2: u8,

    pub input_port_ctrl: u8,
    pub oam_dma_page: u8,
    pub input_register1: u8,
    pub input_register2: u8,
    pub sound_enable_register_high: u8,
    pub frame_counter_control: u8,
    pub pulse_channel1: PulseChannel,
    pub pulse_channel2: PulseChannel,
    pub triangle_channel: TriangleChannel,
    pub noise_channel: NoiseChannel,
    pub dmc_channel: DMCChannel,
}

/// `flags` with `bit` set or cleared.
pub open spec fn with_flag(flags: u8, bit: u8, value: bool) -> u8 {
    if value { flags | bit } else { flags & !bit }
}

impl APU {
    pub open spec fn wf(self) -> bool {
        &&& self.pulse_channel1.wf()
        &&& self.pulse_channel2.wf()
        &&& self.triangle_channel.wf()
        &&& self.noise_channel.wf()
        &&& self.dmc_channel.wf()
        &&& !self.pulse_channel1.sweep.twos_complement
        &&& self.pulse_channel2.sweep.twos_complement
    }

    /// The frame interrupt flag set to `value`, unless interrupts are inhibited.
    pub open spec fn frame_interrupt_set(self, value: bool) -> APU {
        APU {
            sound_enable_register_high: with_flag(self.sound_enable_register_high, SoundEnableFlags::FrameInterrupt,
                value && self.frame_counter_control & FrameCounterFlags::IRQInhibit == 0),
            ..self
        }
    }

    /// Every channel given a quarter-frame clock.
    pub open spec fn quarter_clocked(self) -> APU {
        APU {
            pulse_channel1: PulseChannel { envelope: self.pulse_channel1.envelope.clocked(), ..self.pulse_channel1 },
            pulse_channel2: PulseChannel { envelope: self.pulse_channel2.envelope.clocked(), ..self.pulse_channel2 },
            triangle_channel: TriangleChannel { linear_counter: self.triangle_channel.linear_counter.clocked(), ..self.triangle_channel },
            noise_channel: NoiseChannel { envelope: self.noise_channel.envelope.clocked(), ..self.noise_channel },
            ..self
        }
    }

    /// Every channel given a half-frame clock.
    pub open spec fn half_clocked(self) -> APU {
        APU {
            pulse_channel1: pulse_half_clocked(self.pulse_channel1),
            pulse_channel2: pulse_half_clocked(self.pulse_channel2),
            triangle_channel: TriangleChannel { length_counter: self.triangle_channel.length_counter.clocked(), ..self.triangle_channel },
            noise_channel: NoiseChannel { length_counter: self.noise_channel.length_counter.clocked(), ..self.noise_channel },
            ..self
        }
    }

    pub open spec fn five_step(self) -> bool {
        self.frame_counter_control & FrameCounterFlags::FiveStepMode != 0
    }

    /// What the frame sequencer does at a count: quarter and half frame clocks at
    /// 7457, 14913, 22371 and the end of the sequence; in four-step mode the frame
    /// interrupt at 29828-29830 and the wrap after 29830, in five-step mode the wrap
    /// after 37282.
    #[verifier::opaque]
    pub open spec fn sequenced(self) -> APU {
        let c = self.frame_counter;
        if !self.five_step() {
            if c == 7457 { self.quarter_clocked() }
            else if c == 14913 { self.quarter_clocked().half_clocked() }
            else if c == 22371 { self.quarter_clocked() }
            else if c == 29828 { self.frame_interrupt_set(true) }
            else if c == 29829 { self.frame_interrupt_set(true).quarter_clocked().half_clocked() }
            else if c == 29830 { APU { frame_counter: 0, ..self.frame_interrupt_set(true) } }
            else { self }
        } else {
            if c == 7457 { self.quarter_clocked() }
            else if c == 14913 { self.quarter_clocked().half_clocked() }
            else if c == 22371 { self.quarter_clocked() }
            else if c == 37281 { self.quarter_clocked().half_clocked() }
            else if c == 37282 { APU { frame_counter: 0, ..self } }
            else { self }
        }
    }

    /// One step of the frame counter: a pending reset counts down and then zeroes the
    /// count (clocking the channels in five-step mode); otherwise the count goes up;
    /// then the sequencer acts on the count.
    #[verifier::opaque]
    pub open spec fn frame_counted(self) -> APU {
        let s = match self.frame_counter_reset_state {
            FrameCounterResetState::WaitingToReset(n) => if n == 0 {
                let z = APU { frame_counter: 0, ..self };
                let z = if z.five_step() { z.half_clocked().quarter_clocked() } else { z };
                APU { frame_counter_reset_state: FrameCounterResetState::Idle, ..z }
            } else {
                APU {
                    frame_counter_reset_state: FrameCounterResetState::WaitingToReset((n - 1) as u8),
                    frame_counter: (self.frame_counter + 1) as u16,
                    ..self
                }
            },
            FrameCounterResetState::Idle => APU { frame_counter: (self.frame_counter + 1) as u16, ..self },
        };
        s.sequenced()
    }

    /// The frame counter and its reset state after one step of the frame counter.
    pub open spec fn counter_step(self) -> (u16, FrameCounterResetState) {
        let (c, st) = match self.frame_counter_reset_state {
            FrameCounterResetState::WaitingToReset(n) => if n == 0 {
                (0u16, FrameCounterResetState::Idle)
            } else {
                ((self.frame_counter + 1) as u16, FrameCounterResetState::WaitingToReset((n - 1) as u8))
            },
            FrameCounterResetState::Idle => ((self.frame_counter + 1) as u16, FrameCounterResetState::Idle),
        };
        let wraps = if self.five_step() { c == 37282 } else { c == 29830 };
        (if wraps { 0u16 } else { c }, st)
    }

    /// The controller shift registers reload from the ports while the strobe bit is set.
    pub open spec fn ports_loaded(self) -> APU {
        if self.input_port_ctrl & 1 != 0 {
            APU { input_register1: self.input_port1, input_register2: self.input_port2, ..self }
        } else {
            self
        }
    }

    /// The status bits of the channels that are playing.
    pub open spec fn channel_status(self) -> u8 {
        (if self.pulse_channel1.enabled && self.pulse_channel1.length_counter.value != 0 { SoundEnableFlags::Pulse1 } else { 0u8 })
            | (if self.pulse_channel2.enabled && self.pulse_channel2.length_counter.value != 0 { SoundEnableFlags::Pulse2 } else { 0u8 })
            | (if self.triangle_channel.enabled && self.triangle_channel.length_counter.value != 0 { SoundEnableFlags::Triangle } else { 0u8 })
            | (if self.noise_channel.enabled && self.noise_channel.length_counter.value != 0 { SoundEnableFlags::Noise } else { 0u8 })
            | (if self.dmc_channel.memory_reader.samples_remaining != 0 { SoundEnableFlags::DMC } else { 0u8 })
    }

    /// The interrupt lines the APU raises: IRQ while a frame or DMC interrupt is pending.
    pub open spec fn lines(self) -> u8 {
        if self.sound_enable_register_high & (SoundEnableFlags::FrameInterrupt | SoundEnableFlags::DMCInterrupt) != 0 {
            InterruptFlags::IRQ
        } else {
            0
        }
    }

    /// The five channel levels as the channels now stand: pulse 1, pulse 2, triangle,
    /// noise and DMC.
    pub open spec fn levels(self) -> [u8; 5] {
        [
            self.pulse_channel1.level(),
            self.pulse_channel2.level(),
            if self.triangle_channel.enabled && self.triangle_channel.gates_open() { self.triangle_channel.sequencer.output } else { 0 },
            if self.noise_channel.enabled && self.noise_channel.sequencer.shift_register & 1 == 0 && self.noise_channel.length_counter.value != 0 {
                self.noise_channel.envelope.output
            } else {
                0
            },
            self.dmc_channel.output_unit.output,
        ]
    }

    pub open spec fn power_on() -> APU {
        APU {
            resetting_state: ResettingState::WaitingForEnable,
            cycle_type: APUCycleType::Put,
            last_read: 0xFF,

            frame_counter: 15,
            frame_counter_reset_state: FrameCounterResetState::Idle,

            oam_dma_state: OamDmaState::NoDma,
            oam_dma_data: 0,

            input_port1: 0,
            input_port2: 0,

            oam_dma_page: 0xFF,
            input_port_ctrl: 0xFF,
            input_register1: 0xFF,
            input_register2: 0xFF,
            sound_enable_register_high: 0,
            frame_counter_control: 0,
            pulse_channel1: PulseChannel::new_spec(false),
            pulse_channel2: PulseChannel::new_spec(true),
            triangle_channel: TriangleChannel::new_spec(),
            noise_channel: NoiseChannel::new_spec(),
            dmc_channel: DMCChannel::new_spec(),
        }
    }
}

/// A pulse channel given a half-frame clock: its sweep moves the period and its
/// length counter counts.
pub open spec fn pulse_half_clocked(c: PulseChannel) -> PulseChannel {
    let (period, sweep) = c.sweep.clocked(c.frequency_timer.period);
    PulseChannel {
        frequency_timer: FrequencyTimer { period, ..c.frequency_timer },
        sweep,
        length_counter: c.length_counter.clocked(),
        ..c
    }
}

} // verus!

verus! {

impl APU {
    pub fn new() -> (r: APU)
        ensures
            r.wf(),
            r == APU::power_on(),
    {
        APU {
            resetting_state: ResettingState::WaitingForEnable,
            cycle_type: APUCycleType::Put,
            last_read: 0xFF,

            frame_counter: 15,
            frame_counter_reset_state: FrameCounterResetState::Idle,

            oam_dma_state: OamDmaState::NoDma,
            oam_dma_data: 0,

            input_port1: 0,
            input_port2: 0,

            oam_dma_page: 0xFF,
            input_port_ctrl: 0xFF,
            input_register1: 0xFF,
            input_register2: 0xFF,
            sound_enable_register_high: 0,
            frame_counter_control: 0,
            pulse_channel1: PulseChannel::new(false),
            pulse_channel2: PulseChannel::new(true),
            triangle_channel: TriangleChannel::new(),
            noise_channel: NoiseChannel::new(),
            dmc_channel: DMCChannel::new(),
        }
    }

    /// The CPU's memory after an APU cycle from this APU, with the CPU's ready line at
    /// `rdy` on a CPU cycle of type `cpu_cycle_type`: the sprite DMA unit's access, then,
    /// once the APU is running, the DMC's sample fetch.
    pub open spec fn cpu_after(self, cpu_cycle_type: CPUCycleType, rdy: bool, s: CpuState) -> CpuState {
        let half = self.cycle_type.flipped();
        let dma_cpu = oam_dma_written(self.oam_dma_state, half, self.oam_dma_data, self.oam_dma_page, s);
        let dma_rdy = oam_dma_rdy(self.oam_dma_state, half, cpu_cycle_type, rdy);
        if self.resetting_state == ResettingState::Ready {
            self.dmc_channel.dma_touched(cpu_cycle_type, half, dma_rdy, dma_cpu)
        } else {
            dma_cpu
        }
    }

    /// One APU cycle as `clock` performs it: from this APU, with the CPU in state `cpu` and
    /// its ready line at `rdy`, on a CPU cycle of type `cpu_cycle_type`, to the APU `after`,
    /// leaving the ready line at `rdy_after` and returning `r`.
    pub open spec fn clocked(self, cpu: CpuState, rdy: bool, cpu_cycle_type: CPUCycleType, after: APU, rdy_after: bool,
        r: Option<[u8; 5]>) -> bool {
        &&& (self.resetting_state != ResettingState::Ready || self.dmc_channel.output_unit.sample_buffer is Some)
            ==> rdy_after == oam_dma_rdy(self.oam_dma_state, self.cycle_type.flipped(), cpu_cycle_type, rdy)
        &&& after.cycle_type == self.cycle_type.flipped()
        &&& (after.frame_counter, after.frame_counter_reset_state) == self.counter_step()
        &&& after.input_register1 == self.ports_loaded().input_register1
        &&& after.input_register2 == self.ports_loaded().input_register2
        &&& (r is Some) == (self.resetting_state == ResettingState::Ready)
        &&& r is Some ==> r == Some(after.levels())
        &&& after.resetting_state == match self.resetting_state {
            ResettingState::CountingDown(n) => if n == 0 { ResettingState::Ready } else { ResettingState::CountingDown((n - 1) as u16) },
            s => s,
        }
        &&& (after.oam_dma_state, after.oam_dma_data) == oam_dma_stepped(self.oam_dma_state,
            self.cycle_type.flipped(), cpu_cycle_type, self.oam_dma_page, self.oam_dma_data, cpu)
        &&& after.oam_dma_page == self.oam_dma_page
        &&& self.resetting_state == ResettingState::Ready ==> {
            let f = self.frame_counted();
            let get = self.cycle_type.flipped() == APUCycleType::Get;
            let dma_cpu = oam_dma_written(self.oam_dma_state, self.cycle_type.flipped(), self.oam_dma_data, self.oam_dma_page, cpu);
            let dma_rdy = oam_dma_rdy(self.oam_dma_state, self.cycle_type.flipped(), cpu_cycle_type, rdy);
            &&& after.pulse_channel1 == f.pulse_channel1.ticked(get)
            &&& after.pulse_channel2 == f.pulse_channel2.ticked(get)
            &&& after.triangle_channel == f.triangle_channel.ticked(get)
            &&& after.noise_channel == f.noise_channel.ticked(get)
            &&& after.dmc_channel == (APU { cycle_type: self.cycle_type.flipped(), ..self })
                .dmc_fetched(cpu_cycle_type, dma_rdy, dma_cpu).ticked(get)
            &&& self.dmc_channel.output_unit.sample_buffer is None ==> rdy_after == self.dmc_channel.memory_reader.dma_step(
                cpu_cycle_type, self.cycle_type.flipped(), dma_rdy, dma_cpu.rd(self.dmc_channel.memory_reader.fetch_address())).2
        }
        &&& self.resetting_state != ResettingState::Ready ==> {
            let f = self.frame_counted();
            &&& after.pulse_channel1 == f.pulse_channel1
            &&& after.pulse_channel2 == f.pulse_channel2
            &&& after.triangle_channel == f.triangle_channel
            &&& after.noise_channel == f.noise_channel
            &&& after.dmc_channel == self.dmc_channel
            &&& after.sound_enable_register_high == f.sound_enable_register_high
        }
    }

    /// One APU cycle: the cycle half flips, the controller ports and the sprite DMA
    /// unit get their turn, the frame counter steps; once the APU is running the DMC
    /// fetches and every channel is clocked, and their five levels are returned.
    #[verifier::rlimit(80)]
    pub fn clock(&mut self, cpu: &mut CPU, cpu_cycle_type: CPUCycleType) -> (r: Option<[u8; 5]>)
        requires
            old(self).wf(),
            old(cpu).wf(),
            old(self).frame_counter < u16::MAX,
            old(self).dmc_channel.dma_ok(),
        ensures
            final(self).wf(),
            final(cpu).wf(),
            final(cpu).control() == (CpuControl { rdy: final(cpu).rdy, ..old(cpu).control() }),
            final(cpu).state() == old(self).cpu_after(cpu_cycle_type, old(cpu).rdy, old(cpu).state()),
            old(self).clocked(old(cpu).state(), old(cpu).rdy, cpu_cycle_type, *final(self), final(cpu).rdy, r),
    {
        self.cycle_type = self.cycle_type.not();

        self.manage_input_ports();

        self.manage_oam_dma(cpu, cpu_cycle_type);
        let ghost mid = *self;
        self.manage_frame_counter();
        proof { lemma_frame_counted_channels(*old(self), mid); }
        let ghost counted = *self;
        assert(counted.dmc_channel == old(self).dmc_channel);
        assert(counted.cycle_type == old(self).cycle_type.flipped());

        match self.resetting_state {
            ResettingState::Ready => Some(self.run_channels(cpu, cpu_cycle_type)),
            ResettingState::CountingDown(n) => {
                if n == 0 {
                    self.resetting_state = ResettingState::Ready;
                } else {
                    self.resetting_state = ResettingState::CountingDown(n - 1);
                }
                None
            },
            ResettingState::WaitingForEnable => None,
        }
    }

    /// The DMC channel after its memory reader's turn, with the CPU's ready line `rdy`
    /// and memory `s`: while its sample buffer is empty the reader runs its DMA step.
    pub open spec fn dmc_fetched(self, cpu_cycle_type: CPUCycleType, rdy: bool, s: CpuState) -> DMCChannel {
        let d = self.dmc_channel;
        if d.output_unit.sample_buffer is Some {
            d
        } else {
            let (reader, sample, _r) = d.memory_reader.dma_step(cpu_cycle_type, self.cycle_type, rdy, s.rd(d.memory_reader.fetch_address()));
            DMCChannel { memory_reader: reader, output_unit: OutputUnit { sample_buffer: sample, ..d.output_unit }, ..d }
        }
    }

    /// The DMC fetches, its interrupt is reported, and every channel is clocked; returns
    /// the five output levels.
    fn run_channels(&mut self, cpu: &mut CPU, cpu_cycle_type: CPUCycleType) -> (r: [u8; 5])
        requires
            old(self).wf(),
            old(cpu).wf(),
            old(self).dmc_channel.dma_ok(),
        ensures
            final(self).wf(),
            final(cpu).wf(),
            final(cpu).control() == (CpuControl { rdy: final(cpu).rdy, ..old(cpu).control() }),
            final(cpu).state() == old(self).dmc_channel.dma_touched(cpu_cycle_type, old(self).cycle_type, old(cpu).rdy, old(cpu).state()),
            old(self).dmc_channel.output_unit.sample_buffer is Some ==> final(cpu).rdy == old(cpu).rdy,
            old(self).dmc_channel.output_unit.sample_buffer is None ==> final(cpu).rdy == old(self).dmc_channel.memory_reader.dma_step(
                cpu_cycle_type, old(self).cycle_type, old(cpu).rdy, old(cpu).state().rd(old(self).dmc_channel.memory_reader.fetch_address())).2,
            final(self).oam_dma_state == old(self).oam_dma_state,
            final(self).oam_dma_data == old(self).oam_dma_data,
            final(self).oam_dma_page == old(self).oam_dma_page,
            final(self).pulse_channel1 == old(self).pulse_channel1.ticked(old(self).cycle_type == APUCycleType::Get),
            final(self).pulse_channel2 == old(self).pulse_channel2.ticked(old(self).cycle_type == APUCycleType::Get),
            final(self).triangle_channel == old(self).triangle_channel.ticked(old(self).cycle_type == APUCycleType::Get),
            final(self).noise_channel == old(self).noise_channel.ticked(old(self).cycle_type == APUCycleType::Get),
            final(self).dmc_channel == old(self).dmc_fetched(cpu_cycle_type, old(cpu).rdy, old(cpu).state()).ticked(old(self).cycle_type == APUCycleType::Get),
            final(self).cycle_type == old(self).cycle_type,
            final(self).frame_counter == old(self).frame_counter,
            final(self).frame_counter_reset_state == old(self).frame_counter_reset_state,
            final(self).resetting_state == old(self).resetting_state,
            final(self).input_register1 == old(self).input_register1,
            final(self).input_register2 == old(self).input_register2,
            final(self).sound_enable_register_high == with_flag(old(self).sound_enable_register_high,
                SoundEnableFlags::DMCInterrupt, final(self).dmc_channel.memory_reader.irq_occurred),
            r == final(self).levels(),
    {
        let read_cycle = self.cycle_type == APUCycleType::Get;
        self.dmc_channel.manage_dma(cpu_cycle_type, self.cycle_type, cpu);
        self.sound_enable_register_high = if self.dmc_channel.memory_reader.irq_occurred {
            self.sound_enable_register_high | SoundEnableFlags::DMCInterrupt
        } else {
            self.sound_enable_register_high & !SoundEnableFlags::DMCInterrupt
        };
        let p1 = self.pulse_channel1.clock(read_cycle);
        let p2 = self.pulse_channel2.clock(read_cycle);
        let t = self.triangle_channel.clock(read_cycle);
        let n = self.noise_channel.clock(read_cycle);
        let d = self.dmc_channel.clock(read_cycle);
        [p1, p2, t, n, d]
    }

    /// Back to the power-on state, except for the frame counter, its mode and the cycle
    /// half, which a reset leaves alone.
    pub fn reset(&mut self)
        ensures
            final(self).wf(),
            *final(self) == (APU {
                frame_counter: old(self).frame_counter,
                frame_counter_reset_state: old(self).frame_counter_reset_state,
                frame_counter_control: old(self).frame_counter_control,
                cycle_type: old(self).cycle_type,
                last_read: 0,
                ..APU::power_on()
            }),
    {
        self.resetting_state = ResettingState::WaitingForEnable;
        self.oam_dma_state = OamDmaState::NoDma;
        self.oam_dma_data = 0;
        self.input_port1 = 0;
        self.input_port2 = 0;
        self.last_read = 0;

        self.oam_dma_page = 0xFF;
        self.input_port_ctrl = 0xFF;
        self.input_register1 = 0xFF;
        self.input_register2 = 0xFF;
        self.sound_enable_register_high = 0;

        self.pulse_channel1 = PulseChannel::new(false);
        self.pulse_channel2 = PulseChannel::new(true);
        self.triangle_channel = TriangleChannel::new();
        self.noise_channel = NoiseChannel::new();
        self.dmc_channel = DMCChannel::new();
    }

    /// Checks that the APU is consistent and its next clock is one it can take.
    pub fn clock_ready(&self) -> (r: bool)
        ensures
            r == (self.wf() && self.frame_counter < u16::MAX && self.dmc_channel.dma_ok()),
    {
        let reader = &self.dmc_channel.memory_reader;
        let executing = match reader.dma_state {
            crate::nes::apu::channels::dmc::DmcDmaState::Executing => true,
            _ => false,
        };
        let remaining = if reader.start { reader.sample_length } else { reader.samples_remaining };
        let dma_ok = self.dmc_channel.output_unit.sample_buffer.is_some() || !executing || remaining > 0;
        let p1 = &self.pulse_channel1;
        let p2 = &self.pulse_channel2;
        let tr = &self.triangle_channel;
        let no = &self.noise_channel;
        let out = &self.dmc_channel.output_unit;
        p1.sweep.shift_count < 8 && p1.sequencer.position < 8 && p1.length_counter.period_index < 32
            && p2.sweep.shift_count < 8 && p2.sequencer.position < 8 && p2.length_counter.period_index < 32
            && tr.length_counter.period_index < 32 && tr.sequencer.output <= 15
            && no.length_counter.period_index < 32 && no.sequencer.period_index < 16
            && 1 <= out.bits_remaining && out.bits_remaining <= 8 && out.output <= 127
            && !p1.sweep.twos_complement && p2.sweep.twos_complement
            && self.frame_counter < u16::MAX
            && dma_ok
    }

    pub fn set_input_port1(&mut self, value: u8)
        ensures
            *final(self) == (APU { input_port1: value, ..*old(self) }),
    {
        self.input_port1 = value;
    }

    pub fn set_input_port2(&mut self, value: u8)
        ensures
            *final(self) == (APU { input_port2: value, ..*old(self) }),
    {
        self.input_port2 = value;
    }

    /// The sprite DMA unit: a request stalls the CPU on its next read cycle, then 256
    /// get/put pairs copy page `oam_dma_page` to the PPU's OAM data port, and the CPU
    /// runs again.
    fn manage_oam_dma(&mut self, cpu: &mut CPU, cpu_cycle_type: CPUCycleType)
        requires
            old(cpu).wf(),
        ensures
            final(cpu).wf(),
            final(cpu).control() == (CpuControl { rdy: final(cpu).rdy, ..old(cpu).control() }),
            *final(self) == (APU { oam_dma_state: final(self).oam_dma_state, oam_dma_data: final(self).oam_dma_data, ..*old(self) }),
            final(cpu).state() == oam_dma_written(old(self).oam_dma_state, old(self).cycle_type, old(self).oam_dma_data, old(self).oam_dma_page, old(cpu).state()),
            final(cpu).rdy == oam_dma_rdy(old(self).oam_dma_state, old(self).cycle_type, cpu_cycle_type, old(cpu).rdy),
            (final(self).oam_dma_state, final(self).oam_dma_data) == oam_dma_stepped(old(self).oam_dma_state,
                old(self).cycle_type, cpu_cycle_type, old(self).oam_dma_page, old(self).oam_dma_data, old(cpu).state()),
            match old(self).oam_dma_state {
                OamDmaState::NoDma => final(self).oam_dma_state == OamDmaState::NoDma && *final(cpu) == *old(cpu),
                OamDmaState::Requested => if cpu_cycle_type == CPUCycleType::Read {
                    &&& final(self).oam_dma_state == OamDmaState::Ready
                    &&& !final(cpu).rdy
                    &&& final(cpu).state() == old(cpu).state()
                } else {
                    final(self).oam_dma_state == OamDmaState::Requested && *final(cpu) == *old(cpu)
                },
                OamDmaState::Ready => if old(self).cycle_type == APUCycleType::Get {
                    &&& final(self).oam_dma_state == OamDmaState::Executing(0)
                    &&& final(self).oam_dma_data == old(cpu).state().rd(((old(self).oam_dma_page as u16) << 8u16) | 0u16)
                    &&& final(cpu).state() == old(cpu).state().touch(((old(self).oam_dma_page as u16) << 8u16) | 0u16)
                } else {
                    final(self).oam_dma_state == OamDmaState::Ready && *final(cpu) == *old(cpu)
                },
                OamDmaState::Executing(offset) => if old(self).cycle_type == APUCycleType::Get {
                    &&& final(self).oam_dma_state == OamDmaState::Executing(offset)
                    &&& final(self).oam_dma_data == old(cpu).state().rd(((old(self).oam_dma_page as u16) << 8u16) | (offset as u16))
                    &&& final(cpu).state() == old(cpu).state().touch(((old(self).oam_dma_page as u16) << 8u16) | (offset as u16))
                } else {
                    &&& final(self).oam_dma_state == if offset == 255 { OamDmaState::NoDma } else { OamDmaState::Executing((offset + 1) as u8) }
                    &&& offset == 255 ==> final(cpu).rdy
                    &&& final(cpu).state() == old(cpu).state().wr(0x2004, old(self).oam_dma_data)
                },
            },
    {
        match self.oam_dma_state {
            OamDmaState::NoDma => {},
            OamDmaState::Requested => {
                if cpu_cycle_type == CPUCycleType::Read {
                    cpu.set_rdy(false);
                    self.oam_dma_state = OamDmaState::Ready;
                }
            },
            OamDmaState::Ready => {
                if self.cycle_type == APUCycleType::Get {
                    self.read_oam_dma(cpu, 0);
                    self.oam_dma_state = OamDmaState::Executing(0);
                }
            },
            OamDmaState::Executing(offset) => {
                if self.cycle_type == APUCycleType::Get {
                    self.read_oam_dma(cpu, offset as u16);
                } else {
                    self.write_oam_dma(cpu);
                    if offset == 255 {
                        cpu.set_rdy(true);
                        self.oam_dma_state = OamDmaState::NoDma;
                    } else {
                        self.oam_dma_state = OamDmaState::Executing(offset + 1);
                    }
                }
            },
        }
    }

    fn manage_frame_counter(&mut self)
        requires
            old(self).wf(),
            old(self).frame_counter < u16::MAX,
        ensures
            final(self).wf(),
            *final(self) == old(self).frame_counted(),
            (final(self).frame_counter, final(self).frame_counter_reset_state) == old(self).counter_step(),
            *final(self) == (APU {
                frame_counter: final(self).frame_counter,
                frame_counter_reset_state: final(self).frame_counter_reset_state,
                sound_enable_register_high: final(self).sound_enable_register_high,
                pulse_channel1: final(self).pulse_channel1,
                pulse_channel2: final(self).pulse_channel2,
                triangle_channel: final(self).triangle_channel,
                noise_channel: final(self).noise_channel,
                ..*old(self)
            }),
    {
        reveal(APU::frame_counted);
        reveal(APU::sequenced);
        match self.frame_counter_reset_state {
            FrameCounterResetState::WaitingToReset(n) => {
                if n == 0 {
                    self.frame_counter = 0;
                    if self.frame_counter_control & FrameCounterFlags::FiveStepMode != 0 {
                        self.clock_half_frame();
                        self.clock_quarter_frame();
                    }
                    self.frame_counter_reset_state = FrameCounterResetState::Idle
                } else {
                    self.frame_counter_reset_state = FrameCounterResetState::WaitingToReset(n - 1);
                    self.frame_counter = self.frame_counter + 1;
                }
            },
            FrameCounterResetState::Idle => {
                self.frame_counter = self.frame_counter + 1;
            },
        }
        self.sequence();
    }

    fn sequence(&mut self)
        requires
            old(self).wf(),
        ensures
            final(self).wf(),
            *final(self) == old(self).sequenced(),
    {
        reveal(APU::sequenced);
        if self.frame_counter_control & FrameCounterFlags::FiveStepMode == 0 {
            if self.frame_counter == 7457 {
                self.clock_quarter_frame();
            } else if self.frame_counter == 14913 {
                self.clock_quarter_frame();
                self.clock_half_frame();
            } else if self.frame_counter == 22371 {
                self.clock_quarter_frame();
            } else if self.frame_counter == 29828 {
                self.set_frame_interrupt(true);
            } else if self.frame_counter == 29829 {
                self.set_frame_interrupt(true);
                self.clock_quarter_frame();
                self.clock_half_frame();
            } else if self.frame_counter == 29830 {
                self.set_frame_interrupt(true);
                self.frame_counter = 0;
            }
        } else {
            if self.frame_counter == 7457 {
                self.clock_quarter_frame();
            } else if self.frame_counter == 14913 {
                self.clock_quarter_frame();
                self.clock_half_frame();
            } else if self.frame_counter == 22371 {
                self.clock_quarter_frame();
            } else if self.frame_counter == 37281 {
                self.clock_quarter_frame();
                self.clock_half_frame();
            } else if self.frame_counter == 37282 {
                self.frame_counter = 0;
            }
        }
    }

    fn set_frame_interrupt(&mut self, value: bool)
        ensures
            *final(self) == old(self).frame_interrupt_set(value),
    {
        let set = value && self.frame_counter_control & FrameCounterFlags::IRQInhibit == 0;
        self.sound_enable_register_high = if set {
            self.sound_enable_register_high | SoundEnableFlags::FrameInterrupt
        } else {
            self.sound_enable_register_high & !SoundEnableFlags::FrameInterrupt
        };
    }

    fn clock_half_frame(&mut self)
        requires
            old(self).wf(),
        ensures
            final(self).wf(),
            *final(self) == old(self).half_clocked(),
    {
        self.pulse_channel1.half_frame_clock();
        self.pulse_channel2.half_frame_clock();
        self.triangle_channel.half_frame_clock();
        self.noise_channel.half_frame_clock();
        self.dmc_channel.half_frame_clock();
    }

    fn clock_quarter_frame(&mut self)
        requires
            old(self).wf(),
        ensures
            final(self).wf(),
            *final(self) == old(self).quarter_clocked(),
    {
        self.pulse_channel1.quarter_frame_clock();
        self.pulse_channel2.quarter_frame_clock();
        self.triangle_channel.quarter_frame_clock();
        self.noise_channel.quarter_frame_clock();
        self.dmc_channel.quarter_frame_clock();
    }

    fn read_oam_dma(&mut self, cpu: &mut CPU, offset: u16)
        requires
            old(cpu).wf(),
            offset < 256,
        ensures
            final(cpu).wf(),
            final(cpu).state() == old(cpu).state().touch(((old(self).oam_dma_page as u16) << 8u16) | offset),
            final(cpu).control() == old(cpu).control(),
            *final(self) == (APU {
                oam_dma_data: old(cpu).state().rd(((old(self).oam_dma_page as u16) << 8u16) | offset),
                ..*old(self)
            }),
    {
        let addr = ((self.oam_dma_page as u16) << 8) | offset;
        self.oam_dma_data = cpu.read_bus_byte(addr);
    }

    fn write_oam_dma(&self, cpu: &mut CPU)
        requires
            old(cpu).wf(),
        ensures
            final(cpu).wf(),
            final(cpu).state() == old(cpu).state().wr(0x2004, self.oam_dma_data),
            final(cpu).control() == old(cpu).control(),
    {
        cpu.write_bus_byte(0x2004, self.oam_dma_data);
    }

    fn manage_input_ports(&mut self)
        ensures
            *final(self) == old(self).ports_loaded(),
    {
        if self.input_port_ctrl & 0b00000001 != 0 {
            self.input_register1 = self.input_port1;
            self.input_register2 = self.input_port2;
        }
    }

    /// A controller read: bit 0 of the shift register; while the strobe is off the
    /// register shifts right with ones coming in.
    fn bus_read_input_register(&mut self, input_no: usize) -> (r: u8)
        requires
            input_no < 2,
        ensures
            ({
                let reg = if input_no == 0 { old(self).input_register1 } else { old(self).input_register2 };
                let shifted = if old(self).input_port_ctrl & 1 == 0 { (reg >> 1u8) | 0x80 } else { reg };
                &&& r == reg & 1
                &&& *final(self) == if input_no == 0 {
                    APU { input_register1: shifted, ..*old(self) }
                } else {
                    APU { input_register2: shifted, ..*old(self) }
                }
            }),
    {
        let reg = if input_no == 0 { self.input_register1 } else { self.input_register2 };
        let result = reg & 0b00000001;
        if self.input_port_ctrl & 0b00000001 == 0 {
            let shifted = (reg >> 1) | 0b10000000;
            if input_no == 0 {
                self.input_register1 = shifted;
            } else {
                self.input_register2 = shifted;
            }
        }
        result
    }

    /// The status register: the playing channels, the pending interrupts, and bit 5 of
    /// the last byte read.
    /// What a CPU read of `addr` (0x4000-0x401F) gives, without the read's side effects.
    pub fn register_view(&self, addr: u16) -> (r: u8)
        requires
            self.wf(),
        ensures
            r == self.register_read(addr).0,
    {
        if addr <= 0x4013 {
            self.last_read
        } else if addr == 0x4015 {
            self.read_status()
        } else if addr == 0x4016 {
            self.input_register1 & 1
        } else if addr == 0x4017 {
            self.input_register2 & 1
        } else {
            0xFF
        }
    }

    fn read_status(&self) -> (r: u8)
        requires
            self.wf(),
        ensures
            r == (self.channel_status() | self.sound_enable_register_high) | (self.last_read & 0x20),
    {
        let p1 = if self.pulse_channel1.get_enabled() { self.pulse_channel1.get_enabled_flag() } else { 0 };
        let p2 = if self.pulse_channel2.get_enabled() { self.pulse_channel2.get_enabled_flag() } else { 0 };
        let t = if self.triangle_channel.get_enabled() { self.triangle_channel.get_enabled_flag() } else { 0 };
        let n = if self.noise_channel.get_enabled() { self.noise_channel.get_enabled_flag() } else { 0 };
        let d = if self.dmc_channel.get_enabled() { self.dmc_channel.get_enabled_flag() } else { 0 };
        let status = p1 | p2 | t | n | d;
        (status | self.sound_enable_register_high) | (self.last_read & 0b00100000)
    }
}

} // verus!

verus! {

/// The APU answers its range at the addresses themselves.
pub proof fn lemma_apu_physical(addr: u16)
    requires
        RANGE_START <= addr <= RANGE_END,
    ensures
        addr & ADDR_MASK == addr,
{
    assert(0x4000 <= addr <= 0x401F ==> addr & 0x401F == addr) by (bit_vector);
}

impl APU {
    /// A read of a register: the byte and the APU after it.
    pub open spec fn register_read(self, addr: u16) -> (u8, APU) {
        if addr <= 0x4013 {
            (self.last_read, self)
        } else if addr == 0x4015 {
            ((self.channel_status() | self.sound_enable_register_high) | (self.last_read & 0x20), self.frame_interrupt_set(false))
        } else if addr == 0x4016 || addr == 0x4017 {
            let reg = if addr == 0x4016 { self.input_register1 } else { self.input_register2 };
            let shifted = if self.input_port_ctrl & 1 == 0 { (reg >> 1u8) | 0x80 } else { reg };
            let bit = reg & 1;
            (bit, if addr == 0x4016 {
                APU { input_register1: shifted, last_read: bit, ..self }
            } else {
                APU { input_register2: shifted, last_read: bit, ..self }
            })
        } else {
            (0xFF, self)
        }
    }

    /// The APU after `data` is written to a channel register (0x4000-0x4013).
    pub open spec fn channel_written(self, addr: u16, data: u8) -> APU {
        let n = (addr >> 2u16) & 7;
        let reg = (addr & 3) as u8;
        if n == 0 {
            APU { pulse_channel1: self.pulse_channel1.written(reg, data), ..self }
        } else if n == 1 {
            APU { pulse_channel2: self.pulse_channel2.written(reg, data), ..self }
        } else if n == 2 {
            APU { triangle_channel: self.triangle_channel.written(reg, data), ..self }
        } else if n == 3 {
            APU { noise_channel: self.noise_channel.written(reg, data), ..self }
        } else {
            APU { dmc_channel: self.dmc_channel.written(reg, data), ..self }
        }
    }

    /// The APU after `data` is written to the status register (0x4015): each channel is
    /// enabled by its bit, the first enable starts the power-on countdown, and the DMC
    /// interrupt clears.
    pub open spec fn status_written(self, data: u8) -> APU {
        let status = data & 0xDF;
        let p1 = self.pulse_channel1;
        let p2 = self.pulse_channel2;
        let t = self.triangle_channel;
        let n = self.noise_channel;
        let d = self.dmc_channel;
        let on1 = status & SoundEnableFlags::Pulse1 != 0;
        let on2 = status & SoundEnableFlags::Pulse2 != 0;
        let ont = status & SoundEnableFlags::Triangle != 0;
        let onn = status & SoundEnableFlags::Noise != 0;
        let ond = status & SoundEnableFlags::DMC != 0;
        let reader = if !ond {
            MemoryReader { samples_remaining: 0, ..d.memory_reader }
        } else if d.memory_reader.samples_remaining == 0 {
            MemoryReader { start: true, ..d.memory_reader }
        } else {
            d.memory_reader
        };
        APU {
            pulse_channel1: PulseChannel { enabled: on1, length_counter: if on1 { p1.length_counter } else { LengthCounter { value: 0, ..p1.length_counter } }, ..p1 },
            pulse_channel2: PulseChannel { enabled: on2, length_counter: if on2 { p2.length_counter } else { LengthCounter { value: 0, ..p2.length_counter } }, ..p2 },
            triangle_channel: TriangleChannel { enabled: ont, length_counter: if ont { t.length_counter } else { LengthCounter { value: 0, ..t.length_counter } }, ..t },
            noise_channel: NoiseChannel { enabled: onn, length_counter: if onn { n.length_counter } else { LengthCounter { value: 0, ..n.length_counter } }, ..n },
            dmc_channel: DMCChannel { memory_reader: MemoryReader { irq_occurred: false, ..reader }, ..d },
            resetting_state: if self.resetting_state == ResettingState::WaitingForEnable && status & 0x1F != 0 {
                ResettingState::CountingDown(2048)
            } else {
                self.resetting_state
            },
            ..self
        }
    }

    /// A write of a register: the byte returned and the APU after it.
    pub open spec fn register_written(self, addr: u16, data: u8) -> (u8, APU) {
        if addr <= 0x4013 {
            (0xFF, self.channel_written(addr, data))
        } else if addr == 0x4014 {
            (self.oam_dma_page, APU { oam_dma_state: OamDmaState::Requested, oam_dma_page: data, ..self })
        } else if addr == 0x4015 {
            (0xFF, self.status_written(data))
        } else if addr == 0x4016 {
            (self.input_port_ctrl, APU { input_port_ctrl: data, ..self })
        } else if addr == 0x4017 {
            let control = data & 0xC0;
            let s = APU { frame_counter_control: control, ..self };
            let s = if control & FrameCounterFlags::IRQInhibit != 0 { s.frame_interrupt_set(false) } else { s };
            (self.frame_counter_control, APU {
                frame_counter_reset_state: FrameCounterResetState::WaitingToReset(
                    if self.cycle_type == APUCycleType::Get { 2 } else { 3 }),
                ..s
            })
        } else {
            (0xFF, self)
        }
    }

    fn write_channel(&mut self, physical: u16, data: u8)
        requires
            old(self).wf(),
            0x4000 <= physical <= 0x4013,
        ensures
            final(self).wf(),
            *final(self) == old(self).channel_written(physical, data),
    {
        let channel_number = (physical >> 2) & 0b00000111;
        let reg = (physical & 0b00000011) as u8;
        assert(physical & 3 < 4) by (bit_vector);
        if channel_number == 0 {
            self.pulse_channel1.set_register(reg, data);
        } else if channel_number == 1 {
            self.pulse_channel2.set_register(reg, data);
        } else if channel_number == 2 {
            self.triangle_channel.set_register(reg, data);
        } else if channel_number == 3 {
            self.noise_channel.set_register(reg, data);
        } else {
            self.dmc_channel.set_register(reg, data);
        }
    }

    #[verifier::rlimit(40)]
    fn write_status(&mut self, data: u8)
        requires
            old(self).wf(),
        ensures
            final(self).wf(),
            *final(self) == old(self).status_written(data),
    {
        let status = data & 0b11011111;
        self.pulse_channel1.set_enabled(status & SoundEnableFlags::Pulse1 != 0);
        self.pulse_channel2.set_enabled(status & SoundEnableFlags::Pulse2 != 0);
        self.triangle_channel.set_enabled(status & SoundEnableFlags::Triangle != 0);
        self.noise_channel.set_enabled(status & SoundEnableFlags::Noise != 0);
        self.dmc_channel.set_enabled(status & SoundEnableFlags::DMC != 0);
        if self.resetting_state == ResettingState::WaitingForEnable
            && status & 0b00011111 != 0
        {
            self.resetting_state = ResettingState::CountingDown(2048);
        }
        self.dmc_channel.memory_reader.irq_occurred = false;
    }
}

/// The frame counter's step on the channels and the interrupt flags depends on neither
/// the cycle half, the controller ports nor the sprite DMA unit.
proof fn lemma_frame_counted_channels(a: APU, b: APU)
    requires
        b == (APU {
            cycle_type: b.cycle_type,
            input_register1: b.input_register1,
            input_register2: b.input_register2,
            oam_dma_state: b.oam_dma_state,
            oam_dma_data: b.oam_dma_data,
            ..a
        }),
    ensures
        b.frame_counted().pulse_channel1 == a.frame_counted().pulse_channel1,
        b.frame_counted().pulse_channel2 == a.frame_counted().pulse_channel2,
        b.frame_counted().triangle_channel == a.frame_counted().triangle_channel,
        b.frame_counted().noise_channel == a.frame_counted().noise_channel,
        b.frame_counted().sound_enable_register_high == a.frame_counted().sound_enable_register_high,
{
    reveal(APU::frame_counted);
    reveal(APU::sequenced);
}

impl APU {
    /// A CPU access to `addr` (0x4000-0x401F): a write of `data` when it is given, else
    /// a read.
    pub fn cpu_access(&mut self, addr: u16, data: Option<u8>)
        requires
            old(self).wf(),
            0x4000 <= addr <= 0x401F,
        ensures
            final(self).wf(),
            data is None ==> *final(self) == old(self).register_read(addr).1,
            data matches Some(d) ==> *final(self) == old(self).register_written(addr, d).1,
    {
        match data {
            Some(d) => {
                let _ = self.write(addr, d);
            },
            None => {
                let _ = self.read(addr);
            },
        }
    }
}

impl BusDevice for APU {
    open spec fn device_ok(&self) -> bool { self.wf() }

    open spec fn can_read(&self, addr: u16) -> bool { RANGE_START <= addr <= RANGE_END }

    open spec fn can_write(&self, addr: u16, data: u8) -> bool { RANGE_START <= addr <= RANGE_END }

    open spec fn can_clock(&self) -> bool { true }

    fn get_address_range(&self) -> (r: (u16, u16))
        ensures
            r == (RANGE_START, RANGE_END),
    {
        (RANGE_START, RANGE_END)
    }

    fn read(&mut self, addr: u16) -> (r: u8)
        ensures
            (r, *final(self)) == old(self).register_read(addr),
    {
        proof { lemma_apu_physical(addr); }
        let physical = addr & ADDR_MASK;
        if physical <= 0x4013 {
            self.last_read
        } else if physical == 0x4015 {
            let result = self.read_status();
            self.set_frame_interrupt(false);
            result
        } else if physical == 0x4016 {
            self.last_read = self.bus_read_input_register(0);
            self.last_read
        } else if physical == 0x4017 {
            self.last_read = self.bus_read_input_register(1);
            self.last_read
        } else {
            0xFF
        }
    }

    fn write(&mut self, addr: u16, data: u8) -> (r: u8)
        ensures
            (r, *final(self)) == old(self).register_written(addr, data),
    {
        proof { lemma_apu_physical(addr); }
        let physical = addr & ADDR_MASK;
        if physical <= 0x4013 {
            self.write_channel(physical, data);
            0xFF
        } else if physical == 0x4014 {
            let old = self.oam_dma_page;
            self.oam_dma_state = OamDmaState::Requested;
            self.oam_dma_page = data;
            old
        } else if physical == 0x4015 {
            self.write_status(data);
            0xFF
        } else if physical == 0x4016 {
            let old = self.input_port_ctrl;
            self.input_port_ctrl = data;
            old
        } else if physical == 0x4017 {
            let old = self.frame_counter_control;
            self.frame_counter_control = data & 0b11000000;
            if self.frame_counter_control & FrameCounterFlags::IRQInhibit != 0 {
                self.set_frame_interrupt(false);
            }
            self.frame_counter_reset_state = match self.cycle_type {
                APUCycleType::Get => FrameCounterResetState::WaitingToReset(2),
                APUCycleType::Put => FrameCounterResetState::WaitingToReset(3),
            };
            old
        } else {
            0xFF
        }
    }

    fn bus_clock(&mut self) -> (r: u8)
        ensures
            r == old(self).lines(),
            *final(self) == *old(self),
    {
        if self.sound_enable_register_high & (SoundEnableFlags::FrameInterrupt | SoundEnableFlags::DMCInterrupt) != 0 {
            InterruptFlags::IRQ
        } else {
            InterruptFlags::empty()
        }
    }
}


/// The byte of a controller port after `n` reads with the strobe released: each read
/// shifts it right, and a one comes in at the top.
pub open spec fn port_after_reads(reg: u8, n: nat) -> u8
    decreases n,
{
    if n == 0 { reg } else { (port_after_reads(reg, (n - 1) as nat) >> 1u8) | 0x80 }
}

/// The APU after `n` reads of the first controller port (0x4016).
pub open spec fn port1_reads(apu: APU, n: nat) -> APU
    decreases n,
{
    if n == 0 { apu } else { port1_reads(apu, (n - 1) as nat).register_read(0x4016).1 }
}

proof fn lemma_port1_reads(apu: APU, n: nat)
    requires
        apu.input_port_ctrl & 1 == 0,
    ensures
        port1_reads(apu, n).input_register1 == port_after_reads(apu.input_register1, n),
        port1_reads(apu, n).input_port_ctrl == apu.input_port_ctrl,
    decreases n,
{
    if n > 0 {
        lemma_port1_reads(apu, (n - 1) as nat);
    }
}

proof fn lemma_serial_bits(reg: u8, k: u8)
    by (bit_vector)
    ensures
        (reg >> 0u8) | !(0xFFu8 >> 0u8) == reg,
        k < 8 ==> (((reg >> k) | !(0xFFu8 >> k)) >> 1u8) | 0x80u8 == (reg >> ((k + 1) as u8)) | !(0xFFu8 >> ((k + 1) as u8)),
        k < 8 ==> ((reg >> k) | !(0xFFu8 >> k)) & 1u8 == (reg >> k) & 1u8,
        (reg >> 8u8) | !(0xFFu8 >> 8u8) == 0xFFu8,
        (0xFFu8 >> 1u8) | 0x80u8 == 0xFFu8,
        0xFFu8 & 1u8 == 1u8,
{
}

proof fn lemma_port_after_reads(reg: u8, n: nat)
    ensures
        n <= 8 ==> port_after_reads(reg, n) == (reg >> (n as u8)) | !(0xFFu8 >> (n as u8)),
        n >= 8 ==> port_after_reads(reg, n) == 0xFF,
    decreases n,
{
    lemma_serial_bits(reg, 0);
    if n > 0 {
        let m = (n - 1) as nat;
        lemma_port_after_reads(reg, m);
        if n <= 8 {
            lemma_serial_bits(reg, m as u8);
            assert(((m as u8) + 1) as u8 == n as u8);
        }
    }
}

/// With the strobe released, read number `k` (counting from 0) of 0x4016 gives bit `k`
/// of the byte the strobe loaded (A, B, Select, Start, Up, Down, Left, Right in turn),
/// and every read after the eighth gives 1.
pub proof fn law_controller_serial(apu: APU, k: nat)
    requires
        apu.input_port_ctrl & 1 == 0,
    ensures
        k < 8 ==> port1_reads(apu, k).register_read(0x4016).0 == (apu.input_register1 >> (k as u8)) & 1,
        k >= 8 ==> port1_reads(apu, k).register_read(0x4016).0 == 1,
{
    lemma_port1_reads(apu, k);
    lemma_port_after_reads(apu.input_register1, k);
    lemma_serial_bits(apu.input_register1, k as u8);
}


/// The length of the frame sequence in APU cycles: 29830 in four-step mode, 37282 in
/// five-step mode.
pub open spec fn sequence_length(five_step: bool) -> int {
    if five_step { 37282 } else { 29830 }
}

/// The APU after `n` steps of its frame counter, nothing else changed.
pub open spec fn counter_steps(apu: APU, n: nat) -> APU
    decreases n,
{
    if n == 0 {
        apu
    } else {
        let a = counter_steps(apu, (n - 1) as nat);
        let (c, st) = a.counter_step();
        APU { frame_counter: c, frame_counter_reset_state: st, ..a }
    }
}

/// With no reset pending, the frame counter runs through the whole sequence and starts
/// over: `n` steps from a count `c` within the sequence leave it at `c + n` modulo the
/// sequence length, so the quarter- and half-frame steps, which the count selects,
/// recur once per sequence.
pub proof fn law_frame_sequence_repeats(apu: APU, n: nat)
    requires
        apu.frame_counter_reset_state == FrameCounterResetState::Idle,
        apu.frame_counter < sequence_length(apu.five_step()),
    ensures
        counter_steps(apu, n).frame_counter == (apu.frame_counter + n) % sequence_length(apu.five_step()),
        counter_steps(apu, n).frame_counter_reset_state == FrameCounterResetState::Idle,
        counter_steps(apu, n).frame_counter_control == apu.frame_counter_control,
    decreases n,
{
    let len = sequence_length(apu.five_step());
    if n == 0 {
        vstd::arithmetic::div_mod::lemma_small_mod(apu.frame_counter as nat, len as nat);
    } else {
        let m = (n - 1) as nat;
        law_frame_sequence_repeats(apu, m);
        let x = apu.frame_counter + m;
        vstd::arithmetic::div_mod::lemma_add_mod_noop(x, 1, len);
        vstd::arithmetic::div_mod::lemma_small_mod(1, len as nat);
        let r = x % len;
        assert(0 <= r < len) by {
            vstd::arithmetic::div_mod::lemma_mod_bound(x, len);
        }
        if r + 1 < len {
            vstd::arithmetic::div_mod::lemma_small_mod((r + 1) as nat, len as nat);
        } else {
            vstd::arithmetic::div_mod::lemma_mod_self_0(len);
        }
    }
}


/// The counts at which the frame sequencer gives the channels a quarter-frame clock.
pub open spec fn quarter_step(c: int, five_step: bool) -> bool {
    c == 7457 || c == 14913 || c == 22371 || c == (if five_step { 37281int } else { 29829int })
}

/// The counts at which it also gives them a half-frame clock.
pub open spec fn half_step(c: int, five_step: bool) -> bool {
    c == 14913 || c == (if five_step { 37281int } else { 29829int })
}

/// How many of the counts 1 to `n` give a quarter-frame clock.
pub open spec fn quarters_through(n: int, five_step: bool) -> int
    decreases n,
{
    if n <= 0 { 0 } else { quarters_through(n - 1, five_step) + if quarter_step(n, five_step) { 1int } else { 0 } }
}

/// How many of the counts 1 to `n` give a half-frame clock.
pub open spec fn halves_through(n: int, five_step: bool) -> int
    decreases n,
{
    if n <= 0 { 0 } else { halves_through(n - 1, five_step) + if half_step(n, five_step) { 1int } else { 0 } }
}

proof fn lemma_counts_flat(lo: int, hi: int, five_step: bool)
    requires
        0 <= lo <= hi,
        forall|c: int| lo < c <= hi ==> !quarter_step(c, five_step) && !half_step(c, five_step),
    ensures
        quarters_through(hi, five_step) == quarters_through(lo, five_step),
        halves_through(hi, five_step) == halves_through(lo, five_step),
    decreases hi - lo,
{
    if hi > lo {
        lemma_counts_flat(lo, hi - 1, five_step);
    }
}

/// Over one whole frame sequence (counts 1 to the sequence length) the channels get
/// four quarter-frame clocks and two half-frame clocks, in either mode.
pub proof fn law_frame_sequence_clocks(five_step: bool)
    ensures
        quarters_through(sequence_length(five_step), five_step) == 4,
        halves_through(sequence_length(five_step), five_step) == 2,
{
    let last = if five_step { 37281int } else { 29829int };
    lemma_counts_flat(0, 7456, five_step);
    assert(quarters_through(7457, five_step) == 1 && halves_through(7457, five_step) == 0);
    lemma_counts_flat(7457, 14912, five_step);
    assert(quarters_through(14913, five_step) == 2 && halves_through(14913, five_step) == 1);
    lemma_counts_flat(14913, 22370, five_step);
    assert(quarters_through(22371, five_step) == 3 && halves_through(22371, five_step) == 1);
    lemma_counts_flat(22371, last - 1, five_step);
    assert(quarters_through(last, five_step) == 4 && halves_through(last, five_step) == 2);
    lemma_counts_flat(last, sequence_length(five_step), five_step);
}

/// With no reset pending, one step of the frame counter gives the channels a
/// quarter-frame clock exactly at the counts `quarter_step` names, and a half-frame
/// clock besides exactly at those `half_step` names.
pub proof fn law_frame_step_clocks(apu: APU)
    requires
        apu.frame_counter_reset_state == FrameCounterResetState::Idle,
        apu.frame_counter < u16::MAX,
    ensures
        ({
            let c = apu.frame_counter + 1;
            let f = apu.frame_counted();
            let expected = if half_step(c, apu.five_step()) {
                apu.quarter_clocked().half_clocked()
            } else if quarter_step(c, apu.five_step()) {
                apu.quarter_clocked()
            } else {
                apu
            };
            &&& f.pulse_channel1 == expected.pulse_channel1
            &&& f.pulse_channel2 == expected.pulse_channel2
            &&& f.triangle_channel == expected.triangle_channel
            &&& f.noise_channel == expected.noise_channel
        }),
{
    reveal(APU::frame_counted);
    reveal(APU::sequenced);
    let s = APU { frame_counter: (apu.frame_counter + 1) as u16, ..apu };
    assert(s.five_step() == apu.five_step());
    assert(s.quarter_clocked().pulse_channel1 == apu.quarter_clocked().pulse_channel1);
    assert(s.quarter_clocked().half_clocked().pulse_channel1 == apu.quarter_clocked().half_clocked().pulse_channel1);
}

} // verus!

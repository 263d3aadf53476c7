use vstd::prelude::*;

use crate::nes::apu::SoundEnableFlags;
use crate::nes::apu::channels::{Channel, FrequencyTimer, LengthCounter};

verus! {

/// The triangle-wave channel.
#[derive(Copy, Clone, PartialEq, Eq, Debug, Structural)]
pub struct TriangleChannel {
    pub linear_counter: LinearCounter,
    pub length_counter: LengthCounter,
    pub frequency_timer: FrequencyTimer,
    pub sequencer: TriangleSequencer,

    pub enabled: bool,
}

impl TriangleChannel {
    /// The channel after one APU cycle: the timer counts down and, where it fires, the
    /// waveform steps.
    pub open spec fn ticked(self, read_cycle: bool) -> TriangleChannel {
        TriangleChannel {
            frequency_timer: self.frequency_timer.clocked(read_cycle),
            sequencer: if self.frequency_timer.fires(read_cycle) && self.gates_open() {
                self.sequencer.advanced()
            } else {
                self.sequencer
            },
            ..self
        }
    }

    pub open spec fn wf(self) -> bool {
        self.length_counter.wf() && self.sequencer.output <= 15
    }

    pub open spec fn register(self, n: u8) -> u8 {
        if n == 0 {
            self.linear_counter.bits()
        } else if n == 1 {
            0
        } else if n == 2 {
            (self.frequency_timer.period & 0x00FF) as u8
        } else {
            (((self.frequency_timer.period >> 8u16) & 0x07) as u8) | ((self.length_counter.period_index << 3u8) & 0xF8)
        }
    }

    pub open spec fn written(self, n: u8, value: u8) -> TriangleChannel {
        if n == 0 {
            let linear_counter = self.linear_counter.with_bits(value);
            TriangleChannel {
                linear_counter,
                length_counter: LengthCounter { halted: linear_counter.control_flag, ..self.length_counter },
                ..self
            }
        } else if n == 1 {
            self
        } else if n == 2 {
            TriangleChannel {
                frequency_timer: FrequencyTimer { period: (self.frequency_timer.period & 0xFF00) | (value as u16), ..self.frequency_timer },
                ..self
            }
        } else {
            TriangleChannel {
                frequency_timer: FrequencyTimer {
                    period: (self.frequency_timer.period & 0x00FF) | (((value & 0x07) as u16) << 8u16),
                    ..self.frequency_timer
                },
                length_counter: self.length_counter.with_bits(value, self.enabled),
                linear_counter: LinearCounter { start: true, ..self.linear_counter },
                ..self
            }
        }
    }

    /// Both counters let the waveform through.
    pub open spec fn gates_open(self) -> bool {
        self.linear_counter.count != 0 && self.length_counter.value != 0
    }

    pub open spec fn new_spec() -> TriangleChannel {
        TriangleChannel {
            linear_counter: LinearCounter { start: false, period: 0, count: 0, control_flag: false },
            length_counter: LengthCounter { period_index: 0, value: 0, halted: false },
            frequency_timer: FrequencyTimer { every_other_clock: false, period: 0, value: 0 },
            sequencer: TriangleSequencer { count_up: false, output: 15 },
            enabled: false,
        }
    }

    pub fn new() -> (r: TriangleChannel)
        ensures
            r.wf(),
            r == TriangleChannel::new_spec(),
    {
        TriangleChannel {
            linear_counter: LinearCounter::new(),
            length_counter: LengthCounter::new(),
            frequency_timer: FrequencyTimer::new(false),
            sequencer: TriangleSequencer::new(),

            enabled: false,
        }
    }
}

impl Channel for TriangleChannel {
    open spec fn channel_wf(&self) -> bool { self.wf() }

    fn set_register(&mut self, n: u8, value: u8) -> (r: u8)
        ensures
            r == old(self).register(n),
            *final(self) == old(self).written(n, value),
    {
        let old = self.read_register(n);
        if n == 0 {
            self.linear_counter.load_bits(value);
            self.length_counter.halted = self.linear_counter.control_flag;
        } else if n == 1 {
        } else if n == 2 {
            self.frequency_timer.load_low_bits(value);
        } else {
            self.frequency_timer.load_high_bits(value);
            self.length_counter.load_bits(value, self.enabled);
            self.linear_counter.start = true;
        }
        old
    }

    fn read_register(&self, n: u8) -> (r: u8)
        ensures
            r == self.register(n),
    {
        if n == 0 {
            self.linear_counter.read_bits()
        } else if n == 1 {
            0
        } else if n == 2 {
            self.frequency_timer.read_low_bits()
        } else {
            self.frequency_timer.read_high_bits() | self.length_counter.read_bits()
        }
    }

    fn set_enabled(&mut self, value: bool)
        ensures
            *final(self) == (TriangleChannel {
                enabled: value,
                length_counter: if value { old(self).length_counter } else { LengthCounter { value: 0, ..old(self).length_counter } },
                ..*old(self)
            }),
    {
        if !value {
            self.length_counter.value = 0;
        }
        self.enabled = value
    }

    fn get_enabled(&self) -> (r: bool)
        ensures
            r == (self.enabled && self.length_counter.value != 0),
    {
        self.enabled && self.length_counter.value != 0
    }

    fn get_enabled_flag(&self) -> (r: u8)
        ensures
            r == SoundEnableFlags::Triangle,
    {
        SoundEnableFlags::Triangle
    }

    /// The waveform steps when the timer fires while both counters are open.
    fn clock(&mut self, read_cycle: bool) -> (r: u8)
        ensures
            *final(self) == old(self).ticked(read_cycle),
            *final(self) == (TriangleChannel {
                frequency_timer: old(self).frequency_timer.clocked(read_cycle),
                sequencer: if old(self).frequency_timer.fires(read_cycle) && old(self).gates_open() {
                    old(self).sequencer.advanced()
                } else {
                    old(self).sequencer
                },
                ..*old(self)
            }),
            r == if old(self).enabled && old(self).gates_open() { final(self).sequencer.output } else { 0 },
    {
        if self.frequency_timer.clock(read_cycle) && self.linear_counter.gate() && self.length_counter.gate() {
            self.sequencer.advance_position();
        }

        if self.enabled && self.linear_counter.gate() && self.length_counter.gate() {
            self.sequencer.output
        } else {
            0
        }
    }

    fn quarter_frame_clock(&mut self)
        ensures
            *final(self) == (TriangleChannel { linear_counter: old(self).linear_counter.clocked(), ..*old(self) }),
    {
        self.linear_counter.quarter_frame_clock();
    }

    fn half_frame_clock(&mut self)
        ensures
            *final(self) == (TriangleChannel { length_counter: old(self).length_counter.clocked(), ..*old(self) }),
    {
        self.length_counter.half_frame_clock();
    }
}

/// Steps the output level down from 15 to 0 and back up.
#[derive(Copy, Clone, PartialEq, Eq, Debug, Structural)]
pub struct TriangleSequencer {
    pub count_up: bool,
    pub output: u8,
}

impl TriangleSequencer {
    pub open spec fn advanced(self) -> TriangleSequencer {
        if !self.count_up {
            if self.output == 0 {
                TriangleSequencer { count_up: true, ..self }
            } else {
                TriangleSequencer { output: (self.output - 1) as u8, ..self }
            }
        } else if self.output == 15 {
            TriangleSequencer { count_up: false, ..self }
        } else {
            TriangleSequencer { output: (self.output + 1) as u8, ..self }
        }
    }

    pub fn new() -> (r: TriangleSequencer)
        ensures
            r == (TriangleSequencer { count_up: false, output: 15 }),
    {
        TriangleSequencer { count_up: false, output: 15 }
    }

    pub fn advance_position(&mut self)
        requires
            old(self).output <= 15,
        ensures
            *final(self) == old(self).advanced(),
            final(self).output <= 15,
    {
        if !self.count_up {
            if self.output == 0 {
                self.count_up = true;
            } else {
                self.output = self.output - 1
            }
        } else if self.output == 15 {
            self.count_up = false;
        } else {
            self.output = self.output + 1
        }
    }
}

/// The triangle's second length control, counted in quarter frames.
#[derive(Copy, Clone, PartialEq, Eq, Debug, Structural)]
pub struct LinearCounter {
    pub start: bool,
    pub period: u8,
    pub count: u8,
    pub control_flag: bool,
}

impl LinearCounter {
    /// A quarter-frame clock: a started counter reloads, else it counts down to 0; the
    /// start flag clears unless the control flag holds it.
    pub open spec fn clocked(self) -> LinearCounter {
        LinearCounter {
            count: if self.start { self.period } else if self.count != 0 { (self.count - 1) as u8 } else { 0 },
            start: if !self.control_flag { false } else { self.start },
            ..self
        }
    }

    pub open spec fn with_bits(self, value: u8) -> LinearCounter {
        LinearCounter { control_flag: value & 0x80 != 0, period: value & 0x7F, ..self }
    }

    pub open spec fn bits(self) -> u8 {
        (if self.control_flag { 0x80u8 } else { 0u8 }) | (self.period & 0x7F)
    }

    pub fn new() -> (r: LinearCounter)
        ensures
            r == (LinearCounter { start: false, period: 0, count: 0, control_flag: false }),
    {
        LinearCounter { start: false, period: 0, count: 0, control_flag: false }
    }

    pub fn quarter_frame_clock(&mut self)
        ensures
            *final(self) == old(self).clocked(),
    {
        if self.start {
            self.count = self.period;
        } else if self.count != 0 {
            self.count = self.count - 1;
        }
        if !self.control_flag {
            self.start = false;
        }
    }

    pub fn load_bits(&mut self, value: u8)
        ensures
            *final(self) == old(self).with_bits(value),
    {
        self.control_flag = value & 0b10000000 != 0;
        self.period = value & 0b01111111;
    }

    pub fn read_bits(&self) -> (r: u8)
        ensures
            r == self.bits(),
    {
        (if self.control_flag { 0b10000000 } else { 0 }) | (self.period & 0b01111111)
    }

    pub fn gate(&self) -> (r: bool)
        ensures
            r == (self.count != 0),
    {
        self.count != 0
    }
}

} // verus!

use vstd::prelude::*;

use crate::nes::apu::SoundEnableFlags;
use crate::nes::apu::channels::{Channel, Envelope, FrequencyTimer, LengthCounter};

verus! {

/// A square-wave channel.
#[derive(Copy, Clone, PartialEq, Eq, Debug, Structural)]
pub struct PulseChannel {
    pub envelope: Envelope,
    pub sweep: PulseSweep,
    pub frequency_timer: FrequencyTimer,
    pub length_counter: LengthCounter,
    pub sequencer: PulseSequencer,

    pub enabled: bool,
}

impl PulseChannel {
    /// The channel after one APU cycle: the timer counts down and, where it fires, the
    /// waveform steps.
    pub open spec fn ticked(self, read_cycle: bool) -> PulseChannel {
        PulseChannel {
            frequency_timer: self.frequency_timer.clocked(read_cycle),
            sequencer: if self.frequency_timer.fires(read_cycle) { self.sequencer.advanced() } else { self.sequencer },
            ..self
        }
    }

    pub open spec fn wf(self) -> bool {
        self.sweep.wf() && self.sequencer.wf() && self.length_counter.wf()
    }

    /// What register `n` reads back.
    pub open spec fn register(self, n: u8) -> u8 {
        if n == 0 {
            self.sequencer.bits() | self.envelope.bits()
        } else if n == 1 {
            self.sweep.bits()
        } else if n == 2 {
            (self.frequency_timer.period & 0x00FF) as u8
        } else {
            (((self.frequency_timer.period >> 8u16) & 0x07) as u8) | ((self.length_counter.period_index << 3u8) & 0xF8)
        }
    }

    /// The channel after `value` is written to register `n`.
    pub open spec fn written(self, n: u8, value: u8) -> PulseChannel {
        if n == 0 {
            let envelope = self.envelope.with_bits(value);
            PulseChannel {
                sequencer: self.sequencer.with_bits(value),
                envelope,
                length_counter: LengthCounter { halted: envelope.loop_enable, ..self.length_counter },
                ..self
            }
        } else if n == 1 {
            PulseChannel { sweep: self.sweep.with_bits(value), ..self }
        } else if n == 2 {
            PulseChannel {
                frequency_timer: FrequencyTimer { period: (self.frequency_timer.period & 0xFF00) | (value as u16), ..self.frequency_timer },
                ..self
            }
        } else {
            PulseChannel {
                frequency_timer: FrequencyTimer {
                    period: (self.frequency_timer.period & 0x00FF) | (((value & 0x07) as u16) << 8u16),
                    ..self.frequency_timer
                },
                length_counter: self.length_counter.with_bits(value, self.enabled),
                envelope: Envelope { start: true, ..self.envelope },
                sequencer: PulseSequencer { start: true, ..self.sequencer },
                ..self
            }
        }
    }

    /// The level the channel outputs.
    pub open spec fn level(self) -> u8 {
        if self.enabled && !self.sweep.muting && self.sequencer.gate_open() && self.length_counter.value != 0 {
            self.envelope.output
        } else {
            0
        }
    }

    pub open spec fn new_spec(channel2: bool) -> PulseChannel {
        PulseChannel {
            envelope: Envelope::new_spec(),
            sweep: PulseSweep::new_spec(channel2),
            frequency_timer: FrequencyTimer { every_other_clock: true, period: 0, value: 0 },
            length_counter: LengthCounter { period_index: 0, value: 0, halted: false },
            sequencer: PulseSequencer::new_spec(),
            enabled: false,
        }
    }

    pub fn new(channel2: bool) -> (r: PulseChannel)
        ensures
            r.wf(),
            r == PulseChannel::new_spec(channel2),
    {
        PulseChannel {
            envelope: Envelope::new(),
            sweep: PulseSweep::new(channel2),
            frequency_timer: FrequencyTimer::new(true),
            length_counter: LengthCounter::new(),
            sequencer: PulseSequencer::new(),

            enabled: false,
        }
    }
}

impl Channel for PulseChannel {
    open spec fn channel_wf(&self) -> bool { self.wf() }

    fn set_register(&mut self, n: u8, value: u8) -> (r: u8)
        ensures
            r == old(self).register(n),
            *final(self) == old(self).written(n, value),
    {
        let old = self.read_register(n);
        if n == 0 {
            self.sequencer.load_bits(value);
            self.envelope.load_bits(value);
            self.length_counter.halted = self.envelope.loop_enable;
        } else if n == 1 {
            self.sweep.load_bits(value);
        } else if n == 2 {
            self.frequency_timer.load_low_bits(value);
        } else {
            self.frequency_timer.load_high_bits(value);
            self.length_counter.load_bits(value, self.enabled);
            self.envelope.start = true;
            self.sequencer.start = true;
        }
        old
    }

    fn read_register(&self, n: u8) -> (r: u8)
        ensures
            r == self.register(n),
    {
        if n == 0 {
            self.sequencer.read_bits() | self.envelope.read_bits()
        } else if n == 1 {
            self.sweep.read_bits()
        } else if n == 2 {
            self.frequency_timer.read_low_bits()
        } else {
            self.frequency_timer.read_high_bits() | self.length_counter.read_bits()
        }
    }

    fn set_enabled(&mut self, value: bool)
        ensures
            *final(self) == (PulseChannel {
                enabled: value,
                length_counter: if value { old(self).length_counter } else { LengthCounter { value: 0, ..old(self).length_counter } },
                ..*old(self)
            }),
    {
        if !value {
            self.length_counter.value = 0;
        }
        self.enabled = value
    }

    fn get_enabled(&self) -> (r: bool)
        ensures
            r == (self.enabled && self.length_counter.value != 0),
    {
        self.enabled && self.length_counter.value != 0
    }

    /// Pulse 2 negates its sweep in two's complement; that tells the two apart.
    fn get_enabled_flag(&self) -> (r: u8)
        ensures
            r == if self.sweep.twos_complement { SoundEnableFlags::Pulse2 } else { SoundEnableFlags::Pulse1 },
    {
        if self.sweep.twos_complement {
            SoundEnableFlags::Pulse2
        } else {
            SoundEnableFlags::Pulse1
        }
    }

    fn clock(&mut self, read_cycle: bool) -> (r: u8)
        ensures
            *final(self) == old(self).ticked(read_cycle),
            *final(self) == (PulseChannel {
                frequency_timer: old(self).frequency_timer.clocked(read_cycle),
                sequencer: if old(self).frequency_timer.fires(read_cycle) { old(self).sequencer.advanced() } else { old(self).sequencer },
                ..*old(self)
            }),
            r == final(self).level(),
    {
        if self.frequency_timer.clock(read_cycle) {
            self.sequencer.advance_position();
        }

        if self.enabled && self.sweep.gate() && self.sequencer.gate() && self.length_counter.gate() {
            self.envelope.output
        } else {
            0
        }
    }

    fn quarter_frame_clock(&mut self)
        ensures
            *final(self) == (PulseChannel { envelope: old(self).envelope.clocked(), ..*old(self) }),
    {
        self.envelope.quarter_frame_clock();
    }

    fn half_frame_clock(&mut self)
        ensures
            ({
                let (period, sweep) = old(self).sweep.clocked(old(self).frequency_timer.period);
                *final(self) == (PulseChannel {
                    frequency_timer: FrequencyTimer { period, ..old(self).frequency_timer },
                    sweep,
                    length_counter: old(self).length_counter.clocked(),
                    ..*old(self)
                })
            }),
    {
        self.frequency_timer.period = self.sweep.half_frame_clock(self.frequency_timer.period);
        self.length_counter.half_frame_clock();
    }
}

/// `a + b` in 16 bits, wrapping.
pub open spec fn add16(a: u16, b: u16) -> u16 {
    if a + b > 0xFFFF { (a + b - 0x10000) as u16 } else { (a + b) as u16 }
}

/// The period a sweep aims at from an 11-bit period `current`: with the negate flag
/// clear, `current + (current >> shift)`; with it set, `current - (current >> shift)`,
/// less one more on pulse 1 (one's complement), and never below 0.
pub proof fn law_sweep_target(sw: PulseSweep, current: u16)
    requires
        sw.wf(),
        current <= 0x07FF,
    ensures
        !sw.negative ==> sw.target(current) as int == current + (current >> (sw.shift_count as u16)),
        sw.negative && sw.twos_complement ==> sw.target(current) as int == current - (current >> (sw.shift_count as u16)),
        sw.negative && !sw.twos_complement ==> sw.target(current) as int == if current > (current >> (sw.shift_count as u16)) {
            current - (current >> (sw.shift_count as u16)) - 1
        } else {
            0
        },
{
    let r = current >> (sw.shift_count as u16);
    crate::bits::lemma_complement_bits(current, r, sw.shift_count as u16);
    let change: u16 = if !sw.negative { r } else if sw.twos_complement { add16(!r, 1) } else { !r };
    let raw = add16(current, change);
    crate::bits::lemma_complement_bits(raw, r, sw.shift_count as u16);
}

/// Bends the pulse period up or down every few half frames, and mutes the channel when
/// the period goes out of range.
#[derive(Copy, Clone, PartialEq, Eq, Debug, Structural)]
pub struct PulseSweep {
    pub enabled: bool,
    pub period: u8,
    pub negative: bool,
    pub shift_count: u8,
    pub twos_complement: bool,
    pub muting: bool,
    pub start: bool,
    pub divider: u8,
}

impl PulseSweep {
    pub open spec fn wf(self) -> bool {
        self.shift_count < 8
    }

    pub open spec fn new_spec(twos_complement: bool) -> PulseSweep {
        PulseSweep {
            twos_complement,
            enabled: false,
            period: 0,
            negative: false,
            shift_count: 0,
            muting: false,
            start: false,
            divider: 0,
        }
    }

    /// The period the sweep moves a period towards: the period shifted right, added,
    /// or subtracted in one's complement (pulse 1) or two's complement (pulse 2); a
    /// negative result is 0.
    pub open spec fn target(self, current: u16) -> u16 {
        let raw_change = current >> (self.shift_count as u16);
        let change: u16 = if !self.negative {
            raw_change
        } else if self.twos_complement {
            add16(!raw_change, 1)
        } else {
            !raw_change
        };
        let raw_target = add16(current, change);
        if raw_target & 0x8000 != 0 { 0 } else { raw_target }
    }

    /// A half-frame clock: the new period and the sweep after it.
    pub open spec fn clocked(self, current: u16) -> (u16, PulseSweep) {
        let target = self.target(current);
        let muting = current < 8 || target > 0x07FF;
        let result = if self.divider == 0 && self.enabled && !muting { target } else { current };
        let reload = self.divider == 0 || self.start;
        (result, PulseSweep {
            muting,
            divider: if reload { self.period } else { (self.divider - 1) as u8 },
            start: if reload { false } else { self.start },
            ..self
        })
    }

    pub open spec fn with_bits(self, value: u8) -> PulseSweep {
        PulseSweep {
            enabled: value & 0x80 != 0,
            period: (value & 0x70) >> 4u8,
            negative: value & 0x08 != 0,
            shift_count: value & 0x07,
            start: true,
            ..self
        }
    }

    pub open spec fn bits(self) -> u8 {
        (if self.enabled { 0x80u8 } else { 0u8 }) | ((self.period << 4u8) & 0x70)
            | (if self.negative { 0x08u8 } else { 0u8 }) | (self.shift_count & 0x07)
    }

    pub fn new(twos_complement: bool) -> (r: PulseSweep)
        ensures
            r == PulseSweep::new_spec(twos_complement),
    {
        PulseSweep {
            twos_complement,
            enabled: false,
            period: 0,
            negative: false,
            shift_count: 0,
            muting: false,
            start: false,
            divider: 0,
        }
    }

    pub fn half_frame_clock(&mut self, current_period: u16) -> (r: u16)
        requires
            old(self).wf(),
        ensures
            (r, *final(self)) == old(self).clocked(current_period),
    {
        let raw_change = current_period >> self.shift_count;
        let change = if !self.negative {
            raw_change
        } else if self.twos_complement {
            (!raw_change).wrapping_add(1)
        } else {
            !raw_change
        };
        let raw_target_period = current_period.wrapping_add(change);
        let target_period = if raw_target_period & 0b1000000000000000 != 0 {
            0
        } else {
            raw_target_period
        };
        self.muting = current_period < 8 || target_period > 0x07FF;

        let result = if self.divider == 0 && self.enabled && !self.muting {
            target_period
        } else {
            current_period
        };

        if self.divider == 0 || self.start {
            self.divider = self.period;
            self.start = false;
        } else {
            self.divider = self.divider - 1;
        }

        result
    }

    pub fn gate(&self) -> (r: bool)
        ensures
            r == !self.muting,
    {
        !self.muting
    }

    pub fn load_bits(&mut self, value: u8)
        ensures
            *final(self) == old(self).with_bits(value),
            final(self).wf(),
    {
        self.enabled = value & 0b10000000 != 0;
        self.period = (value & 0b01110000) >> 4;
        self.negative = value & 0b00001000 != 0;
        self.shift_count = value & 0b00000111;
        self.start = true;
        assert(value & 7 < 8) by (bit_vector);
    }

    pub fn read_bits(&self) -> (r: u8)
        ensures
            r == self.bits(),
    {
        (if self.enabled { 0b10000000 } else { 0 })
            | ((self.period << 4) & 0b01110000)
            | (if self.negative { 0b00001000 } else { 0 })
            | (self.shift_count & 0b00000111)
    }
}

/// The duty-cycle patterns of the pulse channels.
pub open spec fn pulse_sequence(duty: u8) -> u8 {
    if duty == 0 { 0b00000001 } else if duty == 1 { 0b00000011 } else if duty == 2 { 0b00001111 } else { 0b11111100 }
}

/// Steps through the eight bits of a duty-cycle pattern.
#[derive(Copy, Clone, PartialEq, Eq, Debug, Structural)]
pub struct PulseSequencer {
    pub duty_cycle: u8,
    pub sequence: u8,
    pub position: u8,
    pub start: bool,
}

impl PulseSequencer {
    pub open spec fn wf(self) -> bool {
        self.position < 8
    }

    pub open spec fn new_spec() -> PulseSequencer {
        PulseSequencer { duty_cycle: 0, sequence: pulse_sequence(0), position: 0, start: false }
    }

    /// A restarted sequence goes to position 0; otherwise it steps down from 7 to 0.
    pub open spec fn advanced(self) -> PulseSequencer {
        if self.start {
            PulseSequencer { start: false, position: 0, ..self }
        } else if self.position == 0 {
            PulseSequencer { position: 7, ..self }
        } else {
            PulseSequencer { position: (self.position - 1) as u8, ..self }
        }
    }

    pub open spec fn gate_open(self) -> bool {
        ((self.sequence >> self.position) & 1) != 0
    }

    pub open spec fn with_bits(self, value: u8) -> PulseSequencer {
        let duty = (value & 0xC0) >> 6u8;
        PulseSequencer { duty_cycle: duty, sequence: pulse_sequence(duty), ..self }
    }

    pub open spec fn bits(self) -> u8 {
        (self.duty_cycle << 6u8) & 0xC0
    }

    pub fn new() -> (r: PulseSequencer)
        ensures
            r == PulseSequencer::new_spec(),
    {
        PulseSequencer { duty_cycle: 0, sequence: 0b00000001, position: 0, start: false }
    }

    pub fn advance_position(&mut self)
        requires
            old(self).wf(),
        ensures
            *final(self) == old(self).advanced(),
            final(self).wf(),
    {
        if self.start {
            self.start = false;
            self.position = 0;
        } else if self.position == 0 {
            self.position = 7;
        } else {
            self.position = self.position - 1;
        }
    }

    pub fn gate(&self) -> (r: bool)
        requires
            self.wf(),
        ensures
            r == self.gate_open(),
    {
        ((self.sequence >> self.position) & 1) != 0
    }

    pub fn load_bits(&mut self, value: u8)
        ensures
            *final(self) == old(self).with_bits(value),
    {
        self.duty_cycle = (value & 0b11000000) >> 6;
        self.sequence = if self.duty_cycle == 0 {
            0b00000001
        } else if self.duty_cycle == 1 {
            0b00000011
        } else if self.duty_cycle == 2 {
            0b00001111
        } else {
            0b11111100
        };
    }

    pub fn read_bits(&self) -> (r: u8)
        ensures
            r == self.bits(),
    {
        (self.duty_cycle << 6) & 0b11000000
    }
}

} // verus!

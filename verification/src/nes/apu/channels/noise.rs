use vstd::prelude::*;

use crate::nes::apu::SoundEnableFlags;
use crate::nes::apu::channels::{Channel, Envelope, FrequencyTimer, LengthCounter};

verus! {

/// The timer periods the noise channel's period index selects.
pub open spec fn noise_period_table() -> Seq<u16> {
    seq![4u16, 8, 16, 32, 64, 96, 128, 160, 202, 254, 380, 508, 762, 1016, 2034, 4068]
}

pub fn noise_period(index: u8) -> (r: u16)
    requires
        index < 16,
    ensures
        r == noise_period_table()[index as int],
{
    match index {
        0 => 4, 1 => 8, 2 => 16, 3 => 32, 4 => 64, 5 => 96, 6 => 128, 7 => 160,
        8 => 202, 9 => 254, 10 => 380, 11 => 508, 12 => 762, 13 => 1016, 14 => 2034, _ => 4068,
    }
}

/// The noise channel: a pseudo-random bit stream gated by an envelope.
#[derive(Copy, Clone, PartialEq, Eq, Debug, Structural)]
pub struct NoiseChannel {
    pub envelope: Envelope,
    pub length_counter: LengthCounter,
    pub frequency_timer: FrequencyTimer,
    pub sequencer: NoiseSequencer,

    pub enabled: bool,
}

impl NoiseChannel {
    /// The channel after one APU cycle: the timer counts down and, where it fires, the
    /// waveform steps.
    pub open spec fn ticked(self, read_cycle: bool) -> NoiseChannel {
        NoiseChannel {
            frequency_timer: self.frequency_timer.clocked(read_cycle),
            sequencer: if self.frequency_timer.fires(read_cycle) { self.sequencer.advanced() } else { self.sequencer },
            ..self
        }
    }

    pub open spec fn wf(self) -> bool {
        self.length_counter.wf() && self.sequencer.period_index < 16
    }

    pub open spec fn register(self, n: u8) -> u8 {
        if n == 0 {
            self.envelope.bits()
        } else if n == 1 {
            0
        } else if n == 2 {
            self.sequencer.bits()
        } else {
            (self.length_counter.period_index << 3u8) & 0xF8
        }
    }

    pub open spec fn written(self, n: u8, value: u8) -> NoiseChannel {
        if n == 0 {
            let envelope = self.envelope.with_bits(value);
            NoiseChannel {
                envelope,
                length_counter: LengthCounter { halted: envelope.loop_enable, ..self.length_counter },
                ..self
            }
        } else if n == 1 {
            self
        } else if n == 2 {
            let sequencer = self.sequencer.with_bits(value);
            NoiseChannel {
                sequencer,
                frequency_timer: FrequencyTimer { period: noise_period_table()[sequencer.period_index as int], ..self.frequency_timer },
                ..self
            }
        } else {
            NoiseChannel {
                length_counter: self.length_counter.with_bits(value, self.enabled),
                envelope: Envelope { start: true, ..self.envelope },
                ..self
            }
        }
    }

    pub open spec fn new_spec() -> NoiseChannel {
        NoiseChannel {
            envelope: Envelope::new_spec(),
            length_counter: LengthCounter { period_index: 0, value: 0, halted: false },
            frequency_timer: FrequencyTimer { every_other_clock: true, period: 0, value: 0 },
            sequencer: NoiseSequencer { mode: false, period_index: 0, shift_register: 1 },
            enabled: false,
        }
    }

    pub fn new() -> (r: NoiseChannel)
        ensures
            r.wf(),
            r == NoiseChannel::new_spec(),
    {
        NoiseChannel {
            envelope: Envelope::new(),
            length_counter: LengthCounter::new(),
            frequency_timer: FrequencyTimer::new(true),
            sequencer: NoiseSequencer::new(),

            enabled: false,
        }
    }
}

impl Channel for NoiseChannel {
    open spec fn channel_wf(&self) -> bool { self.wf() }

    fn set_register(&mut self, n: u8, value: u8) -> (r: u8)
        ensures
            r == old(self).register(n),
            *final(self) == old(self).written(n, value),
    {
        let old = self.read_register(n);
        if n == 0 {
            self.envelope.load_bits(value);
            self.length_counter.halted = self.envelope.loop_enable;
        } else if n == 1 {
        } else if n == 2 {
            self.sequencer.load_bits(value);
            self.frequency_timer.period = noise_period(self.sequencer.period_index);
        } else {
            self.length_counter.load_bits(value, self.enabled);
            self.envelope.start = true;
        }
        old
    }

    fn read_register(&self, n: u8) -> (r: u8)
        ensures
            r == self.register(n),
    {
        if n == 0 {
            self.envelope.read_bits()
        } else if n == 1 {
            0
        } else if n == 2 {
            self.sequencer.read_bits()
        } else {
            self.length_counter.read_bits()
        }
    }

    fn set_enabled(&mut self, value: bool)
        ensures
            *final(self) == (NoiseChannel {
                enabled: value,
                length_counter: if value { old(self).length_counter } else { LengthCounter { value: 0, ..old(self).length_counter } },
                ..*old(self)
            }),
    {
        if !value {
            self.length_counter.value = 0;
        }
        self.enabled = value
    }

    fn get_enabled(&self) -> (r: bool)
        ensures
            r == (self.enabled && self.length_counter.value != 0),
    {
        self.enabled && self.length_counter.value != 0
    }

    fn get_enabled_flag(&self) -> (r: u8)
        ensures
            r == SoundEnableFlags::Noise,
    {
        SoundEnableFlags::Noise
    }

    fn clock(&mut self, read_cycle: bool) -> (r: u8)
        ensures
            *final(self) == old(self).ticked(read_cycle),
            *final(self) == (NoiseChannel {
                frequency_timer: old(self).frequency_timer.clocked(read_cycle),
                sequencer: if old(self).frequency_timer.fires(read_cycle) { old(self).sequencer.advanced() } else { old(self).sequencer },
                ..*old(self)
            }),
            r == if final(self).enabled && final(self).sequencer.shift_register & 1 == 0 && final(self).length_counter.value != 0 {
                final(self).envelope.output
            } else {
                0
            },
    {
        if self.frequency_timer.clock(read_cycle) {
            self.sequencer.advance_position();
        }

        if self.enabled && self.sequencer.gate() && self.length_counter.gate() {
            self.envelope.output
        } else {
            0
        }
    }

    fn quarter_frame_clock(&mut self)
        ensures
            *final(self) == (NoiseChannel { envelope: old(self).envelope.clocked(), ..*old(self) }),
    {
        self.envelope.quarter_frame_clock();
    }

    fn half_frame_clock(&mut self)
        ensures
            *final(self) == (NoiseChannel { length_counter: old(self).length_counter.clocked(), ..*old(self) }),
    {
        self.length_counter.half_frame_clock();
    }
}

/// A 15-bit linear feedback shift register; mode selects the tap.
#[derive(Copy, Clone, PartialEq, Eq, Debug, Structural)]
pub struct NoiseSequencer {
    pub mode: bool,
    pub period_index: u8,
    pub shift_register: u16,
}

impl NoiseSequencer {
    /// The register shifts right, taking in bit 0 xor bit 1 (bit 6 in mode 1) at bit 14.
    pub open spec fn advanced(self) -> NoiseSequencer {
        let other_bit: u16 = if self.mode { 6 } else { 1 };
        let feedback = (self.shift_register ^ (self.shift_register >> other_bit)) & 1;
        NoiseSequencer { shift_register: (self.shift_register >> 1u16) | (feedback << 14u16), ..self }
    }

    pub open spec fn with_bits(self, value: u8) -> NoiseSequencer {
        NoiseSequencer { mode: value & 0x80 != 0, period_index: value & 0x0F, ..self }
    }

    pub open spec fn bits(self) -> u8 {
        (if self.mode { 0x80u8 } else { 0u8 }) | (self.period_index & 0x0F)
    }

    pub fn new() -> (r: NoiseSequencer)
        ensures
            r == (NoiseSequencer { mode: false, period_index: 0, shift_register: 1 }),
    {
        NoiseSequencer { mode: false, period_index: 0, shift_register: 1 }
    }

    pub fn load_bits(&mut self, value: u8)
        ensures
            *final(self) == old(self).with_bits(value),
            final(self).period_index < 16,
    {
        self.mode = value & 0b10000000 != 0;
        self.period_index = value & 0b00001111;
        assert(value & 0x0F < 16) by (bit_vector);
    }

    pub fn read_bits(&self) -> (r: u8)
        ensures
            r == self.bits(),
    {
        (if self.mode { 0b10000000 } else { 0 }) | (self.period_index & 0b00001111)
    }

    pub fn advance_position(&mut self)
        ensures
            *final(self) == old(self).advanced(),
    {
        let other_bit: u16 = if self.mode { 6 } else { 1 };
        let feedback = (self.shift_register ^ (self.shift_register >> other_bit)) & 1;

        self.shift_register = self.shift_register >> 1;
        self.shift_register = self.shift_register | (feedback << 14);
    }

    /// Open while bit 0 of the register is clear.
    pub fn gate(&self) -> (r: bool)
        ensures
            r == (self.shift_register & 1 == 0),
    {
        self.shift_register & 1 == 0
    }
}

} // verus!

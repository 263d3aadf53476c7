pub mod dmc;
pub mod noise;
pub mod pulse;
pub mod triangle;

use vstd::prelude::*;

verus! {

/// A sound channel of the APU: four registers, an enable bit and its clocks.
pub trait Channel {
    /// The channel's fields are in range.
    spec fn channel_wf(&self) -> bool;

    fn set_register(&mut self, n: u8, value: u8) -> (r: u8)
        requires
            n < 4,
            old(self).channel_wf(),
        ensures
            final(self).channel_wf(),
    ;

    fn read_register(&self, n: u8) -> (r: u8)
        requires
            n < 4,
    ;

    /// The bit of the status register that reports this channel.
    fn get_enabled_flag(&self) -> (r: u8);

    fn set_enabled(&mut self, value: bool)
        requires
            old(self).channel_wf(),
        ensures
            final(self).channel_wf(),
    ;

    fn get_enabled(&self) -> (r: bool);

    fn quarter_frame_clock(&mut self)
        requires
            old(self).channel_wf(),
        ensures
            final(self).channel_wf(),
    ;

    /// One APU cycle; returns the channel's output level.
    fn clock(&mut self, read_cycle: bool) -> (r: u8)
        requires
            old(self).channel_wf(),
        ensures
            final(self).channel_wf(),
    ;

    fn half_frame_clock(&mut self)
        requires
            old(self).channel_wf(),
        ensures
            final(self).channel_wf(),
    ;
}

/// The volume envelope of the pulse and noise channels: a constant volume, or a level
/// that decays from 15 at a rate set by the same four bits.
#[derive(Copy, Clone, PartialEq, Eq, Debug, Structural)]
pub struct Envelope {
    pub start: bool,
    pub divider: u8,
    pub loop_enable: bool,
    pub constant_volume: bool,
    pub decay_level: u8,
    pub period_or_volume: u8,
    pub output: u8,
}

impl Envelope {
    /// A quarter-frame clock: a started envelope restarts at 15; otherwise the divider
    /// counts down and, on reaching 0, reloads and steps the level down (back to 15 when
    /// looping).
    pub open spec fn clocked(self) -> Envelope {
        let (decay, divider) = if self.start {
            (15u8, 15u8)
        } else if self.divider == 0 {
            (if self.decay_level == 0 { if self.loop_enable { 15u8 } else { 0u8 } } else { (self.decay_level - 1) as u8 },
                self.period_or_volume)
        } else {
            (self.decay_level, (self.divider - 1) as u8)
        };
        Envelope {
            start: false,
            divider,
            decay_level: decay,
            output: if self.constant_volume { self.period_or_volume } else { decay },
            ..self
        }
    }

    pub open spec fn with_bits(self, value: u8) -> Envelope {
        Envelope {
            loop_enable: value & 0x20 != 0,
            constant_volume: value & 0x10 != 0,
            period_or_volume: value & 0x0F,
            ..self
        }
    }

    pub open spec fn bits(self) -> u8 {
        (if self.loop_enable { 0x20u8 } else { 0u8 }) | (if self.constant_volume { 0x10u8 } else { 0u8 })
            | (self.period_or_volume & 0x0F)
    }

    pub open spec fn new_spec() -> Envelope {
        Envelope {
            start: true,
            divider: 0,
            loop_enable: false,
            constant_volume: false,
            decay_level: 0,
            period_or_volume: 0,
            output: 0,
        }
    }

    pub fn new() -> (r: Envelope)
        ensures
            r == Envelope::new_spec(),
    {
        Envelope {
            start: true,
            divider: 0,
            loop_enable: false,
            constant_volume: false,
            decay_level: 0,
            period_or_volume: 0,
            output: 0,
        }
    }

    pub fn quarter_frame_clock(&mut self)
        ensures
            *final(self) == old(self).clocked(),
    {
        if self.start {
            self.start = false;
            self.decay_level = 15;
            self.divider = self.decay_level;
        } else if self.divider == 0 {
            self.divider = self.period_or_volume;
            if self.decay_level == 0 {
                if self.loop_enable {
                    self.decay_level = 15;
                }
            } else {
                self.decay_level = self.decay_level - 1;
            }
        } else {
            self.divider = self.divider - 1;
        }

        self.output = if self.constant_volume {
            self.period_or_volume
        } else {
            self.decay_level
        };
    }

    pub fn load_bits(&mut self, value: u8)
        ensures
            *final(self) == old(self).with_bits(value),
    {
        self.loop_enable = value & 0b00100000 != 0;
        self.constant_volume = value & 0b00010000 != 0;
        self.period_or_volume = value & 0b00001111;
    }

    pub fn read_bits(&self) -> (r: u8)
        ensures
            r == self.bits(),
    {
        (if self.loop_enable { 0b00100000 } else { 0 })
            | (if self.constant_volume { 0b00010000 } else { 0 })
            | (self.period_or_volume & 0b00001111)
    }
}

/// A down-counter that fires and reloads its 11-bit period when it passes 0; a timer
/// that runs every other clock skips read cycles.
#[derive(Copy, Clone, PartialEq, Eq, Debug, Structural)]
pub struct FrequencyTimer {
    pub every_other_clock: bool,
    pub period: u16,
    pub value: u16,
}

impl FrequencyTimer {
    /// Whether a clock with this cycle type moves the timer.
    pub open spec fn runs(self, read_cycle: bool) -> bool {
        !self.every_other_clock || !read_cycle
    }

    /// Whether a clock fires the timer.
    pub open spec fn fires(self, read_cycle: bool) -> bool {
        self.runs(read_cycle) && self.value == 0
    }

    pub open spec fn clocked(self, read_cycle: bool) -> FrequencyTimer {
        if !self.runs(read_cycle) {
            self
        } else if self.value == 0 {
            FrequencyTimer { value: self.period, ..self }
        } else {
            FrequencyTimer { value: (self.value - 1) as u16, ..self }
        }
    }

    pub fn new(every_other_clock: bool) -> (r: FrequencyTimer)
        ensures
            r == (FrequencyTimer { every_other_clock, period: 0, value: 0 }),
    {
        FrequencyTimer { every_other_clock, period: 0, value: 0 }
    }

    pub fn clock(&mut self, read_cycle: bool) -> (r: bool)
        ensures
            r == old(self).fires(read_cycle),
            *final(self) == old(self).clocked(read_cycle),
    {
        let mut result = false;
        if !self.every_other_clock || !read_cycle {
            if self.value == 0 {
                self.value = self.period;
                result = true;
            } else {
                self.value = self.value - 1;
            }
        }
        result
    }

    pub fn load_low_bits(&mut self, value: u8)
        ensures
            *final(self) == (FrequencyTimer { period: (old(self).period & 0xFF00) | (value as u16), ..*old(self) }),
    {
        self.period = (self.period & 0b1111111100000000) | value as u16
    }

    pub fn read_low_bits(&self) -> (r: u8)
        ensures
            r == (self.period & 0x00FF) as u8,
    {
        (self.period & 0b0000000011111111) as u8
    }

    pub fn load_high_bits(&mut self, value: u8)
        ensures
            *final(self) == (FrequencyTimer { period: (old(self).period & 0x00FF) | (((value & 0x07) as u16) << 8u16), ..*old(self) }),
    {
        self.period = (self.period & 0b0000000011111111) | (((value & 0b00000111) as u16) << 8);
    }

    pub fn read_high_bits(&self) -> (r: u8)
        ensures
            r == ((self.period >> 8u16) & 0x07) as u8,
    {
        ((self.period >> 8) & 0b00000111) as u8
    }
}

/// The lengths a write to a channel's fourth register selects, by the index in its
/// top five bits.
pub open spec fn length_table() -> Seq<u8> {
    seq![10u8, 254, 20, 2, 40, 4, 80, 6, 160, 8, 60, 10, 14, 12, 26, 14,
        12, 16, 24, 18, 48, 20, 96, 22, 192, 24, 72, 26, 16, 28, 32, 30]
}

pub fn length_lookup(index: u8) -> (r: u8)
    requires
        index < 32,
    ensures
        r == length_table()[index as int],
{
    match index {
        0 => 10, 1 => 254, 2 => 20, 3 => 2, 4 => 40, 5 => 4, 6 => 80, 7 => 6,
        8 => 160, 9 => 8, 10 => 60, 11 => 10, 12 => 14, 13 => 12, 14 => 26, 15 => 14,
        16 => 12, 17 => 16, 18 => 24, 19 => 18, 20 => 48, 21 => 20, 22 => 96, 23 => 22,
        24 => 192, 25 => 24, 26 => 72, 27 => 26, 28 => 16, 29 => 28, 30 => 32, _ => 30,
    }
}

/// Silences a channel when it counts down to 0, unless halted.
#[derive(Copy, Clone, PartialEq, Eq, Debug, Structural)]
pub struct LengthCounter {
    pub period_index: u8,
    pub value: u8,
    pub halted: bool,
}

impl LengthCounter {
    pub open spec fn wf(self) -> bool {
        self.period_index < 32
    }

    /// A half-frame clock: unless halted, an empty counter reloads from the table and
    /// a running one counts down.
    pub open spec fn clocked(self) -> LengthCounter {
        if self.halted {
            self
        } else if self.value == 0 {
            LengthCounter { value: length_table()[self.period_index as int], ..self }
        } else {
            LengthCounter { value: (self.value - 1) as u8, ..self }
        }
    }

    /// A write of the channel's fourth register: the top five bits select the length,
    /// which an enabled channel loads at once.
    pub open spec fn with_bits(self, value: u8, enabled: bool) -> LengthCounter {
        let index = (value & 0xF8) >> 3u8;
        LengthCounter {
            period_index: index,
            value: if enabled { length_table()[index as int] } else { self.value },
            ..self
        }
    }

    pub fn new() -> (r: LengthCounter)
        ensures
            r == (LengthCounter { period_index: 0, value: 0, halted: false }),
    {
        LengthCounter { period_index: 0, value: 0, halted: false }
    }

    pub fn half_frame_clock(&mut self)
        requires
            old(self).wf(),
        ensures
            *final(self) == old(self).clocked(),
    {
        if !self.halted {
            if self.value == 0 {
                self.value = length_lookup(self.period_index);
            } else {
                self.value = self.value - 1;
            }
        }
    }

    pub fn gate(&self) -> (r: bool)
        ensures
            r == (self.value != 0),
    {
        self.value != 0
    }

    pub fn load_halted_bits(&mut self, value: u8)
        ensures
            *final(self) == (LengthCounter { halted: value & 0x20 != 0, ..*old(self) }),
    {
        self.halted = value & 0b00100000 != 0;
    }

    pub fn load_period_index_bits(&mut self, value: u8)
        ensures
            *final(self) == (LengthCounter { period_index: (value & 0xF8) >> 3u8, ..*old(self) }),
            final(self).wf(),
    {
        self.period_index = (value & 0b11111000) >> 3;
        assert(((value & 0xF8) >> 3u8) < 32) by (bit_vector);
    }

    pub fn load_bits(&mut self, value: u8, enabled: bool)
        ensures
            *final(self) == old(self).with_bits(value, enabled),
            final(self).wf(),
    {
        self.load_period_index_bits(value);
        if enabled {
            self.value = length_lookup(self.period_index);
        }
    }

    pub fn read_period_index_bits(&self) -> (r: u8)
        ensures
            r == (self.period_index << 3u8) & 0xF8,
    {
        (self.period_index << 3) & 0b11111000
    }

    pub fn read_bits(&self) -> (r: u8)
        ensures
            r == (self.period_index << 3u8) & 0xF8,
    {
        self.read_period_index_bits()
    }
}

} // verus!

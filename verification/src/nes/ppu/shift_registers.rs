use vstd::prelude::*;

verus! {

/// A 16-bit background shift register with an 8-bit prefetch latch: the next tile's
/// byte waits in `prefetch` and is latched into the low half.
#[derive(Clone, Copy, PartialEq, Eq, Debug, Structural)]
pub struct BGShiftRegister {
    pub prefetch: u8,
    pub data: u16,
}

impl BGShiftRegister {
    /// Bit `n` counted from the top (the pixel `n` places ahead).
    pub open spec fn bit_at(self, n: u8) -> u16 {
        (self.data >> ((15 - n) as u16)) & 1
    }

    pub fn new() -> (r: BGShiftRegister)
        ensures
            r == (BGShiftRegister { prefetch: 0, data: 0 }),
    {
        BGShiftRegister { prefetch: 0, data: 0 }
    }

    pub fn load(&mut self, data: u8)
        ensures
            *final(self) == (BGShiftRegister { prefetch: data, ..*old(self) }),
    {
        self.prefetch = data;
    }

    pub fn latch(&mut self)
        ensures
            *final(self) == (BGShiftRegister { data: (old(self).data & 0xFF00) | (old(self).prefetch as u16), ..*old(self) }),
    {
        self.data = (self.data & 0b1111111100000000) | (self.prefetch as u16)
    }

    pub fn shift(&mut self)
        ensures
            *final(self) == (BGShiftRegister { data: old(self).data << 1u16, ..*old(self) }),
    {
        self.data = self.data << 1;
    }

    pub fn bit(&self, n: u8) -> (r: u16)
        requires
            n <= 15,
        ensures
            r == self.bit_at(n),
            r <= 1,
    {
        let r = (self.data >> (15 - n)) & 0b1;
        proof { crate::nes::ppu::shift_registers::lemma_bit_small(self.data, (15 - n) as u16); }
        r
    }
}

/// A shifted bit is 0 or 1.
pub proof fn lemma_bit_small(data: u16, s: u16)
    by (bit_vector)
    requires
        s <= 15,
    ensures
        (data >> s) & 1 <= 1,
        ((data >> s) & 1) << 1u16 <= 2,
{
}

/// The high-bit and low-bit registers of a two-bit value per pixel.
#[derive(Clone, Copy, PartialEq, Eq, Debug, Structural)]
pub struct BGShiftRegisterPair {
    pub high: BGShiftRegister,
    pub low: BGShiftRegister,
}

impl BGShiftRegisterPair {
    /// The two-bit value of pixel `fine_x`.
    pub open spec fn bits_at(self, fine_x: u8) -> u16 {
        (self.high.bit_at(fine_x) << 1u16) | self.low.bit_at(fine_x)
    }

    pub fn new() -> (r: BGShiftRegisterPair)
        ensures
            r == (BGShiftRegisterPair { high: BGShiftRegister { prefetch: 0, data: 0 }, low: BGShiftRegister { prefetch: 0, data: 0 } }),
    {
        BGShiftRegisterPair { high: BGShiftRegister::new(), low: BGShiftRegister::new() }
    }

    pub fn load_high(&mut self, data: u8)
        ensures
            *final(self) == (BGShiftRegisterPair { high: BGShiftRegister { prefetch: data, ..old(self).high }, ..*old(self) }),
    {
        self.high.load(data);
    }

    pub fn load_low(&mut self, data: u8)
        ensures
            *final(self) == (BGShiftRegisterPair { low: BGShiftRegister { prefetch: data, ..old(self).low }, ..*old(self) }),
    {
        self.low.load(data);
    }

    pub fn latch(&mut self)
        ensures
            final(self).high == (BGShiftRegister { data: (old(self).high.data & 0xFF00) | (old(self).high.prefetch as u16), ..old(self).high }),
            final(self).low == (BGShiftRegister { data: (old(self).low.data & 0xFF00) | (old(self).low.prefetch as u16), ..old(self).low }),
    {
        self.high.latch();
        self.low.latch();
    }

    pub fn shift(&mut self)
        ensures
            final(self).high == (BGShiftRegister { data: old(self).high.data << 1u16, ..old(self).high }),
            final(self).low == (BGShiftRegister { data: old(self).low.data << 1u16, ..old(self).low }),
    {
        self.high.shift();
        self.low.shift();
    }

    pub fn bits(&self, fine_x: u8) -> (r: u16)
        requires
            fine_x <= 15,
        ensures
            r == self.bits_at(fine_x),
    {
        (self.high.bit(fine_x) << 1) | self.low.bit(fine_x)
    }
}

/// The background shifters: pattern bits, palette bits, and the nametable byte that
/// names the next tile.
#[derive(Clone, Copy, PartialEq, Eq, Debug, Structural)]
pub struct BGShiftRegisterSet {
    pub pattern_data: BGShiftRegisterPair,
    pub attribute_data: BGShiftRegisterPair,
    pub name_table_data: u8,
}

impl BGShiftRegisterSet {
    pub open spec fn new_spec() -> BGShiftRegisterSet {
        let zero = BGShiftRegister { prefetch: 0, data: 0 };
        BGShiftRegisterSet {
            pattern_data: BGShiftRegisterPair { high: zero, low: zero },
            attribute_data: BGShiftRegisterPair { high: zero, low: zero },
            name_table_data: 0,
        }
    }

    /// Every shifter moved one pixel on.
    pub open spec fn shifted(self) -> BGShiftRegisterSet {
        BGShiftRegisterSet {
            pattern_data: BGShiftRegisterPair {
                high: BGShiftRegister { data: self.pattern_data.high.data << 1u16, ..self.pattern_data.high },
                low: BGShiftRegister { data: self.pattern_data.low.data << 1u16, ..self.pattern_data.low },
            },
            attribute_data: BGShiftRegisterPair {
                high: BGShiftRegister { data: self.attribute_data.high.data << 1u16, ..self.attribute_data.high },
                low: BGShiftRegister { data: self.attribute_data.low.data << 1u16, ..self.attribute_data.low },
            },
            ..self
        }
    }

    /// Every prefetched byte latched into the low half of its shifter.
    pub open spec fn latched(self) -> BGShiftRegisterSet {
        BGShiftRegisterSet {
            pattern_data: BGShiftRegisterPair {
                high: BGShiftRegister {
                    data: (self.pattern_data.high.data & 0xFF00) | (self.pattern_data.high.prefetch as u16),
                    ..self.pattern_data.high
                },
                low: BGShiftRegister {
                    data: (self.pattern_data.low.data & 0xFF00) | (self.pattern_data.low.prefetch as u16),
                    ..self.pattern_data.low
                },
            },
            attribute_data: BGShiftRegisterPair {
                high: BGShiftRegister {
                    data: (self.attribute_data.high.data & 0xFF00) | (self.attribute_data.high.prefetch as u16),
                    ..self.attribute_data.high
                },
                low: BGShiftRegister {
                    data: (self.attribute_data.low.data & 0xFF00) | (self.attribute_data.low.prefetch as u16),
                    ..self.attribute_data.low
                },
            },
            ..self
        }
    }

    /// The palette bits of the attribute byte `data` for the quadrant at `shift` waiting
    /// to be latched, spread over the next eight pixels.
    pub open spec fn attribute_loaded(self, data: u8, shift: u8) -> BGShiftRegisterSet {
        let bits = (data >> shift) & 0x03;
        BGShiftRegisterSet {
            attribute_data: BGShiftRegisterPair {
                high: BGShiftRegister { prefetch: if bits & 0x02 != 0 { 0xFFu8 } else { 0u8 }, ..self.attribute_data.high },
                low: BGShiftRegister { prefetch: if bits & 0x01 != 0 { 0xFFu8 } else { 0u8 }, ..self.attribute_data.low },
            },
            ..self
        }
    }

    /// `000 H RRRR CCCC 0 YYY`: the pattern row of the named tile.
    pub open spec fn pattern_address(self, background_high: bool, fine_y: u8) -> u16 {
        (if background_high { 0x1000u16 } else { 0x0000u16 }) | ((self.name_table_data as u16) << 4u16) | ((fine_y & 0x07) as u16)
    }

    /// The palette and color of pixel `fine_x`; a transparent pixel has palette 0.
    pub open spec fn palette_and_color(self, fine_x: u8) -> (u16, u16) {
        let color = self.pattern_data.bits_at(fine_x);
        (if color == 0 { 0 } else { self.attribute_data.bits_at(fine_x) }, color)
    }

    pub fn new() -> (r: BGShiftRegisterSet)
        ensures
            r == BGShiftRegisterSet::new_spec(),
    {
        BGShiftRegisterSet {
            pattern_data: BGShiftRegisterPair::new(),
            attribute_data: BGShiftRegisterPair::new(),
            name_table_data: 0,
        }
    }

    pub fn shift(&mut self)
        ensures
            *final(self) == old(self).shifted(),
            final(self).pattern_data.high == (BGShiftRegister { data: old(self).pattern_data.high.data << 1u16, ..old(self).pattern_data.high }),
            final(self).pattern_data.low == (BGShiftRegister { data: old(self).pattern_data.low.data << 1u16, ..old(self).pattern_data.low }),
            final(self).attribute_data.high == (BGShiftRegister { data: old(self).attribute_data.high.data << 1u16, ..old(self).attribute_data.high }),
            final(self).attribute_data.low == (BGShiftRegister { data: old(self).attribute_data.low.data << 1u16, ..old(self).attribute_data.low }),
            final(self).name_table_data == old(self).name_table_data,
    {
        self.attribute_data.shift();
        self.pattern_data.shift();
    }

    pub fn latch(&mut self)
        ensures
            *final(self) == old(self).latched(),
            final(self).pattern_data.high.data == (old(self).pattern_data.high.data & 0xFF00) | (old(self).pattern_data.high.prefetch as u16),
            final(self).pattern_data.low.data == (old(self).pattern_data.low.data & 0xFF00) | (old(self).pattern_data.low.prefetch as u16),
            final(self).attribute_data.high.data == (old(self).attribute_data.high.data & 0xFF00) | (old(self).attribute_data.high.prefetch as u16),
            final(self).attribute_data.low.data == (old(self).attribute_data.low.data & 0xFF00) | (old(self).attribute_data.low.prefetch as u16),
            final(self).pattern_data.high.prefetch == old(self).pattern_data.high.prefetch,
            final(self).pattern_data.low.prefetch == old(self).pattern_data.low.prefetch,
            final(self).attribute_data.high.prefetch == old(self).attribute_data.high.prefetch,
            final(self).attribute_data.low.prefetch == old(self).attribute_data.low.prefetch,
            final(self).name_table_data == old(self).name_table_data,
    {
        self.pattern_data.latch();
        self.attribute_data.latch();
    }

    pub fn load_pattern_data_high(&mut self, data: u8)
        ensures
            *final(self) == (BGShiftRegisterSet {
                pattern_data: BGShiftRegisterPair { high: BGShiftRegister { prefetch: data, ..old(self).pattern_data.high }, ..old(self).pattern_data },
                ..*old(self)
            }),
    {
        self.pattern_data.load_high(data);
    }

    pub fn load_pattern_data_low(&mut self, data: u8)
        ensures
            *final(self) == (BGShiftRegisterSet {
                pattern_data: BGShiftRegisterPair { low: BGShiftRegister { prefetch: data, ..old(self).pattern_data.low }, ..old(self).pattern_data },
                ..*old(self)
            }),
    {
        self.pattern_data.load_low(data);
    }

    pub fn load_name_table_data(&mut self, data: u8)
        ensures
            *final(self) == (BGShiftRegisterSet { name_table_data: data, ..*old(self) }),
    {
        self.name_table_data = data;
    }

    /// Loads the two palette bits the attribute byte holds for the quadrant at `shift`,
    /// spread over the next eight pixels.
    pub fn load_attribute_data(&mut self, data: u8, attribute_data_shift: u8)
        requires
            attribute_data_shift < 8,
        ensures
            ({
                let bits = (data >> attribute_data_shift) & 0x03;
                *final(self) == (BGShiftRegisterSet {
                    attribute_data: BGShiftRegisterPair {
                        high: BGShiftRegister { prefetch: if bits & 0x02 != 0 { 0xFFu8 } else { 0u8 }, ..old(self).attribute_data.high },
                        low: BGShiftRegister { prefetch: if bits & 0x01 != 0 { 0xFFu8 } else { 0u8 }, ..old(self).attribute_data.low },
                    },
                    ..*old(self)
                })
            }),
    {
        let bits = (data >> attribute_data_shift) & 0b11;
        self.attribute_data.load_high(if bits & 0b10 != 0 { 0xFF } else { 0 });
        self.attribute_data.load_low(if bits & 0b01 != 0 { 0xFF } else { 0 });
    }

    pub fn get_pattern_address(&self, background_high: bool, fine_y: u8) -> (r: u16)
        ensures
            r == self.pattern_address(background_high, fine_y),
    {
        (if background_high { 0x1000 } else { 0x0000 }) | ((self.name_table_data as u16) << 4) | ((fine_y & 0b00000111) as u16)
    }

    pub fn get_pixel_color_number(&self, fine_x: u8) -> (r: u16)
        requires
            fine_x <= 15,
        ensures
            r == self.pattern_data.bits_at(fine_x),
    {
        self.pattern_data.bits(fine_x)
    }

    pub fn get_pallete_number(&self, fine_x: u8) -> (r: u16)
        requires
            fine_x <= 15,
        ensures
            r == self.attribute_data.bits_at(fine_x),
    {
        self.attribute_data.bits(fine_x)
    }

    pub fn get_palette_number_and_color(&self, fine_x: u8) -> (r: (u16, u16))
        requires
            fine_x <= 15,
        ensures
            r == self.palette_and_color(fine_x),
    {
        let pixel_color_number = self.get_pixel_color_number(fine_x);
        let palette_number = if pixel_color_number == 0 { 0 } else { self.get_pallete_number(fine_x) };
        (palette_number, pixel_color_number)
    }

    /// The palette RAM entry of background pixel `fine_x`: `0x3F00 | palette << 2 | color`,
    /// so every transparent pixel reads the backdrop entry `0x3F00`.
    pub fn get_palette_address(&self, fine_x: u8) -> (r: u16)
        requires
            fine_x <= 15,
        ensures
            r == (0x3F00u16 | (self.palette_and_color(fine_x).0 << 2u16) | self.palette_and_color(fine_x).1),
    {
        let (palette_number, color) = self.get_palette_number_and_color(fine_x);
        0x3F00 | (palette_number << 2) | color
    }
}

} // verus!

use vstd::prelude::*;

use crate::nes::apu::channels::pulse::add16;

verus! {

/// The PPU's VRAM address register, laid out as the scroll position it also holds:
///
/// `0 yyy V H YYYYY XXXXX`: fine Y, the vertical and horizontal nametable selects,
/// coarse Y and coarse X; the low three bits of X scroll sit apart in `fine_x`.
#[derive(Clone, Copy, PartialEq, Eq, Debug, Structural)]
pub struct VramAddress {
    pub register: u16,
    pub fine_x: u8,
}

impl VramAddress {
    pub open spec fn coarse_x(self) -> u8 {
        (self.register & 0x001F) as u8
    }

    pub open spec fn coarse_y(self) -> u8 {
        ((self.register & 0x03E0) >> 5u16) as u8
    }

    pub open spec fn fine_y(self) -> u8 {
        ((self.register & 0x7000) >> 12u16) as u8
    }

    pub open spec fn horizontal_nametable(self) -> bool {
        self.register & 0x0400 != 0
    }

    pub open spec fn vertical_nametable(self) -> bool {
        self.register & 0x0800 != 0
    }

    pub open spec fn nametable_bits(self) -> u8 {
        ((self.register & 0x0C00) >> 10u16) as u8
    }

    /// The X scroll: coarse X and fine X.
    pub open spec fn x(self) -> u8 {
        (self.coarse_x() << 3u8) | self.fine_x
    }

    /// The Y scroll: coarse Y and fine Y.
    pub open spec fn y(self) -> u8 {
        (self.coarse_y() << 3u8) | self.fine_y()
    }

    pub open spec fn address_high(self) -> u8 {
        ((self.register & 0x3F00) >> 8u16) as u8
    }

    pub open spec fn address_low(self) -> u8 {
        (self.register & 0x00FF) as u8
    }

    /// The register with `x` as its X scroll.
    pub open spec fn with_x(self, x: u8) -> VramAddress {
        VramAddress { register: (self.register & !0x001Fu16) | (((x >> 3u8) & 0x1F) as u16), fine_x: x & 0x07 }
    }

    /// The register with `y` as its Y scroll.
    pub open spec fn with_y(self, y: u8) -> VramAddress {
        let r = (self.register & !0x7000u16) | (((y & 0x07) as u16) << 12u16);
        VramAddress { register: (r & !0x03E0u16) | ((((y >> 3u8) & 0x1F) as u16) << 5u16), ..self }
    }

    pub open spec fn with_horizontal_nametable(self, value: bool) -> VramAddress {
        VramAddress { register: if value { self.register | 0x0400 } else { self.register & !0x0400u16 }, ..self }
    }

    pub open spec fn with_vertical_nametable(self, value: bool) -> VramAddress {
        VramAddress { register: if value { self.register | 0x0800 } else { self.register & !0x0800u16 }, ..self }
    }

    /// Coarse X moves one tile right; past the last tile it wraps into the other
    /// horizontal nametable.
    pub open spec fn coarse_x_incremented(self) -> VramAddress {
        if self.coarse_x() == 31 {
            VramAddress { register: self.register & !0x001Fu16, ..self }.with_horizontal_nametable(!self.horizontal_nametable())
        } else {
            VramAddress { register: (self.register & !0x001Fu16) | ((((self.coarse_x() + 1) as u8) & 0x1F) as u16), ..self }
        }
    }

    /// Y moves one line down; past line 239 (or 255, past the attribute rows) it wraps
    /// into the other vertical nametable.
    pub open spec fn y_incremented(self) -> VramAddress {
        let y = self.y();
        if y == 239 || y == 255 {
            self.with_y(0).with_vertical_nametable(!self.vertical_nametable())
        } else {
            self.with_y((y + 1) as u8)
        }
    }

    /// The nametable byte for the current tile: `0010 NN YYYYY XXXXX`.
    pub open spec fn nametable_address(self) -> u16 {
        0x2000 | (self.register & 0x0FFF)
    }

    /// The attribute byte for the current tile: `0010 NN 1111 YYY XXX`.
    pub open spec fn attribute_address(self) -> u16 {
        0x2000 | (self.register & 0x0C00) | 0x03C0 | ((self.register >> 4u16) & 0x0038) | ((self.register >> 2u16) & 0x0007)
    }

    pub open spec fn attribute_shift(x: u8, y: u8) -> u8 {
        ((y >> 2u8) & 0x04) | ((x >> 3u8) & 0x02)
    }

    pub fn new() -> (r: VramAddress)
        ensures
            r == (VramAddress { register: 0, fine_x: 0 }),
    {
        VramAddress { register: 0, fine_x: 0 }
    }

    pub fn get_horizontal_nametable_selected(&self) -> (r: bool)
        ensures
            r == self.horizontal_nametable(),
    {
        self.register & 0b0000010000000000 != 0
    }

    pub fn set_horizontal_nametable_selected(&mut self, value: bool) -> (r: bool)
        ensures
            r == old(self).horizontal_nametable(),
            *final(self) == old(self).with_horizontal_nametable(value),
    {
        let old = self.get_horizontal_nametable_selected();
        self.register = if value {
            self.register | 0b0000010000000000
        } else {
            self.register & !0b0000010000000000
        };
        old
    }

    pub fn get_vertical_nametable_selected(&self) -> (r: bool)
        ensures
            r == self.vertical_nametable(),
    {
        self.register & 0b0000100000000000 != 0
    }

    pub fn set_vertical_nametable_selected(&mut self, value: bool) -> (r: bool)
        ensures
            r == old(self).vertical_nametable(),
            *final(self) == old(self).with_vertical_nametable(value),
    {
        let old = self.get_vertical_nametable_selected();
        self.register = if value {
            self.register | 0b0000100000000000
        } else {
            self.register & !0b0000100000000000
        };
        old
    }

    pub fn get_x(&self) -> (r: u8)
        ensures
            r == self.x(),
    {
        (self.get_coarse_x() << 3) | self.fine_x
    }

    pub fn set_x(&mut self, x: u8) -> (r: u8)
        ensures
            r == old(self).x(),
            *final(self) == old(self).with_x(x),
    {
        let old = self.get_x();
        self.set_coarse_x(x >> 3);
        self.fine_x = x & 0b00000111;
        old
    }

    pub fn get_coarse_x(&self) -> (r: u8)
        ensures
            r == self.coarse_x(),
    {
        (self.register & 0b0000000000011111) as u8
    }

    pub fn set_coarse_x(&mut self, x: u8) -> (r: u8)
        ensures
            r == old(self).coarse_x(),
            *final(self) == (VramAddress { register: (old(self).register & !0x001Fu16) | ((x & 0x1F) as u16), ..*old(self) }),
    {
        let result = self.get_coarse_x();
        self.register = (self.register & !0b0000000000011111) | ((x & 0b00011111) as u16);
        result
    }

    pub fn get_y(&self) -> (r: u8)
        ensures
            r == self.y(),
    {
        (self.get_coarse_y() << 3) | self.get_fine_y()
    }

    pub fn set_y(&mut self, y: u8) -> (r: u8)
        ensures
            r == old(self).y(),
            *final(self) == old(self).with_y(y),
    {
        let old = self.get_y();
        self.set_fine_y(y);
        self.set_coarse_y(y >> 3);
        old
    }

    pub fn get_coarse_y(&self) -> (r: u8)
        ensures
            r == self.coarse_y(),
    {
        ((self.register & 0b0000001111100000) >> 5) as u8
    }

    pub fn set_coarse_y(&mut self, y: u8) -> (r: u8)
        ensures
            r == old(self).coarse_y(),
            *final(self) == (VramAddress { register: (old(self).register & !0x03E0u16) | (((y & 0x1F) as u16) << 5u16), ..*old(self) }),
    {
        let result = self.get_coarse_y();
        self.register = (self.register & !0b0000001111100000) | (((y & 0b00011111) as u16) << 5);
        result
    }

    pub fn get_fine_y(&self) -> (r: u8)
        ensures
            r == self.fine_y(),
    {
        ((self.register & 0b0111000000000000) >> 12) as u8
    }

    pub fn set_fine_y(&mut self, y: u8)
        ensures
            *final(self) == (VramAddress { register: (old(self).register & !0x7000u16) | (((y & 0x07) as u16) << 12u16), ..*old(self) }),
    {
        self.register = (self.register & !0b0111000000000000) | (((y & 0b00000111) as u16) << 12)
    }

    pub fn get_address_high(&self) -> (r: u8)
        ensures
            r == self.address_high(),
    {
        ((self.register & 0b0011111100000000) >> 8) as u8
    }

    pub fn set_address_high(&mut self, data: u8) -> (r: u8)
        ensures
            r == old(self).address_high(),
            *final(self) == (VramAddress { register: (old(self).register & !0x3F00u16) | (((data & 0x3F) as u16) << 8u16), ..*old(self) }),
    {
        let result = self.get_address_high();
        self.register = (self.register & !0b0011111100000000) | (((data & 0b00111111) as u16) << 8);
        result
    }

    pub fn get_address_low(&self) -> (r: u8)
        ensures
            r == self.address_low(),
    {
        (self.register & 0b0000000011111111) as u8
    }

    pub fn set_address_low(&mut self, data: u8) -> (r: u8)
        ensures
            r == old(self).address_low(),
            *final(self) == (VramAddress { register: (old(self).register & !0x00FFu16) | (data as u16), ..*old(self) }),
    {
        let result = self.get_address_low();
        self.register = (self.register & !0b0000000011111111) | (data as u16);
        result
    }

    pub fn increment_coarse_x(&mut self)
        ensures
            *final(self) == old(self).coarse_x_incremented(),
    {
        let coarse_x = self.get_coarse_x();
        proof { lemma_nametable_select_apart(old(self).register); }
        if coarse_x == 31 {
            self.set_coarse_x(0);
            let h = self.get_horizontal_nametable_selected();
            self.set_horizontal_nametable_selected(!h);
        } else {
            self.set_coarse_x(coarse_x.wrapping_add(1));
        }
    }

    pub fn increment_y(&mut self)
        ensures
            *final(self) == old(self).y_incremented(),
    {
        let y = self.get_y();
        if y == 239 || y == 255 {
            self.set_y(0);
            let v = self.get_vertical_nametable_selected();
            self.set_vertical_nametable_selected(!v);
            proof { lemma_nametable_select_apart(old(self).register); }
        } else {
            self.set_y(y.wrapping_add(1));
        }
    }

    pub fn copy_x_from(&mut self, other: &VramAddress)
        ensures
            *final(self) == old(self).with_x(other.x()).with_horizontal_nametable(other.horizontal_nametable()),
    {
        self.set_x(other.get_x());
        self.set_horizontal_nametable_selected(other.get_horizontal_nametable_selected());
    }

    pub fn copy_y_from(&mut self, other: &VramAddress)
        ensures
            *final(self) == old(self).with_y(other.y()).with_vertical_nametable(other.vertical_nametable()),
    {
        self.set_y(other.get_y());
        self.set_vertical_nametable_selected(other.get_vertical_nametable_selected());
    }

    pub fn get_nametable_bits(&self) -> (r: u8)
        ensures
            r == self.nametable_bits(),
    {
        ((self.register & 0b0000110000000000) >> 10) as u8
    }

    pub fn set_nametable_bits(&mut self, bits: u8)
        ensures
            *final(self) == (VramAddress { register: (old(self).register & !0x0C00u16) | (((bits & 0x03) as u16) << 10u16), ..*old(self) }),
    {
        self.register = (self.register & !0b0000110000000000) | (((bits & 0b00000011) as u16) << 10);
    }

    pub fn inc_address(&mut self, ammount: u16)
        ensures
            *final(self) == (VramAddress { register: add16(old(self).register, ammount), ..*old(self) }),
    {
        self.register = self.register.wrapping_add(ammount);
    }

    pub fn get_nametable_address(&self) -> (r: u16)
        ensures
            r == self.nametable_address(),
    {
        0x2000 | (self.register & 0b0000111111111111)
    }

    pub fn get_attribute_address(&self) -> (r: u16)
        ensures
            r == self.attribute_address(),
    {
        0x2000 | (self.register & 0b0000110000000000) | 0b0000001111000000
            | ((self.register >> 4) & 0b0000000000111000) | ((self.register >> 2) & 0b0000000000000111)
    }

    /// Attribute bytes cover 32x32-pixel areas of four 16x16 quadrants; the shift that
    /// brings a quadrant's two bits down is 0, 2, 4 or 6.
    pub fn compute_attribute_shift(x: u8, y: u8) -> (r: u8)
        ensures
            r == VramAddress::attribute_shift(x, y),
    {
        ((y >> 2) & 0b100) | ((x >> 3) & 0b010)
    }

    pub fn get_attribute_shift(&self) -> (r: u8)
        ensures
            r == VramAddress::attribute_shift(self.x(), self.y()),
    {
        VramAddress::compute_attribute_shift(self.get_x(), self.get_y())
    }
}

/// The coarse X and fine Y fields lie apart from the nametable selects.
proof fn lemma_nametable_select_apart(reg: u16)
    by (bit_vector)
    ensures
        ((reg & !0x001Fu16) | ((0u8 & 0x1F) as u16)) & 0x0400 == reg & 0x0400,
        ((reg & !0x001Fu16) | ((0u8 & 0x1F) as u16)) == reg & !0x001Fu16,
        (reg & 0x001F) as u8 <= 31,
        ((((reg & !0x7000u16) | (((0u8 & 0x07) as u16) << 12u16)) & !0x03E0u16) | ((((0u8 >> 3u8) & 0x1F) as u16) << 5u16)) & 0x0800
            == reg & 0x0800,
{
}

} // verus!

verus! {

/// The fields of the register, each written and read back.
proof fn lemma_vram_fields(reg: u16, fine: u8, v: u8, hi: u8, lo: u8)
    by (bit_vector)
    ensures
        (((((reg & !0x001Fu16) | (((v >> 3u8) & 0x1F) as u16)) & 0x001F) as u8) << 3u8) | (v & 0x07) == v,
        (((reg & !0x001Fu16) | (((v >> 3u8) & 0x1F) as u16)) & 0x03E0) == reg & 0x03E0,
        (((reg & !0x001Fu16) | (((v >> 3u8) & 0x1F) as u16)) & 0x7000) == reg & 0x7000,
        (((reg & !0x001Fu16) | (((v >> 3u8) & 0x1F) as u16)) & 0x0C00) == reg & 0x0C00,
        ({
            let r = (((reg & !0x7000u16) | (((v & 0x07) as u16) << 12u16)) & !0x03E0u16) | ((((v >> 3u8) & 0x1F) as u16) << 5u16);
            &&& ((((r & 0x03E0) >> 5u16) as u8) << 3u8) | (((r & 0x7000) >> 12u16) as u8) == v
            &&& r & 0x001F == reg & 0x001F
            &&& r & 0x0C00 == reg & 0x0C00
        }),
        ({
            let r = (((reg & !0x3F00u16) | (((hi & 0x3F) as u16) << 8u16)) & !0x00FFu16) | (lo as u16);
            r == (((hi & 0x3F) as u16) << 8u16) | (lo as u16) | (reg & 0xC000)
        }),
{
}

/// Writing the X scroll and reading it back gives what was written, and leaves the Y
/// scroll and the nametable selects as they were.
pub proof fn law_x_written_read_back(v: VramAddress, x: u8)
    ensures
        v.with_x(x).x() == x,
        v.with_x(x).y() == v.y(),
        v.with_x(x).nametable_bits() == v.nametable_bits(),
{
    lemma_vram_fields(v.register, v.fine_x, x, 0, 0);
}

/// Writing the Y scroll and reading it back gives what was written, and leaves the X
/// scroll and the nametable selects as they were.
pub proof fn law_y_written_read_back(v: VramAddress, y: u8)
    ensures
        v.with_y(y).y() == y,
        v.with_y(y).x() == v.x(),
        v.with_y(y).nametable_bits() == v.nametable_bits(),
{
    lemma_vram_fields(v.register, v.fine_x, y, 0, 0);
}

/// Writing the high and then the low byte of an address sets the register to the
/// 14-bit address they make (the top bit of the register, unused, stays).
pub proof fn law_address_written(v: VramAddress, hi: u8, lo: u8)
    ensures
        ({
            let a = VramAddress { register: (v.register & !0x3F00u16) | (((hi & 0x3F) as u16) << 8u16), ..v };
            let b = VramAddress { register: (a.register & !0x00FFu16) | (lo as u16), ..a };
            b.register == (((hi & 0x3F) as u16) << 8u16) | (lo as u16) | (v.register & 0xC000)
        }),
{
    lemma_vram_fields(v.register, v.fine_x, 0, hi, lo);
}

} // verus!

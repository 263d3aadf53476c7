use vstd::prelude::*;

use crate::bits::lemma_byte_pair_bits;

verus! {

/// Object attribute memory: four bytes per sprite (Y, tile, attributes, X), read and
/// written through an address register that wraps at the table's end.
pub struct OAMData<const SIZE: usize> {
    pub addr: u8,
    pub table: Vec<u8>,
    pub read_enabled: bool,
    pub write_enabled: bool,
    pub addr_mask: u8,
    pub has_sprite0: bool,
}

/// What an OAM holds: its address, its bytes, whether reads and writes are on, its
/// address mask and whether it holds sprite 0.
pub ghost struct OamState {
    pub addr: u8,
    pub table: Seq<u8>,
    pub read_enabled: bool,
    pub write_enabled: bool,
    pub addr_mask: u8,
    pub has_sprite0: bool,
}

impl OamState {
    /// What a read of the data port gives.
    pub open spec fn data(self) -> u8 {
        if self.read_enabled { self.table[self.addr as int] } else { 0xFF }
    }

    /// What a read of byte `a` gives.
    pub open spec fn byte(self, a: int) -> u8 {
        if self.read_enabled { self.table[a] } else { 0xFF }
    }

    /// The address loaded with `addr`.
    pub open spec fn at(self, addr: u8) -> OamState {
        OamState { addr: addr & self.addr_mask, ..self }
    }

    /// The address stepped on.
    pub open spec fn inc(self) -> OamState {
        OamState { addr: next_byte(self.addr) & self.addr_mask, ..self }
    }

    /// `data` written at the address, where writes are on.
    pub open spec fn written(self, data: u8) -> OamState {
        OamState { table: if self.write_enabled { self.table.update(self.addr as int, data) } else { self.table }, ..self }
    }
}

impl<const SIZE: usize> View for OAMData<SIZE> {
    type V = OamState;

    open spec fn view(&self) -> OamState {
        OamState {
            addr: self.addr,
            table: self.table@,
            read_enabled: self.read_enabled,
            write_enabled: self.write_enabled,
            addr_mask: self.addr_mask,
            has_sprite0: self.has_sprite0,
        }
    }
}

/// Small OAM addresses: zero masked stays zero, and an address under 128 passes the
/// secondary OAM's mask.
pub proof fn lemma_oam_addr(x: u8)
    by (bit_vector)
    ensures
        0u8 & x == 0,
        x < 128 ==> x & 127 == x,
{
}

impl<const SIZE: usize> OAMData<SIZE> {
    /// Checks `wf`.
    pub fn is_wf(&self) -> (r: bool)
        ensures
            r == self.wf(),
    {
        1 <= SIZE && SIZE <= 256 && self.table.len() == SIZE && SIZE >= 1 && self.addr_mask as usize == SIZE - 1
            && (self.addr as usize) < SIZE
    }

    pub open spec fn wf(&self) -> bool {
        &&& 1 <= SIZE <= 256
        &&& self.table@.len() == SIZE
        &&& self.addr_mask as int == SIZE - 1
        &&& self.addr < SIZE
    }

    /// What a read of the data port gives: the addressed byte, or 0xFF while reads are
    /// off.
    pub open spec fn data(&self) -> u8 {
        if self.read_enabled { self.table@[self.addr as int] } else { 0xFF }
    }

    /// Everything but the address.
    pub open spec fn same_but_addr(&self, other: &Self) -> bool {
        &&& self.table@ == other.table@
        &&& self.read_enabled == other.read_enabled
        &&& self.write_enabled == other.write_enabled
        &&& self.addr_mask == other.addr_mask
        &&& self.has_sprite0 == other.has_sprite0
    }

    pub fn new() -> (r: OAMData<SIZE>)
        requires
            1 <= SIZE <= 256,
        ensures
            r.wf(),
            r.addr == 0,
            r.table@ == Seq::new(SIZE as nat, |i: int| 0u8),
            r.read_enabled,
            r.write_enabled,
            !r.has_sprite0,
    {
        let r = OAMData { addr: 0, table: vec![0; SIZE], read_enabled: true, write_enabled: true, addr_mask: (SIZE - 1) as u8, has_sprite0: false };
        assert(r.table@ =~= Seq::new(SIZE as nat, |i: int| 0u8));
        r
    }

    pub fn load_addr(&mut self, addr: u8) -> (r: u8)
        requires
            old(self).wf(),
        ensures
            final(self).wf(),
            r == old(self).addr,
            final(self).addr == addr & old(self).addr_mask,
            final(self).same_but_addr(old(self)),
    {
        let old = self.addr;
        self.addr = addr & self.addr_mask;
        proof { lemma_byte_pair_bits(addr, self.addr_mask); }
        old
    }

    pub fn inc_addr(&mut self)
        requires
            old(self).wf(),
        ensures
            final(self).wf(),
            final(self).addr == next_byte(old(self).addr) & old(self).addr_mask,
            final(self).same_but_addr(old(self)),
    {
        let next = self.addr.wrapping_add(1);
        self.addr = next & self.addr_mask;
        proof { lemma_byte_pair_bits(next, self.addr_mask); }
    }

    pub fn write_data(&mut self, data: u8) -> (r: u8)
        requires
            old(self).wf(),
        ensures
            final(self).wf(),
            r == old(self).table@[old(self).addr as int],
            final(self).table@ == if old(self).write_enabled { old(self).table@.update(old(self).addr as int, data) } else { old(self).table@ },
            final(self).addr == old(self).addr,
            final(self).read_enabled == old(self).read_enabled,
            final(self).write_enabled == old(self).write_enabled,
            final(self).addr_mask == old(self).addr_mask,
            final(self).has_sprite0 == old(self).has_sprite0,
    {
        let old = self.table[self.addr as usize];
        if self.write_enabled {
            self.table.set(self.addr as usize, data);
        }
        old
    }

    pub fn read_data(&self) -> (r: u8)
        requires
            self.wf(),
        ensures
            r == self.data(),
    {
        if self.read_enabled {
            self.table[self.addr as usize]
        } else {
            0xFF
        }
    }

    pub fn is_full(&self) -> (r: bool)
        requires
            self.wf(),
        ensures
            r == (self.addr as int == SIZE - 1),
    {
        self.addr as usize == SIZE - 1
    }
}

/// A sprite on the scanline being drawn: its OAM bytes, its X counter and its two
/// pattern shift registers.
#[derive(Clone, Copy, PartialEq, Eq, Debug, Structural)]
pub struct SpriteRowData {
    pub y: u8,
    pub tile_id: u8,
    pub attributes: u8,
    pub x: i16,
    pub sprite0: bool,

    pub pattern_high: u8,
    pub pattern_low: u8,
}

impl SpriteRowData {
    pub open spec fn new_spec() -> SpriteRowData {
        SpriteRowData { y: 0xFF, tile_id: 0xFF, attributes: 0xFF, x: 0xFF, sprite0: false, pattern_high: 0xFF, pattern_low: 0xFF }
    }

    /// The sprite's X counter has reached it and it has pixels left: `-8 < x <= 0`.
    pub open spec fn is_live(self) -> bool {
        -8 < self.x && self.x <= 0
    }

    /// The two-bit color of the sprite's next pixel.
    pub open spec fn color(self) -> u16 {
        (((self.pattern_high >> 6u8) & 0x02) | ((self.pattern_low >> 7u8) & 0x01)) as u16
    }

    /// The sprite's next pixel: palette 4-7, and its color.
    pub open spec fn palette_and_color(self) -> (u16, u16) {
        let color = self.color();
        (0x04 | (if color == 0 { 0u16 } else { (self.attributes & 0x03) as u16 }), color)
    }

    /// The pattern row this sprite shows on line `y`, with the bit plane 0.
    pub open spec fn pattern_address(self, large_sprite_mode: bool, sprite_high_mode: bool, y: u16) -> u16 {
        let offset = sub16(y, self.y as u16);
        let sprite_high = if large_sprite_mode { offset > 7 } else { sprite_high_mode };
        let offset = if self.attributes & 0x80 != 0 { sub16(if large_sprite_mode { 15 } else { 7 }, offset) } else { offset };
        (if sprite_high { 0x1000u16 } else { 0x0000u16 }) | ((self.tile_id as u16) << 4u16) | (offset & 0x07)
    }

    /// One pixel: a sprite whose counter has not run out counts down, shifting its
    /// pattern while live.
    pub open spec fn shifted(self) -> SpriteRowData {
        if self.x != 255 {
            SpriteRowData {
                pattern_high: if self.is_live() { self.pattern_high << 1u8 } else { self.pattern_high },
                pattern_low: if self.is_live() { self.pattern_low << 1u8 } else { self.pattern_low },
                x: (self.x - 1) as i16,
                ..self
            }
        } else {
            self
        }
    }

    pub fn new() -> (r: SpriteRowData)
        ensures
            r == SpriteRowData::new_spec(),
    {
        SpriteRowData { y: 0xFF, tile_id: 0xFF, attributes: 0xFF, x: 0xFF, sprite0: false, pattern_high: 0xFF, pattern_low: 0xFF }
    }

    pub fn get_pattern_address(&self, large_sprite_mode: bool, sprite_high_mode: bool, y: u16) -> (r: u16)
        ensures
            r == self.pattern_address(large_sprite_mode, sprite_high_mode, y),
    {
        let mut y_offset = y.wrapping_sub(self.y as u16);

        let sprite_high = if large_sprite_mode { y_offset > 7 } else { sprite_high_mode };

        if self.get_vertical_flip() {
            let max_sprite_height: u16 = if large_sprite_mode { 15 } else { 7 };
            y_offset = max_sprite_height.wrapping_sub(y_offset);
        }

        (if sprite_high { 0x1000 } else { 0x0000 }) | ((self.tile_id as u16) << 4) | (y_offset & 0b00000111)
    }

    pub fn get_palette_number_and_color(&self) -> (r: (u16, u16))
        ensures
            r == self.palette_and_color(),
    {
        let pixel_color_number = self.get_pixel_color_number();
        let palette_number = if pixel_color_number == 0 { 0 } else { self.get_pallete_number() };
        (0b0100 | palette_number, pixel_color_number)
    }

    pub fn get_pallete_number(&self) -> (r: u16)
        ensures
            r == (self.attributes & 0x03) as u16,
    {
        (self.attributes & 0b11) as u16
    }

    pub fn get_pixel_color_number(&self) -> (r: u16)
        ensures
            r == self.color(),
    {
        (((self.pattern_high >> 6) & 0b10) | ((self.pattern_low >> 7) & 0b01)) as u16
    }

    /// True when the background is drawn in front of the sprite.
    pub fn get_bg_priority(&self) -> (r: bool)
        ensures
            r == (self.attributes & 0x20 != 0),
    {
        self.attributes & 0b00100000 != 0
    }

    pub fn get_horizontal_flip(&self) -> (r: bool)
        ensures
            r == (self.attributes & 0x40 != 0),
    {
        self.attributes & 0b01000000 != 0
    }

    pub fn get_vertical_flip(&self) -> (r: bool)
        ensures
            r == (self.attributes & 0x80 != 0),
    {
        self.attributes & 0b10000000 != 0
    }

    pub fn shift(&mut self)
        requires
            old(self).x > i16::MIN,
        ensures
            *final(self) == old(self).shifted(),
    {
        if self.x != 255 {
            if self.live() {
                self.pattern_high = self.pattern_high << 1;
                self.pattern_low = self.pattern_low << 1;
            }
            self.x = self.x - 1;
        }
    }

    pub fn live(&self) -> (r: bool)
        ensures
            r == self.is_live(),
    {
        -8 < self.x && self.x <= 0
    }

    pub fn set_pattern_high(&mut self, data: u8)
        ensures
            *final(self) == (SpriteRowData {
                pattern_high: if old(self).attributes & 0x40 != 0 { reversed(data) } else { data },
                ..*old(self)
            }),
    {
        self.pattern_high = if self.get_horizontal_flip() { SpriteRowData::reverse_byte(data) } else { data }
    }

    pub fn set_pattern_low(&mut self, data: u8)
        ensures
            *final(self) == (SpriteRowData {
                pattern_low: if old(self).attributes & 0x40 != 0 { reversed(data) } else { data },
                ..*old(self)
            }),
    {
        self.pattern_low = if self.get_horizontal_flip() { SpriteRowData::reverse_byte(data) } else { data }
    }

    /// The sprite with pattern byte `data` loaded into its low plane (reversed when
    /// flipped horizontally).
    pub open spec fn with_pattern_low(self, data: u8) -> SpriteRowData {
        SpriteRowData { pattern_low: if self.attributes & 0x40 != 0 { reversed(data) } else { data }, ..self }
    }

    /// The sprite with pattern byte `data` loaded into its high plane.
    pub open spec fn with_pattern_high(self, data: u8) -> SpriteRowData {
        SpriteRowData { pattern_high: if self.attributes & 0x40 != 0 { reversed(data) } else { data }, ..self }
    }

    /// The byte with its bit order reversed, for horizontally flipped sprites.
    pub fn reverse_byte(b: u8) -> (r: u8)
        ensures
            r == reversed(b),
    {
        let b = (b & 0xF0) >> 4 | (b & 0x0F) << 4;
        let b = (b & 0xCC) >> 2 | (b & 0x33) << 2;
        (b & 0xAA) >> 1 | (b & 0x55) << 1
    }
}

/// `b + 1` in 8 bits, wrapping.
pub open spec fn next_byte(b: u8) -> u8 {
    if b == 255 { 0 } else { (b + 1) as u8 }
}

/// `a - b` in 16 bits, wrapping.
pub open spec fn sub16(a: u16, b: u16) -> u16 {
    if a >= b { (a - b) as u16 } else { (a - b + 0x10000) as u16 }
}

/// A byte with its bits in reverse order, by swapping nibbles, then pairs, then bits.
pub open spec fn reversed(b: u8) -> u8 {
    let b = (b & 0xF0) >> 4u8 | (b & 0x0F) << 4u8;
    let b = (b & 0xCC) >> 2u8 | (b & 0x33) << 2u8;
    (b & 0xAA) >> 1u8 | (b & 0x55) << 1u8
}

/// Reversing a byte's bits puts bit `i` at bit `7 - i`.
/// The pattern row a sprite shows on line `y`: row `y - sprite.y` of its tile, counted
/// from the bottom instead (of 8 rows, or of 16 in 8x16 mode) when the sprite is
/// flipped vertically (attribute bit 7).
pub proof fn law_sprite_pattern_row(s: SpriteRowData, large: bool, sprite_high_mode: bool, y: u16)
    ensures
        s.attributes & 0x80 == 0 ==> s.pattern_address(large, sprite_high_mode, y) & 7 == sub16(y, s.y as u16) & 7,
        s.attributes & 0x80 != 0 && !large ==> s.pattern_address(large, sprite_high_mode, y) & 7
            == sub16(7, sub16(y, s.y as u16)) & 7,
        s.attributes & 0x80 != 0 && large ==> s.pattern_address(large, sprite_high_mode, y) & 7
            == sub16(15, sub16(y, s.y as u16)) & 7,
{
    let offset = sub16(y, s.y as u16);
    let high = if large { offset > 7 } else { sprite_high_mode };
    crate::bits::lemma_pattern_row_bits(high, s.tile_id as u16, offset);
    crate::bits::lemma_pattern_row_bits(high, s.tile_id as u16, sub16(7, offset));
    crate::bits::lemma_pattern_row_bits(high, s.tile_id as u16, sub16(15, offset));
}

pub proof fn law_reversed_bits(b: u8)
    by (bit_vector)
    ensures
        reversed(b) & 0x80 != 0 <==> b & 0x01 != 0,
        reversed(b) & 0x01 != 0 <==> b & 0x80 != 0,
        reversed(b) & 0x40 != 0 <==> b & 0x02 != 0,
        reversed(reversed(b)) == b,
{
}

/// The eight sprites of the scanline being drawn.
#[derive(Clone, Copy, Debug)]
pub struct SpriteRowSet {
    pub sprite_data: [SpriteRowData; 8],
    pub sprite_number: usize,
    pub write_enabled: bool,
}

impl SpriteRowSet {
    pub open spec fn wf(&self) -> bool {
        self.sprite_number < 8
    }

    /// No sprite's counter is about to wrap.
    pub open spec fn can_shift(&self) -> bool {
        forall|i: int| 0 <= i < 8 ==> #[trigger] self.sprite_data@[i].x > i16::MIN
    }

    /// Checks `wf` and `can_shift`.
    pub fn ready(&self) -> (r: bool)
        ensures
            r == (self.wf() && self.can_shift()),
    {
        if self.sprite_number >= 8 {
            return false;
        }
        let mut i: usize = 0;
        while i < 8
            invariant
                i <= 8,
                forall|j: int| 0 <= j < i ==> #[trigger] self.sprite_data@[j].x > i16::MIN,
            decreases 8 - i,
        {
            if self.sprite_data[i].x == i16::MIN {
                return false;
            }
            i = i + 1;
        }
        true
    }

    /// The first sprite, in OAM order, whose next pixel is live and not transparent.
    pub open spec fn first_opaque_index(&self) -> Option<int> {
        if exists|i: int| 0 <= i < 8 && #[trigger] self.sprite_data@[i].is_live() && self.sprite_data@[i].color() != 0 {
            Some(choose|i: int| 0 <= i < 8 && #[trigger] self.sprite_data@[i].is_live() && self.sprite_data@[i].color() != 0
                && forall|j: int| 0 <= j < i ==> !(#[trigger] self.sprite_data@[j].is_live() && self.sprite_data@[j].color() != 0))
        } else {
            None
        }
    }

    pub fn new() -> (r: SpriteRowSet)
        ensures
            r.wf(),
            r.can_shift(),
            forall|i: int| 0 <= i < 8 ==> #[trigger] r.sprite_data@[i] == SpriteRowData::new_spec(),
            r.sprite_number == 0,
            r.write_enabled,
    {
        SpriteRowSet { sprite_data: [SpriteRowData::new(); 8], sprite_number: 0, write_enabled: true }
    }

    pub fn set_current_sprite(&mut self, n: usize)
        requires
            n < 8,
        ensures
            final(self).wf(),
            final(self).sprite_data == old(self).sprite_data,
            final(self).sprite_number == n,
            final(self).write_enabled == old(self).write_enabled,
    {
        self.sprite_number = n;
    }

    pub fn inc_sprite(&mut self)
        requires
            old(self).wf(),
        ensures
            final(self).wf(),
            final(self).sprite_data == old(self).sprite_data,
            final(self).sprite_number == (old(self).sprite_number + 1) % 8,
            final(self).write_enabled == old(self).write_enabled,
    {
        let n = self.sprite_number + 1;
        self.sprite_number = n & 0b00000111;
        assert(n & 7 == n % 8) by (bit_vector);
    }

    pub fn shift(&mut self)
        requires
            old(self).can_shift(),
        ensures
            forall|i: int| 0 <= i < 8 ==> #[trigger] final(self).sprite_data@[i] == old(self).sprite_data@[i].shifted(),
            final(self).sprite_number == old(self).sprite_number,
            final(self).write_enabled == old(self).write_enabled,
    {
        let mut i: usize = 0;
        while i < 8
            invariant
                i <= 8,
                old(self).can_shift(),
                self.sprite_number == old(self).sprite_number,
                self.write_enabled == old(self).write_enabled,
                forall|j: int| 0 <= j < i ==> #[trigger] self.sprite_data@[j] == old(self).sprite_data@[j].shifted(),
                forall|j: int| i <= j < 8 ==> #[trigger] self.sprite_data@[j] == old(self).sprite_data@[j],
            decreases 8 - i,
        {
            let mut s = self.sprite_data[i];
            s.shift();
            self.sprite_data[i] = s;
            i = i + 1;
        }
    }

    pub fn first_opaque(&self) -> (r: Option<SpriteRowData>)
        ensures
            r == match self.first_opaque_index() {
                Some(i) => Some(self.sprite_data@[i]),
                None => None::<SpriteRowData>,
            },
    {
        let mut i: usize = 0;
        while i < 8
            invariant
                i <= 8,
                forall|j: int| 0 <= j < i ==> !(#[trigger] self.sprite_data@[j].is_live() && self.sprite_data@[j].color() != 0),
            decreases 8 - i,
        {
            let s = self.sprite_data[i];
            if s.live() && s.get_pixel_color_number() != 0 {
                proof {
                    let k = i as int;
                    assert(self.sprite_data@[k].is_live() && self.sprite_data@[k].color() != 0);
                    let c = choose|c: int| 0 <= c < 8 && #[trigger] self.sprite_data@[c].is_live() && self.sprite_data@[c].color() != 0
                        && forall|j: int| 0 <= j < c ==> !(#[trigger] self.sprite_data@[j].is_live() && self.sprite_data@[j].color() != 0);
                    if c < k {
                        assert(!(self.sprite_data@[c].is_live() && self.sprite_data@[c].color() != 0));
                    }
                    if c > k {
                        assert(!(self.sprite_data@[k].is_live() && self.sprite_data@[k].color() != 0));
                    }
                    assert(c == k);
                }
                return Some(s);
            }
            i = i + 1;
        }
        None
    }
}

} // verus!

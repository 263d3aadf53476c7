pub mod flags;

use vstd::prelude::*;

use crate::bus::{bus_read, bus_write, Bus, Device};
use crate::nes::apu::channels::pulse::add16;
use crate::nes::ppu::vram_address::VramAddress;
use crate::ppu::flags::{CtrlFlag, MaskFlag, StatusFlag};
use crate::ram::RAM;

verus! {

pub const CPU_ADDR_START: u16 = 0x2000;
pub const CPU_ADDR_END: u16 = 0x3FFF;
pub const PALETTE_START: u16 = 0x3000;
pub const PALETTE_END: u16 = 0xFFFF;
pub const PALETTE_SIZE: usize = 0x1000;
pub const PALETTE_MASK: u16 = 0x0FFF;
pub const OAM_SIZE: usize = 0x0100;
pub const SCREEN_WIDTH: usize = 256;
pub const SCREEN_HEIGHT: usize = 240;

/// The attribute byte this PPU fetches for the tile of `v`:
/// `0010 0N 1111 YYY XXX`, where only the low bit of the vertical nametable select
/// reaches the address.
pub open spec fn attribute_address(v: VramAddress) -> u16 {
    0x2000 | (v.register & 0x0600) | 0x03C0 | ((v.register >> 4u16) & 0x0038) | ((v.register >> 2u16) & 0x0007)
}

/// The first picture processing unit: the CPU-facing registers, the frame timing with
/// its status flags and NMI, the scroll counters, and a background fetch that draws
/// one pixel per dot. Pixels go to `frame`, one NES color per pixel, row by row.
pub struct PPU {
    pub frame: Vec<u8>,
    pub ctrl_high_register: u8,
    pub mask_register: u8,
    pub status_register: u8,
    pub oam_addr: u8,
    pub data_buffer: u8,
    pub last_read_buffer: u8,
    pub bus: Bus,
    pub oam_table: [u8; OAM_SIZE],
    pub pallettes: [u8; PALETTE_SIZE],
    pub scan_line: i16,
    pub tick: u16,

    pub nmi_requested: bool,
    pub even_frame: bool,

    pub write_toggle: bool,
    pub vram_address: VramAddress,
    pub temporary_vram_address: VramAddress,
}

impl PPU {
    pub open spec fn wf(&self) -> bool {
        &&& self.bus.wf()
        &&& self.frame@.len() == SCREEN_WIDTH * SCREEN_HEIGHT
        &&& -1 <= self.scan_line <= 260
        &&& self.tick <= 340
        &&& self.temporary_vram_address.fine_x <= 7
    }

    /// The control register as it reads: the high bits kept here and the nametable
    /// select held in the temporary address.
    pub open spec fn ctrl(&self) -> u8 {
        self.ctrl_high_register | self.temporary_vram_address.nametable_bits()
    }

    pub open spec fn ctrl_flag(&self, flag: CtrlFlag) -> bool {
        self.ctrl() & flag.value() != 0
    }

    pub open spec fn mask_flag(&self, flag: MaskFlag) -> bool {
        self.mask_register & flag.value() != 0
    }

    pub open spec fn status_flag(&self, flag: StatusFlag) -> bool {
        self.status_register & flag.value() != 0
    }

    /// Background or sprites are shown.
    pub open spec fn rendering(&self) -> bool {
        self.mask_register & (MaskFlag::ShowBG.value() | MaskFlag::ShowSprites.value()) != 0
    }

    /// The VRAM address step of a data port access: 32 (down a row) or 1 (across).
    pub open spec fn vram_step(&self) -> u16 {
        if self.ctrl_flag(CtrlFlag::IncrementAcross) { 32 } else { 1 }
    }

    /// The vram address after a data port access.
    pub open spec fn stepped(&self) -> VramAddress {
        VramAddress { register: add16(self.vram_address.register, self.vram_step()), ..self.vram_address }
    }

    /// The pattern row the background fetch reads: the pattern table half the control
    /// register selects, tile 0, the fine Y row.
    pub open spec fn pattern_address(&self) -> u16 {
        (if self.ctrl_flag(CtrlFlag::BackgroundPatternHigh) { 0x1000u16 } else { 0x0000u16 })
            | (self.vram_address.fine_y() as u16)
    }

    /// What the background fetch of this dot brings in: the attribute byte at dots
    /// 4, 12, ... (but 340), the high pattern plane at dots 8, 16, ... and the low plane
    /// at dots 6, 14, ... (outside the sprite fetch, dots 261-320); 0 otherwise.
    pub open spec fn fetched(&self) -> (u8, u8, u8) {
        let t = self.tick;
        let pattern_time = t < 261 || t > 320;
        if t == 0 {
            (0, 0, 0)
        } else if t % 8 == 0 && pattern_time {
            (0, bus_read(self.bus@, self.pattern_address() | 0x0008), 0)
        } else if t % 8 == 4 && t != 340 {
            (bus_read(self.bus@, attribute_address(self.vram_address)), 0, 0)
        } else if t % 8 == 6 && pattern_time {
            (0, 0, bus_read(self.bus@, self.pattern_address()))
        } else {
            (0, 0, 0)
        }
    }

    /// The color of the pixel drawn at this dot: the palette of the pixel's 64x64
    /// quadrant in the attribute byte, the color number from the pattern bits that
    /// fine X selects, and the palette RAM entry they address.
    pub open spec fn pixel_color(&self) -> u8 {
        let (attribute, high, low) = self.fetched();
        let x = self.tick;
        let y = self.scan_line as u16;
        let shift: u8 = ((if (y >> 6u16) & 1 == 1 { 4int } else { 0int }) + (if (x >> 6u16) & 1 == 1 { 2int } else { 0int })) as u8;
        let palette = (attribute >> shift) & 3;
        let rotation = (7 - self.temporary_vram_address.fine_x) as u8;
        let number = (((high >> rotation) & 1) << 1u8) | ((low >> rotation) & 1);
        bus_read(self.bus@, 0x3F00u16 | ((palette as u16) << 2u16) | (number as u16))
    }

    /// The frame after this dot: a visible dot gets its pixel.
    pub open spec fn rendered(&self) -> Seq<u8> {
        if self.tick < 256 && 0 <= self.scan_line < 240 {
            self.frame@.update(self.scan_line * 256 + self.tick, self.pixel_color())
        } else {
            self.frame@
        }
    }

    /// How the scroll position moves at a dot of a rendered line: coarse X every eight
    /// dots, Y at dot 256, X back from the temporary address at 257, Y back during the
    /// pre-render line's dots 280-304, and the first two tiles of the next line at 328
    /// and 336.
    pub open spec fn scrolled(&self) -> VramAddress {
        let t = self.tick;
        let v = self.vram_address;
        if 1 <= t && t < 256 && t % 8 == 0 {
            v.coarse_x_incremented()
        } else if t == 256 {
            v.coarse_x_incremented().y_incremented()
        } else if t == 257 {
            v.with_x(self.temporary_vram_address.x()).with_horizontal_nametable(self.temporary_vram_address.horizontal_nametable())
        } else if self.scan_line == -1 && 280 <= t && t <= 304 {
            v.with_y(self.temporary_vram_address.y()).with_vertical_nametable(self.temporary_vram_address.vertical_nametable())
        } else if t == 328 || t == 336 {
            v.coarse_x_incremented()
        } else {
            v
        }
    }

    /// The status register and the NMI request after the status step of a dot: all
    /// flags clear at the pre-render line, dot 1; vertical blank rises at line 241, dot
    /// 1, and requests an NMI when NMIs are enabled.
    pub open spec fn status_after(&self) -> (u8, bool) {
        if self.scan_line == -1 && self.tick == 1 {
            (0, self.nmi_requested)
        } else if self.scan_line == 241 && self.tick == 1 {
            (self.status_register | StatusFlag::VerticalBlank.value(), self.nmi_requested || self.ctrl_flag(CtrlFlag::NmiEnabled))
        } else {
            (self.status_register, self.nmi_requested)
        }
    }

    /// The dot, line and frame parity after one cycle: the pre-render line of an odd
    /// frame skips its last dot when rendering; after dot 340 comes the next line, and
    /// after line 260 the pre-render line (-1) of the next frame.
    pub open spec fn ticked(&self) -> (u16, i16, bool) {
        let skip = self.scan_line == -1 && self.tick == 339 && !self.even_frame && self.rendering();
        let tick = if skip { 341 } else { self.tick + 1 };
        if tick == 341 {
            if self.scan_line + 1 == 261 {
                (0, -1i16, !self.even_frame)
            } else {
                (0, (self.scan_line + 1) as i16, self.even_frame)
            }
        } else {
            (tick as u16, self.scan_line, self.even_frame)
        }
    }

    /// What a read of a register gives back and leaves: write-only registers give the
    /// data latch; the status register its flags over the low bits of the last value
    /// seen, clearing vertical blank and the write toggle; OAM data the byte at the OAM
    /// address; the data port the buffered byte (palette reads come at once), stepping
    /// the VRAM address. The answer is remembered as the last value seen.
    pub open spec fn register_read(&self, addr: u16) -> (u8, PPU) {
        if addr == 0x2002 {
            let result = self.status_register | (self.last_read_buffer & 0x1F);
            (result, PPU {
                write_toggle: false,
                data_buffer: result,
                status_register: self.status_register & !StatusFlag::VerticalBlank.value(),
                last_read_buffer: result,
                ..*self
            })
        } else if addr == 0x2004 {
            let result = self.oam_table@[self.oam_addr as int];
            (result, PPU { data_buffer: result, last_read_buffer: result, ..*self })
        } else if addr == 0x2007 {
            let v = self.vram_address.register;
            if PALETTE_START <= v && v < PALETTE_END {
                let result = bus_read(self.bus@, v & PALETTE_MASK);
                (result, PPU { data_buffer: result, last_read_buffer: result, vram_address: self.stepped(), ..*self })
            } else {
                let result = self.data_buffer;
                (result, PPU {
                    data_buffer: bus_read(self.bus@, v),
                    last_read_buffer: result,
                    vram_address: self.stepped(),
                    ..*self
                })
            }
        } else {
            (self.data_buffer, PPU { last_read_buffer: self.data_buffer, ..*self })
        }
    }

    /// The control register after `data` is written to it.
    pub open spec fn with_ctrl(&self, data: u8) -> PPU {
        PPU {
            ctrl_high_register: data & 0xFC,
            temporary_vram_address: VramAddress {
                register: (self.temporary_vram_address.register & !0x0C00u16) | (((data & 0x03) as u16) << 10u16),
                ..self.temporary_vram_address
            },
            ..*self
        }
    }

    /// What a write of `data` to a register gives back and leaves, apart from the bus;
    /// every write puts `data` in the data latch and the last value seen.
    pub open spec fn register_write(&self, addr: u16, data: u8) -> (u8, PPU) {
        let o = PPU { data_buffer: data, last_read_buffer: data, ..*self };
        if addr == 0x2000 {
            let nmi = o.status_flag(StatusFlag::VerticalBlank) && o.ctrl() & CtrlFlag::NmiEnabled.value() != 0
                && data & CtrlFlag::NmiEnabled.value() == 0;
            (o.ctrl(), PPU { nmi_requested: o.nmi_requested || nmi, ..o }.with_ctrl(data))
        } else if addr == 0x2001 {
            (o.mask_register, PPU { mask_register: data, ..o })
        } else if addr == 0x2002 {
            (0, o)
        } else if addr == 0x2003 {
            (o.oam_addr, PPU { oam_addr: data, ..o })
        } else if addr == 0x2004 {
            (o.oam_table@[o.oam_addr as int], PPU { oam_addr: if o.oam_addr == 255 { 0 } else { (o.oam_addr + 1) as u8 }, ..o })
        } else if addr == 0x2005 {
            if !o.write_toggle {
                (o.temporary_vram_address.x(), PPU { write_toggle: true, temporary_vram_address: o.temporary_vram_address.with_x(data), ..o })
            } else {
                (o.temporary_vram_address.y(), PPU { write_toggle: false, temporary_vram_address: o.temporary_vram_address.with_y(data), ..o })
            }
        } else if addr == 0x2006 {
            if !o.write_toggle {
                let t = VramAddress {
                    register: (o.temporary_vram_address.register & !0x3F00u16) | (((data & 0x3F) as u16) << 8u16),
                    ..o.temporary_vram_address
                };
                (o.temporary_vram_address.address_high(), PPU { write_toggle: true, temporary_vram_address: t, ..o })
            } else {
                let t = VramAddress { register: (o.temporary_vram_address.register & !0x00FFu16) | (data as u16), ..o.temporary_vram_address };
                (o.temporary_vram_address.address_low(), PPU {
                    write_toggle: false,
                    temporary_vram_address: t,
                    vram_address: VramAddress { register: t.register, ..o.vram_address },
                    ..o
                })
            }
        } else {
            (bus_read(self.bus@, self.data_port_address()), PPU { vram_address: o.stepped(), ..o })
        }
    }

    /// OAM after a write of `data` to a register: OAM data writes land at the OAM
    /// address while OAM is open, that is outside the visible lines or with rendering
    /// off.
    pub open spec fn oam_written(&self, addr: u16, data: u8) -> Seq<u8> {
        let writable = self.scan_line >= 240 || (!self.mask_flag(MaskFlag::ShowSprites) && !self.mask_flag(MaskFlag::ShowBG));
        if addr == 0x2004 && writable {
            self.oam_table@.update(self.oam_addr as int, data)
        } else {
            self.oam_table@
        }
    }

    /// Where the data port reaches on the PPU bus: palette space folds to its low 12
    /// bits.
    pub open spec fn data_port_address(&self) -> u16 {
        let v = self.vram_address.register;
        if PALETTE_START <= v && v < PALETTE_END { v & PALETTE_MASK } else { v }
    }
}

/// A register address the PPU answers: 0x2000-0x2007; the rest of 0x2008-0x3FFF is
/// not decoded.
pub open spec fn decoded(addr: u16) -> bool {
    !(0x2008 <= addr && addr <= CPU_ADDR_END)
}

/// The two pattern bits that fine X selects, and the palette bits of a quadrant placed
/// in a palette address, computed with masks and shifts.
proof fn lemma_pixel_bits(high: u8, low: u8, rotation: u8, attribute: u8, shift: u8)
    by (bit_vector)
    requires
        rotation < 8,
        shift < 8,
    ensures
        ((((high & (1u8 << rotation)) >> rotation) << 1u8) | ((low & (1u8 << rotation)) >> rotation))
            == ((((high >> rotation) & 1) << 1u8) | ((low >> rotation) & 1)),
        ((((attribute >> shift) & 3) << 2u8) as u16) == (((attribute >> shift) & 3) as u16) << 2u16,
{
}

impl PPU {
    pub fn new() -> (r: PPU)
        ensures
            r.wf(),
            r.bus@.len() == 0,
            r.ctrl_high_register == 0,
            r.mask_register == 0,
            r.status_register == 0,
            r.oam_addr == 0,
            r.data_buffer == 0,
            r.last_read_buffer == 0,
            r.scan_line == -1,
            r.tick == 0,
            !r.nmi_requested,
            r.even_frame,
            !r.write_toggle,
            r.vram_address == (VramAddress { register: 0, fine_x: 0 }),
            r.temporary_vram_address == (VramAddress { register: 0, fine_x: 0 }),
    {
        PPU {
            frame: vec![0; SCREEN_WIDTH * SCREEN_HEIGHT],
            bus: Bus::new(),
            oam_table: [0u8; 0x100],
            ctrl_high_register: 0,
            mask_register: 0,
            status_register: 0,
            oam_addr: 0,
            data_buffer: 0,
            last_read_buffer: 0,
            pallettes: [0u8; 0x1000],
            scan_line: -1,
            tick: 0,
            nmi_requested: false,
            even_frame: true,
            vram_address: VramAddress::new(),
            temporary_vram_address: VramAddress::new(),
            write_toggle: false,
        }
    }

    fn rendering_enabled(&self) -> (r: bool)
        ensures
            r == self.rendering(),
    {
        self.mask_register & (MaskFlag::ShowBG.bits() | MaskFlag::ShowSprites.bits()) != 0
    }

    pub fn add_device(&mut self, device: Device)
        requires
            old(self).wf(),
            device.wf(),
        ensures
            final(self).wf(),
            final(self).bus@ == old(self).bus@.push((Bus::range_of(device.model(), device), device.model())),
            *final(self) == (PPU { bus: final(self).bus, ..*old(self) }),
    {
        self.bus.add_device(device);
    }

    /// Back to the power-on registers, timing and scroll; OAM clears, the status, the
    /// data latches and the bus stay.
    pub fn reset(&mut self)
        requires
            old(self).wf(),
        ensures
            final(self).wf(),
            final(self).ctrl_high_register == 0,
            final(self).mask_register == 0,
            final(self).oam_addr == 0,
            forall|i: int| 0 <= i < OAM_SIZE ==> final(self).oam_table@[i] == 0,
            final(self).scan_line == -1,
            final(self).tick == 0,
            !final(self).nmi_requested,
            final(self).even_frame,
            !final(self).write_toggle,
            final(self).vram_address == (VramAddress { register: 0, fine_x: 0 }),
            final(self).temporary_vram_address == (VramAddress { register: 0, fine_x: 0 }),
            *final(self) == (PPU {
                ctrl_high_register: 0,
                mask_register: 0,
                oam_addr: 0,
                oam_table: final(self).oam_table,
                scan_line: -1i16,
                tick: 0,
                nmi_requested: false,
                even_frame: true,
                write_toggle: false,
                vram_address: final(self).vram_address,
                temporary_vram_address: final(self).temporary_vram_address,
                ..*old(self)
            }),
    {
        self.ctrl_high_register = 0;
        self.mask_register = 0;
        self.oam_addr = 0;
        self.oam_table = [0u8; 0x100];
        self.scan_line = -1;
        self.tick = 0;
        self.nmi_requested = false;
        self.even_frame = true;
        self.write_toggle = false;
        self.vram_address = VramAddress::new();
        self.temporary_vram_address = VramAddress::new();
    }

    /// The attribute byte of the tile the VRAM address points at.
    fn get_attribute_address(&self) -> (r: u16)
        ensures
            r == attribute_address(self.vram_address),
    {
        let v = self.vram_address.register;
        0x2000 | (v & 0b000011000000000) | 0b0000001111000000 | ((v >> 4) & 0b0000000000111000) | ((v >> 2) & 0b0000000000000111)
    }

    /// One dot of the background fetch, and the pixel of a visible dot.
    fn render(&mut self)
        requires
            old(self).wf(),
        ensures
            final(self).wf(),
            final(self).frame@ == old(self).rendered(),
            final(self).bus@ == old(self).bus@,
            *final(self) == (PPU { frame: final(self).frame, bus: final(self).bus, ..*old(self) }),
    {
        let x = self.tick;
        let y = self.scan_line as u16;

        let mut attribute_entry: u8 = 0;
        let mut nametable_entry: u8 = 0;
        let mut pattern_low_entry: u8 = 0;
        let mut pattern_high_entry: u8 = 0;

        let nametable_address = self.vram_address.get_nametable_address();
        let attribute_address = self.get_attribute_address();
        let base: u16 = if self.read_ctrl_flag(CtrlFlag::BackgroundPatternHigh) { 0x1000 } else { 0x0000 };
        let fine_y = self.vram_address.get_fine_y();
        let pattern_address: u16 = base | ((nametable_entry as u16) << 4) | (fine_y as u16);
        assert(pattern_address == base | (fine_y as u16)) by (bit_vector)
            requires
                nametable_entry == 0,
                pattern_address == base | ((nametable_entry as u16) << 4u16) | (fine_y as u16);

        let ghost before = *self;
        let tick = self.tick;
        if tick > 0 {
            let phase = tick % 8;
            let pattern_time = tick < 261 || tick > 320;
            if phase == 0 && pattern_time {
                pattern_high_entry = self.read_ppu_bus(pattern_address | 0b00001000);
            } else if phase == 2 {
                nametable_entry = self.read_ppu_bus(nametable_address);
            } else if phase == 4 && tick != 340 {
                attribute_entry = self.read_ppu_bus(attribute_address);
            } else if phase == 4 && tick == 340 {
                nametable_entry = self.read_ppu_bus(nametable_address);
            } else if phase == 6 && pattern_time {
                pattern_low_entry = self.read_ppu_bus(pattern_address);
            }
        }
        assert((attribute_entry, pattern_high_entry, pattern_low_entry) == before.fetched());

        if x < 256 && self.scan_line >= 0 && y < 240 {
            let meta_tile_row = y >> 6;
            let meta_tile_column = x >> 6;
            let shifted = if meta_tile_column & 0b1 == 0 {
                if meta_tile_row & 0b1 == 0 { attribute_entry } else { attribute_entry >> 4 }
            } else {
                if meta_tile_row & 0b1 == 0 { attribute_entry >> 2 } else { attribute_entry >> 6 }
            };
            let pallette_number = shifted & 0b11;

            let bit_rotation: u8 = 7 - self.temporary_vram_address.fine_x;
            let bit_selection: u8 = 1 << bit_rotation;
            let pixel_number: u8 = (((pattern_high_entry & bit_selection) >> bit_rotation) << 1)
                | ((pattern_low_entry & bit_selection) >> bit_rotation);
            let pallette_address: u16 = 0x3F00 | ((pallette_number << 2) as u16) | (pixel_number as u16);
            proof {
                let shift: u8 = ((if (y >> 6u16) & 1 == 1 { 4int } else { 0int }) + (if (x >> 6u16) & 1 == 1 { 2int } else { 0int })) as u8;
                assert(shifted == attribute_entry >> shift) by (bit_vector)
                    requires
                        shift == ((if (y >> 6u16) & 1 == 1 { 4int } else { 0int }) + (if (x >> 6u16) & 1 == 1 { 2int } else { 0int })) as u8,
                        meta_tile_row == y >> 6u16,
                        meta_tile_column == x >> 6u16,
                        shifted == if meta_tile_column & 1 == 0 {
                            if meta_tile_row & 1 == 0 { attribute_entry } else { attribute_entry >> 4u8 }
                        } else {
                            if meta_tile_row & 1 == 0 { attribute_entry >> 2u8 } else { attribute_entry >> 6u8 }
                        };
                lemma_pixel_bits(pattern_high_entry, pattern_low_entry, bit_rotation, attribute_entry, shift);
            }
            let color = self.read_ppu_bus(pallette_address);
            self.frame.set((y as usize) * 256 + (x as usize), color);
        }
    }

    pub fn get_ctrl_flags(&self) -> (r: u8)
        ensures
            r == self.ctrl(),
    {
        self.ctrl_high_register | self.temporary_vram_address.get_nametable_bits()
    }

    /// Writes the control register: bits 0-1 go to the nametable select of the
    /// temporary address. Returns the previous value.
    pub fn set_ctrl_flags(&mut self, data: u8) -> (r: u8)
        ensures
            r == old(self).ctrl(),
            *final(self) == old(self).with_ctrl(data),
    {
        let old = self.get_ctrl_flags();
        self.ctrl_high_register = data & 0b11111100;
        self.temporary_vram_address.set_nametable_bits(data);
        old
    }

    pub fn set_ctrl_flag(&mut self, flag: CtrlFlag, value: bool)
        ensures
            *final(self) == old(self).with_ctrl(
                if value { old(self).ctrl() | flag.value() } else { old(self).ctrl() & !flag.value() },
            ),
    {
        if value {
            let f = self.get_ctrl_flags() | flag.bits();
            self.set_ctrl_flags(f);
        } else {
            let f = self.get_ctrl_flags() & !flag.bits();
            self.set_ctrl_flags(f);
        }
    }

    pub fn read_ctrl_flag(&self, flag: CtrlFlag) -> (r: bool)
        ensures
            r == self.ctrl_flag(flag),
    {
        (self.get_ctrl_flags() & flag.bits()) != 0
    }

    pub fn set_mask_flag(&mut self, flag: MaskFlag, value: bool)
        ensures
            *final(self) == (PPU {
                mask_register: if value { old(self).mask_register | flag.value() } else { old(self).mask_register & !flag.value() },
                ..*old(self)
            }),
    {
        if value {
            self.mask_register = self.mask_register | flag.bits();
        } else {
            self.mask_register = self.mask_register & !flag.bits();
        }
    }

    pub fn read_mask_flag(&self, flag: MaskFlag) -> (r: bool)
        ensures
            r == self.mask_flag(flag),
    {
        (self.mask_register & flag.bits()) != 0
    }

    pub fn set_status_flag(&mut self, flag: StatusFlag, value: bool)
        ensures
            *final(self) == (PPU {
                status_register: if value { old(self).status_register | flag.value() } else { old(self).status_register & !flag.value() },
                ..*old(self)
            }),
    {
        if value {
            self.status_register = self.status_register | flag.bits();
        } else {
            self.status_register = self.status_register & !flag.bits();
        }
    }

    pub fn read_status_flag(&self, flag: StatusFlag) -> (r: bool)
        ensures
            r == self.status_flag(flag),
    {
        (self.status_register & flag.bits()) != 0
    }

    fn read_ppu_bus(&mut self, addr: u16) -> (r: u8)
        requires
            old(self).bus.wf(),
        ensures
            r == bus_read(old(self).bus@, addr),
            final(self).bus.wf(),
            final(self).bus@ == old(self).bus@,
            *final(self) == (PPU { bus: final(self).bus, ..*old(self) }),
    {
        self.bus.peek(addr)
    }

    fn write_ppu_bus(&mut self, addr: u16, data: u8) -> (r: u8)
        requires
            old(self).bus.wf(),
        ensures
            r == bus_read(old(self).bus@, addr),
            final(self).bus.wf(),
            final(self).bus@ == bus_write(old(self).bus@, addr, data),
            *final(self) == (PPU { bus: final(self).bus, ..*old(self) }),
    {
        self.bus.write(addr, data)
    }

    fn inc_vram_addr(&mut self)
        ensures
            *final(self) == (PPU { vram_address: old(self).stepped(), ..*old(self) }),
    {
        let amount = if self.read_ctrl_flag(CtrlFlag::IncrementAcross) { 32 } else { 1 };
        self.vram_address.inc_address(amount);
    }
}

impl PPU {
    /// One PPU cycle: the status step, then on the pre-render and visible lines with
    /// rendering on the background fetch, the pixel and the scroll step, then the next
    /// dot. Returns whether an NMI fires: one was requested on this cycle or before and
    /// NMIs are enabled.
    pub fn clock(&mut self) -> (r: bool)
        requires
            old(self).wf(),
        ensures
            final(self).wf(),
            r == (old(self).status_after().1 && old(self).ctrl_flag(CtrlFlag::NmiEnabled)),
            final(self).status_register == old(self).status_after().0,
            !final(self).nmi_requested,
            (final(self).tick, final(self).scan_line, final(self).even_frame) == old(self).ticked(),
            final(self).frame@ == if old(self).rendering() && old(self).scan_line < 240 {
                old(self).rendered()
            } else {
                old(self).frame@
            },
            final(self).vram_address == if old(self).rendering() && old(self).scan_line < 240 {
                old(self).scrolled()
            } else {
                old(self).vram_address
            },
            final(self).bus@ == old(self).bus@,
            *final(self) == (PPU {
                frame: final(self).frame,
                bus: final(self).bus,
                status_register: final(self).status_register,
                nmi_requested: false,
                tick: final(self).tick,
                scan_line: final(self).scan_line,
                even_frame: final(self).even_frame,
                vram_address: final(self).vram_address,
                ..*old(self)
            }),
    {
        let ghost start = *self;
        if self.scan_line == -1 && self.tick == 1 {
            self.status_register = 0;
        } else if self.scan_line == 241 && self.tick == 1 {
            self.set_status_flag(StatusFlag::VerticalBlank, true);
            if self.read_ctrl_flag(CtrlFlag::NmiEnabled) {
                self.nmi_requested = true;
            }
        }
        assert((self.status_register, self.nmi_requested) == start.status_after());

        if self.rendering_enabled() && self.scan_line < 240 {
            self.render();
            let ghost rendered = *self;
            assert(rendered.scrolled() == start.scrolled());

            let t = self.tick;
            if 1 <= t && t < 256 && t % 8 == 0 {
                self.vram_address.increment_coarse_x();
            } else if t == 256 {
                self.vram_address.increment_coarse_x();
                self.vram_address.increment_y();
            } else if t == 257 {
                self.vram_address.copy_x_from(&self.temporary_vram_address);
            } else if self.scan_line == -1 && 280 <= t && t <= 304 {
                self.vram_address.copy_y_from(&self.temporary_vram_address);
            } else if t == 328 || t == 336 {
                self.vram_address.increment_coarse_x();
            }
        }

        if self.scan_line == -1 && self.tick == 339 && !self.even_frame && self.rendering_enabled() {
            self.tick = 340;
        }
        self.tick = self.tick + 1;
        if self.tick == 341 {
            self.tick = 0;
            self.scan_line = self.scan_line + 1;
            if self.scan_line == 261 {
                self.scan_line = -1;
                self.even_frame = !self.even_frame;
            }
        }

        if self.nmi_requested {
            self.nmi_requested = false;
            self.read_ctrl_flag(CtrlFlag::NmiEnabled)
        } else {
            false
        }
    }

    /// A CPU read of a PPU register: `None` outside 0x2000-0x3FFF, else the register's
    /// answer. Only 0x2000-0x2007 are decoded.
    pub fn read(&mut self, addr: u16) -> (r: Option<u8>)
        requires
            old(self).wf(),
            decoded(addr),
        ensures
            final(self).wf(),
            final(self).bus@ == old(self).bus@,
            if CPU_ADDR_START <= addr && addr <= CPU_ADDR_END {
                &&& r == Some(old(self).register_read(addr).0)
                &&& *final(self) == (PPU { bus: final(self).bus, ..old(self).register_read(addr).1 })
            } else {
                &&& r is None
                &&& *final(self) == (PPU { bus: final(self).bus, ..*old(self) })
            },
    {
        if CPU_ADDR_START <= addr && addr <= CPU_ADDR_END {
            let result = if addr == 0x2002 {
                self.write_toggle = false;
                self.data_buffer = self.status_register | (self.last_read_buffer & 0x1F);
                self.set_status_flag(StatusFlag::VerticalBlank, false);
                self.data_buffer
            } else if addr == 0x2004 {
                self.data_buffer = self.oam_table[self.oam_addr as usize];
                self.data_buffer
            } else if addr == 0x2007 {
                let v = self.vram_address.register;
                if PALETTE_START <= v && v < PALETTE_END {
                    self.data_buffer = self.read_ppu_bus(v & PALETTE_MASK);
                    self.inc_vram_addr();
                    self.data_buffer
                } else {
                    let result = self.data_buffer;
                    self.data_buffer = self.read_ppu_bus(v);
                    self.inc_vram_addr();
                    result
                }
            } else {
                self.data_buffer
            };
            self.last_read_buffer = result;
            Some(result)
        } else {
            None
        }
    }

    /// A CPU write to a PPU register: `None` outside 0x2000-0x3FFF, else what the
    /// register held before. Only 0x2000-0x2007 are decoded.
    pub fn write(&mut self, addr: u16, data: u8) -> (r: Option<u8>)
        requires
            old(self).wf(),
            decoded(addr),
        ensures
            final(self).wf(),
            if CPU_ADDR_START <= addr && addr <= CPU_ADDR_END {
                &&& r == Some(old(self).register_write(addr, data).0)
                &&& final(self).oam_table@ == old(self).oam_written(addr, data)
                &&& final(self).bus@ == if addr == 0x2007 {
                    bus_write(old(self).bus@, old(self).data_port_address(), data)
                } else {
                    old(self).bus@
                }
                &&& *final(self) == (PPU {
                    bus: final(self).bus,
                    oam_table: final(self).oam_table,
                    ..old(self).register_write(addr, data).1
                })
            } else {
                &&& r is None
                &&& final(self).bus@ == old(self).bus@
                &&& *final(self) == (PPU { bus: final(self).bus, ..*old(self) })
            },
    {
        if CPU_ADDR_START <= addr && addr <= CPU_ADDR_END {
            self.data_buffer = data;
            self.last_read_buffer = data;
            let result = if addr == 0x2000 {
                let old = self.get_ctrl_flags();
                if self.read_status_flag(StatusFlag::VerticalBlank)
                    && (old & CtrlFlag::NmiEnabled.bits() != 0)
                    && (data & CtrlFlag::NmiEnabled.bits() == 0)
                {
                    self.nmi_requested = true;
                }
                self.set_ctrl_flags(data);
                old
            } else if addr == 0x2001 {
                let old = self.mask_register;
                self.mask_register = data;
                old
            } else if addr == 0x2002 {
                0
            } else if addr == 0x2003 {
                let old = self.oam_addr;
                self.oam_addr = data;
                old
            } else if addr == 0x2004 {
                let old = self.oam_table[self.oam_addr as usize];
                if self.scan_line >= 240 || (!self.read_mask_flag(MaskFlag::ShowSprites) && !self.read_mask_flag(MaskFlag::ShowBG)) {
                    self.oam_table[self.oam_addr as usize] = data;
                }
                self.oam_addr = self.oam_addr.wrapping_add(1);
                old
            } else if addr == 0x2005 {
                if !self.write_toggle {
                    self.write_toggle = true;
                    proof { crate::bits::lemma_byte_bits(data); }
                    self.temporary_vram_address.set_x(data)
                } else {
                    self.write_toggle = false;
                    self.temporary_vram_address.set_y(data)
                }
            } else if addr == 0x2006 {
                if !self.write_toggle {
                    self.write_toggle = true;
                    self.temporary_vram_address.set_address_high(data)
                } else {
                    self.write_toggle = false;
                    let result = self.temporary_vram_address.set_address_low(data);
                    self.vram_address.register = self.temporary_vram_address.register;
                    result
                }
            } else {
                let v = self.vram_address.register;
                let result = if PALETTE_START <= v && v < PALETTE_END {
                    self.write_ppu_bus(v & PALETTE_MASK, data)
                } else {
                    self.write_ppu_bus(v, data)
                };
                self.inc_vram_addr();
                result
            };
            Some(result)
        } else {
            None
        }
    }
}

/// A PPU whose bus is 64K of RAM.
pub fn create_test_configuration() -> (r: (PPU, usize))
    ensures
        r.0.wf(),
        r.0.bus@.len() == 1,
        r.0.scan_line == -1,
        r.0.tick == 0,
        r.1 == 0,
{
    let mut ppu = PPU::new();
    let mem = RAM::new(0x0000, 0xFFFF, 0xFFFF);
    ppu.add_device(Device::Ram(mem));
    (ppu, 0)
}

/// A byte written through the OAM address and data ports, while OAM is open, is what
/// the data port reads back once the address is set to it again.
pub proof fn law_oam_write_then_read(p: PPU, q: PPU, a: u8, d: u8)
    requires
        p.scan_line >= 240 || (!p.mask_flag(MaskFlag::ShowSprites) && !p.mask_flag(MaskFlag::ShowBG)),
        q.oam_table@ == p.register_write(0x2003, a).1.oam_written(0x2004, d),
        q.oam_addr == a,
    ensures
        q.register_read(0x2004).0 == d,
{
}

/// Two writes to the address port, high byte first, point the VRAM address at the
/// 14-bit address they make and leave the write toggle as it was.
pub proof fn law_address_port(p: PPU, hi: u8, lo: u8)
    requires
        !p.write_toggle,
    ensures
        ({
            let q = p.register_write(0x2006, hi).1.register_write(0x2006, lo).1;
            &&& q.vram_address.register == (((hi & 0x3F) as u16) << 8u16) | (lo as u16) | (p.temporary_vram_address.register & 0xC000)
            &&& q.temporary_vram_address.register == q.vram_address.register
            &&& !q.write_toggle
        }),
{
    crate::nes::ppu::vram_address::law_address_written(p.temporary_vram_address, hi, lo);
}

/// Two writes to the scroll port, X first, set the scroll position the next frame
/// starts from, and leave the write toggle as it was.
pub proof fn law_scroll_port(p: PPU, x: u8, y: u8)
    requires
        !p.write_toggle,
    ensures
        ({
            let q = p.register_write(0x2005, x).1.register_write(0x2005, y).1;
            &&& q.temporary_vram_address.x() == x
            &&& q.temporary_vram_address.y() == y
            &&& q.temporary_vram_address.nametable_bits() == p.temporary_vram_address.nametable_bits()
            &&& !q.write_toggle
        }),
{
    let t = p.temporary_vram_address;
    crate::nes::ppu::vram_address::law_x_written_read_back(t, x);
    crate::nes::ppu::vram_address::law_y_written_read_back(t.with_x(x), y);
}

/// Outside palette space the data port answers one read late: a read gives the
/// buffered byte and buffers the byte at the VRAM address, which the next read gives.
pub proof fn law_data_port_reads_late(q: PPU)
    requires
        q.vram_address.register < PALETTE_START,
        add16(q.vram_address.register, q.vram_step()) < PALETTE_START,
    ensures
        q.register_read(0x2007).0 == q.data_buffer,
        q.register_read(0x2007).1.register_read(0x2007).0 == bus_read(q.bus@, q.vram_address.register),
{
}

/// A byte written through the data port to RAM outside palette space is what the
/// second read of the data port gives once the address is set back to it.
pub proof fn law_data_port_round_trip(p: PPU, q: PPU, d: u8)
    requires
        p.vram_address.register < PALETTE_START,
        crate::bus::bus_target(p.bus@, p.vram_address.register) < p.bus@.len(),
        p.bus@[crate::bus::bus_target(p.bus@, p.vram_address.register)].1 is Ram,
        p.bus@[crate::bus::bus_target(p.bus@, p.vram_address.register)].1.wf(),
        q.bus@ == bus_write(p.bus@, p.data_port_address(), d),
        q.vram_address.register == p.vram_address.register,
        add16(q.vram_address.register, q.vram_step()) < PALETTE_START,
    ensures
        q.register_read(0x2007).1.register_read(0x2007).0 == d,
{
    crate::bus::law_read_after_write(p.bus@, p.vram_address.register, d);
    law_data_port_reads_late(q);
}

} // verus!

pub mod flags;
pub mod shift_registers;
pub mod sprites;
pub mod vram_address;

use vstd::prelude::*;

use crate::bus::{Bus, BusDevice, Device};
use crate::nes::ppu::flags::{CtrlFlags, MaskFlags, StatusFlags};
use crate::nes::ppu::shift_registers::{BGShiftRegister, BGShiftRegisterPair, BGShiftRegisterSet};
use crate::nes::ppu::sprites::{lemma_oam_addr, OAMData, OamState, SpriteRowData, SpriteRowSet};
use crate::nes::ppu::vram_address::VramAddress;
use crate::ram::RAM;

verus! {

pub const CPU_ADDR_START: u16 = 0x2000;
pub const CPU_ADDR_END: u16 = 0x3FFF;
pub const CPU_ADDR_MASK: u16 = 0x2007;
pub const PALETTE_START: u16 = 0x3000;
pub const PALETTE_END: u16 = 0xFFFF;
pub const PALETTE_SIZE: usize = 0x0020;
pub const PALETTE_MASK: u16 = 0x001F;
pub const PRIMARY_OAM_SIZE: usize = 0x0100;
pub const SECONDARY_OAM_SIZE: usize = 0x0080;
pub const SCREEN_WIDTH: usize = 256;
pub const SCREEN_HEIGHT: usize = 240;

/// The palette RAM at power-on.
pub open spec fn initial_palettes() -> Seq<u8> {
    seq![0x09u8, 0x01, 0x00, 0x01, 0x00, 0x02, 0x02, 0x0D, 0x08, 0x10, 0x08, 0x24, 0x00, 0x00, 0x04, 0x2C,
        0x09, 0x01, 0x34, 0x03, 0x00, 0x04, 0x00, 0x14, 0x08, 0x3A, 0x00, 0x02, 0x00, 0x20, 0x2C, 0x08]
}

/// A bus access the PPU performs on its next cycle; its bus takes two cycles.
#[derive(Clone, Copy, PartialEq, Eq, Debug, Structural)]
pub enum BusRequest {
    Read(u16),
    Write(u16, u8),
    Idle,
}

/// The steps of sprite evaluation, each one cycle.
#[derive(Clone, Copy, PartialEq, Eq, Debug, Structural)]
pub enum SpriteEvalState {
    ReadY,
    WriteCompareY,
    ReadTileIndex,
    WriteTileIndex,
    ReadAttributes,
    WriteTileAttributes,
    ReadX,
    WriteX,
}

/// The index of palette RAM an address selects: the low five bits, with the
/// background-color mirrors 0x10, 0x14, 0x18 and 0x1C folded onto 0x00-0x0C.
pub open spec fn palette_index(addr: u16) -> int {
    let mirrored = addr & PALETTE_MASK;
    (if mirrored & 0x13 == 0x10 { mirrored & 0x0C } else { mirrored }) as int
}

/// The picture processing unit. Pixels go to `frame`, one NES color per pixel, row by
/// row.
pub struct PPU {
    pub frame: Vec<u8>,
    pub ctrl_high_register: u8,
    pub mask_register: u8,
    pub status_register: u8,

    pub bus: Bus,

    pub primary_oam: OAMData<PRIMARY_OAM_SIZE>,
    pub secondary_oam: OAMData<SECONDARY_OAM_SIZE>,
    pub sprite_row_data: SpriteRowSet,

    pub palettes: [u8; PALETTE_SIZE],
    pub scan_line: i16,
    pub tick: u16,

    pub even_frame: bool,

    pub write_toggle: bool,
    pub vram_address: VramAddress,
    pub temporary_vram_address: VramAddress,

    pub bg_shift_registers: BGShiftRegisterSet,
    pub oam_buffer: u8,
    pub sprite_eval_state: SpriteEvalState,

    pub bus_request: BusRequest,
    pub data_buffer: u8,

    pub resetting: bool,
}

impl PPU {
    pub open spec fn wf(&self) -> bool {
        &&& self.bus.wf()
        &&& self.primary_oam.wf()
        &&& self.secondary_oam.wf()
        &&& self.sprite_row_data.wf()
        &&& self.frame@.len() == SCREEN_WIDTH * SCREEN_HEIGHT
        &&& -1 <= self.scan_line <= 260
        &&& self.tick <= 340
        &&& self.temporary_vram_address.fine_x <= 7
    }

    /// The control register as it reads: the high bits kept here and the nametable
    /// select held in the temporary address.
    pub open spec fn ctrl(&self) -> u8 {
        self.ctrl_high_register | (self.temporary_vram_address.nametable_bits() & 0x03)
    }

    pub open spec fn rendering(&self) -> bool {
        self.mask_register & (MaskFlags::ShowBG | MaskFlags::ShowSprites) != 0
    }

    /// The palette RAM byte an address reads, cut to six bits (two in greyscale).
    pub open spec fn palette_value(&self, addr: u16) -> u8 {
        let data = self.palettes@[palette_index(addr)];
        if self.mask_register & MaskFlags::Greyscale != 0 { data & 0x30 } else { data & 0x3F }
    }

    /// The VRAM address step of a data port access: 32 (down a row) or 1 (across).
    pub open spec fn vram_step(&self) -> u16 {
        if self.ctrl() & CtrlFlags::IncrementAcross != 0 { 32 } else { 1 }
    }

    /// The dot and line after one cycle: the pre-render line of an odd frame skips its
    /// last dot when rendering; after dot 340 comes the next line, and after line 260
    /// the pre-render line (-1) of the next frame.
    pub open spec fn ticked(&self) -> (u16, i16, bool, bool) {
        let skip = self.scan_line == -1 && self.tick == 339 && !self.even_frame && self.rendering();
        let tick = if skip { 341 } else { self.tick + 1 };
        if tick == 341 {
            if self.scan_line + 1 == 261 {
                (0, -1i16, !self.even_frame, true)
            } else {
                (0, (self.scan_line + 1) as i16, self.even_frame, false)
            }
        } else {
            (tick as u16, self.scan_line, self.even_frame, false)
        }
    }

    /// The NMI output, active low: low while vertical blank is flagged and NMI enabled.
    pub open spec fn nmi_line(&self) -> bool {
        !(self.status_register & StatusFlags::VerticalBlank != 0 && self.ctrl() & CtrlFlags::NmiEnabled != 0)
    }

    /// The vertical blank flag rises at line 241, dot 1; all status flags clear at the
    /// pre-render line, dot 1, which also ends the reset period and closes OAM to
    /// writes.
    pub open spec fn status_after(&self) -> (u8, bool, bool) {
        if self.scan_line == -1 && self.tick == 1 {
            (0, false, false)
        } else if self.scan_line == 241 && self.tick == 1 {
            (self.status_register | StatusFlags::VerticalBlank, self.resetting, true)
        } else {
            (self.status_register, self.resetting, self.primary_oam.write_enabled)
        }
    }

    /// How the scroll position moves at a dot of a rendered line: coarse X every eight
    /// dots, Y at dot 256, X back from the temporary address at 257, Y back during the
    /// pre-render line's dots 280-304, and the first two tiles of the next line at 328
    /// and 336.
    pub open spec fn scrolled(&self) -> VramAddress {
        let t = self.tick;
        let v = self.vram_address;
        if 1 <= t && t < 256 && t % 8 == 0 {
            v.coarse_x_incremented()
        } else if t == 256 {
            v.coarse_x_incremented().y_incremented()
        } else if t == 257 {
            v.with_x(self.temporary_vram_address.x()).with_horizontal_nametable(self.temporary_vram_address.horizontal_nametable())
        } else if self.scan_line == -1 && 280 <= t && t <= 304 {
            v.with_y(self.temporary_vram_address.y()).with_vertical_nametable(self.temporary_vram_address.vertical_nametable())
        } else if t == 328 || t == 336 {
            v.coarse_x_incremented()
        } else {
            v
        }
    }
}

impl PPU {
    pub fn new() -> (r: PPU)
        ensures
            r.wf(),
            r.bus@.len() == 0,
            r.palettes@ == initial_palettes(),
            r.resetting,
            r.scan_line == -1,
            r.tick == 0,
            r.even_frame,
            r.status_register == StatusFlags::VerticalBlank | StatusFlags::SpriteOverflow,
            r.ctrl_high_register == 0,
            r.mask_register == 0,
            r.vram_address == (VramAddress { register: 0, fine_x: 0 }),
            r.temporary_vram_address == (VramAddress { register: 0, fine_x: 0 }),
            !r.write_toggle,
            r.bus_request == BusRequest::Idle,
            r.data_buffer == 0,
            r.primary_oam.addr == 0,
            r.primary_oam.table@ == Seq::new(PRIMARY_OAM_SIZE as nat, |i: int| 0u8),
            r.primary_oam.read_enabled && r.primary_oam.write_enabled,
    {
        let palettes: [u8; PALETTE_SIZE] = [
            0x09, 0x01, 0x00, 0x01, 0x00, 0x02, 0x02, 0x0D, 0x08, 0x10, 0x08, 0x24, 0x00, 0x00, 0x04, 0x2C,
            0x09, 0x01, 0x34, 0x03, 0x00, 0x04, 0x00, 0x14, 0x08, 0x3A, 0x00, 0x02, 0x00, 0x20, 0x2C, 0x08,
        ];
        let r = PPU {
            resetting: true,
            frame: vec![0; SCREEN_WIDTH * SCREEN_HEIGHT],
            bus: Bus::new(),
            primary_oam: OAMData::new(),
            secondary_oam: OAMData::new(),
            sprite_row_data: SpriteRowSet::new(),
            ctrl_high_register: 0,
            mask_register: 0,
            status_register: StatusFlags::VerticalBlank | StatusFlags::SpriteOverflow,
            palettes,
            scan_line: -1,
            tick: 0,
            even_frame: true,
            vram_address: VramAddress::new(),
            temporary_vram_address: VramAddress::new(),
            write_toggle: false,

            bg_shift_registers: BGShiftRegisterSet::new(),
            oam_buffer: 0,
            sprite_eval_state: SpriteEvalState::ReadY,

            data_buffer: 0,
            bus_request: BusRequest::Idle,
        };
        assert(r.palettes@ =~= initial_palettes());
        r
    }

    /// Checks that the PPU is consistent and its next clock is one it can take.
    pub fn clock_ready(&self) -> (r: bool)
        ensures
            r == (self.wf() && self.sprite_row_data.can_shift()),
    {
        self.bus.is_wf()
            && self.primary_oam.is_wf()
            && self.secondary_oam.is_wf()
            && self.sprite_row_data.ready()
            && self.frame.len() == SCREEN_WIDTH * SCREEN_HEIGHT
            && -1 <= self.scan_line && self.scan_line <= 260
            && self.tick <= 340
            && self.temporary_vram_address.fine_x <= 7
    }

    pub fn add_device(&mut self, device: Device)
        requires
            old(self).wf(),
            device.wf(),
        ensures
            final(self).wf(),
            final(self).bus@ == old(self).bus@.push((Bus::range_of(device.model(), device), device.model())),
            *final(self) == (PPU { bus: final(self).bus, ..*old(self) }),
    {
        self.bus.add_device(device);
    }

    /// Back to the power-on state of the registers a reset clears; the temporary VRAM
    /// address is cleared, while the status, OAM, the VRAM address and the palettes stay.
    pub fn reset(&mut self)
        requires
            old(self).wf(),
        ensures
            final(self).wf(),
            final(self).resetting,
            final(self).even_frame,
            final(self).ctrl_high_register == 0,
            final(self).mask_register == 0,
            final(self).scan_line == -1,
            final(self).tick == 0,
            !final(self).write_toggle,
            final(self).temporary_vram_address == (VramAddress { register: 0, fine_x: 0 }),
            final(self).bus_request == BusRequest::Idle,
            final(self).status_register == old(self).status_register,
            final(self).palettes == old(self).palettes,
            final(self).primary_oam == old(self).primary_oam,
            final(self).vram_address == old(self).vram_address,
            final(self).bus@ == old(self).bus@,
    {
        self.resetting = true;
        self.even_frame = true;
        self.ctrl_high_register = 0;
        self.mask_register = 0;
        self.scan_line = -1;
        self.tick = 0;
        self.write_toggle = false;
        self.temporary_vram_address = VramAddress::new();
        self.bg_shift_registers = BGShiftRegisterSet::new();
        self.secondary_oam = OAMData::new();
        self.sprite_row_data = SpriteRowSet::new();
        self.bus_request = BusRequest::Idle;
    }

    fn rendering_enabled(&self) -> (r: bool)
        ensures
            r == self.rendering(),
    {
        self.mask_register & (MaskFlags::ShowBG | MaskFlags::ShowSprites) != 0
    }

    /// Performs the bus access asked for on the previous cycle.
    fn manage_bus_request(&mut self)
        requires
            old(self).wf(),
        ensures
            final(self).wf(),
            final(self).bus_request == BusRequest::Idle,
            match old(self).bus_request {
                BusRequest::Read(addr) => final(self).data_buffer == crate::bus::bus_read(old(self).bus@, addr)
                    && final(self).bus@ == crate::bus::bus_touch(old(self).bus@, addr),
                BusRequest::Write(addr, data) => final(self).data_buffer == old(self).data_buffer
                    && final(self).bus@ == crate::bus::bus_write(old(self).bus@, addr, data),
                BusRequest::Idle => final(self).data_buffer == old(self).data_buffer && final(self).bus@ == old(self).bus@,
            },
            *final(self) == (PPU { bus: final(self).bus, data_buffer: final(self).data_buffer, bus_request: BusRequest::Idle, ..*old(self) }),
    {
        match self.bus_request {
            BusRequest::Read(addr) => {
                self.data_buffer = self.bus.read(addr);
                self.bus_request = BusRequest::Idle;
            },
            BusRequest::Write(addr, data) => {
                self.bus.write(addr, data);
                self.bus_request = BusRequest::Idle;
            },
            BusRequest::Idle => {},
        }
    }

    fn manage_status(&mut self)
        requires
            old(self).wf(),
        ensures
            final(self).wf(),
            (final(self).status_register, final(self).resetting, final(self).primary_oam.write_enabled) == old(self).status_after(),
            final(self).primary_oam.table@ == old(self).primary_oam.table@,
            final(self).primary_oam.addr == old(self).primary_oam.addr,
            final(self).primary_oam.read_enabled == old(self).primary_oam.read_enabled,
            final(self).primary_oam == (OAMData { write_enabled: final(self).primary_oam.write_enabled, ..old(self).primary_oam }),
            *final(self) == (PPU {
                status_register: final(self).status_register,
                resetting: final(self).resetting,
                primary_oam: final(self).primary_oam,
                ..*old(self)
            }),
    {
        if self.scan_line == -1 && self.tick == 1 {
            self.status_register = 0;
            self.resetting = false;
            self.primary_oam.write_enabled = false;
        } else if self.scan_line == 241 && self.tick == 1 {
            self.set_status_flag(StatusFlags::VerticalBlank, true);
            self.primary_oam.write_enabled = true;
        }
    }

    fn manage_scrolling(&mut self)
        ensures
            final(self).vram_address == old(self).scrolled(),
            *final(self) == (PPU { vram_address: final(self).vram_address, ..*old(self) }),
    {
        let t = self.tick;
        if 1 <= t && t < 256 && t % 8 == 0 {
            self.vram_address.increment_coarse_x();
        } else if t == 256 {
            self.vram_address.increment_coarse_x();
            self.vram_address.increment_y();
        } else if t == 257 {
            let temp = self.temporary_vram_address;
            self.vram_address.copy_x_from(&temp);
        } else if self.scan_line == -1 && 280 <= t && t <= 304 {
            let temp = self.temporary_vram_address;
            self.vram_address.copy_y_from(&temp);
        } else if t == 328 || t == 336 {
            self.vram_address.increment_coarse_x();
        }
    }

    /// Moves to the next dot; returns whether a frame ended.
    fn manage_tick(&mut self) -> (r: bool)
        requires
            old(self).wf(),
        ensures
            final(self).wf(),
            (final(self).tick, final(self).scan_line, final(self).even_frame, r) == old(self).ticked(),
            *final(self) == (PPU {
                tick: final(self).tick,
                scan_line: final(self).scan_line,
                even_frame: final(self).even_frame,
                ..*old(self)
            }),
    {
        if self.scan_line == -1 && self.tick == 339 && !self.even_frame && self.rendering_enabled() {
            self.tick = 340;
        }
        let mut end_of_frame = false;
        self.tick = self.tick + 1;
        if self.tick == 341 {
            self.tick = 0;
            self.scan_line = self.scan_line + 1;
            if self.scan_line == 261 {
                end_of_frame = true;
                self.scan_line = -1;
                self.even_frame = !self.even_frame;
            }
        }
        end_of_frame
    }

    pub fn read_palette(&self, addr: u16) -> (r: u8)
        ensures
            r == self.palette_value(addr),
    {
        let mirrored = addr & PALETTE_MASK;
        let physical = if mirrored & 0b11110011 == 0b00010000 { mirrored & 0b00001100 } else { mirrored };
        proof {
            lemma_palette_index(addr);
            lemma_single_flag(self.mask_register, MaskFlags::Greyscale);
        }
        let data = self.palettes[physical as usize];
        if self.read_mask_flag(MaskFlags::Greyscale) {
            data & 0b00110000
        } else {
            data & 0b00111111
        }
    }

    pub fn write_palette(&mut self, addr: u16, data: u8) -> (r: u8)
        ensures
            r == old(self).palettes@[palette_index(addr)],
            final(self).palettes@ == old(self).palettes@.update(palette_index(addr), data & 0x3F),
            *final(self) == (PPU { palettes: final(self).palettes, ..*old(self) }),
    {
        let mirrored = addr & PALETTE_MASK;
        let physical = if mirrored & 0b00010011 == 0b00010000 { mirrored & 0b00001100 } else { mirrored };
        proof { lemma_palette_index(addr); }
        let old = self.palettes[physical as usize];
        self.palettes[physical as usize] = data & 0b00111111;
        old
    }

    fn manage_nmi(&self) -> (r: bool)
        ensures
            r == self.nmi_line(),
    {
        proof {
            lemma_single_flag(self.status_register, StatusFlags::VerticalBlank);
            lemma_single_flag(self.ctrl(), CtrlFlags::NmiEnabled);
        }
        !(self.read_status_flag(StatusFlags::VerticalBlank) && self.read_ctrl_flag(CtrlFlags::NmiEnabled))
    }

    pub fn get_ctrl_flags(&self) -> (r: u8)
        ensures
            r == self.ctrl(),
    {
        self.ctrl_high_register | (self.temporary_vram_address.get_nametable_bits() & 0b11)
    }

    /// Writes the control register, unless the PPU is still resetting: bits 0-1 go to
    /// the nametable select of the temporary address. Returns the previous value.
    pub fn set_ctrl_flags(&mut self, data: u8) -> (r: u8)
        ensures
            r == old(self).ctrl(),
            *final(self) == if old(self).resetting {
                *old(self)
            } else {
                PPU {
                    ctrl_high_register: data & 0xFC,
                    temporary_vram_address: VramAddress {
                        register: (old(self).temporary_vram_address.register & !0x0C00u16) | (((data & 0x03) as u16) << 10u16),
                        ..old(self).temporary_vram_address
                    },
                    ..*old(self)
                }
            },
    {
        let old = self.get_ctrl_flags();
        if !self.resetting {
            self.ctrl_high_register = data & 0b11111100;
            self.temporary_vram_address.set_nametable_bits(data);
        }
        old
    }

    pub fn set_ctrl_flag(&mut self, flag: u8, value: bool)
        ensures
            *final(self) == if old(self).resetting {
                *old(self)
            } else {
                let data = if value { old(self).ctrl() | flag } else { old(self).ctrl() & !flag };
                PPU {
                    ctrl_high_register: data & 0xFC,
                    temporary_vram_address: VramAddress {
                        register: (old(self).temporary_vram_address.register & !0x0C00u16) | (((data & 0x03) as u16) << 10u16),
                        ..old(self).temporary_vram_address
                    },
                    ..*old(self)
                }
            },
    {
        if value {
            let f = self.get_ctrl_flags() | flag;
            self.set_ctrl_flags(f);
        } else {
            let f = self.get_ctrl_flags() & !flag;
            self.set_ctrl_flags(f);
        }
    }

    pub fn read_ctrl_flag(&self, flag: u8) -> (r: bool)
        ensures
            r == (self.ctrl() & flag == flag),
    {
        self.get_ctrl_flags() & flag == flag
    }

    pub fn set_mask_flag(&mut self, flag: u8, value: bool)
        ensures
            *final(self) == (PPU {
                mask_register: if value { old(self).mask_register | flag } else { old(self).mask_register & !flag },
                ..*old(self)
            }),
    {
        self.mask_register = if value { self.mask_register | flag } else { self.mask_register & !flag };
    }

    pub fn read_mask_flag(&self, flag: u8) -> (r: bool)
        ensures
            r == (self.mask_register & flag == flag),
    {
        self.mask_register & flag == flag
    }

    pub fn set_status_flag(&mut self, flag: u8, value: bool)
        ensures
            *final(self) == (PPU {
                status_register: if value { old(self).status_register | flag } else { old(self).status_register & !flag },
                ..*old(self)
            }),
    {
        self.status_register = if value { self.status_register | flag } else { self.status_register & !flag };
    }

    pub fn read_status_flag(&self, flag: u8) -> (r: bool)
        ensures
            r == (self.status_register & flag == flag),
    {
        self.status_register & flag == flag
    }

    fn inc_vram_addr(&mut self)
        ensures
            *final(self) == (PPU {
                vram_address: VramAddress {
                    register: crate::nes::apu::channels::pulse::add16(old(self).vram_address.register, old(self).vram_step()),
                    ..old(self).vram_address
                },
                ..*old(self)
            }),
    {
        let amount = if self.read_ctrl_flag(CtrlFlags::IncrementAcross) { 32 } else { 1 };
        proof { lemma_single_flag(self.ctrl(), CtrlFlags::IncrementAcross); }
        self.vram_address.inc_address(amount);
    }
}

/// The two foldings of palette addresses agree, and land inside palette RAM.
proof fn lemma_palette_index(addr: u16)
    by (bit_vector)
    ensures
        (addr & 0x1F) & 0xF3 == (addr & 0x1F) & 0x13,
        ((addr & 0x1F) & 0x0C) < 32,
        (addr & 0x1F) < 32,
{
}

/// Palette RAM repeats every 32 bytes through 0x3F00-0x3FFF, and the backdrop entries
/// of the sprite palettes (0x3F10, 0x3F14, 0x3F18, 0x3F1C) are those of the background
/// palettes.
pub proof fn law_palette_mirrors(addr: u16)
    ensures
        palette_index(addr) == palette_index(addr & 0x1F),
        palette_index(addr) < PALETTE_SIZE,
        (addr & 0x13) == 0x10 ==> palette_index(addr) == palette_index(addr & 0x0F),
        (addr & 0x13) != 0x10 ==> palette_index(addr) == (addr & 0x1F) as int,
{
    assert(((addr & 0x1F) & 0x1F) == (addr & 0x1F)
        && (((addr & 0x1F) & 0x13) == 0x10) == ((addr & 0x13) == 0x10)
        && ((addr & 0x13) == 0x10 ==> (((addr & 0x0F) & 0x1F) & 0x13) != 0x10
            && ((addr & 0x0F) & 0x1F) == ((addr & 0x1F) & 0x0C))
        && (addr & 0x1F) < 32
        && ((addr & 0x1F) & 0x0C) < 32) by (bit_vector);
}

/// A palette entry reads back what was written to it, cut to six bits, through any of
/// its mirror addresses, while greyscale is off.
pub proof fn law_palette_round_trip(p: PPU, q: PPU, addr: u16, other: u16, data: u8)
    requires
        q.palettes@ == p.palettes@.update(palette_index(addr), data & 0x3F),
        palette_index(other) == palette_index(addr),
        q.mask_register & MaskFlags::Greyscale == 0,
    ensures
        q.palette_value(other) == data & 0x3F,
{
    law_palette_mirrors(addr);
    assert((data & 0x3F) & 0x3F == data & 0x3F) by (bit_vector);
}

/// For a one-bit flag, "all of its bits" and "any of its bits" agree.
/// Setting the sprite flags keeps the vertical blank flag.
proof fn lemma_vblank_kept(s: u8)
    by (bit_vector)
    ensures
        (s | 0x20u8) & 0x80u8 == s & 0x80u8,
        (s | 0x40u8) & 0x80u8 == s & 0x80u8,
        (s | 0x40u8) & 0x40u8 == 0x40u8,
{
}

proof fn lemma_single_flag(value: u8, flag: u8)
    by (bit_vector)
    requires
        flag == 1 || flag == 2 || flag == 4 || flag == 8 || flag == 16 || flag == 32 || flag == 64 || flag == 128,
    ensures
        (value & flag == flag) == (value & flag != 0),
{
}

} // verus!

verus! {

/// The CPU sees the eight PPU registers mirrored through 0x2000-0x3FFF.
proof fn lemma_register_mirror(addr: u16)
    by (bit_vector)
    requires
        0x2000 <= addr <= 0x3FFF,
    ensures
        0x2000 <= addr & 0x2007 <= 0x2007,
{
}

impl PPU {
    /// A read of register `reg` (0x2000-0x2007): the byte and the PPU after it.
    pub open spec fn register_read(&self, reg: u16) -> (u8, PPU) {
        if reg == 0x2002 {
            (self.status_register | (self.data_buffer & 0x1F),
                PPU { write_toggle: false, status_register: self.status_register & !StatusFlags::VerticalBlank, ..*self })
        } else if reg == 0x2004 {
            (self.primary_oam.data(), *self)
        } else if reg == 0x2007 {
            let addr = self.vram_address.register;
            (if PALETTE_START <= addr && addr < PALETTE_END { self.palette_value(addr) } else { self.data_buffer },
                PPU {
                    bus_request: BusRequest::Read(addr),
                    vram_address: VramAddress { register: crate::nes::apu::channels::pulse::add16(addr, self.vram_step()), ..self.vram_address },
                    ..*self
                })
        } else {
            (self.data_buffer, *self)
        }
    }
}

impl PPU {
    /// What a CPU read of register `reg` gives, without the read's side effects.
    pub fn register_view(&self, reg: u16) -> (r: u8)
        requires
            self.wf(),
        ensures
            r == self.register_read(reg).0,
    {
        if reg == 0x2002 {
            self.status_register | (self.data_buffer & 0x1F)
        } else if reg == 0x2004 {
            self.primary_oam.read_data()
        } else if reg == 0x2007 {
            let addr = self.vram_address.register;
            if PALETTE_START <= addr && addr < PALETTE_END { self.read_palette(addr) } else { self.data_buffer }
        } else {
            self.data_buffer
        }
    }
}

impl PPU {
    /// A CPU access to register `addr` (0x2000-0x3FFF): a write of `data` when it is
    /// given, else a read. The dot position and what clocking needs stay.
    #[verifier::rlimit(40)]
    pub fn cpu_access(&mut self, addr: u16, data: Option<u8>)
        requires
            old(self).wf(),
            old(self).sprite_row_data.can_shift(),
            0x2000 <= addr <= 0x3FFF,
        ensures
            final(self).wf(),
            final(self).sprite_row_data.can_shift(),
            (final(self).tick, final(self).scan_line, final(self).even_frame)
                == (old(self).tick, old(self).scan_line, old(self).even_frame),
            data is None ==> *final(self) == old(self).register_read(addr & CPU_ADDR_MASK).1,
            data matches Some(d) ==> exists|r: u8| #[trigger] old(self).register_write(addr, d, r, *final(self)),
    {
        match data {
            Some(d) => {
                let _ = self.write(addr, d);
            },
            None => {
                let _ = self.read(addr);
            },
        }
    }
}

impl PPU {
    /// A CPU write of `data` to register `addr`: `r` is what it returns and `f` the PPU it
    /// leaves.
    pub open spec fn register_write(&self, addr: u16, data: u8, r: u8, f: PPU) -> bool {
                let reg = addr & CPU_ADDR_MASK;
                let o = *self;
                if reg == 0x2000 {
                    r == o.ctrl() && f == if o.resetting { o } else {
                        PPU {
                            ctrl_high_register: data & 0xFC,
                            temporary_vram_address: VramAddress {
                                register: (o.temporary_vram_address.register & !0x0C00u16) | (((data & 0x03) as u16) << 10u16),
                                ..o.temporary_vram_address
                            },
                            ..o
                        }
                    }
                } else if reg == 0x2001 {
                    r == o.mask_register && f == if o.resetting { o } else { PPU { mask_register: data, ..o } }
                } else if reg == 0x2002 {
                    r == 0 && f == o
                } else if reg == 0x2003 {
                    &&& r == o.primary_oam.addr
                    &&& f.primary_oam.addr == data
                    &&& f.primary_oam.same_but_addr(&o.primary_oam)
                    &&& f == PPU { primary_oam: f.primary_oam, ..o }
                } else if reg == 0x2004 {
                    &&& r == o.primary_oam.table@[o.primary_oam.addr as int]
                    &&& f.primary_oam.table@ == if o.primary_oam.write_enabled {
                        o.primary_oam.table@.update(o.primary_oam.addr as int, data)
                    } else {
                        o.primary_oam.table@
                    }
                    &&& f.primary_oam.addr == crate::nes::ppu::sprites::next_byte(o.primary_oam.addr)
                    &&& f == PPU { primary_oam: f.primary_oam, ..o }
                } else if reg == 0x2005 {
                    if o.resetting {
                        r == 0 && f == o
                    } else if !o.write_toggle {
                        r == o.temporary_vram_address.x()
                            && f == PPU { write_toggle: true, temporary_vram_address: o.temporary_vram_address.with_x(data), ..o }
                    } else {
                        r == o.temporary_vram_address.y()
                            && f == PPU { write_toggle: false, temporary_vram_address: o.temporary_vram_address.with_y(data), ..o }
                    }
                } else if reg == 0x2006 {
                    if o.resetting {
                        r == 0 && f == o
                    } else if !o.write_toggle {
                        let t = VramAddress {
                            register: (o.temporary_vram_address.register & !0x3F00u16) | (((data & 0x3F) as u16) << 8u16),
                            ..o.temporary_vram_address
                        };
                        r == o.temporary_vram_address.address_high() && f == PPU { write_toggle: true, temporary_vram_address: t, ..o }
                    } else {
                        let t = VramAddress { register: (o.temporary_vram_address.register & !0x00FFu16) | (data as u16), ..o.temporary_vram_address };
                        &&& r == o.temporary_vram_address.address_low()
                        &&& f == PPU {
                            write_toggle: false,
                            temporary_vram_address: t,
                            vram_address: VramAddress { register: t.register, ..o.vram_address },
                            ..o
                        }
                    }
                } else {
                    let a = o.vram_address.register;
                    let stepped = VramAddress { register: crate::nes::apu::channels::pulse::add16(a, o.vram_step()), ..o.vram_address };
                    if PALETTE_START <= a && a < PALETTE_END {
                        &&& r == o.palettes@[palette_index(a)]
                        &&& f.palettes@ == o.palettes@.update(palette_index(a), data & 0x3F)
                        &&& f == PPU { palettes: f.palettes, vram_address: stepped, ..o }
                    } else {
                        r == o.data_buffer && f == PPU { bus_request: BusRequest::Write(a, data), vram_address: stepped, ..o }
                    }
                }
    }
}

impl BusDevice for PPU {
    open spec fn device_ok(&self) -> bool { self.wf() }

    open spec fn can_read(&self, addr: u16) -> bool { CPU_ADDR_START <= addr <= CPU_ADDR_END }

    open spec fn can_write(&self, addr: u16, data: u8) -> bool { CPU_ADDR_START <= addr <= CPU_ADDR_END }

    open spec fn can_clock(&self) -> bool { true }

    fn get_address_range(&self) -> (r: (u16, u16))
        ensures
            r == (CPU_ADDR_START, CPU_ADDR_END),
    {
        (CPU_ADDR_START, CPU_ADDR_END)
    }

    fn read(&mut self, addr: u16) -> (r: u8)
        ensures
            (r, *final(self)) == old(self).register_read(addr & CPU_ADDR_MASK),
    {
        proof { lemma_register_mirror(addr); }
        let reg = addr & CPU_ADDR_MASK;
        if reg == 0x2002 {
            self.write_toggle = false;
            let result = self.status_register | (self.data_buffer & 0x1F);
            self.set_status_flag(StatusFlags::VerticalBlank, false);
            result
        } else if reg == 0x2004 {
            self.primary_oam.read_data()
        } else if reg == 0x2007 {
            let addr = self.vram_address.register;
            let result = if PALETTE_START <= addr && addr < PALETTE_END { self.read_palette(addr) } else { self.data_buffer };
            self.bus_request = BusRequest::Read(addr);
            self.inc_vram_addr();
            result
        } else {
            self.data_buffer
        }
    }

    fn write(&mut self, addr: u16, data: u8) -> (r: u8)
        ensures
            final(self).wf(),
            old(self).register_write(addr, data, r, *final(self)),
    {
        proof { lemma_register_mirror(addr); }
        let reg = addr & CPU_ADDR_MASK;
        if reg == 0x2000 {
            self.set_ctrl_flags(data)
        } else if reg == 0x2001 {
            let old = self.mask_register;
            if !self.resetting {
                self.mask_register = data;
            }
            old
        } else if reg == 0x2002 {
            0
        } else if reg == 0x2003 {
            let r = self.primary_oam.load_addr(data);
            proof { crate::bits::lemma_byte_bits(data); }
            r
        } else if reg == 0x2004 {
            let prev = self.primary_oam.write_data(data);
            self.primary_oam.inc_addr();
            proof { crate::bits::lemma_byte_bits(crate::nes::ppu::sprites::next_byte(old(self).primary_oam.addr)); }
            prev
        } else if reg == 0x2005 {
            if !self.resetting {
                if !self.write_toggle {
                    self.write_toggle = true;
                    proof { crate::bits::lemma_byte_bits(data); }
                    self.temporary_vram_address.set_x(data)
                } else {
                    self.write_toggle = false;
                    self.temporary_vram_address.set_y(data)
                }
            } else {
                0
            }
        } else if reg == 0x2006 {
            if !self.resetting {
                if !self.write_toggle {
                    self.write_toggle = true;
                    self.temporary_vram_address.set_address_high(data)
                } else {
                    self.write_toggle = false;
                    let result = self.temporary_vram_address.set_address_low(data);
                    self.vram_address.register = self.temporary_vram_address.register;
                    result
                }
            } else {
                0
            }
        } else {
            let a = self.vram_address.register;
            let result = if PALETTE_START <= a && a < PALETTE_END {
                self.write_palette(a, data)
            } else {
                let old = self.data_buffer;
                self.bus_request = BusRequest::Write(a, data);
                old
            };
            self.inc_vram_addr();
            result
        }
    }

    /// The PPU raises no interrupt on the bus; its NMI output comes from `clock`.
    fn bus_clock(&mut self) -> (r: u8)
        ensures
            r == 0,
            *final(self) == *old(self),
    {
        0
    }
}

/// A PPU whose bus is 64K of RAM, out of its reset period.
pub fn create_test_configuration() -> (r: (PPU, usize))
    ensures
        r.0.wf(),
        !r.0.resetting,
        r.0.bus@.len() == 1,
        r.1 == 0,
{
    let mut ppu = PPU::new();
    ppu.resetting = false;
    let mem = RAM::new(0x0000, 0xFFFF, 0xFFFF);
    ppu.add_device(Device::Ram(mem));
    (ppu, 0)
}

} // verus!

verus! {

impl PPU {
    /// The height of sprites: 16 in large-sprite mode, else 8.
    pub open spec fn sprite_height(&self) -> i16 {
        if self.ctrl() & CtrlFlags::SpriteSizeLarge != 0 { 16 } else { 8 }
    }

    /// The state sprite evaluation moves to from each state. A sprite whose Y puts it
    /// on the line (and no overflow yet) has its other three bytes copied; otherwise
    /// evaluation goes on to the next sprite's Y.
    pub open spec fn next_eval_state(&self) -> SpriteEvalState {
        match self.sprite_eval_state {
            SpriteEvalState::ReadY => SpriteEvalState::WriteCompareY,
            SpriteEvalState::WriteCompareY => {
                let y = self.oam_buffer as i16;
                if y <= self.scan_line && self.scan_line < y + self.sprite_height()
                    && self.status_register & StatusFlags::SpriteOverflow == 0 {
                    SpriteEvalState::ReadTileIndex
                } else {
                    SpriteEvalState::ReadY
                }
            },
            SpriteEvalState::ReadTileIndex => SpriteEvalState::WriteTileIndex,
            SpriteEvalState::WriteTileIndex => SpriteEvalState::ReadAttributes,
            SpriteEvalState::ReadAttributes => SpriteEvalState::WriteTileAttributes,
            SpriteEvalState::WriteTileAttributes => SpriteEvalState::ReadX,
            SpriteEvalState::ReadX => SpriteEvalState::WriteX,
            SpriteEvalState::WriteX => SpriteEvalState::ReadY,
        }
    }

    /// Only the sprite evaluation state changes: OAM, its buffer, the state, the
    /// overflow flag and the sprites of the next line.
    pub open spec fn only_sprites_changed(&self, old: &PPU) -> bool {
        *self == PPU {
            primary_oam: self.primary_oam,
            secondary_oam: self.secondary_oam,
            sprite_row_data: self.sprite_row_data,
            oam_buffer: self.oam_buffer,
            sprite_eval_state: self.sprite_eval_state,
            status_register: self.status_register,
            ..*old
        }
    }

    /// The pixel at the current dot, before the mask: the background's palette and
    /// color, the first opaque sprite's, and which one shows.
    pub open spec fn pixel(&self) -> (u16, u16) {
        let x = self.tick;
        let (bg_palette, bg_color) = self.bg_shift_registers.palette_and_color(self.temporary_vram_address.fine_x);
        let (sprite_palette, sprite_color, bg_priority) = match self.sprite_row_data.first_opaque_index() {
            Some(i) => {
                let s = self.sprite_row_data.sprite_data@[i];
                (s.palette_and_color().0, s.palette_and_color().1, s.attributes & 0x20 != 0)
            },
            None => (0x0010u16, 0u16, true),
        };
        let show_bg = self.mask_register & MaskFlags::ShowBG != 0 && (x >= 8 || self.mask_register & MaskFlags::ShowLeft8BG != 0);
        let show_sprites = self.mask_register & MaskFlags::ShowSprites != 0 && (x >= 8 || self.mask_register & MaskFlags::ShowLeft8Sprites != 0);
        let (bg_palette, bg_color) = if show_bg { (bg_palette, bg_color) } else { (0u16, 0u16) };
        let (sprite_palette, sprite_color) = if show_sprites { (sprite_palette, sprite_color) } else { (0b0100u16, 0u16) };
        if bg_color == 0 && sprite_color == 0 {
            (0, 0)
        } else if bg_color == 0 {
            (sprite_palette, sprite_color)
        } else if sprite_color == 0 {
            (bg_palette, bg_color)
        } else if !bg_priority {
            (sprite_palette, sprite_color)
        } else {
            (bg_palette, bg_color)
        }
    }

    /// Sprite 0 hits where an opaque sprite-0 pixel meets an opaque background pixel.
    pub open spec fn sprite0_hit(&self) -> bool {
        let (_, bg_color) = self.bg_shift_registers.palette_and_color(self.temporary_vram_address.fine_x);
        match self.sprite_row_data.first_opaque_index() {
            Some(i) => bg_color != 0 && self.sprite_row_data.sprite_data@[i].color() != 0 && self.sprite_row_data.sprite_data@[i].sprite0,
            None => false,
        }
    }

    fn manage_sprite_evaluation(&mut self)
        requires
            old(self).wf(),
            old(self).scan_line < 240,
        ensures
            final(self).wf(),
            old(self).sprites_evaluated(*final(self)),
            final(self).only_sprites_changed(old(self)),
            final(self).status_register & StatusFlags::VerticalBlank == old(self).status_register & StatusFlags::VerticalBlank,
            old(self).scan_line < 0 ==> *final(self) == *old(self),
            old(self).scan_line >= 0 && 65 < old(self).tick <= 256 ==> final(self).sprite_eval_state == old(self).next_eval_state(),
            old(self).scan_line >= 0 && old(self).tick == 65 ==> final(self).sprite_eval_state == SpriteEvalState::WriteCompareY,
            old(self).scan_line >= 0 && old(self).tick == 257 ==> {
                &&& final(self).sprite_row_data.can_shift()
                &&& final(self).sprite_row_data.sprite_number == 0
            },
            old(self).scan_line >= 0 && old(self).tick != 257 ==> final(self).sprite_row_data == old(self).sprite_row_data,
    {
        if self.scan_line < 0 {
            return;
        }
        let t = self.tick;
        if t == 0 {
            self.primary_oam.load_addr(0);
            self.primary_oam.read_enabled = false;
            self.secondary_oam.load_addr(0);
            self.secondary_oam.write_enabled = true;
            self.secondary_oam.has_sprite0 = false;
        } else if t <= 64 {
            if t % 2 == 1 {
                self.oam_buffer = self.primary_oam.read_data();
                self.primary_oam.inc_addr();
            } else {
                self.secondary_oam.write_data(self.oam_buffer);
                self.secondary_oam.inc_addr();
            }
        } else if t <= 256 {
            if t == 65 {
                self.primary_oam.load_addr(0);
                self.primary_oam.read_enabled = true;
                self.secondary_oam.load_addr(0);
                self.sprite_eval_state = SpriteEvalState::ReadY;
            }
            self.sprite_evaluation_step();
        } else if t == 257 {
            self.latch_sprites();
        }
    }

    /// One cycle of sprite evaluation: odd steps read a byte of primary OAM, even steps
    /// write it to secondary OAM.
    fn sprite_evaluation_step(&mut self)
        requires
            old(self).wf(),
            0 <= old(self).scan_line < 240,
        ensures
            final(self).status_register & StatusFlags::VerticalBlank == old(self).status_register & StatusFlags::VerticalBlank,
            final(self).wf(),
            final(self).only_sprites_changed(old(self)),
            final(self).sprite_row_data == old(self).sprite_row_data,
            final(self).sprite_eval_state == old(self).next_eval_state(),
            (final(self).primary_oam@, final(self).secondary_oam@, final(self).oam_buffer, final(self).sprite_eval_state,
                final(self).status_register) == old(self).eval_step(old(self).primary_oam@, old(self).secondary_oam@,
                old(self).oam_buffer, old(self).sprite_eval_state, old(self).status_register),
    {
        match self.sprite_eval_state {
            SpriteEvalState::ReadY => {
                self.oam_buffer = self.primary_oam.read_data();
                self.primary_oam.inc_addr();
                self.sprite_eval_state = SpriteEvalState::WriteCompareY;
            },
            SpriteEvalState::WriteCompareY => {
                let y = self.oam_buffer as i16;
                self.secondary_oam.write_data(self.oam_buffer);
                let sprite_height: i16 = if self.read_ctrl_flag(CtrlFlags::SpriteSizeLarge) { 16 } else { 8 };
                proof {
                    lemma_single_flag(self.ctrl(), CtrlFlags::SpriteSizeLarge);
                    lemma_single_flag(self.status_register, StatusFlags::SpriteOverflow);
                }

                if y <= self.scan_line && self.scan_line < y + sprite_height
                    && !self.read_status_flag(StatusFlags::SpriteOverflow)
                {
                    if !self.secondary_oam.write_enabled {
                        proof { lemma_vblank_kept(self.status_register); }
                        self.set_status_flag(StatusFlags::SpriteOverflow, true);
                    } else if self.primary_oam.addr < 4 {
                        self.secondary_oam.has_sprite0 = true;
                    }

                    self.secondary_oam.inc_addr();
                    self.sprite_eval_state = SpriteEvalState::ReadTileIndex;
                } else {
                    self.primary_oam.inc_addr();
                    self.primary_oam.inc_addr();
                    self.primary_oam.inc_addr();

                    if !self.secondary_oam.write_enabled {
                        self.primary_oam.inc_addr();
                    }
                    self.sprite_eval_state = SpriteEvalState::ReadY;
                }
            },
            SpriteEvalState::ReadTileIndex => {
                self.oam_buffer = self.primary_oam.read_data();
                self.primary_oam.inc_addr();
                self.sprite_eval_state = SpriteEvalState::WriteTileIndex;
            },
            SpriteEvalState::WriteTileIndex => {
                self.secondary_oam.write_data(self.oam_buffer);
                self.secondary_oam.inc_addr();
                self.sprite_eval_state = SpriteEvalState::ReadAttributes;
            },
            SpriteEvalState::ReadAttributes => {
                self.oam_buffer = self.primary_oam.read_data();
                self.primary_oam.inc_addr();
                self.sprite_eval_state = SpriteEvalState::WriteTileAttributes;
            },
            SpriteEvalState::WriteTileAttributes => {
                self.secondary_oam.write_data(self.oam_buffer);
                self.secondary_oam.inc_addr();
                self.sprite_eval_state = SpriteEvalState::ReadX;
            },
            SpriteEvalState::ReadX => {
                self.oam_buffer = self.primary_oam.read_data();
                self.primary_oam.inc_addr();
                self.sprite_eval_state = SpriteEvalState::WriteX;
            },
            SpriteEvalState::WriteX => {
                self.secondary_oam.write_data(self.oam_buffer);
                if self.secondary_oam.is_full() {
                    self.secondary_oam.write_enabled = false;
                }
                self.secondary_oam.inc_addr();
                self.sprite_eval_state = SpriteEvalState::ReadY;
            },
        }
    }

    /// Copies the eight sprites found in secondary OAM into the sprites of the next
    /// line.
    fn latch_sprites(&mut self)
        requires
            old(self).wf(),
        ensures
            final(self).wf(),
            final(self).only_sprites_changed(old(self)),
            final(self).status_register == old(self).status_register,
            final(self).sprite_row_data.can_shift(),
            final(self).sprite_row_data.sprite_number == 0,
            final(self).sprite_row_data.write_enabled == old(self).sprite_row_data.write_enabled,
            final(self).primary_oam@ == old(self).primary_oam@.at(0),
            final(self).secondary_oam@ == (OamState { addr: 32, ..old(self).secondary_oam@ }),
            final(self).oam_buffer == old(self).oam_buffer,
            final(self).sprite_eval_state == old(self).sprite_eval_state,
            forall|i: int| 0 <= i < 8 ==> #[trigger] final(self).sprite_row_data.sprite_data@[i]
                == latched_row(old(self).sprite_row_data.sprite_data@[i], old(self).secondary_oam@, i),
    {
        self.primary_oam.load_addr(0);
        self.secondary_oam.load_addr(0);
        proof { lemma_oam_addr(self.secondary_oam.addr_mask); }
        self.sprite_row_data.set_current_sprite(0);

        let mut i: usize = 0;
        while i < 8
            invariant
                i <= 8,
                self.wf(),
                self.only_sprites_changed(old(self)),
                self.status_register == old(self).status_register,
                self.sprite_row_data.sprite_number == i % 8,
                self.sprite_row_data.write_enabled == old(self).sprite_row_data.write_enabled,
                self.oam_buffer == old(self).oam_buffer,
                self.sprite_eval_state == old(self).sprite_eval_state,
                self.primary_oam@ == old(self).primary_oam@.at(0),
                self.secondary_oam@ == (OamState { addr: (4 * i) as u8, ..old(self).secondary_oam@ }),
                self.secondary_oam.addr_mask == 127,
                forall|j: int| 0 <= j < i ==> #[trigger] self.sprite_row_data.sprite_data@[j]
                    == latched_row(old(self).sprite_row_data.sprite_data@[j], old(self).secondary_oam@, j),
                forall|j: int| 0 <= j < i ==> 0 <= #[trigger] self.sprite_row_data.sprite_data@[j].x <= 255,
                forall|j: int| i <= j < 8 ==> #[trigger] self.sprite_row_data.sprite_data@[j] == old(self).sprite_row_data.sprite_data@[j],
                old(self).sprite_row_data.wf(),
            decreases 8 - i,
        {
            let n = self.sprite_row_data.sprite_number;
            let mut s = self.sprite_row_data.sprite_data[n];
            s.sprite0 = i == 0 && self.secondary_oam.has_sprite0;
            proof {
                lemma_oam_addr((4 * i + 1) as u8);
                lemma_oam_addr((4 * i + 2) as u8);
                lemma_oam_addr((4 * i + 3) as u8);
                lemma_oam_addr((4 * i + 4) as u8);
            }
            s.y = self.secondary_oam.read_data();
            self.secondary_oam.inc_addr();
            s.tile_id = self.secondary_oam.read_data();
            self.secondary_oam.inc_addr();
            s.attributes = self.secondary_oam.read_data();
            self.secondary_oam.inc_addr();
            s.x = self.secondary_oam.read_data() as i16;
            self.secondary_oam.inc_addr();
            self.sprite_row_data.sprite_data[n] = s;
            self.sprite_row_data.inc_sprite();
            i = i + 1;
        }
        proof {
            assert forall|j: int| 0 <= j < 8 implies #[trigger] self.sprite_row_data.sprite_data@[j].x > i16::MIN by {
                assert(0 <= self.sprite_row_data.sprite_data@[j].x);
            }
        }
    }

    /// The pattern address of the current sprite's row on this line.
    fn compute_base_sprite_pattern_address(&self) -> (r: u16)
        requires
            self.sprite_row_data.wf(),
        ensures
            r == self.sprite_row_data.sprite_data@[self.sprite_row_data.sprite_number as int].pattern_address(
                self.ctrl() & CtrlFlags::SpriteSizeLarge != 0, self.ctrl() & CtrlFlags::SpriteTableHigh != 0, self.scan_line as u16),
    {
        let sprite_large_mode = self.read_ctrl_flag(CtrlFlags::SpriteSizeLarge);
        let sprite_high_mode = self.read_ctrl_flag(CtrlFlags::SpriteTableHigh);
        proof {
            lemma_single_flag(self.ctrl(), CtrlFlags::SpriteSizeLarge);
            lemma_single_flag(self.ctrl(), CtrlFlags::SpriteTableHigh);
        }
        let n = self.sprite_row_data.sprite_number;
        self.sprite_row_data.sprite_data[n].get_pattern_address(sprite_large_mode, sprite_high_mode, self.scan_line as u16)
    }
}


/// The sprite that entry `i` of secondary OAM `q` describes, latched over `s`: its Y,
/// tile, attribute and X bytes, and whether it is sprite 0; its pattern planes stay.
pub open spec fn latched_row(s: SpriteRowData, q: OamState, i: int) -> SpriteRowData {
    SpriteRowData {
        sprite0: i == 0 && q.has_sprite0,
        y: q.byte(4 * i),
        tile_id: q.byte(4 * i + 1),
        attributes: q.byte(4 * i + 2),
        x: q.byte(4 * i + 3) as i16,
        ..s
    }
}

impl PPU {
    /// The PPU at the start of a dot's rendering work: the pending access done (leaving
    /// `data_buffer` and `bus`) and the status flags stepped.
    pub open spec fn render_start(&self, data_buffer: u8, bus: Bus) -> PPU {
        PPU {
            bus,
            data_buffer,
            bus_request: BusRequest::Idle,
            status_register: self.status_after().0,
            resetting: self.status_after().1,
            primary_oam: OAMData { write_enabled: self.status_after().2, ..self.primary_oam },
            ..*self
        }
    }

    /// One cycle of sprite evaluation (dots 65-256) from primary OAM `p`, secondary OAM
    /// `q`, the OAM buffer `b`, the state `st` and the status register `status`: odd
    /// steps read a byte of primary OAM, even steps write it to secondary OAM; a Y in
    /// range takes the sprite's other three bytes (marking sprite 0, or the overflow once
    /// eight are found), else primary OAM skips to the next sprite (one byte further once
    /// secondary OAM is full); the eighth sprite's X closes secondary OAM to writes.
    pub open spec fn eval_step(&self, p: OamState, q: OamState, b: u8, st: SpriteEvalState, status: u8)
        -> (OamState, OamState, u8, SpriteEvalState, u8) {
        match st {
            SpriteEvalState::ReadY => (p.inc(), q, p.data(), SpriteEvalState::WriteCompareY, status),
            SpriteEvalState::WriteCompareY => {
                let y = b as int;
                let height: int = if self.ctrl() & CtrlFlags::SpriteSizeLarge == CtrlFlags::SpriteSizeLarge { 16 } else { 8 };
                let q1 = q.written(b);
                if y <= self.scan_line && self.scan_line < y + height
                    && status & StatusFlags::SpriteOverflow != StatusFlags::SpriteOverflow {
                    if !q.write_enabled {
                        (p, q1.inc(), b, SpriteEvalState::ReadTileIndex, status | StatusFlags::SpriteOverflow)
                    } else if p.addr < 4 {
                        (p, OamState { has_sprite0: true, ..q1 }.inc(), b, SpriteEvalState::ReadTileIndex, status)
                    } else {
                        (p, q1.inc(), b, SpriteEvalState::ReadTileIndex, status)
                    }
                } else {
                    let p3 = p.inc().inc().inc();
                    (if !q.write_enabled { p3.inc() } else { p3 }, q1, b, SpriteEvalState::ReadY, status)
                }
            },
            SpriteEvalState::ReadTileIndex => (p.inc(), q, p.data(), SpriteEvalState::WriteTileIndex, status),
            SpriteEvalState::WriteTileIndex => (p, q.written(b).inc(), b, SpriteEvalState::ReadAttributes, status),
            SpriteEvalState::ReadAttributes => (p.inc(), q, p.data(), SpriteEvalState::WriteTileAttributes, status),
            SpriteEvalState::WriteTileAttributes => (p, q.written(b).inc(), b, SpriteEvalState::ReadX, status),
            SpriteEvalState::ReadX => (p.inc(), q, p.data(), SpriteEvalState::WriteX, status),
            SpriteEvalState::WriteX => {
                let q1 = q.written(b);
                let q2 = if q1.addr == 127 { OamState { write_enabled: false, ..q1 } } else { q1 };
                (p, q2.inc(), b, SpriteEvalState::ReadY, status)
            },
        }
    }

    /// Primary and secondary OAM, the OAM buffer, the evaluation state and the status
    /// register after a dot's sprite work on a visible line: dot 0 opens secondary OAM;
    /// dots 1-64 clear it (primary OAM reads 0xFF); dots 65-256 evaluate, starting over at
    /// 65; dot 257 latches the sprites found and leaves both addresses at their start
    /// (secondary OAM's after its 32 bytes).
    pub open spec fn evaluated(&self) -> (OamState, OamState, u8, SpriteEvalState, u8) {
        let p = self.primary_oam@;
        let q = self.secondary_oam@;
        let b = self.oam_buffer;
        let st = self.sprite_eval_state;
        let status = self.status_register;
        let t = self.tick;
        if self.scan_line < 0 || t > 257 {
            (p, q, b, st, status)
        } else if t == 0 {
            (OamState { read_enabled: false, ..p.at(0) }, OamState { write_enabled: true, has_sprite0: false, ..q.at(0) }, b, st, status)
        } else if t <= 64 {
            if t % 2 == 1 { (p.inc(), q, p.data(), st, status) } else { (p, q.written(b).inc(), b, st, status) }
        } else if t == 65 {
            self.eval_step(OamState { read_enabled: true, ..p.at(0) }, q.at(0), b, SpriteEvalState::ReadY, status)
        } else if t <= 256 {
            self.eval_step(p, q, b, st, status)
        } else {
            (p.at(0), OamState { addr: 32, ..q }, b, st, status)
        }
    }

    /// A dot's sprite work from this PPU to `e`: OAM and the evaluation as `evaluated`
    /// says, and at dot 257 of a visible line the eight sprites of secondary OAM latched
    /// for the next line.
    pub open spec fn sprites_evaluated(&self, e: PPU) -> bool {
        &&& (e.primary_oam@, e.secondary_oam@, e.oam_buffer, e.sprite_eval_state, e.status_register) == self.evaluated()
        &&& if self.scan_line >= 0 && self.tick == 257 {
            &&& e.sprite_row_data.sprite_number == 0
            &&& e.sprite_row_data.write_enabled == self.sprite_row_data.write_enabled
            &&& forall|i: int| 0 <= i < 8 ==> #[trigger] e.sprite_row_data.sprite_data@[i]
                == latched_row(self.sprite_row_data.sprite_data@[i], self.secondary_oam@, i)
        } else {
            e.sprite_row_data == self.sprite_row_data
        }
        &&& e.only_sprites_changed(self)
    }

    /// A dot's fetch and shift work on a rendered line, from this PPU to `f`, eight dots
    /// per tile: the nametable byte is asked for (1) and taken (2), the attribute byte
    /// asked for (3) and taken (4), the low pattern byte asked for (5) and taken (6), the
    /// high one asked for (7) and taken (0); on dots 261-320 the pattern bytes are those
    /// of the next line's sprites, one sprite per eight dots. The shifters latch at each
    /// tile start from dot 9, the background shifters move on dots 1-336 and the sprites
    /// on dots 1-256.
    pub open spec fn fetch_stepped(&self, f: PPU) -> bool {
        let t = self.tick;
        let n = self.sprite_row_data.sprite_number as int;
        let rows = self.rows_fetched();
        &&& f.bg_shift_registers == if 0 < t && t <= 336 { self.bg_fetched().shifted() } else { self.bg_fetched() }
        &&& f.sprite_row_data.sprite_number == if self.sprite_fetch() && t % 8 == 0 {
            ((n + 1) % 8) as usize
        } else {
            self.sprite_row_data.sprite_number
        }
        &&& f.sprite_row_data.write_enabled == self.sprite_row_data.write_enabled
        &&& forall|i: int| 0 <= i < 8 ==> #[trigger] f.sprite_row_data.sprite_data@[i]
            == if 0 < t && t <= 256 { rows[i].shifted() } else { rows[i] }
        &&& f.bus_request == self.fetch_request()
        &&& f.only_shifters_changed(self)
    }

    /// Dots 261-320 fetch the next line's sprite patterns.
    pub open spec fn sprite_window(&self) -> bool {
        261 <= self.tick && self.tick <= 320
    }

    /// A sprite pattern fetch dot of a rendered line.
    pub open spec fn sprite_fetch(&self) -> bool {
        self.sprite_window() && -1 <= self.scan_line && self.scan_line <= 239
    }

    /// The pattern address of the sprite being fetched, on this line.
    pub open spec fn sprite_fetch_address(&self) -> u16 {
        self.sprite_row_data.sprite_data@[self.sprite_row_data.sprite_number as int].pattern_address(
            self.ctrl() & CtrlFlags::SpriteSizeLarge != 0, self.ctrl() & CtrlFlags::SpriteTableHigh != 0, self.scan_line as u16)
    }

    /// The background pattern address of the named tile's row.
    pub open spec fn bg_fetch_address(&self) -> u16 {
        self.bg_shift_registers.pattern_address(self.ctrl() & CtrlFlags::BackgroundPatternHigh != 0, self.vram_address.fine_y())
    }

    /// The background shifters after the dot's byte is taken, before they move.
    pub open spec fn bg_fetched(&self) -> BGShiftRegisterSet {
        let t = self.tick;
        let phase = t % 8;
        let bg = self.bg_shift_registers;
        let d = self.data_buffer;
        if t == 0 {
            bg
        } else if phase == 1 {
            if t >= 9 { bg.latched() } else { bg }
        } else if phase == 2 {
            BGShiftRegisterSet { name_table_data: d, ..bg }
        } else if phase == 4 {
            if t != 340 {
                bg.attribute_loaded(d, VramAddress::attribute_shift(self.vram_address.x(), self.vram_address.y()))
            } else {
                BGShiftRegisterSet { name_table_data: d, ..bg }
            }
        } else if phase == 6 && !self.sprite_window() {
            BGShiftRegisterSet {
                pattern_data: BGShiftRegisterPair { low: BGShiftRegister { prefetch: d, ..bg.pattern_data.low }, ..bg.pattern_data },
                ..bg
            }
        } else if phase == 0 && !self.sprite_window() {
            BGShiftRegisterSet {
                pattern_data: BGShiftRegisterPair { high: BGShiftRegister { prefetch: d, ..bg.pattern_data.high }, ..bg.pattern_data },
                ..bg
            }
        } else {
            bg
        }
    }

    /// The sprites after the dot's pattern byte is taken, before they move.
    pub open spec fn rows_fetched(&self) -> Seq<SpriteRowData> {
        let sp = self.sprite_row_data;
        let n = sp.sprite_number as int;
        let d = self.data_buffer;
        if self.sprite_fetch() && self.tick % 8 == 6 {
            sp.sprite_data@.update(n, sp.sprite_data@[n].with_pattern_low(d))
        } else if self.sprite_fetch() && self.tick % 8 == 0 {
            sp.sprite_data@.update(n, sp.sprite_data@[n].with_pattern_high(d))
        } else {
            sp.sprite_data@
        }
    }

    /// The access the dot's fetch asks for.
    pub open spec fn fetch_request(&self) -> BusRequest {
        let t = self.tick;
        let phase = t % 8;
        if t == 0 {
            self.bus_request
        } else if phase == 1 {
            BusRequest::Read(self.vram_address.nametable_address())
        } else if phase == 3 {
            if t != 339 {
                BusRequest::Read(self.vram_address.attribute_address())
            } else {
                BusRequest::Read(self.vram_address.nametable_address())
            }
        } else if phase == 5 {
            if self.sprite_window() {
                if self.sprite_fetch() { BusRequest::Read(self.sprite_fetch_address()) } else { self.bus_request }
            } else {
                BusRequest::Read(self.bg_fetch_address())
            }
        } else if phase == 7 {
            if self.sprite_window() {
                if self.sprite_fetch() { BusRequest::Read(self.sprite_fetch_address() | 0x08) } else { self.bus_request }
            } else {
                BusRequest::Read(self.bg_fetch_address() | 0x08)
            }
        } else {
            self.bus_request
        }
    }

    /// A dot's pixel, from this PPU to `g`: on a visible dot the pixel goes into the frame
    /// and a sprite-0 hit sets its flag; nothing else changes.
    pub open spec fn rendered(&self, g: PPU) -> bool {
        let x = self.tick as int;
        let y = self.scan_line as u16 as int;
        if x < 256 && y < 240 {
            let (p, c) = self.pixel();
            &&& g.frame@ == self.frame@.update(y * 256 + x, self.palette_value(0x3F00 | (p << 2u16) | c))
            &&& g.status_register == if self.sprite0_hit() {
                self.status_register | StatusFlags::Sprite0Hit
            } else {
                self.status_register
            }
            &&& g == (PPU { frame: g.frame, status_register: g.status_register, ..*self })
        } else {
            g == *self
        }
    }
}
} // verus!

verus! {

/// An attribute quadrant shift is 0, 2, 4 or 6.
proof fn lemma_attribute_shift_small(x: u8, y: u8)
    by (bit_vector)
    ensures
        ((y >> 2u8) & 0x04) | ((x >> 3u8) & 0x02) < 8,
{
}

impl PPU {
    /// Only the background and sprite shifters and the pending bus access change.
    pub open spec fn only_shifters_changed(&self, old: &PPU) -> bool {
        *self == PPU {
            bg_shift_registers: self.bg_shift_registers,
            sprite_row_data: self.sprite_row_data,
            bus_request: self.bus_request,
            ..*old
        }
    }

    /// The fetches of a rendered line, eight dots per tile: nametable byte, attribute
    /// byte, then the low and high pattern bytes (of the background, or during dots
    /// 261-320 of the next line's sprites); the shifters move once a dot.
    #[verifier::rlimit(80)]
    fn manage_shift_registers(&mut self)
        requires
            old(self).wf(),
            old(self).sprite_row_data.can_shift(),
        ensures
            final(self).wf(),
            old(self).fetch_stepped(*final(self)),
            final(self).only_shifters_changed(old(self)),
            old(self).tick > 0 && old(self).tick % 8 == 1 ==> final(self).bus_request == BusRequest::Read(old(self).vram_address.nametable_address()),
            old(self).tick % 8 == 3 && old(self).tick != 339 ==> final(self).bus_request == BusRequest::Read(old(self).vram_address.attribute_address()),
            old(self).tick == 339 ==> final(self).bus_request == BusRequest::Read(old(self).vram_address.nametable_address()),
            old(self).tick % 8 == 5 && !(261 <= old(self).tick <= 320) ==> final(self).bus_request == BusRequest::Read(
                old(self).bg_shift_registers.pattern_address(old(self).ctrl() & CtrlFlags::BackgroundPatternHigh != 0, old(self).vram_address.fine_y())),
            old(self).tick % 8 == 2 ==> final(self).bg_shift_registers.name_table_data == old(self).data_buffer,
            old(self).tick == 0 ==> *final(self) == *old(self),
    {
        let ghost o = *self;
        if self.tick > 0 {
            let phase = self.tick % 8;
            if phase == 1 {
                self.bus_request = BusRequest::Read(self.vram_address.get_nametable_address());
                if self.tick >= 9 {
                    self.bg_shift_registers.latch();
                }
            } else if phase == 2 {
                self.bg_shift_registers.load_name_table_data(self.data_buffer);
            } else if phase == 3 {
                if self.tick != 339 {
                    self.bus_request = BusRequest::Read(self.vram_address.get_attribute_address());
                } else {
                    self.bus_request = BusRequest::Read(self.vram_address.get_nametable_address());
                }
            } else if phase == 4 {
                if self.tick != 340 {
                    let shift = self.vram_address.get_attribute_shift();
                    proof { lemma_attribute_shift_small(self.vram_address.x(), self.vram_address.y()); }
                    self.bg_shift_registers.load_attribute_data(self.data_buffer, shift);
                } else {
                    self.bg_shift_registers.load_name_table_data(self.data_buffer);
                }
            } else if phase == 5 {
                if 261 <= self.tick && self.tick <= 320 {
                    if -1 <= self.scan_line && self.scan_line <= 239 {
                        self.bus_request = BusRequest::Read(self.compute_base_sprite_pattern_address());
                    }
                } else {
                    let high = self.read_ctrl_flag(CtrlFlags::BackgroundPatternHigh);
                    proof { lemma_single_flag(self.ctrl(), CtrlFlags::BackgroundPatternHigh); }
                    let address = self.bg_shift_registers.get_pattern_address(high, self.vram_address.get_fine_y());
                    self.bus_request = BusRequest::Read(address);
                }
            } else if phase == 6 {
                if 261 <= self.tick && self.tick <= 320 {
                    if -1 <= self.scan_line && self.scan_line <= 239 {
                        let n = self.sprite_row_data.sprite_number;
                        let mut s = self.sprite_row_data.sprite_data[n];
                        s.set_pattern_low(self.data_buffer);
                        self.sprite_row_data.sprite_data[n] = s;
                    }
                } else {
                    self.bg_shift_registers.load_pattern_data_low(self.data_buffer);
                }
            } else if phase == 7 {
                if 261 <= self.tick && self.tick <= 320 {
                    if -1 <= self.scan_line && self.scan_line <= 239 {
                        self.bus_request = BusRequest::Read(self.compute_base_sprite_pattern_address() | 0b00001000);
                    }
                } else {
                    let high = self.read_ctrl_flag(CtrlFlags::BackgroundPatternHigh);
                    proof { lemma_single_flag(self.ctrl(), CtrlFlags::BackgroundPatternHigh); }
                    let address = self.bg_shift_registers.get_pattern_address(high, self.vram_address.get_fine_y()) | 0b00001000;
                    self.bus_request = BusRequest::Read(address);
                }
            } else {
                if 261 <= self.tick && self.tick <= 320 {
                    if -1 <= self.scan_line && self.scan_line <= 239 {
                        let n = self.sprite_row_data.sprite_number;
                        let mut s = self.sprite_row_data.sprite_data[n];
                        s.set_pattern_high(self.data_buffer);
                        self.sprite_row_data.sprite_data[n] = s;
                        self.sprite_row_data.inc_sprite();
                    }
                } else {
                    self.bg_shift_registers.load_pattern_data_high(self.data_buffer);
                }
            }

            assert(self.bg_shift_registers == o.bg_fetched());
            assert(self.sprite_row_data.sprite_data@ =~= o.rows_fetched());
            assert(self.bus_request == o.fetch_request());
            assert(self.sprite_row_data.sprite_number == if o.sprite_fetch() && o.tick % 8 == 0 {
                ((o.sprite_row_data.sprite_number + 1) % 8) as usize
            } else {
                o.sprite_row_data.sprite_number
            });
            let ghost mid = *self;
            if self.tick <= 336 {
                self.bg_shift_registers.shift();
            }
            if self.tick <= 256 {
                self.sprite_row_data.shift();
            }
            assert(forall|i: int| 0 <= i < 8 ==> #[trigger] self.sprite_row_data.sprite_data@[i]
                == if 0 < o.tick && o.tick <= 256 { mid.sprite_row_data.sprite_data@[i].shifted() } else { mid.sprite_row_data.sprite_data@[i] });
        }
    }

    /// Draws the pixel at the current dot of a visible line into `frame`, and flags a
    /// sprite 0 hit.
    fn manage_render(&mut self)
        requires
            old(self).wf(),
        ensures
            final(self).wf(),
            old(self).rendered(*final(self)),
            ({
                let x = old(self).tick as int;
                let y = old(self).scan_line as u16 as int;
                if x < 256 && y < 240 {
                    let (p, c) = old(self).pixel();
                    &&& final(self).frame@ == old(self).frame@.update(y * 256 + x, old(self).palette_value(0x3F00 | (p << 2u16) | c))
                    &&& final(self).status_register == if old(self).sprite0_hit() {
                        old(self).status_register | StatusFlags::Sprite0Hit
                    } else {
                        old(self).status_register
                    }
                    &&& *final(self) == PPU { frame: final(self).frame, status_register: final(self).status_register, ..*old(self) }
                } else {
                    *final(self) == *old(self)
                }
            }),
    {
        let x = self.tick;
        let y = self.scan_line as u16;

        if x < 256 && y < 240 {
            let (bg_palette, bg_color) = self.bg_pixel();
            let (sprite0, sprite_palette, sprite_color, bg_priority) = match self.sprite_row_data.first_opaque() {
                Some(sprite) => {
                    let (palette_number, color) = sprite.get_palette_number_and_color();
                    (sprite.sprite0, palette_number, color, sprite.get_bg_priority())
                },
                None => (false, 0x0010, 0, true),
            };

            if bg_color != 0 && sprite_color != 0 && sprite0 {
                self.status_register = self.status_register | StatusFlags::Sprite0Hit;
            }

            let show_bg = self.read_mask_flag(MaskFlags::ShowBG) && (x >= 8 || self.read_mask_flag(MaskFlags::ShowLeft8BG));
            let show_sprites = self.read_mask_flag(MaskFlags::ShowSprites) && (x >= 8 || self.read_mask_flag(MaskFlags::ShowLeft8Sprites));
            proof {
                lemma_single_flag(self.mask_register, MaskFlags::ShowBG);
                lemma_single_flag(self.mask_register, MaskFlags::ShowLeft8BG);
                lemma_single_flag(self.mask_register, MaskFlags::ShowSprites);
                lemma_single_flag(self.mask_register, MaskFlags::ShowLeft8Sprites);
            }
            let (bg_palette, bg_color) = if show_bg { (bg_palette, bg_color) } else { (0, 0) };
            let (sprite_palette, sprite_color) = if show_sprites { (sprite_palette, sprite_color) } else { (0b0100, 0) };

            let (palette_number, color) = if bg_color == 0 && sprite_color == 0 {
                (0, 0)
            } else if bg_color == 0 {
                (sprite_palette, sprite_color)
            } else if sprite_color == 0 {
                (bg_palette, bg_color)
            } else if !bg_priority {
                (sprite_palette, sprite_color)
            } else {
                (bg_palette, bg_color)
            };

            let palette_address: u16 = 0x3F00 | (palette_number << 2) | color;
            let value = self.read_palette(palette_address);
            let index = (y as usize) * SCREEN_WIDTH + (x as usize);
            self.frame.set(index, value);
        }
    }

    /// The background's palette and color at the current dot.
    fn bg_pixel(&self) -> (r: (u16, u16))
        requires
            self.wf(),
        ensures
            r == self.bg_shift_registers.palette_and_color(self.temporary_vram_address.fine_x),
    {
        self.bg_shift_registers.get_palette_number_and_color(self.temporary_vram_address.fine_x)
    }

    /// One PPU cycle as `clock` performs it, from this PPU to `after`, returning `r`.
    pub open spec fn clocked(self, after: PPU, r: (bool, bool)) -> bool {
        &&& (after.tick, after.scan_line, after.even_frame, r.0) == self.ticked()
        &&& r.1 == after.nmi_line()
        &&& after.mask_register == self.mask_register
        &&& after.palettes == self.palettes
        &&& after.ctrl_high_register == self.ctrl_high_register
        &&& after.temporary_vram_address == self.temporary_vram_address
        &&& after.vram_address == if self.rendering() && self.scan_line < 240 {
            self.scrolled()
        } else {
            self.vram_address
        }
        &&& after.resetting == self.status_after().1
        &&& match self.bus_request {
            BusRequest::Read(addr) => after.data_buffer == crate::bus::bus_read(self.bus@, addr)
                && after.bus@ == crate::bus::bus_touch(self.bus@, addr),
            BusRequest::Write(addr, data) => after.data_buffer == self.data_buffer
                && after.bus@ == crate::bus::bus_write(self.bus@, addr, data),
            BusRequest::Idle => after.data_buffer == self.data_buffer && after.bus@ == self.bus@,
        }
        &&& self.rendering() && 0 <= self.scan_line < 240 && self.tick < 256 ==> ({
            let pre = PPU {
                tick: self.tick,
                scan_line: self.scan_line,
                even_frame: self.even_frame,
                vram_address: self.vram_address,
                ..after
            };
            let (p, c) = pre.pixel();
            after.frame@ == self.frame@.update(
                self.scan_line * 256 + self.tick, pre.palette_value(0x3F00 | (p << 2u16) | c))
        })
        &&& self.rendering() && self.scan_line < 240 ==> {
            &&& after.status_register & StatusFlags::VerticalBlank == self.status_after().0 & StatusFlags::VerticalBlank
            &&& self.tick > 0 && self.tick % 8 == 1 ==> after.bus_request == BusRequest::Read(self.vram_address.nametable_address())
            &&& self.tick % 8 == 3 && self.tick != 339 ==> after.bus_request == BusRequest::Read(self.vram_address.attribute_address())
            &&& self.tick == 339 ==> after.bus_request == BusRequest::Read(self.vram_address.nametable_address())
            &&& self.tick % 8 == 5 && !(261 <= self.tick <= 320) ==> after.bus_request == BusRequest::Read(
                self.bg_shift_registers.pattern_address(self.ctrl() & CtrlFlags::BackgroundPatternHigh != 0, self.vram_address.fine_y()))
            &&& self.tick % 8 == 2 ==> after.bg_shift_registers.name_table_data == after.data_buffer
            &&& 0 <= self.scan_line && self.tick < 256 ==> ({
                let pre = PPU {
                    tick: self.tick,
                    scan_line: self.scan_line,
                    even_frame: self.even_frame,
                    vram_address: self.vram_address,
                    status_register: after.status_register,
                    ..after
                };
                pre.sprite0_hit() ==> after.status_register & StatusFlags::Sprite0Hit != 0
            })
        }
        &&& self.rendering() && self.scan_line < 240 ==> exists|e: PPU, f: PPU, g: PPU|
            #[trigger] self.render_start(after.data_buffer, after.bus).sprites_evaluated(e) && #[trigger] e.fetch_stepped(f)
            && #[trigger] f.rendered(g) && after == (PPU {
                vram_address: g.scrolled(),
                tick: after.tick,
                scan_line: after.scan_line,
                even_frame: after.even_frame,
                ..g
            })
        &&& !(self.rendering() && self.scan_line < 240) ==> {
            &&& after.status_register == self.status_after().0
            &&& after.primary_oam.write_enabled == self.status_after().2
            &&& after.frame@ == self.frame@
            &&& after.bg_shift_registers == self.bg_shift_registers
            &&& after.sprite_row_data == self.sprite_row_data
            &&& after.bus_request == BusRequest::Idle
        }
    }

    /// One PPU cycle: the pending bus access, the status flags, and on rendered lines
    /// sprite evaluation, fetches, the pixel and scrolling; then the next dot. Returns
    /// whether a frame ended and the NMI output (active low).
    pub fn clock(&mut self) -> (r: (bool, bool))
        requires
            old(self).wf(),
            old(self).sprite_row_data.can_shift(),
        ensures
            final(self).wf(),
            old(self).clocked(*final(self), r),
    {
        self.manage_bus_request();
        let ghost fetched = *self;
        self.manage_status();
        let ghost statused = *self;
        let ghost mut before_render = *self;
        assert(statused.scrolled() == old(self).scrolled());
        let ghost mut evaluated = *self;
        let ghost mut rendered = *self;
        if self.rendering_enabled() && self.scan_line < 240 {
            self.manage_sprite_evaluation();
            proof { evaluated = *self; }
            self.manage_shift_registers();
            proof { before_render = *self; }
            self.manage_render();
            proof { rendered = *self; }
            proof {
                lemma_vblank_kept(before_render.status_register);
                assert(self.status_register & StatusFlags::VerticalBlank == statused.status_register & StatusFlags::VerticalBlank);
            }
            assert(self.scrolled() == statused.scrolled());
            self.manage_scrolling();
        }
        let end_of_frame = self.manage_tick();
        proof {
            if old(self).rendering() && old(self).scan_line < 240 {
                assert(statused == old(self).render_start(self.data_buffer, self.bus));
                assert(statused.sprites_evaluated(evaluated));
                assert(evaluated.fetch_stepped(before_render));
                assert(before_render.rendered(rendered));
                assert(*self == (PPU {
                    vram_address: rendered.scrolled(),
                    tick: self.tick,
                    scan_line: self.scan_line,
                    even_frame: self.even_frame,
                    ..rendered
                }));
            }
            if old(self).rendering() && 0 <= old(self).scan_line < 240 && old(self).tick < 256 {
                let pre = PPU {
                    tick: old(self).tick,
                    scan_line: old(self).scan_line,
                    even_frame: old(self).even_frame,
                    vram_address: old(self).vram_address,
                    ..*self
                };
                assert(pre.pixel() == before_render.pixel());
                assert(pre.palettes == before_render.palettes && pre.mask_register == before_render.mask_register);
                let pre2 = PPU { status_register: self.status_register, ..pre };
                assert(pre2.sprite0_hit() == before_render.sprite0_hit());
            }
        }
        (end_of_frame, self.manage_nmi())
    }
}

} // verus!

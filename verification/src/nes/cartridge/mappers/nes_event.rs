use vstd::prelude::*;

use crate::bus::InterruptFlags;
use crate::nes::cartridge::{CartridgeCore, MirrorType, region_written};
use crate::nes::cartridge::mappers::Mapper;
use crate::nes::cartridge::mappers::mmc1::mmc1_mirror;

verus! {

/// How far the board's start-up sequence has gone: the program stays on its first 32K
/// until the IRQ counter has been enabled and then disabled once.
#[derive(Clone, Copy, PartialEq, Eq, Debug, Structural)]
pub enum InitState {
    NotStarted,
    Started,
    Initialized,
}

/// Mapper 105: an MMC1 variant with two program chips and a timer that raises IRQ.
pub struct NesEvent {
    pub core: CartridgeCore,

    pub sram_disabled: bool,
    pub control_reg: u8,
    pub irq_counter_enabled: bool,
    pub irq_occurred: bool,
    pub prg_chip_select: u8,
    pub prg_bank_reg_a: u8,
    pub prg_bank_reg_b: u8,
    pub shift_register: u8,
    pub shift_count: u8,
    pub cycle_count: usize,
    pub last_write_cycle: usize,
    pub irq_count: u32,
    pub irq_counter_target: u32,
    pub initialized: InitState,
}

/// NES-EVENT nametable mirroring after its banks follow its registers, as on MMC1:
/// control bits 2 mirror vertically ($2000 with $2800), 3 horizontally ($2000 with
/// $2400), 0 and 1 show one table.
pub proof fn law_nes_event_mirroring(m: NesEvent, old: CartridgeCore)
    requires
        m.banks_follow(old),
    ensures
        ({
            let b = m.core.vram.bank_map@;
            &&& m.control_reg & 3 == 2 ==> b[0] == b[2] && b[1] == b[3] && b[0] != b[1]
            &&& m.control_reg & 3 == 3 ==> b[0] == b[1] && b[2] == b[3] && b[0] != b[2]
            &&& m.control_reg & 3 == 0 ==> forall|p: int| 0 <= p < 8 ==> #[trigger] b[p] == (0i16, false)
            &&& m.control_reg & 3 == 1 ==> forall|p: int| 0 <= p < 8 ==> #[trigger] b[p] == (1i16, false)
        }),
{
    crate::nes::cartridge::mappers::mmc1::lemma_mmc1_family_mirroring(m.control_reg, m.core.vram.bank_map@);
}

impl NesEvent {
    /// The registers: control, chip select, the two program bank registers, whether save
    /// RAM is off, and the start-up state.
    pub open spec fn registers(&self) -> (u8, u8, u8, u8, bool, InitState) {
        (self.control_reg, self.prg_chip_select, self.prg_bank_reg_a, self.prg_bank_reg_b, self.sram_disabled, self.initialized)
    }

    /// The serial port: shift register, bits shifted, the PPU cycle count and the cycle
    /// of the last write that counted.
    pub open spec fn port(&self) -> (u8, u8, usize, usize) {
        (self.shift_register, self.shift_count, self.cycle_count, self.last_write_cycle)
    }

    /// The timer: enabled, expired, count and target.
    pub open spec fn timer(&self) -> (bool, bool, u32, u32) {
        (self.irq_counter_enabled, self.irq_occurred, self.irq_count, self.irq_counter_target)
    }

    pub open spec fn prg_mode(&self) -> u8 {
        (self.control_reg & 0x0C) >> 2u8
    }

    /// The banks of `self.core` are those its registers select, over the memories of
    /// `old`.
    pub open spec fn banks_follow(&self, old: CartridgeCore) -> bool {
        let prg = old.prg_rom.bank_map@;
        &&& self.core.wf()
        &&& self.core.vram.rebanked(&old.vram)
        &&& self.core.vram.mirrored(mmc1_mirror(self.control_reg & 3))
        &&& self.core.prg_rom.same_contents(&old.prg_rom)
        &&& if self.initialized != InitState::Initialized {
            &&& self.core.prg_rom.bank_size == 0x8000
            &&& self.core.prg_rom.bank_map@ == prg.update(0, (0i16, prg[0].1))
        } else if self.prg_chip_select == 0 {
            &&& self.core.prg_rom.bank_size == 0x8000
            &&& self.core.prg_rom.bank_map@ == prg.update(0, (self.prg_bank_reg_a as i16, prg[0].1))
        } else if self.prg_mode() <= 1 {
            &&& self.core.prg_rom.bank_size == 0x8000
            &&& self.core.prg_rom.bank_map@ == prg.update(0, (((self.prg_bank_reg_b >> 1u8) + 4) as i16, prg[0].1))
        } else if self.prg_mode() == 2 {
            &&& self.core.prg_rom.bank_size == 0x4000
            &&& self.core.prg_rom.bank_map@ == prg.update(0, (8i16, prg[0].1)).update(1, ((self.prg_bank_reg_b + 8) as i16, prg[1].1))
        } else {
            &&& self.core.prg_rom.bank_size == 0x4000
            &&& self.core.prg_rom.bank_map@ == prg.update(0, ((self.prg_bank_reg_b + 8) as i16, prg[0].1)).update(1, (-1i16, prg[1].1))
        }
        &&& self.core.chr_ram == old.chr_ram
        &&& self.core.sram == old.sram
        &&& self.core.nes_header == old.nes_header
        &&& self.core.rom_expansion == old.rom_expansion
    }

    /// The IRQ register: bit 4 clear runs the timer (clearing it stops and resets it),
    /// bit 3 selects the program chip and bits 1-2 the bank in the first chip.
    pub open spec fn irq_loaded(&self, v: u8) -> Self {
        let enabled = v & 0x10 == 0;
        NesEvent {
            irq_counter_enabled: enabled,
            irq_count: if enabled { self.irq_count } else { 0 },
            irq_occurred: if enabled { self.irq_occurred } else { false },
            initialized: if enabled && self.initialized == InitState::NotStarted {
                InitState::Started
            } else if !enabled && self.initialized == InitState::Started {
                InitState::Initialized
            } else {
                self.initialized
            },
            prg_chip_select: (v & 0x08) >> 3u8,
            prg_bank_reg_a: (v & 0x06) >> 1u8,
            ..*self
        }
    }

    /// A five-bit write that lands in the unused register at 0xC000-0xDFFF has no meaning.
    pub open spec fn write_unsupported(&self, addr: u16, value: u8) -> bool {
        &&& 0xC000 <= addr <= 0xDFFF
        &&& self.cycle_count != self.last_write_cycle + 1
        &&& value & 0x80 == 0
        &&& self.shift_count + 1 == 5
    }

    /// A write to the serial port at `addr` (0x8000 and above): what it leaves and returns.
    pub open spec fn configured(&self, after: Self, addr: u16, value: u8, r: u8) -> bool {
        let sr = (self.shift_register >> 1u8) | ((value & 1) << 4u8);
        let shifted = NesEvent { shift_register: 0, shift_count: 0, last_write_cycle: self.cycle_count, ..*self };
        &&& r == self.shift_register
        &&& if self.cycle_count == self.last_write_cycle + 1 {
            after == *self
        } else if value & 0x80 != 0 {
            &&& after == NesEvent { core: after.core, control_reg: self.control_reg | 0x0C, ..shifted }
            &&& after.banks_follow(self.core)
        } else if self.shift_count + 1 == 5 {
            &&& if addr <= 0x9FFF {
                after == NesEvent { core: after.core, control_reg: sr, ..shifted }
            } else if addr <= 0xBFFF {
                after == NesEvent { core: after.core, ..shifted.irq_loaded(sr) }
            } else {
                after == NesEvent { core: after.core, prg_bank_reg_b: sr & 0x07, sram_disabled: sr & 0x10 != 0, ..shifted }
            }
            &&& after.banks_follow(self.core)
        } else {
            after == NesEvent { shift_register: sr, shift_count: (self.shift_count + 1) as u8, last_write_cycle: self.cycle_count, ..*self }
        }
    }

    pub fn new(core: CartridgeCore, dip_switches: u8) -> (r: NesEvent)
        requires
            core.wf(),
        ensures
            r.inv(),
            r.registers() == (0b00001100u8, 0u8, 0u8, 0u8, false, InitState::NotStarted),
            r.port() == (0u8, 0u8, 0usize, 0xFFFFusize),
            r.timer() == (false, false, 0u32, 0x2000_0000u32 | ((dip_switches as u32) << 25u32)),
            r.core.same_contents(&core),
            r.banks_follow(r.core),
            r.core.prg_rom.bank_size == 0x8000,
            r.core.prg_rom.bank_map@[0].0 == 0,
            r.core.vram.mirrored(MirrorType::SingleScreen(0)),
    {
        let mut result = NesEvent {
            core,

            sram_disabled: false,
            control_reg: 0b00001100,
            irq_counter_enabled: false,
            irq_occurred: false,
            prg_chip_select: 0,
            prg_bank_reg_a: 0,
            prg_bank_reg_b: 0,
            shift_register: 0,
            shift_count: 0,
            cycle_count: 0,
            last_write_cycle: 0xFFFF,
            irq_count: 0,
            irq_counter_target: 0b0010_0000_0000_0000_0000_0000_0000_0000 | ((dip_switches as u32) << 25),
            initialized: InitState::NotStarted,
        };
        proof { assert(0b00001100u8 & 3 == 0u8) by (bit_vector); }
        result.reconfigure_banks();
        proof {
            let m_prg_rom = result.core.prg_rom.bank_map@;
            assert(m_prg_rom.update(0, m_prg_rom[0]) =~= m_prg_rom);
            assert(m_prg_rom.update(0, m_prg_rom[0]).update(1, m_prg_rom[1]) =~= m_prg_rom);
        }
        result
    }

    fn configure(&mut self, addr: u16, value: u8) -> (r: u8)
        requires
            old(self).inv(),
            0x8000 <= addr,
            !old(self).write_unsupported(addr, value),
        ensures
            final(self).inv(),
            old(self).configured(*final(self), addr, value, r),
    {
        let old = self.shift_register;

        if self.cycle_count != self.last_write_cycle + 1 {
            self.last_write_cycle = self.cycle_count;
            if value & 0b10000000 != 0 {
                self.control_reg = self.control_reg | 0b00001100;
                self.shift_count = 0;
                self.shift_register = 0;
                self.reconfigure_banks();
            } else {
                self.shift_register = self.shift_register >> 1;
                self.shift_register = self.shift_register | ((value & 0b00000001) << 4);
                self.shift_count = self.shift_count + 1;
                if self.shift_count == 5 {
                    let value = self.shift_register;
                    self.shift_register = 0;
                    self.shift_count = 0;
                    if addr <= 0x9FFF {
                        self.control_reg = value;
                    } else if addr <= 0xBFFF {
                        self.set_irq_reg(value);
                    } else {
                        self.set_prg_reg_b(value);
                    }
                    self.reconfigure_banks();
                }
            }
        }
        old
    }

    fn reconfigure_banks(&mut self)
        requires
            old(self).inv(),
        ensures
            final(self).inv(),
            *final(self) == (NesEvent { core: final(self).core, ..*old(self) }),
            final(self).banks_follow(old(self).core),
    {
        let mode = self.control_reg & 0b00000011;
        let mirror_type = if mode == 0 {
            MirrorType::SingleScreen(0)
        } else if mode == 1 {
            MirrorType::SingleScreen(1)
        } else if mode == 2 {
            MirrorType::Vertical
        } else {
            MirrorType::Horizontal
        };
        self.core.vram.set_mirror_type(mirror_type);
        self.reconfigure_prg();
    }

    fn reconfigure_prg(&mut self)
        requires
            old(self).core.prg_rom.wf(),
            old(self).prg_chip_select <= 1,
        ensures
            *final(self) == (NesEvent { core: CartridgeCore { prg_rom: final(self).core.prg_rom, ..old(self).core }, ..*old(self) }),
            final(self).core.prg_rom.wf(),
            final(self).core.prg_rom.same_contents(&old(self).core.prg_rom),
            ({
                let prg = old(self).core.prg_rom.bank_map@;
                let s = *old(self);
                if s.initialized != InitState::Initialized {
                    &&& final(self).core.prg_rom.bank_size == 0x8000
                    &&& final(self).core.prg_rom.bank_map@ == prg.update(0, (0i16, prg[0].1))
                } else if s.prg_chip_select == 0 {
                    &&& final(self).core.prg_rom.bank_size == 0x8000
                    &&& final(self).core.prg_rom.bank_map@ == prg.update(0, (s.prg_bank_reg_a as i16, prg[0].1))
                } else if s.prg_mode() <= 1 {
                    &&& final(self).core.prg_rom.bank_size == 0x8000
                    &&& final(self).core.prg_rom.bank_map@ == prg.update(0, (((s.prg_bank_reg_b >> 1u8) + 4) as i16, prg[0].1))
                } else if s.prg_mode() == 2 {
                    &&& final(self).core.prg_rom.bank_size == 0x4000
                    &&& final(self).core.prg_rom.bank_map@ == prg.update(0, (8i16, prg[0].1)).update(1, ((s.prg_bank_reg_b + 8) as i16, prg[1].1))
                } else {
                    &&& final(self).core.prg_rom.bank_size == 0x4000
                    &&& final(self).core.prg_rom.bank_map@ == prg.update(0, ((s.prg_bank_reg_b + 8) as i16, prg[0].1)).update(1, (-1i16, prg[1].1))
                }
            }),
    {
        let prg_bank_mode = self.prg_bank_mode();
        if self.initialized != InitState::Initialized {
            self.core.prg_rom.set_bank_size_k(32);
            self.core.prg_rom.set_bank(0, 0);
        } else if self.prg_chip_select == 0 {
            self.core.prg_rom.set_bank_size_k(32);
            self.core.prg_rom.set_bank(0, self.prg_bank_reg_a as i16);
        } else if prg_bank_mode <= 1 {
            self.core.prg_rom.set_bank_size_k(32);
            self.core.prg_rom.set_bank(0, (self.prg_bank_reg_b >> 1) as i16 + 4);
        } else if prg_bank_mode == 2 {
            self.core.prg_rom.set_bank_size_k(16);
            self.core.prg_rom.set_bank(0, 0 + 8);
            self.core.prg_rom.set_bank(1, self.prg_bank_reg_b as i16 + 8);
        } else {
            self.core.prg_rom.set_bank_size_k(16);
            self.core.prg_rom.set_bank(0, self.prg_bank_reg_b as i16 + 8);
            self.core.prg_rom.set_bank(1, -1);
        }
    }

    fn prg_bank_mode(&self) -> (r: u8)
        ensures
            r == self.prg_mode(),
    {
        (self.control_reg & 0b00001100) >> 2
    }

    fn set_prg_reg_b(&mut self, value: u8)
        ensures
            *final(self) == (NesEvent { prg_bank_reg_b: value & 0x07, sram_disabled: value & 0x10 != 0, ..*old(self) }),
            final(self).prg_bank_reg_b <= 7,
    {
        proof { crate::nes::cartridge::mappers::mmc3::lemma_and_bound(value, 7); }
        self.prg_bank_reg_b = value & 0b00000111;
        self.sram_disabled = value & 0b00010000 != 0;
    }

    fn set_irq_reg(&mut self, value: u8)
        ensures
            *final(self) == old(self).irq_loaded(value),
            final(self).prg_chip_select <= 1,
    {
        self.irq_counter_enabled = value & 0b0001_0000 == 0;
        if self.irq_counter_enabled {
            if self.initialized == InitState::NotStarted {
                self.initialized = InitState::Started
            }
        } else {
            self.irq_count = 0;
            self.irq_occurred = false;
            if self.initialized == InitState::Started {
                self.initialized = InitState::Initialized
            }
        }
        self.prg_chip_select = (value & 0b0000_1000) >> 3;
        self.prg_bank_reg_a = (value & 0b0000_0110) >> 1;
        assert(((value & 0x08) >> 3u8) <= 1) by (bit_vector);
    }
}

impl Mapper for NesEvent {
    open spec fn inv(&self) -> bool {
        &&& self.core.wf()
        &&& self.shift_count < 5
        &&& self.cycle_count < usize::MAX
        &&& self.last_write_cycle < usize::MAX
        &&& self.prg_chip_select <= 1
        &&& self.prg_bank_reg_b <= 7
    }

    /// The timer's count must not wrap.
    open spec fn cpu_clock_ok(&self) -> bool {
        self.irq_counter_enabled ==> self.irq_count < u32::MAX
    }

    open spec fn cpu_clock_post(&self, after: Self, r: u8) -> bool {
        let count = if self.irq_counter_enabled { (self.irq_count + 1) as u32 } else { self.irq_count };
        let occurred = self.irq_occurred || (self.irq_counter_enabled && count == self.irq_counter_target);
        &&& after == NesEvent { irq_count: count, irq_occurred: occurred, ..*self }
        &&& r == if occurred { InterruptFlags::IRQ } else { 0 }
    }

    open spec fn cpu_read_ok(&self, addr: u16) -> bool {
        if self.core.sram.start_address <= addr <= self.core.sram.end_address {
            self.sram_disabled || self.core.sram.can_convert(addr)
        } else {
            self.core.can_access_cpu(addr)
        }
    }

    open spec fn cpu_read_post(&self, after: Self, addr: u16, r: u8) -> bool {
        &&& after == *self
        &&& r == if self.core.sram.start_address <= addr <= self.core.sram.end_address {
            if self.sram_disabled { 0 } else { self.core.sram.value_at(addr) }
        } else {
            self.core.cpu_value(addr)
        }
    }

    open spec fn cpu_write_ok(&self, addr: u16, value: u8) -> bool {
        if self.core.sram.start_address <= addr <= self.core.sram.end_address {
            self.sram_disabled || self.core.sram.can_convert(addr)
        } else if self.core.prg_rom.start_address <= addr <= self.core.prg_rom.end_address {
            0x8000 <= addr && !self.write_unsupported(addr, value)
        } else {
            self.core.can_access_cpu(addr)
        }
    }

    open spec fn cpu_write_post(&self, after: Self, addr: u16, value: u8, r: u8) -> bool {
        if self.core.sram.start_address <= addr <= self.core.sram.end_address {
            if self.sram_disabled {
                r == 0 && after == *self
            } else {
                &&& r == self.core.sram.value_at(addr)
                &&& region_written(after.core.sram, self.core.sram, addr, value)
                &&& after == NesEvent { core: CartridgeCore { sram: after.core.sram, ..self.core }, ..*self }
            }
        } else if self.core.prg_rom.start_address <= addr <= self.core.prg_rom.end_address {
            self.configured(after, addr, value, r)
        } else {
            &&& r == self.core.cpu_value(addr)
            &&& CartridgeCore::cpu_written(after.core, self.core, addr, value)
            &&& after == NesEvent { core: after.core, ..*self }
        }
    }

    open spec fn ppu_clock_ok(&self) -> bool { self.cycle_count + 1 < usize::MAX }

    open spec fn ppu_clock_post(&self, after: Self) -> bool {
        after == NesEvent { cycle_count: (self.cycle_count + 1) as usize, ..*self }
    }

    open spec fn ppu_read_ok(&self, addr: u16) -> bool { self.core.can_access_ppu(addr) }

    open spec fn ppu_read_post(&self, after: Self, addr: u16, r: u8) -> bool {
        r == self.core.ppu_value(addr) && after == *self
    }

    open spec fn ppu_write_ok(&self, addr: u16) -> bool { self.core.can_access_ppu(addr) }

    open spec fn ppu_write_post(&self, after: Self, addr: u16, value: u8, r: u8) -> bool {
        &&& r == self.core.ppu_value(addr)
        &&& CartridgeCore::ppu_written(after.core, self.core, addr, value)
        &&& after == NesEvent { core: after.core, ..*self }
    }

    fn cpu_bus_clock(&mut self) -> (r: u8) {
        if self.irq_counter_enabled {
            self.irq_count = self.irq_count + 1;
            if self.irq_count == self.irq_counter_target {
                self.irq_occurred = true;
            }
        }

        if self.irq_occurred {
            InterruptFlags::IRQ
        } else {
            InterruptFlags::empty()
        }
    }

    fn read_cpu(&mut self, addr: u16) -> (r: u8) {
        if self.core.sram.contains_addr(addr) {
            if self.sram_disabled {
                0
            } else {
                self.core.sram.read(addr)
            }
        } else {
            self.core.read_cpu(addr)
        }
    }

    fn write_cpu(&mut self, addr: u16, value: u8) -> (r: u8) {
        if self.core.sram.contains_addr(addr) {
            if self.sram_disabled {
                0
            } else {
                self.core.sram.write(addr, value)
            }
        } else if self.core.prg_rom.contains_addr(addr) {
            self.configure(addr, value)
        } else {
            self.core.write_cpu(addr, value)
        }
    }

    fn ppu_bus_clock(&mut self) {
        self.cycle_count = self.cycle_count + 1;
    }

    fn read_ppu(&mut self, addr: u16) -> (r: u8) {
        self.core.read_ppu(addr)
    }

    fn write_ppu(&mut self, addr: u16, value: u8) -> (r: u8) {
        self.core.write_ppu(addr, value)
    }
}

} // verus!

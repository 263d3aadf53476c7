use vstd::prelude::*;

use crate::bus::InterruptFlags;
use crate::nes::cartridge::{CartridgeCore, MirrorType, region_written};
use crate::nes::cartridge::mappers::Mapper;
use crate::nes::cartridge::memory_region::mirror_bank;

verus! {

/// The mirroring selected by the low two bits of a control register of the MMC1 family.
pub open spec fn mmc1_mirror(mode: u8) -> MirrorType {
    if mode == 0 { MirrorType::SingleScreen(0) }
    else if mode == 1 { MirrorType::SingleScreen(1) }
    else if mode == 2 { MirrorType::Vertical }
    else { MirrorType::Horizontal }
}

/// The nametables the MMC1 family mirrors by the low bits of its control register, over
/// the four tables at $2000, $2400, $2800 and $2C00: 2 mirrors vertically ($2000 shares
/// with $2800, not with $2400), 3 horizontally ($2000 shares with $2400, not with
/// $2800), 0 and 1 show the first or the second table everywhere.
pub proof fn lemma_mmc1_family_mirroring(control: u8, bank_map: Seq<(i16, bool)>)
    requires
        forall|p: int| 0 <= p < 8 ==> #[trigger] bank_map[p] == (mirror_bank(mmc1_mirror(control & 3), p % 4), false),
    ensures
        control & 3 == 2 ==> bank_map[0] == bank_map[2] && bank_map[1] == bank_map[3] && bank_map[0] != bank_map[1],
        control & 3 == 3 ==> bank_map[0] == bank_map[1] && bank_map[2] == bank_map[3] && bank_map[0] != bank_map[2],
        control & 3 == 0 ==> forall|p: int| 0 <= p < 8 ==> #[trigger] bank_map[p] == (0i16, false),
        control & 3 == 1 ==> forall|p: int| 0 <= p < 8 ==> #[trigger] bank_map[p] == (1i16, false),
{
    assert(bank_map[0] == (mirror_bank(mmc1_mirror(control & 3), 0), false));
    assert(bank_map[1] == (mirror_bank(mmc1_mirror(control & 3), 1), false));
    assert(bank_map[2] == (mirror_bank(mmc1_mirror(control & 3), 2), false));
    assert(bank_map[3] == (mirror_bank(mmc1_mirror(control & 3), 3), false));
}

/// MMC1 nametable mirroring after its banks follow its registers: control bits 2
/// mirror vertically ($2000 with $2800), 3 horizontally ($2000 with $2400), 0 and 1 show
/// one table.
pub proof fn law_mmc1_mirroring(m: MMC1, old: CartridgeCore)
    requires
        m.banks_follow(old),
    ensures
        ({
            let b = m.core.vram.bank_map@;
            &&& m.control_reg & 3 == 2 ==> b[0] == b[2] && b[1] == b[3] && b[0] != b[1]
            &&& m.control_reg & 3 == 3 ==> b[0] == b[1] && b[2] == b[3] && b[0] != b[2]
            &&& m.control_reg & 3 == 0 ==> forall|p: int| 0 <= p < 8 ==> #[trigger] b[p] == (0i16, false)
            &&& m.control_reg & 3 == 1 ==> forall|p: int| 0 <= p < 8 ==> #[trigger] b[p] == (1i16, false)
        }),
{
    lemma_mmc1_family_mirroring(m.control_reg, m.core.vram.bank_map@);
}

/// The bits of a pattern bank register that pattern memory of this many kilobytes uses.
pub open spec fn chr_bank_mask(size_k: u16) -> u8 {
    if size_k >= 128 { 0x1F }
    else if size_k >= 64 { 0x0F }
    else if size_k >= 32 { 0x07 }
    else if size_k >= 16 { 0x03 }
    else { 0x01 }
}

pub open spec fn size_k(len: nat) -> u16 {
    (len / 1024) as u16
}

/// Mappers 1 and 155: registers loaded one bit per write through a serial port.
pub struct MMC1 {
    pub core: CartridgeCore,

    pub sram_disabled: bool,
    pub force_sram_enable: bool,
    pub control_reg: u8,
    pub sram_bank_reg: u8,
    pub chr_bank_0_reg: u8,
    pub chr_bank_1_reg: u8,
    pub prg_bank_reg: u8,
    pub shift_register: u8,
    pub shift_count: u8,
    pub cycle_count: usize,
    pub last_write_cycle: usize,
}

impl MMC1 {
    /// The registers: control, save RAM bank, the two pattern banks, program bank, and
    /// whether save RAM is off.
    pub open spec fn registers(&self) -> (u8, u8, u8, u8, u8, bool) {
        (self.control_reg, self.sram_bank_reg, self.chr_bank_0_reg, self.chr_bank_1_reg, self.prg_bank_reg, self.sram_disabled)
    }

    /// The serial port: shift register, bits shifted, the PPU cycle count and the cycle
    /// of the last write that counted.
    pub open spec fn port(&self) -> (u8, u8, usize, usize) {
        (self.shift_register, self.shift_count, self.cycle_count, self.last_write_cycle)
    }

    /// The program bank mode, as the control register is read here: `control & 0b11`.
    pub open spec fn prg_mode(&self) -> u8 {
        self.control_reg & (0b00001100u8 >> 2u8)
    }

    /// The pattern bank mode, as the control register is read here: `control & 0b1`.
    pub open spec fn chr_mode(&self) -> u8 {
        self.control_reg & (0b00010000u8 >> 4u8)
    }

    /// The banks of `self.core` are those its registers select, over the memories of
    /// `old`.
    pub open spec fn banks_follow(&self, old: CartridgeCore) -> bool {
        let prg = old.prg_rom.bank_map@;
        let chr = old.chr_ram.bank_map@;
        let sram = old.sram.bank_map@;
        &&& self.core.wf()
        &&& self.core.vram.rebanked(&old.vram)
        &&& self.core.vram.mirrored(mmc1_mirror(self.control_reg & 3))
        &&& self.core.prg_rom.same_contents(&old.prg_rom)
        &&& if self.prg_mode() <= 1 {
            &&& self.core.prg_rom.bank_size == 0x8000
            &&& self.core.prg_rom.bank_map@ == prg.update(0, ((self.prg_bank_reg >> 1u8) as i16, prg[0].1))
        } else if self.prg_mode() == 2 {
            &&& self.core.prg_rom.bank_size == 0x4000
            &&& self.core.prg_rom.bank_map@ == prg.update(0, (0i16, prg[0].1)).update(1, (self.prg_bank_reg as i16, prg[1].1))
        } else {
            &&& self.core.prg_rom.bank_size == 0x4000
            &&& self.core.prg_rom.bank_map@ == prg.update(0, (self.prg_bank_reg as i16, prg[0].1)).update(1, (-1i16, prg[1].1))
        }
        &&& self.core.chr_ram.same_contents(&old.chr_ram)
        &&& if self.chr_mode() == 0 {
            &&& self.core.chr_ram.bank_size == 0x2000
            &&& self.core.chr_ram.bank_map@ == chr.update(0, ((self.chr_bank_0_reg >> 1u8) as i16, chr[0].1))
        } else {
            &&& self.core.chr_ram.bank_size == 0x1000
            &&& self.core.chr_ram.bank_map@ == chr.update(0, (self.chr_bank_0_reg as i16, chr[0].1)).update(1, (self.chr_bank_1_reg as i16, chr[1].1))
        }
        &&& self.core.sram.banked_as(&old.sram, sram.update(0, (self.sram_bank_reg as i16, sram[0].1)))
        &&& self.core.nes_header == old.nes_header
        &&& self.core.rom_expansion == old.rom_expansion
    }

    /// The registers after the shift register's five bits `v` land in the register that
    /// `addr` selects.
    pub open spec fn loaded(&self, addr: u16, v: u8) -> (u8, u8, u8, u8, u8, bool) {
        let regs = self.registers();
        if addr <= 0x9FFF {
            (v, regs.1, regs.2, regs.3, regs.4, regs.5)
        } else if addr <= 0xDFFF {
            let mask = chr_bank_mask(size_k(self.core.chr_ram.memory@.len()));
            let sram = if size_k(self.core.sram.memory@.len()) == 16 { (v >> 3u8) & 1 } else { (v >> 2u8) & 3 };
            let prg = if size_k(self.core.prg_rom.memory@.len()) == 512 { (regs.4 & 0x0F) | (v & 0x10) } else { regs.4 };
            if addr <= 0xBFFF {
                (regs.0, sram, v & mask, regs.3, prg, regs.5)
            } else {
                (regs.0, sram, regs.2, v & mask, prg, regs.5)
            }
        } else {
            let disabled = if self.force_sram_enable { regs.5 } else { v & 0x10 != 0 };
            (regs.0, regs.1, regs.2, regs.3, (regs.4 & 0xF0) | (v & 0x0F), disabled)
        }
    }

    /// A write to the serial port at `addr` (0x8000 and above): what it leaves and returns.
    pub open spec fn configured(&self, after: Self, addr: u16, value: u8, r: u8) -> bool {
        let regs = self.registers();
        let sr = (self.shift_register >> 1u8) | ((value & 1) << 4u8);
        &&& r == self.shift_register
        &&& after.force_sram_enable == self.force_sram_enable
        &&& if self.cycle_count == self.last_write_cycle + 1 {
            after == *self
        } else if value & 0x10 != 0 {
            &&& after.registers() == ((regs.0 | 0x0C), regs.1, regs.2, regs.3, regs.4, regs.5)
            &&& after.port() == (0u8, 0u8, self.cycle_count, self.cycle_count)
            &&& after.banks_follow(self.core)
        } else if self.shift_count + 1 == 5 {
            &&& after.registers() == self.loaded(addr, sr)
            &&& after.port() == (0u8, 0u8, self.cycle_count, self.cycle_count)
            &&& after.banks_follow(self.core)
        } else {
            &&& after.registers() == regs
            &&& after.port() == (sr, (self.shift_count + 1) as u8, self.cycle_count, self.cycle_count)
            &&& after.core == self.core
        }
    }

    pub fn new(core: CartridgeCore, force_sram_enable: bool) -> (r: MMC1)
        requires
            core.wf(),
        ensures
            r.inv(),
            r.force_sram_enable == force_sram_enable,
            r.registers() == (0b00001100u8, 0u8, 0u8, 0u8, 0u8, false),
            r.port() == (0u8, 0u8, 0usize, 0xFFFFusize),
            r.core.same_contents(&core),
            r.banks_follow(r.core),
            r.core.sram.bank_size == 0x2000,
            r.core.sram.bank_map@[0].0 == 0,
            r.core.vram.mirrored(MirrorType::SingleScreen(0)),
    {
        let mut core = core;
        core.sram.set_bank_size_k(8);
        let mut result = MMC1 {
            core,

            sram_disabled: false,
            force_sram_enable,
            sram_bank_reg: 0,
            control_reg: 0b00001100,
            chr_bank_0_reg: 0,
            chr_bank_1_reg: 0,
            prg_bank_reg: 0,
            shift_register: 0,
            shift_count: 0,
            cycle_count: 0,
            last_write_cycle: 0xFFFF,
        };
        proof { assert(0b00001100u8 & 3 == 0u8) by (bit_vector); }
        result.reconfigure_banks();
        proof {
            let m_prg_rom = result.core.prg_rom.bank_map@;
            assert(m_prg_rom.update(0, m_prg_rom[0]) =~= m_prg_rom);
            assert(m_prg_rom.update(0, m_prg_rom[0]).update(1, m_prg_rom[1]) =~= m_prg_rom);
            let m_chr_ram = result.core.chr_ram.bank_map@;
            assert(m_chr_ram.update(0, m_chr_ram[0]) =~= m_chr_ram);
            assert(m_chr_ram.update(0, m_chr_ram[0]).update(1, m_chr_ram[1]) =~= m_chr_ram);
            let m_sram = result.core.sram.bank_map@;
            assert(m_sram.update(0, m_sram[0]) =~= m_sram);
            assert(m_sram.update(0, m_sram[0]).update(1, m_sram[1]) =~= m_sram);
        }
        result
    }

    fn configure(&mut self, addr: u16, value: u8) -> (r: u8)
        requires
            old(self).inv(),
            0x8000 <= addr,
        ensures
            final(self).inv(),
            old(self).configured(*final(self), addr, value, r),
    {
        let old = self.shift_register;

        if self.cycle_count != self.last_write_cycle + 1 {
            self.last_write_cycle = self.cycle_count;
            if value & 0b00010000 != 0 {
                self.control_reg = self.control_reg | 0b00001100;
                self.shift_count = 0;
                self.shift_register = 0;
                self.reconfigure_banks();
            } else {
                self.shift_register = self.shift_register >> 1;
                self.shift_register = self.shift_register | ((value & 0b00000001) << 4);
                self.shift_count = self.shift_count + 1;
                if self.shift_count == 5 {
                    let value = self.shift_register;
                    self.shift_register = 0;
                    self.shift_count = 0;
                    if addr <= 0x9FFF {
                        self.control_reg = value;
                    } else if addr <= 0xBFFF {
                        self.set_chr_reg(0, value);
                    } else if addr <= 0xDFFF {
                        self.set_chr_reg(1, value);
                    } else {
                        self.set_prg_reg(value);
                    }
                    self.reconfigure_banks();
                }
            }
        }
        old
    }

    fn reconfigure_banks(&mut self)
        requires
            old(self).inv(),
        ensures
            final(self).inv(),
            final(self).registers() == old(self).registers(),
            final(self).port() == old(self).port(),
            final(self).force_sram_enable == old(self).force_sram_enable,
            final(self).banks_follow(old(self).core),
    {
        let mode = self.control_reg & 0b00000011;
        let mirror_type = if mode == 0 {
            MirrorType::SingleScreen(0)
        } else if mode == 1 {
            MirrorType::SingleScreen(1)
        } else if mode == 2 {
            MirrorType::Vertical
        } else {
            MirrorType::Horizontal
        };
        self.core.vram.set_mirror_type(mirror_type);
        self.reconfigure_prg();
        self.reconfigure_chr();
        self.core.sram.set_bank(0, self.sram_bank_reg as i16);
    }

    fn reconfigure_prg(&mut self)
        requires
            old(self).core.prg_rom.wf(),
        ensures
            *final(self) == (MMC1 { core: CartridgeCore { prg_rom: final(self).core.prg_rom, ..old(self).core }, ..*old(self) }),
            final(self).core.prg_rom.wf(),
            final(self).core.prg_rom.same_contents(&old(self).core.prg_rom),
            ({
                let prg = old(self).core.prg_rom.bank_map@;
                if old(self).prg_mode() <= 1 {
                    &&& final(self).core.prg_rom.bank_size == 0x8000
                    &&& final(self).core.prg_rom.bank_map@ == prg.update(0, ((old(self).prg_bank_reg >> 1u8) as i16, prg[0].1))
                } else if old(self).prg_mode() == 2 {
                    &&& final(self).core.prg_rom.bank_size == 0x4000
                    &&& final(self).core.prg_rom.bank_map@ == prg.update(0, (0i16, prg[0].1)).update(1, (old(self).prg_bank_reg as i16, prg[1].1))
                } else {
                    &&& final(self).core.prg_rom.bank_size == 0x4000
                    &&& final(self).core.prg_rom.bank_map@ == prg.update(0, (old(self).prg_bank_reg as i16, prg[0].1)).update(1, (-1i16, prg[1].1))
                }
            }),
    {
        let prg_bank_mode = self.prg_bank_mode();
        if prg_bank_mode <= 1 {
            self.core.prg_rom.set_bank_size_k(32);
            self.core.prg_rom.set_bank(0, (self.prg_bank_reg >> 1) as i16);
        } else if prg_bank_mode == 2 {
            self.core.prg_rom.set_bank_size_k(16);
            self.core.prg_rom.set_bank(0, 0);
            self.core.prg_rom.set_bank(1, self.prg_bank_reg as i16);
        } else {
            self.core.prg_rom.set_bank_size_k(16);
            self.core.prg_rom.set_bank(0, self.prg_bank_reg as i16);
            self.core.prg_rom.set_bank(1, -1);
        }
    }

    fn reconfigure_chr(&mut self)
        requires
            old(self).core.chr_ram.wf(),
        ensures
            *final(self) == (MMC1 { core: CartridgeCore { chr_ram: final(self).core.chr_ram, ..old(self).core }, ..*old(self) }),
            final(self).core.chr_ram.wf(),
            final(self).core.chr_ram.same_contents(&old(self).core.chr_ram),
            ({
                let chr = old(self).core.chr_ram.bank_map@;
                if old(self).chr_mode() == 0 {
                    &&& final(self).core.chr_ram.bank_size == 0x2000
                    &&& final(self).core.chr_ram.bank_map@ == chr.update(0, ((old(self).chr_bank_0_reg >> 1u8) as i16, chr[0].1))
                } else {
                    &&& final(self).core.chr_ram.bank_size == 0x1000
                    &&& final(self).core.chr_ram.bank_map@ == chr.update(0, (old(self).chr_bank_0_reg as i16, chr[0].1)).update(1, (old(self).chr_bank_1_reg as i16, chr[1].1))
                }
            }),
    {
        if self.chr_bank_mode() == 0 {
            self.core.chr_ram.set_bank_size_k(8);
            self.core.chr_ram.set_bank(0, (self.chr_bank_0_reg >> 1) as i16);
        } else {
            self.core.chr_ram.set_bank_size_k(4);
            self.core.chr_ram.set_bank(0, self.chr_bank_0_reg as i16);
            self.core.chr_ram.set_bank(1, self.chr_bank_1_reg as i16);
        }
    }

    fn prg_bank_mode(&self) -> (r: u8)
        ensures
            r == self.prg_mode(),
            r <= 3,
    {
        let c = self.control_reg;
        let r = c & 0b00001100 >> 2;
        assert(r <= 3) by (bit_vector)
            requires r == c & (0b00001100u8 >> 2u8);
        r
    }

    fn chr_bank_mode(&self) -> (r: u8)
        ensures
            r == self.chr_mode(),
    {
        self.control_reg & 0b00010000 >> 4
    }

    fn set_chr_reg(&mut self, reg: u8, value: u8)
        ensures
            *final(self) == (MMC1 {
                chr_bank_0_reg: if reg == 0 { value & chr_bank_mask(size_k(old(self).core.chr_ram.memory@.len())) } else { old(self).chr_bank_0_reg },
                chr_bank_1_reg: if reg == 0 { old(self).chr_bank_1_reg } else { value & chr_bank_mask(size_k(old(self).core.chr_ram.memory@.len())) },
                sram_bank_reg: if size_k(old(self).core.sram.memory@.len()) == 16 { (value >> 3u8) & 1 } else { (value >> 2u8) & 3 },
                prg_bank_reg: if size_k(old(self).core.prg_rom.memory@.len()) == 512 {
                    (old(self).prg_bank_reg & 0x0F) | (value & 0x10)
                } else {
                    old(self).prg_bank_reg
                },
                ..*old(self)
            }),
    {
        let chr_ram_size = self.core.chr_ram.get_memory_size_k();

        let chr_bank_mask = if chr_ram_size >= 128 {
            0b00011111
        } else if chr_ram_size >= 64 {
            0b00001111
        } else if chr_ram_size >= 32 {
            0b0000111
        } else if chr_ram_size >= 16 {
            0b0000011
        } else {
            0b00000001
        };

        if reg == 0 {
            self.chr_bank_0_reg = value & chr_bank_mask;
        } else {
            self.chr_bank_1_reg = value & chr_bank_mask;
        }

        let sram_size = self.core.sram.get_memory_size_k();
        if sram_size == 16 {
            self.sram_bank_reg = value >> 3 & 0b00000001;
        } else {
            self.sram_bank_reg = value >> 2 & 0b00000011;
        }

        let prg_rom_size = self.core.prg_rom.get_memory_size_k();
        if prg_rom_size == 512 {
            self.prg_bank_reg = (self.prg_bank_reg & 0b00001111) | (value & 0b00010000)
        }
    }

    fn set_prg_reg(&mut self, value: u8)
        ensures
            *final(self) == (MMC1 {
                prg_bank_reg: (old(self).prg_bank_reg & 0xF0) | (value & 0x0F),
                sram_disabled: if old(self).force_sram_enable { old(self).sram_disabled } else { value & 0x10 != 0 },
                ..*old(self)
            }),
    {
        self.prg_bank_reg = (self.prg_bank_reg & 0b11110000) | (value & 0b00001111);
        if !self.force_sram_enable {
            self.sram_disabled = value & 0b00010000 != 0;
        }
    }
}

impl Mapper for MMC1 {
    open spec fn inv(&self) -> bool {
        &&& self.core.wf()
        &&& self.shift_count < 5
        &&& self.cycle_count < usize::MAX
        &&& self.last_write_cycle < usize::MAX
    }

    open spec fn cpu_clock_ok(&self) -> bool { true }

    open spec fn cpu_clock_post(&self, after: Self, r: u8) -> bool { r == 0 && after == *self }

    open spec fn cpu_read_ok(&self, addr: u16) -> bool {
        if self.core.sram.start_address <= addr <= self.core.sram.end_address {
            self.sram_disabled || self.core.sram.can_convert(addr)
        } else {
            self.core.can_access_cpu(addr)
        }
    }

    open spec fn cpu_read_post(&self, after: Self, addr: u16, r: u8) -> bool {
        &&& after == *self
        &&& r == if self.core.sram.start_address <= addr <= self.core.sram.end_address {
            if self.sram_disabled { 0 } else { self.core.sram.value_at(addr) }
        } else {
            self.core.cpu_value(addr)
        }
    }

    open spec fn cpu_write_ok(&self, addr: u16, value: u8) -> bool {
        if self.core.sram.start_address <= addr <= self.core.sram.end_address {
            self.sram_disabled || self.core.sram.can_convert(addr)
        } else if self.core.prg_rom.start_address <= addr <= self.core.prg_rom.end_address {
            0x8000 <= addr
        } else {
            self.core.can_access_cpu(addr)
        }
    }

    open spec fn cpu_write_post(&self, after: Self, addr: u16, value: u8, r: u8) -> bool {
        if self.core.sram.start_address <= addr <= self.core.sram.end_address {
            if self.sram_disabled {
                r == 0 && after == *self
            } else {
                &&& r == self.core.sram.value_at(addr)
                &&& region_written(after.core.sram, self.core.sram, addr, value)
                &&& after == MMC1 { core: CartridgeCore { sram: after.core.sram, ..self.core }, ..*self }
            }
        } else if self.core.prg_rom.start_address <= addr <= self.core.prg_rom.end_address {
            self.configured(after, addr, value, r)
        } else {
            &&& r == self.core.cpu_value(addr)
            &&& CartridgeCore::cpu_written(after.core, self.core, addr, value)
            &&& after == MMC1 { core: after.core, ..*self }
        }
    }

    open spec fn ppu_clock_ok(&self) -> bool { self.cycle_count + 1 < usize::MAX }

    open spec fn ppu_clock_post(&self, after: Self) -> bool {
        after == MMC1 { cycle_count: (self.cycle_count + 1) as usize, ..*self }
    }

    open spec fn ppu_read_ok(&self, addr: u16) -> bool { self.core.can_access_ppu(addr) }

    open spec fn ppu_read_post(&self, after: Self, addr: u16, r: u8) -> bool {
        r == self.core.ppu_value(addr) && after == *self
    }

    open spec fn ppu_write_ok(&self, addr: u16) -> bool { self.core.can_access_ppu(addr) }

    open spec fn ppu_write_post(&self, after: Self, addr: u16, value: u8, r: u8) -> bool {
        &&& r == self.core.ppu_value(addr)
        &&& CartridgeCore::ppu_written(after.core, self.core, addr, value)
        &&& after == MMC1 { core: after.core, ..*self }
    }

    fn cpu_bus_clock(&mut self) -> (r: u8) {
        InterruptFlags::empty()
    }

    fn read_cpu(&mut self, addr: u16) -> (r: u8) {
        if self.core.sram.contains_addr(addr) {
            if self.sram_disabled {
                0
            } else {
                self.core.sram.read(addr)
            }
        } else {
            self.core.read_cpu(addr)
        }
    }

    fn write_cpu(&mut self, addr: u16, value: u8) -> (r: u8) {
        if self.core.sram.contains_addr(addr) {
            if self.sram_disabled {
                0
            } else {
                self.core.sram.write(addr, value)
            }
        } else if self.core.prg_rom.contains_addr(addr) {
            self.configure(addr, value)
        } else {
            self.core.write_cpu(addr, value)
        }
    }

    fn ppu_bus_clock(&mut self) {
        self.cycle_count = self.cycle_count + 1;
    }

    fn read_ppu(&mut self, addr: u16) -> (r: u8) {
        self.core.read_ppu(addr)
    }

    fn write_ppu(&mut self, addr: u16, value: u8) -> (r: u8) {
        self.core.write_ppu(addr, value)
    }
}

/// The serial port: five writes, one bit each (bit 0, lowest first), with bit 4 clear,
/// starting from an empty shift register, load the register the last write's address
/// selects with the five bits.
pub proof fn law_serial_load(m: Seq<MMC1>, addr: u16, v: Seq<u8>, r: Seq<u8>)
    requires
        m.len() == 6,
        v.len() == 5,
        r.len() == 5,
        m[0].shift_count == 0,
        m[0].shift_register == 0,
        m[0].cycle_count != m[0].last_write_cycle + 1,
        forall|i: int| 0 <= i < 5 ==> #[trigger] v[i] & 0x10 == 0,
        forall|i: int| 0 <= i < 5 ==> #[trigger] m[i].configured(m[i + 1], addr, v[i], r[i]),
    ensures
        m[5].registers() == m[0].loaded(addr,
            (v[0] & 1) | ((v[1] & 1) << 1u8) | ((v[2] & 1) << 2u8) | ((v[3] & 1) << 3u8) | ((v[4] & 1) << 4u8)),
{
    assert(m[0].configured(m[1], addr, v[0], r[0]));
    assert(m[1].configured(m[2], addr, v[1], r[1]));
    assert(m[2].configured(m[3], addr, v[2], r[2]));
    assert(m[3].configured(m[4], addr, v[3], r[3]));
    assert(m[4].configured(m[5], addr, v[4], r[4]));
    assert(v[0] & 0x10 == 0 && v[1] & 0x10 == 0 && v[2] & 0x10 == 0 && v[3] & 0x10 == 0 && v[4] & 0x10 == 0);
    let (a, b, c, d, e) = (v[0], v[1], v[2], v[3], v[4]);
    let s1 = (m[0].shift_register >> 1u8) | ((a & 1) << 4u8);
    let s2 = (m[1].shift_register >> 1u8) | ((b & 1) << 4u8);
    let s3 = (m[2].shift_register >> 1u8) | ((c & 1) << 4u8);
    let s4 = (m[3].shift_register >> 1u8) | ((d & 1) << 4u8);
    let s5 = (m[4].shift_register >> 1u8) | ((e & 1) << 4u8);
    let z = m[0].shift_register;
    assert(m[1].shift_register == s1);
    assert(m[2].shift_register == s2);
    assert(m[3].shift_register == s3);
    assert(m[4].shift_register == s4);
    assert(s5 == (a & 1) | ((b & 1) << 1u8) | ((c & 1) << 2u8) | ((d & 1) << 3u8) | ((e & 1) << 4u8)) by (bit_vector)
        requires
            z == 0,
            s1 == (z >> 1u8) | ((a & 1) << 4u8),
            s2 == (s1 >> 1u8) | ((b & 1) << 4u8),
            s3 == (s2 >> 1u8) | ((c & 1) << 4u8),
            s4 == (s3 >> 1u8) | ((d & 1) << 4u8),
            s5 == (s4 >> 1u8) | ((e & 1) << 4u8),
    ;
}

} // verus!

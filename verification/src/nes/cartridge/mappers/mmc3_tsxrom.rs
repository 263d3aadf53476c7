use vstd::prelude::*;

use crate::nes::cartridge::CartridgeCore;
use crate::nes::cartridge::mappers::Mapper;
use crate::nes::cartridge::mappers::mmc3_irq::MMC3Irq;
use crate::nes::cartridge::mappers::mmc3::{chr_page_byte, lemma_and_bound, prg_page_bank, reveal_and_ff};

verus! {

/// The nametable bank of page `p` on mapper 118: bit 7 of the pattern bank register
/// that covers the same page of pattern memory.
pub open spec fn txs_vram_bank(regs: Seq<u8>, mode: u8, p: int) -> i16 {
    let q = p % 4;
    if mode == 0 { (regs[q / 2] >> 7u8) as i16 } else { (regs[q + 2] >> 7u8) as i16 }
}

/// Mapper 118: the MMC3 with nametables chosen by the top bit of the pattern banks.
pub struct MMC3TxSRom {
    pub core: CartridgeCore,
    pub chr_bank_mode: u8,
    pub prg_bank_mode: u8,
    pub selected_register: usize,
    pub registers: [u8; 8],
    pub write_protection: bool,
    pub prg_ram_enable: bool,
    pub mmc3_irq: MMC3Irq,
}

impl MMC3TxSRom {
    /// Everything but the memories.
    pub open spec fn settings(&self) -> (u8, u8, usize, Seq<u8>, bool, bool, MMC3Irq) {
        (self.chr_bank_mode, self.prg_bank_mode, self.selected_register, self.registers@,
            self.write_protection, self.prg_ram_enable, self.mmc3_irq)
    }

    /// The banks of `self.core` are those its registers select, over the memories of
    /// `old`.
    pub open spec fn banks_follow(&self, old: CartridgeCore) -> bool {
        let regs = self.registers@;
        &&& self.core.chr_ram.rebanked(&old.chr_ram)
        &&& forall|p: int| 0 <= p < 8 ==> #[trigger] self.core.chr_ram.bank_map@[p]
            == ((chr_page_byte(regs, self.chr_bank_mode, p, 0x7E, 0x7F) as i16), old.chr_ram.bank_map@[p].1)
        &&& self.core.prg_rom.rebanked(&old.prg_rom)
        &&& forall|p: int| 0 <= p < 8 ==> #[trigger] self.core.prg_rom.bank_map@[p]
            == if p < 4 { (prg_page_bank(regs, self.prg_bank_mode, p, 0xFF), old.prg_rom.bank_map@[p].1) } else { old.prg_rom.bank_map@[p] }
        &&& self.core.vram.rebanked(&old.vram)
        &&& forall|p: int| 0 <= p < 8 ==> #[trigger] self.core.vram.bank_map@[p]
            == (txs_vram_bank(regs, self.chr_bank_mode, p), old.vram.bank_map@[p].1)
        &&& self.core.nes_header == old.nes_header
        &&& self.core.rom_expansion == old.rom_expansion
        &&& self.core.sram == old.sram
    }

    /// The bank select register as it reads back.
    pub open spec fn bank_select(&self) -> u8 {
        ((self.chr_bank_mode & 1) << 7u8) | ((self.prg_bank_mode & 1) << 6u8) | ((self.selected_register as u8) & 7)
    }

    /// A write to a register at 0x8000 and above: what it leaves and returns.
    pub open spec fn configured(&self, after: Self, addr: u16, value: u8, r: u8) -> bool {
        let s = self.settings();
        let even = addr % 2 == 0;
        if addr <= 0x9FFF && even {
            &&& r == self.bank_select()
            &&& after.settings() == ((value >> 7u8) & 1, (value >> 6u8) & 1, (value & 7) as usize, s.3, s.4, s.5, s.6)
            &&& after.banks_follow(self.core)
        } else if addr <= 0x9FFF {
            &&& r == self.registers@[self.selected_register as int]
            &&& after.settings() == (s.0, s.1, s.2, s.3.update(self.selected_register as int, value), s.4, s.5, s.6)
            &&& after.banks_follow(self.core)
        } else if addr <= 0xBFFF && even {
            r == 0 && after == *self
        } else if addr <= 0xBFFF {
            &&& r == ((if self.write_protection { 0x80u8 } else { 0u8 }) | (if self.prg_ram_enable { 0x40u8 } else { 0u8 }))
            &&& after.settings() == (s.0, s.1, s.2, s.3, value & 0x80 != 0, value & 0x40 != 0, s.6)
            &&& after.core == self.core
        } else {
            &&& self.mmc3_irq.configured(after.mmc3_irq, addr, value, r)
            &&& after.settings() == (s.0, s.1, s.2, s.3, s.4, s.5, after.mmc3_irq)
            &&& after.core == self.core
        }
    }

    pub fn new(core: CartridgeCore) -> (r: MMC3TxSRom)
        requires
            core.wf(),
        ensures
            r.inv(),
            r.core.same_contents(&core),
            r.core.chr_ram.bank_size == 0x400,
            r.core.prg_rom.bank_size == 0x2000,
            r.settings() == (0u8, 0u8, 0usize, seq![0u8, 2, 4, 5, 6, 7, 0, 1], false, false, MMC3Irq::initial()),
            r.banks_follow(r.core),
            forall|p: int| 0 <= p < 8 ==> #[trigger] r.core.chr_ram.bank_map@[p] == (p as i16, core.chr_ram.bank_map@[p].1),
            r.core.prg_rom.bank_map@[0] == (0i16, core.prg_rom.bank_map@[0].1),
            r.core.prg_rom.bank_map@[1] == (1i16, core.prg_rom.bank_map@[1].1),
            r.core.prg_rom.bank_map@[2] == (-2i16, core.prg_rom.bank_map@[2].1),
            r.core.prg_rom.bank_map@[3] == (-1i16, core.prg_rom.bank_map@[3].1),
    {
        let mut core = core;
        core.chr_ram.set_bank_size_k(1);
        core.prg_rom.set_bank_size_k(8);
        let mut result = MMC3TxSRom {
            core,
            chr_bank_mode: 0,
            prg_bank_mode: 0,
            selected_register: 0,
            registers: [0; 8],
            write_protection: false,
            prg_ram_enable: false,
            mmc3_irq: MMC3Irq::new(),
        };
        result.registers[0] = 0;
        result.registers[1] = 2;
        result.registers[2] = 4;
        result.registers[3] = 5;
        result.registers[4] = 6;
        result.registers[5] = 7;

        result.registers[6] = 0;
        result.registers[7] = 1;

        let ghost sized = result.core;
        result.reconfigure_banks();
        assert(result.registers@ =~= seq![0u8, 2, 4, 5, 6, 7, 0, 1]);
        proof {
            assert(0u8 & 0x7E == 0u8 && 2u8 & 0x7E == 2u8 && 4u8 & 0x7F == 4u8 && 5u8 & 0x7F == 5u8 && 6u8 & 0x7F == 6u8 && 7u8 & 0x7F == 7u8 && 0u8 & 0xFF == 0u8 && 1u8 & 0xFF == 1u8) by (bit_vector);
            let regs = result.registers@;
            assert forall|p: int| 0 <= p < 8 implies #[trigger] result.core.chr_ram.bank_map@[p] == (p as i16, sized.chr_ram.bank_map@[p].1) by {
                assert(result.core.chr_ram.bank_map@[p] == ((chr_page_byte(regs, 0, p, 0x7E, 0x7F) as i16), sized.chr_ram.bank_map@[p].1));
            }
            assert(result.core.prg_rom.bank_map@[0] == (prg_page_bank(regs, 0, 0, 0xFF), sized.prg_rom.bank_map@[0].1));
            assert(result.core.prg_rom.bank_map@[1] == (prg_page_bank(regs, 0, 1, 0xFF), sized.prg_rom.bank_map@[1].1));
            assert(result.core.prg_rom.bank_map@[2] == (prg_page_bank(regs, 0, 2, 0xFF), sized.prg_rom.bank_map@[2].1));
            assert(result.core.prg_rom.bank_map@[3] == (prg_page_bank(regs, 0, 3, 0xFF), sized.prg_rom.bank_map@[3].1));
        }
        result
    }

    fn configure(&mut self, addr: u16, value: u8) -> (r: u8)
        requires
            old(self).inv(),
            0x8000 <= addr,
        ensures
            final(self).inv(),
            old(self).configured(*final(self), addr, value, r),
    {
        if addr <= 0x9FFF && addr % 2 == 0 {
            let old = self.set_bank_select(value);
            self.reconfigure_banks();
            old
        } else if addr <= 0x9FFF {
            let old = self.registers[self.selected_register];
            self.registers[self.selected_register] = value;
            self.reconfigure_banks();
            old
        } else if addr <= 0xBFFF && addr % 2 == 0 {
            0
        } else if addr <= 0xBFFF {
            let old = (if self.write_protection { 0b1000_0000 } else { 0 }) | (if self.prg_ram_enable { 0b0100_0000 } else { 0 });
            self.write_protection = value & 0b1000_0000 != 0;
            self.prg_ram_enable = value & 0b0100_0000 != 0;
            old
        } else {
            self.mmc3_irq.configure(addr, value)
        }
    }

    fn set_chr_pair(&mut self, page: usize, reg: u8)
        requires
            page < 7,
        ensures
            final(self).core.chr_ram.rebanked(&old(self).core.chr_ram),
            final(self).core.chr_ram.bank_map@ == old(self).core.chr_ram.bank_map@
                .update(page as int, ((reg & 0x7E) as i16, old(self).core.chr_ram.bank_map@[page as int].1))
                .update(page + 1, ((((reg & 0x7E) + 1) as u8) as i16, old(self).core.chr_ram.bank_map@[page + 1].1)),
            final(self).settings() == old(self).settings(),
            final(self).core.prg_rom == old(self).core.prg_rom,
            final(self).core.vram == old(self).core.vram,
            final(self).core.sram == old(self).core.sram,
            final(self).core.rom_expansion == old(self).core.rom_expansion,
            final(self).core.nes_header == old(self).core.nes_header,
    {
        let base = reg & 0b0111_1110;
        proof { lemma_and_bound(reg, 0x7E); }
        self.core.chr_ram.set_bank(page, base as i16);
        self.core.chr_ram.set_bank(page + 1, (base + 1) as i16);
    }

    fn reconfigure_banks(&mut self)
        requires
            old(self).inv(),
        ensures
            final(self).inv(),
            final(self).settings() == old(self).settings(),
            final(self).banks_follow(old(self).core),
    {
        let ghost old_core = self.core;
        if self.chr_bank_mode == 0 {
            self.set_chr_pair(0, self.registers[0]);
            self.set_chr_pair(2, self.registers[1]);
            self.core.chr_ram.set_bank(4, (self.registers[2] & 0b0111_1111) as i16);
            self.core.chr_ram.set_bank(5, (self.registers[3] & 0b0111_1111) as i16);
            self.core.chr_ram.set_bank(6, (self.registers[4] & 0b0111_1111) as i16);
            self.core.chr_ram.set_bank(7, (self.registers[5] & 0b0111_1111) as i16);
        } else {
            self.core.chr_ram.set_bank(0, (self.registers[2] & 0b0111_1111) as i16);
            self.core.chr_ram.set_bank(1, (self.registers[3] & 0b0111_1111) as i16);
            self.core.chr_ram.set_bank(2, (self.registers[4] & 0b0111_1111) as i16);
            self.core.chr_ram.set_bank(3, (self.registers[5] & 0b0111_1111) as i16);
            self.set_chr_pair(4, self.registers[0]);
            self.set_chr_pair(6, self.registers[1]);
        }

        if self.prg_bank_mode == 0 {
            self.core.prg_rom.set_bank(0, self.registers[6] as i16);
            self.core.prg_rom.set_bank(1, self.registers[7] as i16);
            self.core.prg_rom.set_bank(2, -2);
            self.core.prg_rom.set_bank(3, -1);
        } else {
            self.core.prg_rom.set_bank(0, -2);
            self.core.prg_rom.set_bank(1, self.registers[7] as i16);
            self.core.prg_rom.set_bank(2, self.registers[6] as i16);
            self.core.prg_rom.set_bank(3, -1);
        }

        self.reconfigure_vram();
        proof {
            let regs = self.registers@;
            assert forall|p: int| 0 <= p < 8 implies #[trigger] self.core.chr_ram.bank_map@[p]
                == ((chr_page_byte(regs, self.chr_bank_mode, p, 0x7E, 0x7F) as i16), old_core.chr_ram.bank_map@[p].1) by {
                lemma_and_bound(regs[0], 0x7E);
                lemma_and_bound(regs[1], 0x7E);
                reveal_and_ff(regs);
            }
            reveal_and_ff(regs);
        }
    }

    fn reconfigure_vram(&mut self)
        ensures
            final(self).core.vram.rebanked(&old(self).core.vram),
            forall|p: int| 0 <= p < 8 ==> #[trigger] final(self).core.vram.bank_map@[p]
                == (txs_vram_bank(old(self).registers@, old(self).chr_bank_mode, p), old(self).core.vram.bank_map@[p].1),
            final(self).settings() == old(self).settings(),
            final(self).core.prg_rom == old(self).core.prg_rom,
            final(self).core.chr_ram == old(self).core.chr_ram,
            final(self).core.sram == old(self).core.sram,
            final(self).core.rom_expansion == old(self).core.rom_expansion,
            final(self).core.nes_header == old(self).core.nes_header,
    {
        if self.chr_bank_mode == 0 {
            self.core.vram.set_bank(0, (self.registers[0] >> 7) as i16);
            self.core.vram.set_bank(1, (self.registers[0] >> 7) as i16);
            self.core.vram.set_bank(2, (self.registers[1] >> 7) as i16);
            self.core.vram.set_bank(3, (self.registers[1] >> 7) as i16);
            self.core.vram.set_bank(4, (self.registers[0] >> 7) as i16);
            self.core.vram.set_bank(5, (self.registers[0] >> 7) as i16);
            self.core.vram.set_bank(6, (self.registers[1] >> 7) as i16);
            self.core.vram.set_bank(7, (self.registers[1] >> 7) as i16);
        } else {
            self.core.vram.set_bank(0, (self.registers[2] >> 7) as i16);
            self.core.vram.set_bank(1, (self.registers[3] >> 7) as i16);
            self.core.vram.set_bank(2, (self.registers[4] >> 7) as i16);
            self.core.vram.set_bank(3, (self.registers[5] >> 7) as i16);
            self.core.vram.set_bank(4, (self.registers[2] >> 7) as i16);
            self.core.vram.set_bank(5, (self.registers[3] >> 7) as i16);
            self.core.vram.set_bank(6, (self.registers[4] >> 7) as i16);
            self.core.vram.set_bank(7, (self.registers[5] >> 7) as i16);
        }
    }

    fn set_bank_select(&mut self, value: u8) -> (r: u8)
        ensures
            r == old(self).bank_select(),
            final(self).chr_bank_mode == (value >> 7u8) & 1,
            final(self).prg_bank_mode == (value >> 6u8) & 1,
            final(self).selected_register == (value & 7) as usize,
            final(self).selected_register < 8,
            final(self).core == old(self).core,
            final(self).registers == old(self).registers,
            final(self).write_protection == old(self).write_protection,
            final(self).prg_ram_enable == old(self).prg_ram_enable,
            final(self).mmc3_irq == old(self).mmc3_irq,
    {
        let old = ((self.chr_bank_mode & 0b1) << 7) | ((self.prg_bank_mode & 0b1) << 6) | (self.selected_register as u8 & 0b111);
        self.chr_bank_mode = (value >> 7) & 0b1;
        self.prg_bank_mode = (value >> 6) & 0b1;
        self.selected_register = (value & 0b111) as usize;
        proof { lemma_and_bound(value, 7); }
        old
    }
}

impl Mapper for MMC3TxSRom {
    open spec fn inv(&self) -> bool {
        self.core.wf() && self.selected_register < 8
    }

    open spec fn cpu_clock_ok(&self) -> bool { true }

    open spec fn cpu_clock_post(&self, after: Self, r: u8) -> bool { r == self.mmc3_irq.lines() && after == *self }

    open spec fn cpu_read_ok(&self, addr: u16) -> bool { self.core.can_access_cpu(addr) }

    open spec fn cpu_read_post(&self, after: Self, addr: u16, r: u8) -> bool {
        r == self.core.cpu_value(addr) && after == *self
    }

    open spec fn cpu_write_ok(&self, addr: u16, value: u8) -> bool {
        if self.core.prg_rom.start_address <= addr <= self.core.prg_rom.end_address {
            0x8000 <= addr
        } else {
            self.core.can_access_cpu(addr)
        }
    }

    open spec fn cpu_write_post(&self, after: Self, addr: u16, value: u8, r: u8) -> bool {
        if self.core.prg_rom.start_address <= addr <= self.core.prg_rom.end_address {
            self.configured(after, addr, value, r)
        } else {
            &&& r == self.core.cpu_value(addr)
            &&& CartridgeCore::cpu_written(after.core, self.core, addr, value)
            &&& after.settings() == self.settings()
        }
    }

    open spec fn ppu_clock_ok(&self) -> bool { true }

    open spec fn ppu_clock_post(&self, after: Self) -> bool {
        &&& after.core == self.core
        &&& after.settings() == (self.chr_bank_mode, self.prg_bank_mode, self.selected_register, self.registers@,
            self.write_protection, self.prg_ram_enable, self.mmc3_irq.ppu_clocked())
    }

    open spec fn ppu_read_ok(&self, addr: u16) -> bool { self.core.can_access_ppu(addr) }

    open spec fn ppu_read_post(&self, after: Self, addr: u16, r: u8) -> bool {
        &&& r == self.core.ppu_value(addr)
        &&& after.core == self.core
        &&& after.settings() == (self.chr_bank_mode, self.prg_bank_mode, self.selected_register, self.registers@,
            self.write_protection, self.prg_ram_enable, self.mmc3_irq.a12_checked(addr))
    }

    open spec fn ppu_write_ok(&self, addr: u16) -> bool { self.core.can_access_ppu(addr) }

    open spec fn ppu_write_post(&self, after: Self, addr: u16, value: u8, r: u8) -> bool {
        &&& r == self.core.ppu_value(addr)
        &&& CartridgeCore::ppu_written(after.core, self.core, addr, value)
        &&& after.settings() == (self.chr_bank_mode, self.prg_bank_mode, self.selected_register, self.registers@,
            self.write_protection, self.prg_ram_enable, self.mmc3_irq.a12_checked(addr))
    }

    fn cpu_bus_clock(&mut self) -> (r: u8) {
        self.mmc3_irq.cpu_bus_clock()
    }

    fn read_cpu(&mut self, addr: u16) -> (r: u8) {
        self.core.read_cpu(addr)
    }

    fn write_cpu(&mut self, addr: u16, value: u8) -> (r: u8) {
        if self.core.prg_rom.contains_addr(addr) {
            self.configure(addr, value)
        } else {
            self.core.write_cpu(addr, value)
        }
    }

    fn ppu_bus_clock(&mut self) {
        self.mmc3_irq.ppu_bus_clock()
    }

    fn read_ppu(&mut self, addr: u16) -> (r: u8) {
        self.mmc3_irq.check_a12(addr);
        self.core.read_ppu(addr)
    }

    fn write_ppu(&mut self, addr: u16, value: u8) -> (r: u8) {
        self.mmc3_irq.check_a12(addr);
        self.core.write_ppu(addr, value)
    }
}

} // verus!

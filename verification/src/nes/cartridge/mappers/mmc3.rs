use vstd::prelude::*;

use crate::nes::cartridge::{CartridgeCore, MirrorType};
use crate::nes::cartridge::mappers::Mapper;
use crate::nes::cartridge::mappers::mmc3_irq::MMC3Irq;

verus! {

/// `x & m` never exceeds the mask.
pub proof fn lemma_and_bound(x: u8, m: u8)
    ensures
        x & m <= m,
{
    assert(x & m <= m) by (bit_vector);
}

/// The byte that selects the bank of 1K pattern page `p` in the MMC3 family: in mode 0
/// registers 0 and 1 give 2K pairs for pages 0-3 and registers 2-5 single pages 4-7;
/// mode 1 swaps the halves.
pub open spec fn chr_page_byte(regs: Seq<u8>, mode: u8, p: int, pair_mask: u8, single_mask: u8) -> u8 {
    let q = if p < 4 { p } else { p - 4 };
    if (mode == 0) == (p < 4) {
        let base = regs[q / 2] & pair_mask;
        if q % 2 == 0 { base } else { (base + 1) as u8 }
    } else {
        regs[q + 2] & single_mask
    }
}

/// The bank of 8K program page `p` (of four): registers 6 and 7 and the last two banks,
/// with register 6 and the second-to-last bank swapped in mode 1.
pub open spec fn prg_page_bank(regs: Seq<u8>, mode: u8, p: int, mask: u8) -> i16 {
    if p == 0 { if mode == 0 { (regs[6] & mask) as i16 } else { -2i16 } }
    else if p == 1 { (regs[7] & mask) as i16 }
    else if p == 2 { if mode == 0 { -2i16 } else { (regs[6] & mask) as i16 } }
    else { -1i16 }
}

/// Mapper 4: eight bank registers behind a select register, mirroring control and the
/// scanline IRQ counter.
pub struct MMC3 {
    pub core: CartridgeCore,
    pub chr_bank_mode: u8,
    pub prg_bank_mode: u8,
    pub selected_register: usize,
    pub registers: [u8; 8],
    pub mirror_mode: u8,
    pub write_protection: bool,
    pub prg_ram_enable: bool,
    pub mmc3_irq: MMC3Irq,
}

impl MMC3 {
    /// Everything but the memories.
    pub open spec fn settings(&self) -> (u8, u8, usize, Seq<u8>, u8, bool, bool, MMC3Irq) {
        (self.chr_bank_mode, self.prg_bank_mode, self.selected_register, self.registers@,
            self.mirror_mode, self.write_protection, self.prg_ram_enable, self.mmc3_irq)
    }

    /// The banks of `self.core` are those its registers select, over the memories of
    /// `old`.
    pub open spec fn banks_follow(&self, old: CartridgeCore) -> bool {
        let regs = self.registers@;
        &&& self.core.chr_ram.rebanked(&old.chr_ram)
        &&& forall|p: int| 0 <= p < 8 ==> #[trigger] self.core.chr_ram.bank_map@[p]
            == ((chr_page_byte(regs, self.chr_bank_mode, p, 0xFE, 0xFF) as i16), old.chr_ram.bank_map@[p].1)
        &&& self.core.prg_rom.rebanked(&old.prg_rom)
        &&& forall|p: int| 0 <= p < 8 ==> #[trigger] self.core.prg_rom.bank_map@[p]
            == if p < 4 { (prg_page_bank(regs, self.prg_bank_mode, p, 0xFF), old.prg_rom.bank_map@[p].1) } else { old.prg_rom.bank_map@[p] }
        &&& if old.nes_header.mirror_type != MirrorType::FourScreen {
            &&& self.core.vram.rebanked(&old.vram)
            &&& self.core.vram.mirrored(if self.mirror_mode == 0 { MirrorType::Vertical } else { MirrorType::Horizontal })
        } else {
            self.core.vram == old.vram
        }
        &&& self.core.nes_header == old.nes_header
        &&& self.core.rom_expansion == old.rom_expansion
        &&& self.core.sram == old.sram
    }

    /// The bank select register as it reads back.
    pub open spec fn bank_select(&self) -> u8 {
        ((self.chr_bank_mode & 1) << 7u8) | ((self.prg_bank_mode & 1) << 6u8) | ((self.selected_register as u8) & 7)
    }

    /// A write to a register at 0x8000 and above: what it leaves and returns.
    pub open spec fn configured(&self, after: Self, addr: u16, value: u8, r: u8) -> bool {
        let s = self.settings();
        let even = addr % 2 == 0;
        if addr <= 0x9FFF && even {
            &&& r == self.bank_select()
            &&& after.settings() == ((value >> 7u8) & 1, (value >> 6u8) & 1, (value & 7) as usize, s.3, s.4, s.5, s.6, s.7)
            &&& after.banks_follow(self.core)
        } else if addr <= 0x9FFF {
            &&& r == self.registers@[self.selected_register as int]
            &&& after.settings() == (s.0, s.1, s.2, s.3.update(self.selected_register as int, value), s.4, s.5, s.6, s.7)
            &&& after.banks_follow(self.core)
        } else if addr <= 0xBFFF && even {
            &&& r == self.mirror_mode
            &&& after.settings() == (s.0, s.1, s.2, s.3, value & 1, s.5, s.6, s.7)
            &&& after.banks_follow(self.core)
        } else if addr <= 0xBFFF {
            &&& r == ((if self.write_protection { 0x80u8 } else { 0u8 }) | (if self.prg_ram_enable { 0x40u8 } else { 0u8 }))
            &&& after.settings() == (s.0, s.1, s.2, s.3, s.4, value & 0x80 != 0, value & 0x40 != 0, s.7)
            &&& after.core == self.core
        } else {
            &&& self.mmc3_irq.configured(after.mmc3_irq, addr, value, r)
            &&& after.settings() == (s.0, s.1, s.2, s.3, s.4, s.5, s.6, after.mmc3_irq)
            &&& after.core == self.core
        }
    }

    pub fn new(core: CartridgeCore) -> (r: MMC3)
        requires
            core.wf(),
        ensures
            r.inv(),
            r.core.same_contents(&core),
            r.core.chr_ram.bank_size == 0x400,
            r.core.prg_rom.bank_size == 0x2000,
            r.settings() == (0u8, 0u8, 0usize, seq![0u8, 2, 4, 5, 6, 7, 0, 1], 0u8, false, false, MMC3Irq::initial()),
            r.banks_follow(r.core),
            forall|p: int| 0 <= p < 8 ==> #[trigger] r.core.chr_ram.bank_map@[p] == (p as i16, core.chr_ram.bank_map@[p].1),
            r.core.prg_rom.bank_map@[0] == (0i16, core.prg_rom.bank_map@[0].1),
            r.core.prg_rom.bank_map@[1] == (1i16, core.prg_rom.bank_map@[1].1),
            r.core.prg_rom.bank_map@[2] == (-2i16, core.prg_rom.bank_map@[2].1),
            r.core.prg_rom.bank_map@[3] == (-1i16, core.prg_rom.bank_map@[3].1),
            core.nes_header.mirror_type != MirrorType::FourScreen ==> r.core.vram.mirrored(MirrorType::Vertical),
            core.nes_header.mirror_type == MirrorType::FourScreen ==> r.core.vram == core.vram,
    {
        let mut core = core;
        core.chr_ram.set_bank_size_k(1);
        core.prg_rom.set_bank_size_k(8);
        let mut result = MMC3 {
            core,
            chr_bank_mode: 0,
            prg_bank_mode: 0,
            selected_register: 0,
            registers: [0; 8],
            mirror_mode: 0,
            write_protection: false,
            prg_ram_enable: false,
            mmc3_irq: MMC3Irq::new(),
        };
        result.registers[0] = 0;
        result.registers[1] = 2;
        result.registers[2] = 4;
        result.registers[3] = 5;
        result.registers[4] = 6;
        result.registers[5] = 7;

        result.registers[6] = 0;
        result.registers[7] = 1;

        let ghost sized = result.core;
        result.reconfigure_banks();
        assert(result.registers@ =~= seq![0u8, 2, 4, 5, 6, 7, 0, 1]);
        proof {
            assert(0u8 & 0xFE == 0u8 && 2u8 & 0xFE == 2u8 && 4u8 & 0xFF == 4u8 && 5u8 & 0xFF == 5u8
                && 6u8 & 0xFF == 6u8 && 7u8 & 0xFF == 7u8 && 0u8 & 0xFF == 0u8 && 1u8 & 0xFF == 1u8) by (bit_vector);
            let regs = result.registers@;
            assert forall|p: int| 0 <= p < 8 implies #[trigger] result.core.chr_ram.bank_map@[p] == (p as i16, core.chr_ram.bank_map@[p].1) by {
                assert(result.core.chr_ram.bank_map@[p] == ((chr_page_byte(regs, 0, p, 0xFE, 0xFF) as i16), sized.chr_ram.bank_map@[p].1));
            }
            assert(result.core.prg_rom.bank_map@[0] == (prg_page_bank(regs, 0, 0, 0xFF), sized.prg_rom.bank_map@[0].1));
            assert(result.core.prg_rom.bank_map@[1] == (prg_page_bank(regs, 0, 1, 0xFF), sized.prg_rom.bank_map@[1].1));
            assert(result.core.prg_rom.bank_map@[2] == (prg_page_bank(regs, 0, 2, 0xFF), sized.prg_rom.bank_map@[2].1));
            assert(result.core.prg_rom.bank_map@[3] == (prg_page_bank(regs, 0, 3, 0xFF), sized.prg_rom.bank_map@[3].1));
        }
        result
    }

    fn configure(&mut self, addr: u16, value: u8) -> (r: u8)
        requires
            old(self).inv(),
            0x8000 <= addr,
        ensures
            final(self).inv(),
            old(self).configured(*final(self), addr, value, r),
    {
        if addr <= 0x9FFF && addr % 2 == 0 {
            let old = self.set_bank_select(value);
            self.reconfigure_banks();
            old
        } else if addr <= 0x9FFF {
            let old = self.registers[self.selected_register];
            self.registers[self.selected_register] = value;
            self.reconfigure_banks();
            old
        } else if addr <= 0xBFFF && addr % 2 == 0 {
            let old = self.mirror_mode;
            self.mirror_mode = value & 0b1;
            self.reconfigure_banks();
            old
        } else if addr <= 0xBFFF {
            let old = (if self.write_protection { 0b1000_0000 } else { 0 }) | (if self.prg_ram_enable { 0b0100_0000 } else { 0 });
            self.write_protection = value & 0b1000_0000 != 0;
            self.prg_ram_enable = value & 0b0100_0000 != 0;
            old
        } else {
            self.mmc3_irq.configure(addr, value)
        }
    }

    fn set_chr_pair(&mut self, page: usize, reg: u8)
        requires
            page < 7,
        ensures
            final(self).core.chr_ram.rebanked(&old(self).core.chr_ram),
            final(self).core.chr_ram.bank_map@ == old(self).core.chr_ram.bank_map@
                .update(page as int, ((reg & 0xFE) as i16, old(self).core.chr_ram.bank_map@[page as int].1))
                .update(page + 1, ((((reg & 0xFE) + 1) as u8) as i16, old(self).core.chr_ram.bank_map@[page + 1].1)),
            final(self).settings() == old(self).settings(),
            final(self).core.prg_rom == old(self).core.prg_rom,
            final(self).core.vram == old(self).core.vram,
            final(self).core.sram == old(self).core.sram,
            final(self).core.rom_expansion == old(self).core.rom_expansion,
            final(self).core.nes_header == old(self).core.nes_header,
    {
        let base = reg & 0b1111_1110;
        proof { lemma_and_bound(reg, 0xFE); }
        self.core.chr_ram.set_bank(page, base as i16);
        self.core.chr_ram.set_bank(page + 1, (base + 1) as i16);
    }

    fn reconfigure_banks(&mut self)
        requires
            old(self).inv(),
        ensures
            final(self).inv(),
            final(self).settings() == old(self).settings(),
            final(self).banks_follow(old(self).core),
    {
        let ghost old_core = self.core;
        if self.chr_bank_mode == 0 {
            self.set_chr_pair(0, self.registers[0]);
            self.set_chr_pair(2, self.registers[1]);
            self.core.chr_ram.set_bank(4, self.registers[2] as i16);
            self.core.chr_ram.set_bank(5, self.registers[3] as i16);
            self.core.chr_ram.set_bank(6, self.registers[4] as i16);
            self.core.chr_ram.set_bank(7, self.registers[5] as i16);
        } else {
            self.core.chr_ram.set_bank(0, self.registers[2] as i16);
            self.core.chr_ram.set_bank(1, self.registers[3] as i16);
            self.core.chr_ram.set_bank(2, self.registers[4] as i16);
            self.core.chr_ram.set_bank(3, self.registers[5] as i16);
            self.set_chr_pair(4, self.registers[0]);
            self.set_chr_pair(6, self.registers[1]);
        }

        if self.prg_bank_mode == 0 {
            self.core.prg_rom.set_bank(0, self.registers[6] as i16);
            self.core.prg_rom.set_bank(1, self.registers[7] as i16);
            self.core.prg_rom.set_bank(2, -2);
            self.core.prg_rom.set_bank(3, -1);
        } else {
            self.core.prg_rom.set_bank(0, -2);
            self.core.prg_rom.set_bank(1, self.registers[7] as i16);
            self.core.prg_rom.set_bank(2, self.registers[6] as i16);
            self.core.prg_rom.set_bank(3, -1);
        }

        if self.core.nes_header.mirror_type != MirrorType::FourScreen {
            let mirror_type = if self.mirror_mode == 0 {
                MirrorType::Vertical
            } else {
                MirrorType::Horizontal
            };
            self.core.vram.set_mirror_type(mirror_type);
        }
        proof {
            let regs = self.registers@;
            assert forall|p: int| 0 <= p < 8 implies #[trigger] self.core.chr_ram.bank_map@[p]
                == ((chr_page_byte(regs, self.chr_bank_mode, p, 0xFE, 0xFF) as i16), old_core.chr_ram.bank_map@[p].1) by {
                lemma_and_bound(regs[0], 0xFE);
                lemma_and_bound(regs[1], 0xFE);
                reveal_and_ff(regs);
            }
            reveal_and_ff(regs);
        }
    }

    fn set_bank_select(&mut self, value: u8) -> (r: u8)
        ensures
            r == old(self).bank_select(),
            final(self).chr_bank_mode == (value >> 7u8) & 1,
            final(self).prg_bank_mode == (value >> 6u8) & 1,
            final(self).selected_register == (value & 7) as usize,
            final(self).selected_register < 8,
            final(self).core == old(self).core,
            final(self).registers == old(self).registers,
            final(self).mirror_mode == old(self).mirror_mode,
            final(self).write_protection == old(self).write_protection,
            final(self).prg_ram_enable == old(self).prg_ram_enable,
            final(self).mmc3_irq == old(self).mmc3_irq,
    {
        let old = ((self.chr_bank_mode & 0b1) << 7) | ((self.prg_bank_mode & 0b1) << 6) | (self.selected_register as u8 & 0b111);
        self.chr_bank_mode = (value >> 7) & 0b1;
        self.prg_bank_mode = (value >> 6) & 0b1;
        self.selected_register = (value & 0b111) as usize;
        proof { lemma_and_bound(value, 7); }
        old
    }
}

/// Every register byte passes a full mask unchanged.
pub proof fn reveal_and_ff(regs: Seq<u8>)
    requires
        regs.len() == 8,
    ensures
        forall|i: int| 0 <= i < 8 ==> #[trigger] (regs[i] & 0xFF) == regs[i],
{
    assert forall|i: int| 0 <= i < 8 implies #[trigger] (regs[i] & 0xFF) == regs[i] by {
        let x = regs[i];
        assert(x & 0xFF == x) by (bit_vector);
    }
}

impl Mapper for MMC3 {
    open spec fn inv(&self) -> bool {
        self.core.wf() && self.selected_register < 8
    }

    open spec fn cpu_clock_ok(&self) -> bool { true }

    open spec fn cpu_clock_post(&self, after: Self, r: u8) -> bool { r == self.mmc3_irq.lines() && after == *self }

    open spec fn cpu_read_ok(&self, addr: u16) -> bool { self.core.can_access_cpu(addr) }

    open spec fn cpu_read_post(&self, after: Self, addr: u16, r: u8) -> bool {
        r == self.core.cpu_value(addr) && after == *self
    }

    open spec fn cpu_write_ok(&self, addr: u16, value: u8) -> bool {
        if self.core.prg_rom.start_address <= addr <= self.core.prg_rom.end_address {
            0x8000 <= addr
        } else {
            self.core.can_access_cpu(addr)
        }
    }

    open spec fn cpu_write_post(&self, after: Self, addr: u16, value: u8, r: u8) -> bool {
        if self.core.prg_rom.start_address <= addr <= self.core.prg_rom.end_address {
            self.configured(after, addr, value, r)
        } else {
            &&& r == self.core.cpu_value(addr)
            &&& CartridgeCore::cpu_written(after.core, self.core, addr, value)
            &&& after.settings() == self.settings()
        }
    }

    open spec fn ppu_clock_ok(&self) -> bool { true }

    open spec fn ppu_clock_post(&self, after: Self) -> bool {
        &&& after.core == self.core
        &&& after.settings() == (self.chr_bank_mode, self.prg_bank_mode, self.selected_register, self.registers@,
            self.mirror_mode, self.write_protection, self.prg_ram_enable, self.mmc3_irq.ppu_clocked())
    }

    open spec fn ppu_read_ok(&self, addr: u16) -> bool { self.core.can_access_ppu(addr) }

    open spec fn ppu_read_post(&self, after: Self, addr: u16, r: u8) -> bool {
        &&& r == self.core.ppu_value(addr)
        &&& after.core == self.core
        &&& after.settings() == (self.chr_bank_mode, self.prg_bank_mode, self.selected_register, self.registers@,
            self.mirror_mode, self.write_protection, self.prg_ram_enable, self.mmc3_irq.a12_checked(addr))
    }

    open spec fn ppu_write_ok(&self, addr: u16) -> bool { self.core.can_access_ppu(addr) }

    open spec fn ppu_write_post(&self, after: Self, addr: u16, value: u8, r: u8) -> bool {
        &&& r == self.core.ppu_value(addr)
        &&& CartridgeCore::ppu_written(after.core, self.core, addr, value)
        &&& after.settings() == (self.chr_bank_mode, self.prg_bank_mode, self.selected_register, self.registers@,
            self.mirror_mode, self.write_protection, self.prg_ram_enable, self.mmc3_irq.a12_checked(addr))
    }

    fn cpu_bus_clock(&mut self) -> (r: u8) {
        self.mmc3_irq.cpu_bus_clock()
    }

    fn read_cpu(&mut self, addr: u16) -> (r: u8) {
        self.core.read_cpu(addr)
    }

    fn write_cpu(&mut self, addr: u16, value: u8) -> (r: u8) {
        if self.core.prg_rom.contains_addr(addr) {
            self.configure(addr, value)
        } else {
            self.core.write_cpu(addr, value)
        }
    }

    fn ppu_bus_clock(&mut self) {
        self.mmc3_irq.ppu_bus_clock()
    }

    fn read_ppu(&mut self, addr: u16) -> (r: u8) {
        self.mmc3_irq.check_a12(addr);
        self.core.read_ppu(addr)
    }

    fn write_ppu(&mut self, addr: u16, value: u8) -> (r: u8) {
        self.mmc3_irq.check_a12(addr);
        self.core.write_ppu(addr, value)
    }
}

} // verus!

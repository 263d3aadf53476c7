use vstd::prelude::*;

use crate::bus::InterruptFlags;
use crate::nes::cartridge::CartridgeCore;
use crate::nes::cartridge::mappers::Mapper;
use crate::nes::cartridge::mappers::mmc3::{chr_page_byte, lemma_and_bound, prg_page_bank};

verus! {

/// The boards built on the Namcot 108 bank switcher, by how they wire its registers.
#[derive(Clone, Copy, PartialEq, Eq, Debug, Structural)]
pub enum NamcotBoard {
    /// Mapper 206: 2K and 1K pattern banks, mirroring fixed by the board.
    N108,
    /// Mapper 76 (Namcot 3446): registers 2-5 select four 2K pattern banks.
    N3446,
    /// Mapper 88 (Namcot 3443): the 1K pattern banks come from the upper 64K.
    N3443,
    /// Mapper 95 (Namcot 3425): bit 5 of registers 0 and 1 selects the nametables of
    /// 0x2000-0x27FF and 0x2800-0x2FFF.
    N3425,
    /// Mapper 154 (Namcot 3453): as the 3443, and bit 6 of every register write
    /// selects a single-screen nametable.
    N3453,
}

/// The 1K bank that pattern page `p` shows on board `board` with registers `regs`.
pub open spec fn namcot_chr_bank(board: NamcotBoard, regs: Seq<u8>, p: int) -> i16 {
    match board {
        NamcotBoard::N3446 => ((regs[2 + p / 2] & 0x3F) as int * 2 + p % 2) as i16,
        NamcotBoard::N3443 | NamcotBoard::N3453 => if p < 4 {
            chr_page_byte(regs, 0, p, 0x3E, 0x3F) as i16
        } else {
            ((regs[p - 2] & 0x3F) | 0x40) as i16
        },
        _ => chr_page_byte(regs, 0, p, 0x3E, 0x3F) as i16,
    }
}

/// The nametable that page `p` of the nametable window shows on a board that controls
/// the nametables.
pub open spec fn namcot_nametable(board: NamcotBoard, regs: Seq<u8>, single_screen: u8, p: int) -> i16 {
    if board == NamcotBoard::N3453 {
        single_screen as i16
    } else if p % 4 < 2 {
        ((regs[0] >> 5u8) & 1) as i16
    } else {
        ((regs[1] >> 5u8) & 1) as i16
    }
}

/// Mappers 206, 76, 88, 95 and 154: the bank registers of the MMC3 without its mirroring
/// control or IRQ, wired as the board says.
pub struct Namcot108 {
    pub core: CartridgeCore,
    pub selected_register: usize,
    pub registers: [u8; 8],
    pub board: NamcotBoard,
    pub single_screen: u8,
}

impl Namcot108 {
    /// The banks of `self.core` are those its registers select, over the memories of
    /// `old`.
    pub open spec fn banks_follow(&self, old: CartridgeCore) -> bool {
        let regs = self.registers@;
        &&& self.core.chr_ram.rebanked(&old.chr_ram)
        &&& forall|p: int| 0 <= p < 8 ==> #[trigger] self.core.chr_ram.bank_map@[p]
            == (namcot_chr_bank(self.board, regs, p), old.chr_ram.bank_map@[p].1)
        &&& self.core.prg_rom.rebanked(&old.prg_rom)
        &&& forall|p: int| 0 <= p < 8 ==> #[trigger] self.core.prg_rom.bank_map@[p]
            == if p < 4 { (prg_page_bank(regs, 0, p, 0x0F), old.prg_rom.bank_map@[p].1) } else { old.prg_rom.bank_map@[p] }
        &&& if self.board == NamcotBoard::N3425 || self.board == NamcotBoard::N3453 {
            &&& self.core.vram.rebanked(&old.vram)
            &&& forall|p: int| 0 <= p < 8 ==> #[trigger] self.core.vram.bank_map@[p]
                == (namcot_nametable(self.board, regs, self.single_screen, p), old.vram.bank_map@[p].1)
        } else {
            self.core.vram == old.vram
        }
        &&& self.core.nes_header == old.nes_header
        &&& self.core.rom_expansion == old.rom_expansion
        &&& self.core.sram == old.sram
    }

    /// A write to a register at 0x8000 and above: what it leaves and returns.
    pub open spec fn configured(&self, after: Self, addr: u16, value: u8, r: u8) -> bool {
        let single = if self.board == NamcotBoard::N3453 { (value >> 6u8) & 1 } else { self.single_screen };
        &&& after.board == self.board
        &&& after.single_screen == single
        &&& if addr <= 0x9FFF && addr % 2 == 0 {
            &&& r == (self.selected_register as u8) & 7
            &&& after.selected_register == (value & 7) as usize
            &&& after.registers == self.registers
            &&& after.banks_follow(self.core)
        } else if addr <= 0x9FFF {
            &&& r == self.registers@[self.selected_register as int]
            &&& after.selected_register == self.selected_register
            &&& after.registers@ == self.registers@.update(self.selected_register as int, value)
            &&& after.banks_follow(self.core)
        } else if self.board == NamcotBoard::N3453 {
            &&& r == 0
            &&& after.selected_register == self.selected_register
            &&& after.registers == self.registers
            &&& after.banks_follow(self.core)
        } else {
            r == 0 && after == *self
        }
    }

    /// The mapper of board `board`, with the power-on registers of the 108.
    pub fn new(core: CartridgeCore, board: NamcotBoard) -> (r: Namcot108)
        requires
            core.wf(),
        ensures
            r.inv(),
            r.board == board,
            r.single_screen == 0,
            r.core.same_contents(&core),
            r.core.chr_ram.bank_size == 0x400,
            r.core.prg_rom.bank_size == 0x2000,
            r.selected_register == 0,
            r.registers@ == seq![0u8, 2, 4, 5, 6, 7, 0, 1],
            r.banks_follow(r.core),
            board == NamcotBoard::N108 ==> forall|p: int| 0 <= p < 8 ==> #[trigger] r.core.chr_ram.bank_map@[p] == (p as i16, core.chr_ram.bank_map@[p].1),
            r.core.prg_rom.bank_map@[0] == (0i16, core.prg_rom.bank_map@[0].1),
            r.core.prg_rom.bank_map@[1] == (1i16, core.prg_rom.bank_map@[1].1),
            r.core.prg_rom.bank_map@[2] == (-2i16, core.prg_rom.bank_map@[2].1),
            r.core.prg_rom.bank_map@[3] == (-1i16, core.prg_rom.bank_map@[3].1),
    {
        let mut core = core;
        core.chr_ram.set_bank_size_k(1);
        core.prg_rom.set_bank_size_k(8);
        let mut result = Namcot108 { core, selected_register: 0, registers: [0; 8], board, single_screen: 0 };
        result.registers[0] = 0;
        result.registers[1] = 2;
        result.registers[2] = 4;
        result.registers[3] = 5;
        result.registers[4] = 6;
        result.registers[5] = 7;

        result.registers[6] = 0;
        result.registers[7] = 1;

        let ghost sized = result.core;
        result.reconfigure_banks();
        assert(result.registers@ =~= seq![0u8, 2, 4, 5, 6, 7, 0, 1]);
        proof {
            assert(0u8 & 0x3E == 0u8 && 2u8 & 0x3E == 2u8 && 4u8 & 0x3F == 4u8 && 5u8 & 0x3F == 5u8 && 6u8 & 0x3F == 6u8 && 7u8 & 0x3F == 7u8 && 0u8 & 0x0F == 0u8 && 1u8 & 0x0F == 1u8) by (bit_vector);
            let regs = result.registers@;
            if board == NamcotBoard::N108 {
                assert forall|p: int| 0 <= p < 8 implies #[trigger] result.core.chr_ram.bank_map@[p] == (p as i16, sized.chr_ram.bank_map@[p].1) by {
                    assert(result.core.chr_ram.bank_map@[p] == ((chr_page_byte(regs, 0, p, 0x3E, 0x3F) as i16), sized.chr_ram.bank_map@[p].1));
                }
            }
            assert(result.core.prg_rom.bank_map@[0] == (prg_page_bank(regs, 0, 0, 0x0F), sized.prg_rom.bank_map@[0].1));
            assert(result.core.prg_rom.bank_map@[1] == (prg_page_bank(regs, 0, 1, 0x0F), sized.prg_rom.bank_map@[1].1));
            assert(result.core.prg_rom.bank_map@[2] == (prg_page_bank(regs, 0, 2, 0x0F), sized.prg_rom.bank_map@[2].1));
            assert(result.core.prg_rom.bank_map@[3] == (prg_page_bank(regs, 0, 3, 0x0F), sized.prg_rom.bank_map@[3].1));
            if board == NamcotBoard::N3425 || board == NamcotBoard::N3453 {
                let m = result.core.vram.bank_map@;
                assert forall|p: int| 0 <= p < 8 implies #[trigger] result.core.vram.bank_map@[p]
                    == (namcot_nametable(board, regs, 0, p), result.core.vram.bank_map@[p].1) by {
                    assert(result.core.vram.bank_map@[p] == (namcot_nametable(board, regs, 0, p), sized.vram.bank_map@[p].1));
                }
            }
        }
        result
    }

    fn configure(&mut self, addr: u16, value: u8) -> (r: u8)
        requires
            old(self).inv(),
            0x8000 <= addr,
        ensures
            final(self).inv(),
            old(self).configured(*final(self), addr, value, r),
    {
        if self.board == NamcotBoard::N3453 {
            self.single_screen = (value >> 6) & 1;
        }
        if addr <= 0x9FFF && addr % 2 == 0 {
            let old = self.selected_register as u8 & 0b111;
            self.selected_register = (value & 0b111) as usize;
            proof { lemma_and_bound(value, 7); }
            self.reconfigure_banks();
            old
        } else if addr <= 0x9FFF {
            let old = self.registers[self.selected_register];
            self.registers[self.selected_register] = value;
            self.reconfigure_banks();
            old
        } else {
            if self.board == NamcotBoard::N3453 {
                self.reconfigure_banks();
            }
            0
        }
    }

    fn reconfigure_banks(&mut self)
        requires
            old(self).inv(),
        ensures
            final(self).inv(),
            final(self).selected_register == old(self).selected_register,
            final(self).registers == old(self).registers,
            final(self).board == old(self).board,
            final(self).single_screen == old(self).single_screen,
            final(self).banks_follow(old(self).core),
    {
        let r0 = self.registers[0] & 0b0011_1110;
        let r1 = self.registers[1] & 0b0011_1110;
        proof {
            lemma_and_bound(self.registers[0], 0x3E);
            lemma_and_bound(self.registers[1], 0x3E);
        }
        if self.board == NamcotBoard::N3446 {
            let mut p: usize = 0;
            while p < 8
                invariant
                    p <= 8,
                    p % 2 == 0,
                    self.core.chr_ram.rebanked(&old(self).core.chr_ram),
                    forall|q: int| 0 <= q < p ==> #[trigger] self.core.chr_ram.bank_map@[q]
                        == (namcot_chr_bank(self.board, self.registers@, q), old(self).core.chr_ram.bank_map@[q].1),
                    forall|q: int| p <= q < 8 ==> #[trigger] self.core.chr_ram.bank_map@[q] == old(self).core.chr_ram.bank_map@[q],
                    self.core.chr_ram.wf() == old(self).core.chr_ram.wf(),
                    self.registers == old(self).registers,
                    self.board == old(self).board,
                    self.board == NamcotBoard::N3446,
                    self.single_screen == old(self).single_screen,
                    self.selected_register == old(self).selected_register,
                    self.core.prg_rom == old(self).core.prg_rom,
                    self.core.vram == old(self).core.vram,
                    self.core.sram == old(self).core.sram,
                    self.core.rom_expansion == old(self).core.rom_expansion,
                    self.core.nes_header == old(self).core.nes_header,
                decreases 8 - p,
            {
                let b = (self.registers[2 + p / 2] & 0b0011_1111) as i16 * 2;
                proof { lemma_and_bound(self.registers@[2 + p / 2], 0x3F); }
                let ghost before = self.core.chr_ram.bank_map@;
                self.core.chr_ram.set_bank(p, b);
                self.core.chr_ram.set_bank(p + 1, b + 1);
                proof {
                    assert((p + 1) as int / 2 == p as int / 2);
                    assert((p + 1) as int % 2 == 1 && p as int % 2 == 0);
                    assert(namcot_chr_bank(self.board, self.registers@, p as int) == b);
                    assert(namcot_chr_bank(self.board, self.registers@, p as int + 1) == b + 1);
                    assert forall|q: int| 0 <= q < p + 2 implies #[trigger] self.core.chr_ram.bank_map@[q]
                        == (namcot_chr_bank(self.board, self.registers@, q), old(self).core.chr_ram.bank_map@[q].1) by {
                        if q < p {
                            assert(self.core.chr_ram.bank_map@[q] == before[q]);
                        }
                    }
                }
                p = p + 2;
            }
        } else {
            self.core.chr_ram.set_bank(0, r0 as i16);
            self.core.chr_ram.set_bank(1, r0 as i16 + 1);
            self.core.chr_ram.set_bank(2, r1 as i16);
            self.core.chr_ram.set_bank(3, r1 as i16 + 1);
            if self.board == NamcotBoard::N3443 || self.board == NamcotBoard::N3453 {
                self.core.chr_ram.set_bank(4, ((self.registers[2] & 0b0011_1111) | 0x40) as i16);
                self.core.chr_ram.set_bank(5, ((self.registers[3] & 0b0011_1111) | 0x40) as i16);
                self.core.chr_ram.set_bank(6, ((self.registers[4] & 0b0011_1111) | 0x40) as i16);
                self.core.chr_ram.set_bank(7, ((self.registers[5] & 0b0011_1111) | 0x40) as i16);
            } else {
                self.core.chr_ram.set_bank(4, (self.registers[2] & 0b0011_1111) as i16);
                self.core.chr_ram.set_bank(5, (self.registers[3] & 0b0011_1111) as i16);
                self.core.chr_ram.set_bank(6, (self.registers[4] & 0b0011_1111) as i16);
                self.core.chr_ram.set_bank(7, (self.registers[5] & 0b0011_1111) as i16);
            }
        }

        self.core.prg_rom.set_bank(0, (self.registers[6] & 0b0000_1111) as i16);
        self.core.prg_rom.set_bank(1, (self.registers[7] & 0b0000_1111) as i16);
        self.core.prg_rom.set_bank(2, -2);
        self.core.prg_rom.set_bank(3, -1);
        assert(self.core.chr_ram.rebanked(&old(self).core.chr_ram));
        assert(forall|p: int| 0 <= p < 8 ==> #[trigger] self.core.chr_ram.bank_map@[p]
            == (namcot_chr_bank(self.board, self.registers@, p), old(self).core.chr_ram.bank_map@[p].1));

        if self.board == NamcotBoard::N3425 || self.board == NamcotBoard::N3453 {
            let low = if self.board == NamcotBoard::N3453 { self.single_screen } else { (self.registers[0] >> 5) & 1 };
            let high = if self.board == NamcotBoard::N3453 { self.single_screen } else { (self.registers[1] >> 5) & 1 };
            let ghost mid = *self;
            let mut p: usize = 0;
            while p < 8
                invariant
                    p <= 8,
                    self.core.vram.rebanked(&old(self).core.vram),
                    self.core.chr_ram == mid.core.chr_ram,
                    self.core.prg_rom == mid.core.prg_rom,
                    self.core.sram == mid.core.sram,
                    self.core.rom_expansion == mid.core.rom_expansion,
                    self.core.nes_header == mid.core.nes_header,
                    self.registers == mid.registers,
                    self.board == mid.board,
                    self.single_screen == mid.single_screen,
                    self.selected_register == mid.selected_register,
                    mid.board == NamcotBoard::N3453 ==> low == mid.single_screen && high == mid.single_screen,
                    mid.board != NamcotBoard::N3453 ==> low == (mid.registers@[0] >> 5u8) & 1 && high == (mid.registers@[1] >> 5u8) & 1,
                    forall|q: int| 0 <= q < p ==> #[trigger] self.core.vram.bank_map@[q]
                        == (if q % 4 < 2 { low as i16 } else { high as i16 }, old(self).core.vram.bank_map@[q].1),
                    forall|q: int| p <= q < 8 ==> #[trigger] self.core.vram.bank_map@[q] == old(self).core.vram.bank_map@[q],
                decreases 8 - p,
            {
                let b = if p % 4 < 2 { low } else { high };
                self.core.vram.set_bank(p, b as i16);
                p = p + 1;
            }
            proof {
                let regs = self.registers@;
                assert forall|q: int| 0 <= q < 8 implies #[trigger] self.core.vram.bank_map@[q]
                    == (namcot_nametable(self.board, regs, self.single_screen, q), old(self).core.vram.bank_map@[q].1) by {
                    assert(self.core.vram.bank_map@[q] == (if q % 4 < 2 { low as i16 } else { high as i16 }, old(self).core.vram.bank_map@[q].1));
                }
            }
        }
    }
}

impl Mapper for Namcot108 {
    open spec fn inv(&self) -> bool {
        self.core.wf() && self.selected_register < 8
    }

    open spec fn cpu_clock_ok(&self) -> bool { true }

    open spec fn cpu_clock_post(&self, after: Self, r: u8) -> bool { r == 0 && after == *self }

    open spec fn cpu_read_ok(&self, addr: u16) -> bool { self.core.can_access_cpu(addr) }

    open spec fn cpu_read_post(&self, after: Self, addr: u16, r: u8) -> bool {
        r == self.core.cpu_value(addr) && after == *self
    }

    open spec fn cpu_write_ok(&self, addr: u16, value: u8) -> bool {
        if self.core.prg_rom.start_address <= addr <= self.core.prg_rom.end_address {
            0x8000 <= addr
        } else {
            self.core.can_access_cpu(addr)
        }
    }

    open spec fn cpu_write_post(&self, after: Self, addr: u16, value: u8, r: u8) -> bool {
        if self.core.prg_rom.start_address <= addr <= self.core.prg_rom.end_address {
            self.configured(after, addr, value, r)
        } else {
            &&& r == self.core.cpu_value(addr)
            &&& CartridgeCore::cpu_written(after.core, self.core, addr, value)
            &&& after.selected_register == self.selected_register
            &&& after.registers == self.registers
            &&& after.board == self.board
            &&& after.single_screen == self.single_screen
        }
    }

    open spec fn ppu_clock_ok(&self) -> bool { true }

    open spec fn ppu_clock_post(&self, after: Self) -> bool { after == *self }

    open spec fn ppu_read_ok(&self, addr: u16) -> bool { self.core.can_access_ppu(addr) }

    open spec fn ppu_read_post(&self, after: Self, addr: u16, r: u8) -> bool {
        r == self.core.ppu_value(addr) && after == *self
    }

    open spec fn ppu_write_ok(&self, addr: u16) -> bool { self.core.can_access_ppu(addr) }

    open spec fn ppu_write_post(&self, after: Self, addr: u16, value: u8, r: u8) -> bool {
        &&& r == self.core.ppu_value(addr)
        &&& CartridgeCore::ppu_written(after.core, self.core, addr, value)
        &&& after.selected_register == self.selected_register
        &&& after.registers == self.registers
        &&& after.board == self.board
        &&& after.single_screen == self.single_screen
    }

    fn cpu_bus_clock(&mut self) -> (r: u8) {
        InterruptFlags::empty()
    }

    fn read_cpu(&mut self, addr: u16) -> (r: u8) {
        self.core.read_cpu(addr)
    }

    fn write_cpu(&mut self, addr: u16, value: u8) -> (r: u8) {
        if self.core.prg_rom.contains_addr(addr) {
            self.configure(addr, value)
        } else {
            self.core.write_cpu(addr, value)
        }
    }

    fn ppu_bus_clock(&mut self) {
    }

    fn read_ppu(&mut self, addr: u16) -> (r: u8) {
        self.core.read_ppu(addr)
    }

    fn write_ppu(&mut self, addr: u16, value: u8) -> (r: u8) {
        self.core.write_ppu(addr, value)
    }
}

} // verus!

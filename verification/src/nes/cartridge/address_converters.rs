use vstd::prelude::*;

use crate::nes::cartridge::MirrorType;
use crate::nes::cartridge::memory_region::wrapping_usize_sub;

verus! {

/// The index of `addr` in a memory cut into banks of `bank_size` kilobytes, where the
/// window starting at `start` shows bank `bank` (negative banks count from the end of
/// the memory's `max_size` bytes) and repeats every `window_size` kilobytes.
pub open spec fn banked_index(bank: i16, addr: u16, start: u16, bank_size: u16, window_size: u16, max_size: usize) -> int {
    let base = if bank >= 0 {
        bank as int * (bank_size as int * 1024)
    } else {
        wrapping_usize_sub(max_size as int, -(bank as int) * (bank_size as int * 1024))
    };
    base + (addr as int - start as int) % (window_size as int * 1024)
}

/// `banked_index` can be computed without overflow or a zero window.
pub open spec fn banked_index_ok(bank: i16, addr: u16, start: u16, bank_size: u16, window_size: u16, max_size: usize) -> bool {
    &&& start <= addr
    &&& window_size > 0
    &&& bank != i16::MIN
    &&& bank >= 0 ==> bank as int * (bank_size as int * 1024) <= usize::MAX
    &&& bank < 0 ==> -(bank as int) * (bank_size as int * 1024) <= usize::MAX
    &&& banked_index(bank, addr, start, bank_size, window_size, max_size) <= usize::MAX
}

/// The bank of the four nametables that a mirroring arrangement shows for `table`.
pub open spec fn nametable_bank(mirror_type: MirrorType, table: u16) -> u16 {
    match mirror_type {
        MirrorType::Horizontal => if table < 2 { 0 } else { 1 },
        MirrorType::Vertical => table % 2,
        MirrorType::SingleScreen(n) => n as u16,
        MirrorType::FourScreen => table,
    }
}

/// Turns addresses of a bus window into indices of the memory behind it.
pub trait AddressConverter {
    spec fn start(&self) -> u16;

    spec fn end(&self) -> u16;

    /// The bank an address is read from when no bank is named.
    spec fn bank_for(&self, addr: u16) -> i16;

    /// The index of `addr` in bank `bank`.
    spec fn index_in(&self, bank: i16, addr: u16) -> int;

    spec fn index_ok(&self, bank: i16, addr: u16) -> bool;

    fn convert(&self, addr: u16) -> (r: usize)
        requires
            self.index_ok(self.bank_for(addr), addr),
        ensures
            r == self.index_in(self.bank_for(addr), addr),
    ;

    fn convert_from_bank(&self, bank_number: i16, addr: u16) -> (r: usize)
        requires
            self.index_ok(bank_number, addr),
        ensures
            r == self.index_in(bank_number, addr),
    ;

    fn contains_addr(&self, addr: u16) -> (r: bool)
        ensures
            r == (self.start() <= addr <= self.end()),
    ;
}

/// A window that shows one selectable bank.
pub struct BankedConverter {
    pub bank: u8,
    pub start_address: u16,
    pub end_address: u16,
    pub bank_size: u16,
    pub window_size: u16,
    pub max_size: usize,
}

impl BankedConverter {
    /// A window over bank 0 that repeats every bank.
    pub fn new(start_address: u16, end_address: u16, bank_size: u16, max_size: usize) -> (r: BankedConverter)
        ensures
            r == (BankedConverter { bank: 0, start_address, end_address, bank_size, window_size: bank_size, max_size }),
    {
        BankedConverter {
            bank: 0,
            start_address,
            end_address,
            bank_size,
            window_size: bank_size,
            max_size,
        }
    }
}

impl AddressConverter for BankedConverter {
    open spec fn start(&self) -> u16 { self.start_address }

    open spec fn end(&self) -> u16 { self.end_address }

    open spec fn bank_for(&self, addr: u16) -> i16 { self.bank as i16 }

    open spec fn index_in(&self, bank: i16, addr: u16) -> int {
        banked_index(bank, addr, self.start_address, self.bank_size, self.window_size, self.max_size)
    }

    open spec fn index_ok(&self, bank: i16, addr: u16) -> bool {
        banked_index_ok(bank, addr, self.start_address, self.bank_size, self.window_size, self.max_size)
    }

    fn convert(&self, addr: u16) -> (r: usize) {
        self.convert_from_bank(self.bank as i16, addr)
    }

    fn convert_from_bank(&self, bank_number: i16, addr: u16) -> (r: usize) {
        bank_index(bank_number, addr, self.start_address, self.bank_size, self.window_size, self.max_size)
    }

    fn contains_addr(&self, addr: u16) -> (r: bool) {
        self.start_address <= addr && addr <= self.end_address
    }
}

/// A nametable window: four 1K nametables, two or four of them distinct, as the
/// mirroring arrangement says.
pub struct MirroredConverter {
    pub mirror_type: MirrorType,
    pub start_address: u16,
    pub end_address: u16,
    pub bank_size: u16,
    pub window_size: u16,
    pub max_size: usize,
}

impl MirroredConverter {
    pub fn new(
        mirror_type: MirrorType,
        start_address: u16,
        end_address: u16,
        bank_size: u16,
        max_size: usize,
    ) -> (r: MirroredConverter)
        ensures
            r == (MirroredConverter { mirror_type, start_address, end_address, bank_size, window_size: bank_size, max_size }),
    {
        MirroredConverter {
            mirror_type,
            start_address,
            end_address,
            bank_size,
            window_size: bank_size,
            max_size,
        }
    }
}

impl AddressConverter for MirroredConverter {
    open spec fn start(&self) -> u16 { self.start_address }

    open spec fn end(&self) -> u16 { self.end_address }

    /// Address bits 10-11 name the nametable; the mirroring picks its bank.
    open spec fn bank_for(&self, addr: u16) -> i16 {
        nametable_bank(self.mirror_type, (addr >> 10u16) & 3) as i16
    }

    open spec fn index_in(&self, bank: i16, addr: u16) -> int {
        banked_index(bank, addr, self.start_address, self.bank_size, self.window_size, self.max_size)
    }

    open spec fn index_ok(&self, bank: i16, addr: u16) -> bool {
        banked_index_ok(bank, addr, self.start_address, self.bank_size, self.window_size, self.max_size)
    }

    fn convert(&self, addr: u16) -> (r: usize) {
        let name_table_requested = (addr >> 10) & 0b11;

        let name_table_selected: u16 = match self.mirror_type {
            MirrorType::Horizontal => if name_table_requested < 2 { 0 } else { 1 },
            MirrorType::Vertical => name_table_requested % 2,
            MirrorType::SingleScreen(n) => n as u16,
            MirrorType::FourScreen => name_table_requested,
        };

        self.convert_from_bank(name_table_selected as i16, addr)
    }

    fn convert_from_bank(&self, bank_number: i16, addr: u16) -> (r: usize) {
        bank_index(bank_number, addr, self.start_address, self.bank_size, self.window_size, self.max_size)
    }

    fn contains_addr(&self, addr: u16) -> (r: bool) {
        self.start_address <= addr && addr <= self.end_address
    }
}

/// Computes `banked_index`.
pub fn bank_index(bank_number: i16, addr: u16, start_address: u16, bank_size: u16, window_size: u16, max_size: usize) -> (r: usize)
    requires
        banked_index_ok(bank_number, addr, start_address, bank_size, window_size, max_size),
    ensures
        r == banked_index(bank_number, addr, start_address, bank_size, window_size, max_size),
{
    let base = if bank_number >= 0 {
        bank_number as usize * k_to_usize(bank_size)
    } else {
        max_size.wrapping_sub((-bank_number) as usize * k_to_usize(bank_size))
    };
    let offset = ((addr - start_address) as usize) % k_to_usize(window_size);

    base + offset
}

pub fn k_to_usize(k: u16) -> (r: usize)
    ensures
        r == k as int * 1024,
{
    (k as usize) * 1024
}

/// The nametable window of 1K tables repeats every 4K: 0x3000-0x3EFF reaches what
/// 0x2000-0x2EFF reaches; with vertical mirroring the table 2K above is the same, with
/// horizontal mirroring the table 1K above within each half.
pub proof fn law_nametable_mirrors(c: MirroredConverter, addr: u16)
    requires
        c.start_address == 0x2000,
        c.window_size == 1,
        0x2000 <= addr <= 0x2EFF,
    ensures
        c.index_in(c.bank_for(addr), addr) == c.index_in(c.bank_for((addr + 0x1000) as u16), (addr + 0x1000) as u16),
        c.mirror_type == MirrorType::Vertical && addr < 0x2800
            ==> c.index_in(c.bank_for(addr), addr) == c.index_in(c.bank_for((addr + 0x0800) as u16), (addr + 0x0800) as u16),
        c.mirror_type == MirrorType::Horizontal && (addr < 0x2400 || (0x2800 <= addr && addr < 0x2C00))
            ==> c.index_in(c.bank_for(addr), addr) == c.index_in(c.bank_for((addr + 0x0400) as u16), (addr + 0x0400) as u16),
{
    let a4 = (addr + 0x1000) as u16;
    let a2 = (addr + 0x0800) as u16;
    let a1 = (addr + 0x0400) as u16;
    let x = addr as int - 0x2000;
    assert(a4 == addr + 0x1000);
    assert((x + 4096) % 1024 == x % 1024) by (nonlinear_arith)
        requires
            x >= 0,
    ;
    assert((a4 >> 10u16) & 3 == (addr >> 10u16) & 3) by (bit_vector)
        requires
            0x2000 <= addr <= 0x2EFF,
            a4 == (addr + 0x1000) as u16,
    ;
    assert(addr < 0x2800 ==> (a2 >> 10u16) & 3 == ((addr >> 10u16) & 3) + 2 && (addr >> 10u16) & 3 < 2) by (bit_vector)
        requires
            0x2000 <= addr <= 0x2EFF,
            a2 == (addr + 0x0800) as u16,
    ;
    assert((addr < 0x2400 || (0x2800 <= addr && addr < 0x2C00))
        ==> (a1 >> 10u16) & 3 == ((addr >> 10u16) & 3) + 1 && ((addr >> 10u16) & 3) % 2 == 0) by (bit_vector)
        requires
            0x2000 <= addr <= 0x2EFF,
            a1 == (addr + 0x0400) as u16,
    ;
}

} // verus!

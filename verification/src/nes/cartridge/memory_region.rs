use vstd::prelude::*;

use crate::nes::cartridge::MirrorType;

verus! {

pub const MAX_BANKS: usize = 8;

#[allow(non_camel_case_types)]
#[derive(Clone, Copy, PartialEq, Eq, Debug, Structural)]
pub enum MemoryType {
    SRAM,
    VRAM,
    CHR_RAM,
    CHR_ROM,
    PRG_ROM,
    ROM_EXPANSION,
}

/// A window of the address space backed by banked memory.
///
/// The window `start_address..=end_address` is cut into pages of `bank_size` bytes, and
/// `bank_map` says which bank of memory each page shows (negative banks count from the
/// end of memory) and whether it comes from the alternate memory.
pub struct MemoryRegion {
    pub memory_type: MemoryType,
    pub memory: Vec<u8>,
    pub alternate_memory: Vec<u8>,

    pub start_address: u16,
    pub end_address: u16,

    pub bank_size: usize,
    pub page_count: usize,
    pub bank_count: usize,
    pub alternate_bank_count: usize,
    pub bank_map: [(i16, bool); 8],

    pub write_protect: bool,
    pub alternate_write_protect: bool,
}

pub open spec fn k_to_bytes(k: u16) -> int {
    k as int * 1024
}

/// `a - b` as `usize` arithmetic wraps it.
pub open spec fn wrapping_usize_sub(a: int, b: int) -> int {
    if a >= b { a - b } else { a - b + usize::MAX as int + 1 }
}

impl MemoryRegion {
    /// The bookkeeping derived from the bank size agrees with it.
    pub open spec fn wf(&self) -> bool {
        &&& self.start_address <= self.end_address
        &&& self.bank_size > 0
        &&& self.page_count == self.address_size() / self.bank_size as int
        &&& self.bank_count == self.memory@.len() as int / self.bank_size as int
        &&& self.alternate_bank_count == self.alternate_memory@.len() as int / self.bank_size as int
    }

    pub open spec fn address_size(&self) -> int {
        self.end_address as int - self.start_address as int + 1
    }

    pub open spec fn bank_at(&self, page: int) -> (i16, bool) {
        self.bank_map@[page]
    }

    pub open spec fn raw_index(&self, addr: u16) -> int {
        addr as int - self.start_address as int
    }

    pub open spec fn page_of(&self, addr: u16) -> int {
        self.raw_index(addr) / self.bank_size as int
    }

    /// Where the bank of a page begins in memory.
    pub open spec fn bank_base(&self, bank: (i16, bool)) -> int {
        if bank.0 >= 0 {
            let count = if bank.1 { self.alternate_bank_count } else { self.bank_count };
            (bank.0 as int % count as int) * self.bank_size as int
        } else {
            wrapping_usize_sub(self.memory@.len() as int, -(bank.0 as int) * self.bank_size as int)
        }
    }

    /// Whether an address of the window maps to a byte: it is in the window, its page
    /// is one of the mapped pages, and the memory its bank selects is there.
    pub open spec fn can_convert(&self, addr: u16) -> bool {
        let page = self.page_of(addr);
        let bank = self.bank_at(page);
        &&& self.wf()
        &&& self.start_address <= addr <= self.end_address
        &&& page < self.page_count
        &&& page < MAX_BANKS
        &&& bank.0 != i16::MIN
        &&& bank.1 ==> self.alternate_memory@.len() > 0
        &&& !bank.1 ==> self.memory@.len() > 0
        &&& bank.0 >= 0 ==> (if bank.1 { self.alternate_bank_count > 0 } else { self.bank_count > 0 })
        &&& bank.0 < 0 ==> -(bank.0 as int) * self.bank_size as int <= usize::MAX
        &&& self.bank_base(bank) + self.raw_index(addr) % self.bank_size as int <= usize::MAX
    }

    /// The index an address maps to, and whether it is in the alternate memory.
    pub open spec fn converted(&self, addr: u16) -> (int, bool) {
        let bank = self.bank_at(self.page_of(addr));
        let pos = self.bank_base(bank) + self.raw_index(addr) % self.bank_size as int;
        if bank.1 {
            (pos % self.alternate_memory@.len() as int, true)
        } else {
            (pos % self.memory@.len() as int, false)
        }
    }

    /// The byte an address reads.
    pub open spec fn value_at(&self, addr: u16) -> u8 {
        let (i, alt) = self.converted(addr);
        if alt { self.alternate_memory@[i] } else { self.memory@[i] }
    }

    /// Everything but the bank map, the bank size and what it governs stays.
    pub open spec fn same_contents(&self, other: &MemoryRegion) -> bool {
        &&& self.memory_type == other.memory_type
        &&& self.memory@ == other.memory@
        &&& self.alternate_memory@ == other.alternate_memory@
        &&& self.start_address == other.start_address
        &&& self.end_address == other.end_address
        &&& self.write_protect == other.write_protect
        &&& self.alternate_write_protect == other.alternate_write_protect
    }

    /// `self` is `old` with at most its bank map changed.
    pub open spec fn rebanked(&self, old: &MemoryRegion) -> bool {
        &&& self.same_contents(old)
        &&& self.bank_size == old.bank_size
        &&& self.page_count == old.page_count
        &&& self.bank_count == old.bank_count
        &&& self.alternate_bank_count == old.alternate_bank_count
    }

    /// `self` is `old` with its bank map replaced by `map`.
    pub open spec fn banked_as(&self, old: &MemoryRegion, map: Seq<(i16, bool)>) -> bool {
        &&& self.rebanked(old)
        &&& self.bank_map@ == map
    }

    /// The nametable pages show the banks a mirroring arrangement selects.
    pub open spec fn mirrored(&self, mirror_type: MirrorType) -> bool {
        forall|p: int| 0 <= p < 8 ==> #[trigger] self.bank_map@[p] == (mirror_bank(mirror_type, p % 4), false)
    }

    /// The bank number of each page, with the memory each page reads kept.
    pub open spec fn with_banks(map: Seq<(i16, bool)>, banks: Seq<i16>) -> Seq<(i16, bool)> {
        Seq::new(map.len(), |i: int| if i < banks.len() { (banks[i], map[i].1) } else { map[i] })
    }

    pub fn new(
        memory_type: MemoryType,
        memory: Vec<u8>,
        start_address: u16,
        end_address: u16,
        write_protect: bool,
    ) -> (r: MemoryRegion)
        requires
            start_address <= end_address,
            memory@.len() > 0,
        ensures
            r.wf(),
            r.memory_type == memory_type,
            r.memory@ == memory@,
            r.alternate_memory@.len() == 0,
            r.start_address == start_address,
            r.end_address == end_address,
            r.write_protect == write_protect,
            r.alternate_write_protect,
            r.bank_size as int == if r.address_size() < memory@.len() { r.address_size() } else { memory@.len() as int },
            forall|p: int| 0 <= p < 8 ==> r.bank_map@[p] == (0i16, false),
    {
        let mut result = MemoryRegion {
            memory_type,
            memory,
            alternate_memory: Vec::new(),
            start_address,
            end_address,
            write_protect,
            alternate_write_protect: true,
            bank_size: 0,
            page_count: 0,
            bank_count: 0,
            alternate_bank_count: 0,
            bank_map: [(0i16, false); 8],
        };
        let address_size = result.get_address_size();
        let size = if address_size < result.memory.len() { address_size } else { result.memory.len() };
        result.set_bank_size(size);
        result
    }

    pub fn read(&self, addr: u16) -> (r: u8)
        requires
            self.can_convert(addr),
        ensures
            r == self.value_at(addr),
    {
        let converted = self.convert(addr);
        if converted.1 {
            self.alternate_memory[converted.0]
        } else {
            self.memory[converted.0]
        }
    }

    /// Writes a byte unless its memory is write protected; returns the byte it held.
    pub fn write(&mut self, addr: u16, value: u8) -> (r: u8)
        requires
            old(self).can_convert(addr),
        ensures
            r == old(self).value_at(addr),
            final(self).wf(),
            ({
                let (i, alt) = old(self).converted(addr);
                &&& final(self).memory@ == if !alt && !old(self).write_protect { old(self).memory@.update(i, value) } else { old(self).memory@ }
                &&& final(self).alternate_memory@ == if alt && !old(self).alternate_write_protect { old(self).alternate_memory@.update(i, value) } else { old(self).alternate_memory@ }
            }),
            final(self).bank_map == old(self).bank_map,
            final(self).bank_size == old(self).bank_size,
            final(self).start_address == old(self).start_address,
            final(self).end_address == old(self).end_address,
            final(self).memory_type == old(self).memory_type,
            final(self).write_protect == old(self).write_protect,
            final(self).alternate_write_protect == old(self).alternate_write_protect,
    {
        let converted = self.convert(addr);
        if converted.1 {
            let old = self.alternate_memory[converted.0];
            if !self.alternate_write_protect {
                self.alternate_memory.set(converted.0, value);
            }
            old
        } else {
            let old = self.memory[converted.0];
            if !self.write_protect {
                self.memory.set(converted.0, value);
            }
            old
        }
    }

    pub fn get_address_size(&self) -> (r: usize)
        requires
            self.start_address <= self.end_address,
        ensures
            r == self.address_size(),
    {
        self.end_address as usize - self.start_address as usize + 1
    }

    pub fn get_memory_size_k(&self) -> (r: u16)
        ensures
            r as int == (self.memory@.len() / 1024) as u16,
    {
        (self.memory.len() / 1024) as u16
    }

    pub fn set_bank_size_k(&mut self, bank_size_k: u16)
        requires
            old(self).start_address <= old(self).end_address,
            bank_size_k > 0,
        ensures
            final(self).wf(),
            final(self).same_contents(old(self)),
            final(self).bank_map == old(self).bank_map,
            final(self).bank_size == k_to_bytes(bank_size_k),
    {
        self.set_bank_size(k_to_usize(bank_size_k));
    }

    pub fn set_bank_size(&mut self, bank_size: usize)
        requires
            old(self).start_address <= old(self).end_address,
            bank_size > 0,
        ensures
            final(self).wf(),
            final(self).same_contents(old(self)),
            final(self).bank_map == old(self).bank_map,
            final(self).bank_size == bank_size,
    {
        self.bank_size = bank_size;
        self.page_count = self.get_address_size() / self.bank_size;

        self.bank_count = self.memory.len() / self.bank_size;
        self.alternate_bank_count = self.alternate_memory.len() / self.bank_size;
    }

    pub fn set_alternate_memory(&mut self, alternate_memory: Vec<u8>, write_protect: bool)
        requires
            old(self).wf(),
        ensures
            final(self).wf(),
            final(self).alternate_memory@ == alternate_memory@,
            final(self).alternate_write_protect == write_protect,
            final(self).memory@ == old(self).memory@,
            final(self).memory_type == old(self).memory_type,
            final(self).start_address == old(self).start_address,
            final(self).end_address == old(self).end_address,
            final(self).write_protect == old(self).write_protect,
            final(self).bank_map == old(self).bank_map,
            final(self).bank_size == old(self).bank_size,
    {
        self.alternate_memory = alternate_memory;
        self.alternate_write_protect = write_protect;
        self.set_bank_size(self.bank_size);
    }

    /// Points the four nametable pages (and their mirrors above them) at the banks a
    /// mirroring arrangement uses.
    pub fn set_mirror_type(&mut self, mirror_type: MirrorType)
        ensures
            final(self).same_contents(old(self)),
            final(self).bank_size == old(self).bank_size,
            final(self).page_count == old(self).page_count,
            final(self).bank_count == old(self).bank_count,
            final(self).alternate_bank_count == old(self).alternate_bank_count,
            forall|p: int| 0 <= p < 8 ==> #[trigger] final(self).bank_map@[p] == (mirror_bank(mirror_type, p % 4), false),
    {
        match mirror_type {
            MirrorType::Vertical => {
                self.bank_map[0] = (0, false);
                self.bank_map[1] = (1, false);
                self.bank_map[2] = (0, false);
                self.bank_map[3] = (1, false);
            },
            MirrorType::Horizontal => {
                self.bank_map[0] = (0, false);
                self.bank_map[1] = (0, false);
                self.bank_map[2] = (1, false);
                self.bank_map[3] = (1, false);
            },
            MirrorType::FourScreen => {
                self.bank_map[0] = (0, false);
                self.bank_map[1] = (1, false);
                self.bank_map[2] = (2, false);
                self.bank_map[3] = (3, false);
            },
            MirrorType::SingleScreen(n) => {
                let bank = n as i16;
                self.bank_map[0] = (bank, false);
                self.bank_map[1] = (bank, false);
                self.bank_map[2] = (bank, false);
                self.bank_map[3] = (bank, false);
            },
        }
        self.bank_map[4] = self.bank_map[0];
        self.bank_map[5] = self.bank_map[1];
        self.bank_map[6] = self.bank_map[2];
        self.bank_map[7] = self.bank_map[3];
    }

    pub fn set_bank(&mut self, page: usize, bank: i16)
        requires
            page < 8,
        ensures
            final(self).same_contents(old(self)),
            final(self).bank_size == old(self).bank_size,
            final(self).page_count == old(self).page_count,
            final(self).bank_count == old(self).bank_count,
            final(self).alternate_bank_count == old(self).alternate_bank_count,
            final(self).bank_map@ == old(self).bank_map@.update(page as int, (bank, old(self).bank_map@[page as int].1)),
    {
        self.bank_map[page] = (bank, self.bank_map[page].1);
    }

    pub fn select_alternate_memory(&mut self, page: usize, alternate: bool)
        requires
            page < 8,
        ensures
            final(self).same_contents(old(self)),
            final(self).bank_size == old(self).bank_size,
            final(self).page_count == old(self).page_count,
            final(self).bank_count == old(self).bank_count,
            final(self).alternate_bank_count == old(self).alternate_bank_count,
            final(self).bank_map@ == old(self).bank_map@.update(page as int, (old(self).bank_map@[page as int].0, alternate)),
    {
        self.bank_map[page] = (self.bank_map[page].0, alternate);
    }

    pub fn get_bank(&self, page: usize) -> (r: i16)
        requires
            page < 8,
        ensures
            r == self.bank_map@[page as int].0,
    {
        self.bank_map[page].0
    }

    /// The index an address maps to, and whether it is in the alternate memory.
    pub fn convert(&self, addr: u16) -> (r: (usize, bool))
        requires
            self.can_convert(addr),
        ensures
            r.0 as int == self.converted(addr).0,
            r.1 == self.converted(addr).1,
            r.1 ==> r.0 < self.alternate_memory@.len(),
            !r.1 ==> r.0 < self.memory@.len(),
    {
        let raw_index = (addr - self.start_address) as usize;
        let page = raw_index / self.bank_size;
        let bank = self.bank_map[page];

        let base = if bank.0 >= 0 {
            let bank_count = if bank.1 { self.alternate_bank_count } else { self.bank_count };
            (bank.0 as usize % bank_count) * self.bank_size
        } else {
            let back = (-bank.0) as usize * self.bank_size;
            self.memory.len().wrapping_sub(back)
        };
        let offset = raw_index % self.bank_size;

        if bank.1 {
            ((base + offset) % self.alternate_memory.len(), true)
        } else {
            ((base + offset) % self.memory.len(), false)
        }
    }

    /// Checks `wf`.
    pub fn is_wf(&self) -> (r: bool)
        ensures
            r == self.wf(),
    {
        if self.start_address > self.end_address || self.bank_size == 0 {
            return false;
        }
        let size = (self.end_address - self.start_address) as usize + 1;
        self.page_count == size / self.bank_size
            && self.bank_count == self.memory.len() / self.bank_size
            && self.alternate_bank_count == self.alternate_memory.len() / self.bank_size
    }

    /// Checks `can_convert`.
    pub fn convertible(&self, addr: u16) -> (r: bool)
        ensures
            r == self.can_convert(addr),
    {
        if !self.is_wf() || addr < self.start_address || addr > self.end_address {
            return false;
        }
        let raw_index = (addr - self.start_address) as usize;
        let page = raw_index / self.bank_size;
        if page >= self.page_count || page >= MAX_BANKS {
            return false;
        }
        let bank = self.bank_map[page];
        if bank.0 == i16::MIN {
            return false;
        }
        if bank.1 && self.alternate_memory.len() == 0 {
            return false;
        }
        if !bank.1 && self.memory.len() == 0 {
            return false;
        }
        let offset = raw_index % self.bank_size;
        if bank.0 >= 0 {
            let bank_count = if bank.1 { self.alternate_bank_count } else { self.bank_count };
            if bank_count == 0 {
                return false;
            }
            let index = (bank.0 as usize) % bank_count;
            let len = if bank.1 { self.alternate_memory.len() } else { self.memory.len() };
            let bank_size = self.bank_size;
            proof {
                assert(index < bank_count);
                assert(bank_count as int * bank_size as int <= usize::MAX) by (nonlinear_arith)
                    requires
                        bank_count as int == len as int / bank_size as int,
                        bank_size > 0,
                ;
                assert(index as int * self.bank_size as int <= bank_count as int * self.bank_size as int) by (nonlinear_arith)
                    requires index < bank_count;
            }
            let base = index * self.bank_size;
            base <= usize::MAX - offset
        } else {
            let back = (-(bank.0 as i32)) as usize;
            match back.checked_mul(self.bank_size) {
                None => false,
                Some(b) => {
                    let base = self.memory.len().wrapping_sub(b);
                    base <= usize::MAX - offset
                },
            }
        }
    }

    pub fn contains_addr(&self, addr: u16) -> (r: bool)
        ensures
            r == (self.start_address <= addr && addr <= self.end_address),
    {
        self.start_address <= addr && addr <= self.end_address
    }
}

/// A read gives back what a write put at the same address, unless its memory is
/// write protected, where it keeps the byte it held.
pub proof fn law_read_after_write(before: MemoryRegion, after: MemoryRegion, addr: u16, value: u8)
    requires
        before.can_convert(addr),
        after.wf(),
        ({
            let (i, alt) = before.converted(addr);
            &&& after.memory@ == if !alt && !before.write_protect { before.memory@.update(i, value) } else { before.memory@ }
            &&& after.alternate_memory@ == if alt && !before.alternate_write_protect {
                before.alternate_memory@.update(i, value)
            } else {
                before.alternate_memory@
            }
        }),
        after.bank_map == before.bank_map,
        after.bank_size == before.bank_size,
        after.start_address == before.start_address,
        after.end_address == before.end_address,
        after.write_protect == before.write_protect,
        after.alternate_write_protect == before.alternate_write_protect,
    ensures
        after.value_at(addr) == if (before.converted(addr).1 && before.alternate_write_protect)
            || (!before.converted(addr).1 && before.write_protect) {
            before.value_at(addr)
        } else {
            value
        },
{
}

/// A nametable window of 1K pages mirrored as `mirror_type` says repeats every 4K;
/// with vertical mirroring the table 2K above shows the same bytes, with horizontal
/// mirroring the table 1K above within each half.
pub proof fn law_nametable_mirrors(r: MemoryRegion, mirror_type: MirrorType, addr: u16)
    requires
        r.wf(),
        r.mirrored(mirror_type),
        r.start_address == 0x2000,
        r.bank_size == 0x400,
        0x2000 <= addr <= 0x2EFF,
    ensures
        r.converted(addr) == r.converted((addr + 0x1000) as u16),
        mirror_type == MirrorType::Vertical && addr < 0x2800 ==> r.converted(addr) == r.converted((addr + 0x0800) as u16),
        mirror_type == MirrorType::Horizontal && (addr < 0x2400 || (0x2800 <= addr && addr < 0x2C00))
            ==> r.converted(addr) == r.converted((addr + 0x0400) as u16),
{
    let p = r.page_of(addr);
    assert(0 <= p < 4);
    assert(r.page_of((addr + 0x1000) as u16) == p + 4);
    assert(r.bank_map@[p] == (mirror_bank(mirror_type, p % 4), false));
    assert(r.bank_map@[p + 4] == (mirror_bank(mirror_type, (p + 4) % 4), false));
    if addr < 0x2800 {
        assert(r.page_of((addr + 0x0800) as u16) == p + 2);
        assert(r.bank_map@[p + 2] == (mirror_bank(mirror_type, (p + 2) % 4), false));
    }
    if addr < 0x2400 || (0x2800 <= addr && addr < 0x2C00) {
        assert(r.page_of((addr + 0x0400) as u16) == p + 1);
        assert(r.bank_map@[p + 1] == (mirror_bank(mirror_type, (p + 1) % 4), false));
    }
}

/// The bank each of the four nametables shows under a mirroring arrangement.
pub open spec fn mirror_bank(mirror_type: MirrorType, table: int) -> i16 {
    match mirror_type {
        MirrorType::Vertical => if table % 2 == 0 { 0 } else { 1 },
        MirrorType::Horizontal => if table < 2 { 0 } else { 1 },
        MirrorType::FourScreen => table as i16,
        MirrorType::SingleScreen(n) => n as i16,
    }
}

pub fn k_to_usize(k: u16) -> (r: usize)
    ensures
        r == k_to_bytes(k),
{
    (k as usize) * 1024
}

} // verus!

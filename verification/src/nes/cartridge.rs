pub mod address_converters;
pub mod mappers;
pub mod memory_region;

use vstd::prelude::*;


use crate::bus::{BusDevice, InterruptFlags};
use crate::nes::cartridge::mappers::{AnyMapper, Mapper, NulMapper, is_mapper_for, supported_mapper};
use crate::nes::cartridge::address_converters::{AddressConverter, BankedConverter, MirroredConverter};
use crate::nes::cartridge::memory_region::MemoryType;



verus! {

#[derive(Clone, Copy, PartialEq, Eq, Debug, Structural)]
pub enum MirrorType {
    Vertical,
    Horizontal,
    FourScreen,
    SingleScreen(u8),
}

pub const SRAM_PAGE_SIZE: usize = 0x2000;
pub const DEFAULT_SRAM_SIZE: usize = 0x8000;
pub const PRG_ROM_PAGE_SIZE: usize = 0x4000;
pub const CHR_ROM_PAGE_SIZE: usize = 0x2000;
/// The NES has half this much VRAM, 0x0800, but doubling it lets four-screen
/// mappers work without RAM of their own on the cartridge.
pub const VRAM_SIZE: usize = 0x2000;
pub const HEADER_SIZE: usize = 16;
pub const TRAINER_SIZE: usize = 512;

/// Why a cartridge image can't be loaded.
#[derive(Clone, Copy, PartialEq, Eq, Debug, Structural)]
pub enum CartridgeError {
    /// The file isn't in the iNES format.
    UnrecognizedFileFormat,
    /// The file is in a version of the iNES format this emulator can't read.
    UnsupportedInesVersion,
    /// The file needs a mapper this emulator doesn't have.
    UnsupportedMapper(u8),
    /// The file ends before the sizes its header gives.
    Truncated,
}

/// Loads cartridges.
pub struct Cartridge {}

/// What the 16-byte iNES header says about a cartridge.
#[derive(Clone, Copy, PartialEq, Eq, Debug)]
pub struct NesHeader {
    pub ines_ver: u8,
    pub mirror_type: MirrorType,
    pub sram_is_persistent: bool,
    pub chr_is_rom: bool,
    pub has_trainer: bool,
    pub prg_rom_size: usize,
    pub chr_rom_size: usize,
    pub sram_size: usize,
    pub mapper_number: u8,
}

pub open spec fn bit_set(b: u8, mask: u8) -> bool {
    b & mask != 0
}

/// The mirroring the four-screen and vertical bits of header byte 6 select.
pub open spec fn header_mirror_type(flags6: u8) -> MirrorType {
    let four_screen = flags6 & 0x08 != 0;
    let vertical = flags6 & 0x01 != 0;
    if !four_screen && !vertical { MirrorType::Horizontal }
    else if !four_screen && vertical { MirrorType::Vertical }
    else if four_screen && !vertical { MirrorType::FourScreen }
    else { MirrorType::SingleScreen(0) }
}

/// The nametable mirroring an iNES header selects from byte 6: without the four-screen
/// bit (3), bit 0 set mirrors vertically ($2000 shares its table with $2800) and bit 0
/// clear horizontally ($2000 shares with $2400); the four-screen bit alone gives four.
pub proof fn law_header_mirroring(h: Seq<u8>)
    ensures
        h[6] & 0x08 == 0 && h[6] & 0x01 != 0 ==> NesHeader::parsed(h).mirror_type == MirrorType::Vertical,
        h[6] & 0x08 == 0 && h[6] & 0x01 == 0 ==> NesHeader::parsed(h).mirror_type == MirrorType::Horizontal,
        h[6] & 0x08 != 0 && h[6] & 0x01 == 0 ==> NesHeader::parsed(h).mirror_type == MirrorType::FourScreen,
{
}

pub open spec fn is_nes_tag(h: Seq<u8>) -> bool {
    h[0] == 0x4E && h[1] == 0x45 && h[2] == 0x53 && h[3] == 0x1A
}

impl NesHeader {
    /// The header an iNES file starts with, read field by field.
    pub open spec fn parsed(h: Seq<u8>) -> NesHeader {
        let chr = h[5] as int * CHR_ROM_PAGE_SIZE as int;
        let sram = h[8] as int * SRAM_PAGE_SIZE as int;
        NesHeader {
            ines_ver: (h[7] >> 2u8) & 0x03,
            mirror_type: header_mirror_type(h[6]),
            sram_is_persistent: h[6] & 0x02 != 0,
            chr_is_rom: chr != 0,
            has_trainer: h[6] & 0x04 != 0,
            prg_rom_size: (h[4] as int * PRG_ROM_PAGE_SIZE as int) as usize,
            chr_rom_size: (if chr == 0 { CHR_ROM_PAGE_SIZE as int } else { chr }) as usize,
            sram_size: (if sram == 0 { DEFAULT_SRAM_SIZE as int } else { sram }) as usize,
            mapper_number: (h[7] & 0xF0) | (h[6] >> 4u8),
        }
    }

    /// Reads the header; the file must carry the iNES tag and be of version 0.
    pub fn new(header: &[u8; 16]) -> (r: Result<NesHeader, CartridgeError>)
        ensures
            !is_nes_tag(header@) ==> r == Err::<NesHeader, CartridgeError>(CartridgeError::UnrecognizedFileFormat),
            is_nes_tag(header@) && ((header@[7] >> 2u8) & 0x03) != 0 ==> r == Err::<NesHeader, CartridgeError>(CartridgeError::UnsupportedInesVersion),
            is_nes_tag(header@) && ((header@[7] >> 2u8) & 0x03) == 0 ==> r == Ok::<NesHeader, CartridgeError>(NesHeader::parsed(header@)),
    {
        if !(header[0] == 0x4E && header[1] == 0x45 && header[2] == 0x53 && header[3] == 0x1A) {
            return Err(CartridgeError::UnrecognizedFileFormat);
        }

        let ines_ver = (header[7] >> 2) & 0x03;
        if ines_ver != 0 {
            return Err(CartridgeError::UnsupportedInesVersion);
        }

        let four_screen = header[6] & 0x08 != 0;
        let has_trainer = header[6] & 0x04 != 0;
        let sram_is_persistent = header[6] & 0x02 != 0;
        let vertical_mirroring = header[6] & 0x01 != 0;

        let mirror_type = match (four_screen, vertical_mirroring) {
            (false, false) => MirrorType::Horizontal,
            (false, true) => MirrorType::Vertical,
            (true, false) => MirrorType::FourScreen,
            (true, true) => MirrorType::SingleScreen(0),
        };

        let prg_rom_size = (header[4] as usize) * PRG_ROM_PAGE_SIZE;
        let mut chr_rom_size = (header[5] as usize) * CHR_ROM_PAGE_SIZE;
        let chr_is_rom = if chr_rom_size == 0 {
            chr_rom_size = CHR_ROM_PAGE_SIZE;
            false
        } else {
            true
        };

        let mapper_number = (header[7] & 0xF0) | (header[6] >> 4);

        let mut sram_size = (header[8] as usize) * SRAM_PAGE_SIZE;
        if sram_size == 0 {
            sram_size = DEFAULT_SRAM_SIZE;
        }

        Ok(NesHeader {
            ines_ver,
            mirror_type,
            sram_is_persistent,
            chr_is_rom,
            has_trainer,
            prg_rom_size,
            chr_rom_size,
            sram_size,
            mapper_number,
        })
    }

    /// A header for a cartridge with nothing special about it.
    pub fn nul_header() -> (r: NesHeader)
        ensures
            r.ines_ver == 0,
            r.mirror_type == MirrorType::Horizontal,
            !r.sram_is_persistent && !r.chr_is_rom && !r.has_trainer,
            r.prg_rom_size == PRG_ROM_PAGE_SIZE,
            r.chr_rom_size == CHR_ROM_PAGE_SIZE,
            r.sram_size == DEFAULT_SRAM_SIZE,
            r.mapper_number == 0,
    {
        NesHeader {
            ines_ver: 0,
            mirror_type: MirrorType::Horizontal,
            sram_is_persistent: false,
            chr_is_rom: false,
            has_trainer: false,
            prg_rom_size: PRG_ROM_PAGE_SIZE,
            chr_rom_size: CHR_ROM_PAGE_SIZE,
            sram_size: DEFAULT_SRAM_SIZE,
            mapper_number: 0,
        }
    }
}

/// Where the parts of an iNES image begin: program ROM after the header and the
/// trainer, pattern ROM after the program ROM.
pub open spec fn prg_offset(h: NesHeader) -> int {
    HEADER_SIZE as int + if h.has_trainer { TRAINER_SIZE as int } else { 0 }
}

pub open spec fn chr_offset(h: NesHeader) -> int {
    prg_offset(h) + h.prg_rom_size as int
}

/// The bytes an image with this header must hold.
pub open spec fn image_size(h: NesHeader) -> int {
    chr_offset(h) + if h.chr_is_rom { h.chr_rom_size as int } else { 0 }
}

/// An image that loading would not abort on: a program ROM, and room in save RAM for
/// the trainer the header announces.
pub open spec fn image_loadable(image: Seq<u8>) -> bool {
    let h = NesHeader::parsed(image.subrange(0, 16));
    image.len() >= 16 && is_nes_tag(image) && ((image[7] >> 2u8) & 0x03) == 0 ==> {
        &&& h.prg_rom_size > 0
        &&& h.has_trainer ==> h.sram_size >= 0x7000 + TRAINER_SIZE
    }
}

/// Checks `image_loadable`.
pub fn is_loadable(image: &[u8]) -> (r: bool)
    ensures
        r == image_loadable(image@),
{
    if image.len() < 16 || !(image[0] == 0x4E && image[1] == 0x45 && image[2] == 0x53 && image[3] == 0x1A)
        || (image[7] >> 2) & 0x03 != 0 {
        return true;
    }
    let sram_pages = image[8] as usize;
    let sram_size: usize = if sram_pages == 0 { DEFAULT_SRAM_SIZE } else { sram_pages * SRAM_PAGE_SIZE };
    proof {
        let h = NesHeader::parsed(image@.subrange(0, 16));
        assert(image@.subrange(0, 16)[4] == image@[4]);
        assert(image@.subrange(0, 16)[6] == image@[6]);
        assert(image@.subrange(0, 16)[8] == image@[8]);
        assert(h.sram_size == sram_size);
        assert((h.prg_rom_size > 0) == (image@[4] > 0));
    }
    image[4] > 0 && (image[6] & 0x04 == 0 || sram_size >= 0x7000 + TRAINER_SIZE)
}

/// Why an image does not load, if it does not: checked in the order the loader reads
/// it.
pub open spec fn load_error(image: Seq<u8>) -> Option<CartridgeError> {
    if image.len() < 16 {
        Some(CartridgeError::Truncated)
    } else {
        let header = image.subrange(0, 16);
        let h = NesHeader::parsed(header);
        if !is_nes_tag(header) {
            Some(CartridgeError::UnrecognizedFileFormat)
        } else if ((header[7] >> 2u8) & 0x03) != 0 {
            Some(CartridgeError::UnsupportedInesVersion)
        } else if image.len() < image_size(h) {
            Some(CartridgeError::Truncated)
        } else if !supported_mapper(h.mapper_number) {
            Some(CartridgeError::UnsupportedMapper(h.mapper_number))
        } else {
            None
        }
    }
}

/// What a loaded cartridge holds of the image it was built from.
/// The save RAM a cartridge starts with: zeros, with the image's trainer, where it has
/// one, at offset 0x7000 (CPU address 0x7000).
pub open spec fn initial_sram(h: NesHeader, image: Seq<u8>) -> Seq<u8> {
    Seq::new(h.sram_size as nat, |j: int|
        if h.has_trainer && 0x7000 <= j < 0x7000 + TRAINER_SIZE { image[HEADER_SIZE + j - 0x7000] } else { 0u8 })
}

pub open spec fn built_from(m: AnyMapper, image: Seq<u8>) -> bool {
    let h = NesHeader::parsed(image.subrange(0, 16));
    &&& m.inv()
    &&& is_mapper_for(m, h.mapper_number)
    &&& m.core_view() matches Some(c)
    &&& c.nes_header == h
    &&& c.prg_rom.memory@ =~= image.subrange(prg_offset(h), chr_offset(h))
    &&& c.sram.memory@ =~= initial_sram(h, image)
    &&& c.chr_ram.memory@ =~= if h.chr_is_rom {
        image.subrange(chr_offset(h), image_size(h))
    } else {
        Seq::new(h.chr_rom_size as nat, |i: int| 0u8)
    }
}

impl Cartridge {
    /// Builds the cartridge an iNES image describes.
    pub fn from_image(image: &[u8]) -> (r: Result<AnyMapper, CartridgeError>)
        requires
            image_loadable(image@),
        ensures
            image@.len() < 16 ==> r == Err::<AnyMapper, CartridgeError>(CartridgeError::Truncated),
            image@.len() >= 16 ==> {
                let header = image@.subrange(0, 16);
                let h = NesHeader::parsed(header);
                if !is_nes_tag(header) {
                    r == Err::<AnyMapper, CartridgeError>(CartridgeError::UnrecognizedFileFormat)
                } else if ((header[7] >> 2u8) & 0x03) != 0 {
                    r == Err::<AnyMapper, CartridgeError>(CartridgeError::UnsupportedInesVersion)
                } else if image@.len() < image_size(h) {
                    r == Err::<AnyMapper, CartridgeError>(CartridgeError::Truncated)
                } else if !supported_mapper(h.mapper_number) {
                    r == Err::<AnyMapper, CartridgeError>(CartridgeError::UnsupportedMapper(h.mapper_number))
                } else {
                    &&& r matches Ok(m)
                    &&& m.inv()
                    &&& is_mapper_for(m, h.mapper_number)
                    &&& m.core_view() matches Some(c)
                    &&& c.nes_header == h
                    &&& c.prg_rom.memory@ == image@.subrange(prg_offset(h), chr_offset(h))
                    &&& c.sram.memory@ == initial_sram(h, image@)
                    &&& c.chr_ram.memory@ == if h.chr_is_rom {
                        image@.subrange(chr_offset(h), image_size(h))
                    } else {
                        Seq::new(h.chr_rom_size as nat, |i: int| 0u8)
                    }
                }
            },
            match load_error(image@) {
                Some(e) => r == Err::<AnyMapper, CartridgeError>(e),
                None => r matches Ok(m) && built_from(m, image@),
            },
    {
        if image.len() < HEADER_SIZE {
            return Err(CartridgeError::Truncated);
        }
        let mut header = [0u8; 16];
        for i in 0..16
            invariant
                image@.len() >= 16,
                forall|j: int| 0 <= j < i ==> header@[j] == image@[j],
        {
            header[i] = image[i];
        }
        assert(header@ =~= image@.subrange(0, 16));
        let nes_header = match NesHeader::new(&header) {
            Ok(h) => h,
            Err(e) => {
                return Err(e);
            },
        };
        let ghost h = nes_header;
        let body = image.len() - HEADER_SIZE;
        let trainer_size = if nes_header.has_trainer { TRAINER_SIZE } else { 0 };
        if body < trainer_size || body - trainer_size < nes_header.prg_rom_size {
            return Err(CartridgeError::Truncated);
        }
        let prg_start = HEADER_SIZE + trainer_size;
        let chr_start = prg_start + nes_header.prg_rom_size;
        if nes_header.chr_is_rom && image.len() - chr_start < nes_header.chr_rom_size {
            return Err(CartridgeError::Truncated);
        }

        let rom_expansion = Region::new(MemoryType::ROM_EXPANSION, vec![0; 0x2000], 0x4000, 0x5FFF, true);

        let mut sram_vec = vec![0; nes_header.sram_size];
        if nes_header.has_trainer {
            for i in 0..TRAINER_SIZE
                invariant
                    sram_vec@.len() == h.sram_size,
                    h.sram_size >= 0x7000 + TRAINER_SIZE,
                    image@.len() >= HEADER_SIZE + TRAINER_SIZE,
                    forall|j: int| 0 <= j < h.sram_size ==> #[trigger] sram_vec@[j]
                        == if 0x7000 <= j < 0x7000 + i { image@[HEADER_SIZE + j - 0x7000] } else { 0u8 },
            {
                sram_vec.set(0x7000 + i, image[HEADER_SIZE + i]);
            }
        }
        assert(sram_vec@ =~= initial_sram(h, image@));
        let sram = Region::new(MemoryType::SRAM, sram_vec, 0x6000, 0x7FFF, false);

        let prg_rom_vec = copy_bytes(image, prg_start, nes_header.prg_rom_size);
        let prg_rom = Region::new(MemoryType::PRG_ROM, prg_rom_vec, 0x8000, 0xFFFF, true);

        let chr_rom_vec = if nes_header.chr_is_rom {
            copy_bytes(image, chr_start, nes_header.chr_rom_size)
        } else {
            vec![0; nes_header.chr_rom_size]
        };
        let chr_type = if nes_header.chr_is_rom { MemoryType::CHR_ROM } else { MemoryType::CHR_RAM };
        let chr_ram = Region::new(chr_type, chr_rom_vec, 0x0000, 0x1FFF, nes_header.chr_is_rom);

        let mut vram = Region::new(MemoryType::VRAM, vec![0; VRAM_SIZE], 0x2000, 0x3FFF, false);
        vram.set_bank_size_k(1);
        vram.set_mirror_type(nes_header.mirror_type);

        let mapper_number = nes_header.mapper_number;

        let core = CartridgeCore {
            nes_header,
            rom_expansion,
            sram,
            prg_rom,
            chr_ram,
            vram,
        };

        mappers::get_mapper(mapper_number, core)
    }

    /// The empty cartridge slot.
    pub fn nul_cartridge() -> (r: AnyMapper)
        ensures
            r == AnyMapper::Nul(NulMapper {}),
    {
        AnyMapper::Nul(NulMapper {})
    }
}

/// The `len` bytes of `image` from `start` on.
pub(crate) fn copy_bytes(image: &[u8], start: usize, len: usize) -> (r: Vec<u8>)
    requires
        start + len <= image@.len(),
    ensures
        r@ == image@.subrange(start as int, start + len),
{
    let mut out: Vec<u8> = Vec::new();
    let n = image.len();
    let mut i: usize = 0;
    while i < len
        invariant
            n == image@.len(),
            i <= len,
            start + len <= image@.len(),
            out@ == image@.subrange(start as int, start + i),
        decreases len - i,
    {
        out.push(image[start + i]);
        i = i + 1;
        assert(out@ =~= image@.subrange(start as int, start + i));
    }
    out
}

/// Memory behind a bus window, addressed through a converter.
pub struct MemoryRegion<T: AddressConverter> {
    pub memory: Vec<u8>,
    pub converter: T,
    pub write_protect: bool,
}

impl MemoryRegion<BankedConverter> {
    pub fn new(
        memory: Vec<u8>,
        start_address: u16,
        end_address: u16,
        bank_size_k: u16,
        write_protect: bool,
    ) -> (r: MemoryRegion<BankedConverter>)
        ensures
            r.memory@ == memory@,
            r.write_protect == write_protect,
            r.converter == (BankedConverter {
                bank: 0,
                start_address,
                end_address,
                bank_size: bank_size_k,
                window_size: bank_size_k,
                max_size: memory@.len() as usize,
            }),
    {
        let max_size = memory.len();
        MemoryRegion {
            memory,
            converter: BankedConverter::new(start_address, end_address, bank_size_k, max_size),
            write_protect,
        }
    }
}

impl MemoryRegion<MirroredConverter> {
    pub fn new_vram(
        memory: Vec<u8>,
        start_address: u16,
        end_address: u16,
        bank_size_k: u16,
        write_protect: bool,
        mirror_type: MirrorType,
    ) -> (r: MemoryRegion<MirroredConverter>)
        ensures
            r.memory@ == memory@,
            r.write_protect == write_protect,
            r.converter == (MirroredConverter {
                mirror_type,
                start_address,
                end_address,
                bank_size: bank_size_k,
                window_size: bank_size_k,
                max_size: memory@.len() as usize,
            }),
    {
        let max_size = memory.len();
        MemoryRegion {
            memory,
            converter: MirroredConverter::new(mirror_type, start_address, end_address, bank_size_k, max_size),
            write_protect,
        }
    }
}

impl<T: AddressConverter> MemoryRegion<T> {
    /// Bank `bank` holds a byte for `addr`.
    pub open spec fn holds(&self, bank: i16, addr: u16) -> bool {
        self.converter.index_ok(bank, addr) && self.converter.index_in(bank, addr) < self.memory@.len()
    }

    /// `self` is `old` after `value` went to index `i`, unless the memory is protected.
    pub open spec fn stored(&self, old: &Self, i: int, value: u8) -> bool {
        &&& self.memory@ == if old.write_protect { old.memory@ } else { old.memory@.update(i, value) }
        &&& self.converter == old.converter
        &&& self.write_protect == old.write_protect
    }

    pub fn read(&self, addr: u16) -> (r: u8)
        requires
            self.holds(self.converter.bank_for(addr), addr),
        ensures
            r == self.memory@[self.converter.index_in(self.converter.bank_for(addr), addr)],
    {
        self.memory[self.converter.convert(addr)]
    }

    pub fn read_from_bank(&self, bank: i16, addr: u16) -> (r: u8)
        requires
            self.holds(bank, addr),
        ensures
            r == self.memory@[self.converter.index_in(bank, addr)],
    {
        let converted = self.converter.convert_from_bank(bank, addr);
        self.memory[converted]
    }

    /// Stores a byte unless the memory is write protected; returns the byte it held.
    pub fn write(&mut self, addr: u16, value: u8) -> (r: u8)
        requires
            old(self).holds(old(self).converter.bank_for(addr), addr),
        ensures
            r == old(self).memory@[old(self).converter.index_in(old(self).converter.bank_for(addr), addr)],
            final(self).stored(old(self), old(self).converter.index_in(old(self).converter.bank_for(addr), addr), value),
    {
        let converted = self.converter.convert(addr);
        let old = self.memory[converted];
        if !self.write_protect {
            self.memory.set(converted, value);
        }
        old
    }

    pub fn write_to_bank(&mut self, bank: i16, addr: u16, value: u8) -> (r: u8)
        requires
            old(self).holds(bank, addr),
        ensures
            r == old(self).memory@[old(self).converter.index_in(bank, addr)],
            final(self).stored(old(self), old(self).converter.index_in(bank, addr), value),
    {
        let converted = self.converter.convert_from_bank(bank, addr);
        let old = self.memory[converted];
        if !self.write_protect {
            self.memory.set(converted, value);
        }
        old
    }
}

/// A region of the cartridge, as the core sees it.
pub type Region = crate::nes::cartridge::memory_region::MemoryRegion;

/// `old` after a byte written through it, as `MemoryRegion::write` leaves it.
pub open spec fn region_written(new: Region, old: Region, addr: u16, value: u8) -> bool {
    let (i, alt) = old.converted(addr);
    &&& new.wf()
    &&& new.memory@ == if !alt && !old.write_protect { old.memory@.update(i, value) } else { old.memory@ }
    &&& new.alternate_memory@ == if alt && !old.alternate_write_protect { old.alternate_memory@.update(i, value) } else { old.alternate_memory@ }
    &&& new.bank_map == old.bank_map
    &&& new.bank_size == old.bank_size
    &&& new.page_count == old.page_count
    &&& new.bank_count == old.bank_count
    &&& new.alternate_bank_count == old.alternate_bank_count
    &&& new.start_address == old.start_address
    &&& new.end_address == old.end_address
    &&& new.memory_type == old.memory_type
    &&& new.write_protect == old.write_protect
    &&& new.alternate_write_protect == old.alternate_write_protect
}

/// The memories of a cartridge: what the CPU and the PPU see of it.
pub struct CartridgeCore {
    pub nes_header: NesHeader,
    pub rom_expansion: Region,
    pub sram: Region,
    pub prg_rom: Region,
    pub chr_ram: Region,
    pub vram: Region,
}

impl CartridgeCore {
    /// Every region is consistent with its bank size.
    pub open spec fn wf(&self) -> bool {
        &&& self.rom_expansion.wf()
        &&& self.sram.wf()
        &&& self.prg_rom.wf()
        &&& self.chr_ram.wf()
        &&& self.vram.wf()
    }

    /// The same bytes behind every region; only banking may differ.
    pub open spec fn same_contents(&self, other: &CartridgeCore) -> bool {
        &&& self.nes_header == other.nes_header
        &&& self.rom_expansion.same_contents(&other.rom_expansion)
        &&& self.sram.same_contents(&other.sram)
        &&& self.prg_rom.same_contents(&other.prg_rom)
        &&& self.chr_ram.same_contents(&other.chr_ram)
        &&& self.vram.same_contents(&other.vram)
    }

    /// Which region answers a CPU address: 0 save RAM, 1 program ROM, 2 the expansion ROM,
    /// 3 none.
    pub open spec fn cpu_region(&self, addr: u16) -> int {
        if self.sram.start_address <= addr <= self.sram.end_address { 0 }
        else if self.prg_rom.start_address <= addr <= self.prg_rom.end_address { 1 }
        else if self.rom_expansion.start_address <= addr <= self.rom_expansion.end_address { 2 }
        else { 3 }
    }

    pub open spec fn can_access_cpu(&self, addr: u16) -> bool {
        let r = self.cpu_region(addr);
        &&& r != 3
        &&& r == 0 ==> self.sram.can_convert(addr)
        &&& r == 1 ==> self.prg_rom.can_convert(addr)
        &&& r == 2 ==> self.rom_expansion.can_convert(addr)
    }

    pub open spec fn cpu_value(&self, addr: u16) -> u8 {
        let r = self.cpu_region(addr);
        if r == 0 { self.sram.value_at(addr) }
        else if r == 1 { self.prg_rom.value_at(addr) }
        else { self.rom_expansion.value_at(addr) }
    }

    /// `new` is `old` after a CPU write: the answering region took the byte.
    pub open spec fn cpu_written(new: CartridgeCore, old: CartridgeCore, addr: u16, value: u8) -> bool {
        let r = old.cpu_region(addr);
        &&& new.nes_header == old.nes_header
        &&& new.chr_ram == old.chr_ram
        &&& new.vram == old.vram
        &&& if r == 0 { region_written(new.sram, old.sram, addr, value) } else { new.sram == old.sram }
        &&& if r == 1 { region_written(new.prg_rom, old.prg_rom, addr, value) } else { new.prg_rom == old.prg_rom }
        &&& if r == 2 { region_written(new.rom_expansion, old.rom_expansion, addr, value) } else { new.rom_expansion == old.rom_expansion }
    }

    /// Which region answers a PPU address: 0 pattern memory, 1 nametables, 2 none.
    pub open spec fn ppu_region(&self, addr: u16) -> int {
        if self.chr_ram.start_address <= addr <= self.chr_ram.end_address { 0 }
        else if self.vram.start_address <= addr <= self.vram.end_address { 1 }
        else { 2 }
    }

    pub open spec fn can_access_ppu(&self, addr: u16) -> bool {
        let r = self.ppu_region(addr);
        &&& r != 2
        &&& r == 0 ==> self.chr_ram.can_convert(addr)
        &&& r == 1 ==> self.vram.can_convert(addr)
    }

    pub open spec fn ppu_value(&self, addr: u16) -> u8 {
        if self.ppu_region(addr) == 0 { self.chr_ram.value_at(addr) } else { self.vram.value_at(addr) }
    }

    /// `new` is `old` after a PPU write: the answering region took the byte.
    pub open spec fn ppu_written(new: CartridgeCore, old: CartridgeCore, addr: u16, value: u8) -> bool {
        let r = old.ppu_region(addr);
        &&& new.nes_header == old.nes_header
        &&& new.sram == old.sram
        &&& new.prg_rom == old.prg_rom
        &&& new.rom_expansion == old.rom_expansion
        &&& if r == 0 { region_written(new.chr_ram, old.chr_ram, addr, value) } else { new.chr_ram == old.chr_ram }
        &&& if r == 1 { region_written(new.vram, old.vram, addr, value) } else { new.vram == old.vram }
    }

    pub fn read_cpu(&self, addr: u16) -> (r: u8)
        requires
            self.can_access_cpu(addr),
        ensures
            r == self.cpu_value(addr),
    {
        if self.sram.contains_addr(addr) {
            self.sram.read(addr)
        } else if self.prg_rom.contains_addr(addr) {
            self.prg_rom.read(addr)
        } else {
            self.rom_expansion.read(addr)
        }
    }

    pub fn write_cpu(&mut self, addr: u16, value: u8) -> (r: u8)
        requires
            old(self).can_access_cpu(addr),
        ensures
            r == old(self).cpu_value(addr),
            CartridgeCore::cpu_written(*final(self), *old(self), addr, value),
    {
        if self.sram.contains_addr(addr) {
            self.sram.write(addr, value)
        } else if self.prg_rom.contains_addr(addr) {
            self.prg_rom.write(addr, value)
        } else {
            self.rom_expansion.write(addr, value)
        }
    }

    pub fn read_ppu(&self, addr: u16) -> (r: u8)
        requires
            self.can_access_ppu(addr),
        ensures
            r == self.ppu_value(addr),
    {
        if self.chr_ram.contains_addr(addr) {
            self.chr_ram.read(addr)
        } else {
            self.vram.read(addr)
        }
    }

    pub fn write_ppu(&mut self, addr: u16, value: u8) -> (r: u8)
        requires
            old(self).can_access_ppu(addr),
        ensures
            r == old(self).ppu_value(addr),
            CartridgeCore::ppu_written(*final(self), *old(self), addr, value),
    {
        if self.chr_ram.contains_addr(addr) {
            self.chr_ram.write(addr, value)
        } else {
            self.vram.write(addr, value)
        }
    }
}

} // verus!

verus! {

/// The cartridge as the CPU bus sees it, for as long as it is borrowed.
pub struct CartridgeCPUPort<'a> {
    pub cartridge: &'a mut AnyMapper,
}

impl<'a> CartridgeCPUPort<'a> {
    pub fn new(cartridge: &'a mut AnyMapper) -> (r: CartridgeCPUPort<'a>)
        ensures
            *r.cartridge == *old(cartridge),
            *final(cartridge) == *final(r.cartridge),
    {
        CartridgeCPUPort { cartridge }
    }
}

impl<'a> BusDevice for CartridgeCPUPort<'a> {
    open spec fn device_ok(&self) -> bool { self.cartridge.inv() }

    open spec fn can_read(&self, addr: u16) -> bool { self.cartridge.cpu_read_ok(addr) }

    open spec fn can_write(&self, addr: u16, data: u8) -> bool { self.cartridge.cpu_write_ok(addr, data) }

    open spec fn can_clock(&self) -> bool { self.cartridge.cpu_clock_ok() }

    /// Everything from 0x4020 up.
    fn get_address_range(&self) -> (r: (u16, u16))
        ensures
            r == (0x4020u16, 0xFFFFu16),
    {
        (0x4020, 0xFFFF)
    }

    fn read(&mut self, addr: u16) -> (r: u8)
        ensures
            (*old(self).cartridge).cpu_read_post(*final(self).cartridge, addr, r),
    {
        self.cartridge.read_cpu(addr)
    }

    fn write(&mut self, addr: u16, data: u8) -> (r: u8)
        ensures
            (*old(self).cartridge).cpu_write_post(*final(self).cartridge, addr, data, r),
    {
        self.cartridge.write_cpu(addr, data)
    }

    fn bus_clock(&mut self) -> (r: u8)
        ensures
            (*old(self).cartridge).cpu_clock_post(*final(self).cartridge, r),
    {
        self.cartridge.cpu_bus_clock()
    }
}

/// The cartridge as the PPU bus sees it, for as long as it is borrowed.
pub struct CartridgePPUPort<'a> {
    pub cartridge: &'a mut AnyMapper,
}

impl<'a> CartridgePPUPort<'a> {
    pub fn new(cartridge: &'a mut AnyMapper) -> (r: CartridgePPUPort<'a>)
        ensures
            *r.cartridge == *old(cartridge),
            *final(cartridge) == *final(r.cartridge),
    {
        CartridgePPUPort { cartridge }
    }
}

impl<'a> BusDevice for CartridgePPUPort<'a> {
    open spec fn device_ok(&self) -> bool { self.cartridge.inv() }

    open spec fn can_read(&self, addr: u16) -> bool { self.cartridge.ppu_read_ok(addr) }

    open spec fn can_write(&self, addr: u16, data: u8) -> bool { self.cartridge.ppu_write_ok(addr) }

    open spec fn can_clock(&self) -> bool { self.cartridge.ppu_clock_ok() }

    /// Pattern memory and the nametables: 0x0000-0x3EFF.
    fn get_address_range(&self) -> (r: (u16, u16))
        ensures
            r == (0x0000u16, 0x3EFFu16),
    {
        (0x0000, 0x3EFF)
    }

    fn read(&mut self, addr: u16) -> (r: u8)
        ensures
            (*old(self).cartridge).ppu_read_post(*final(self).cartridge, addr, r),
    {
        self.cartridge.read_ppu(addr)
    }

    fn write(&mut self, addr: u16, data: u8) -> (r: u8)
        ensures
            (*old(self).cartridge).ppu_write_post(*final(self).cartridge, addr, data, r),
    {
        self.cartridge.write_ppu(addr, data)
    }

    /// Clocks the mapper; the PPU side raises no interrupt.
    fn bus_clock(&mut self) -> (r: u8)
        ensures
            r == 0,
            (*old(self).cartridge).ppu_clock_post(*final(self).cartridge),
    {
        self.cartridge.ppu_bus_clock();
        InterruptFlags::empty()
    }
}


impl CartridgeCore {
    /// Checks `wf`.
    pub fn is_wf(&self) -> (r: bool)
        ensures
            r == self.wf(),
    {
        self.rom_expansion.is_wf() && self.sram.is_wf() && self.prg_rom.is_wf() && self.chr_ram.is_wf() && self.vram.is_wf()
    }

    /// Checks `can_access_cpu`.
    pub fn cpu_accessible(&self, addr: u16) -> (r: bool)
        ensures
            r == self.can_access_cpu(addr),
    {
        if self.sram.contains_addr(addr) {
            self.sram.convertible(addr)
        } else if self.prg_rom.contains_addr(addr) {
            self.prg_rom.convertible(addr)
        } else if self.rom_expansion.contains_addr(addr) {
            self.rom_expansion.convertible(addr)
        } else {
            false
        }
    }

    /// Checks `can_access_ppu`.
    pub fn ppu_accessible(&self, addr: u16) -> (r: bool)
        ensures
            r == self.can_access_ppu(addr),
    {
        if self.chr_ram.contains_addr(addr) {
            self.chr_ram.convertible(addr)
        } else if self.vram.contains_addr(addr) {
            self.vram.convertible(addr)
        } else {
            false
        }
    }
}

} // verus!

pub mod mappers;

use vstd::prelude::*;

use crate::bits::lemma_and_bound16;
use crate::cartridge::mappers::mapper0::Mapper0;
use crate::cartridge::mappers::{CartridgeCpuLocation, CartridgePpuLocation, Mapper};
use crate::nes::cartridge::{copy_bytes, is_nes_tag};

verus! {

/// How the cartridge wires the two nametables the console holds.
#[derive(Clone, Copy, PartialEq, Eq, Debug, Structural)]
pub enum MirrorType {
    Vertical,
    Horizontal,
    FourScreen,
}

/// Why an image cannot be loaded. `Truncated`: the image ends before the header or the
/// data the header announces.
#[derive(Clone, Copy, PartialEq, Eq, Debug, Structural)]
pub enum CartridgeError {
    UnrecognizedFileFormat,
    UnsupportedInesVersion,
    UnsupportedMapper(u8),
    Truncated,
}

pub const SRAM_PAGE_SIZE: usize = 0x2000;
pub const PRG_ROM_PAGE_SIZE: usize = 0x4000;
pub const CHR_ROM_PAGE_SIZE: usize = 0x2000;
pub const MAX_PRG_ROM_ADDRESSIBLE: usize = 0x8000;
pub const MAX_CHR_ROM_ADDRESSIBLE: usize = 0x4000;
pub const MAX_SRAM_ADDRESSIBLE: usize = 0x2000;
pub const VRAM_SIZE: usize = 0x0800;
pub const HEADER_SIZE: usize = 16;
pub const TRAINER_SIZE: usize = 512;

/// The mirroring header byte 6 selects: four-screen wins over vertical.
pub open spec fn header_mirror_type(flags6: u8) -> MirrorType {
    if flags6 & 0x08 != 0 {
        MirrorType::FourScreen
    } else if flags6 & 0x01 != 0 {
        MirrorType::Vertical
    } else {
        MirrorType::Horizontal
    }
}

pub open spec fn header_mapper(h: Seq<u8>) -> u8 {
    (h[7] & 0xF0) | (h[6] >> 4u8)
}

pub open spec fn has_trainer(h: Seq<u8>) -> bool {
    h[6] & 0x04 != 0
}

pub open spec fn prg_size(h: Seq<u8>) -> int {
    h[4] as int * PRG_ROM_PAGE_SIZE as int
}

pub open spec fn chr_size(h: Seq<u8>) -> int {
    h[5] as int * CHR_ROM_PAGE_SIZE as int
}

/// 8K of SRAM per unit of header byte 8, and 8K where it says 0.
pub open spec fn sram_size(h: Seq<u8>) -> int {
    if h[8] == 0 { SRAM_PAGE_SIZE as int } else { h[8] as int * SRAM_PAGE_SIZE as int }
}

/// Where the program ROM starts: after the header and the trainer, if any.
pub open spec fn prg_start(h: Seq<u8>) -> int {
    HEADER_SIZE as int + if has_trainer(h) { TRAINER_SIZE as int } else { 0 }
}

/// The mask that folds an address onto the first `min(size, max)` bytes.
pub open spec fn size_mask(size: int, max: int) -> u16 {
    ((if size < max { size } else { max }) - 1) as u16
}

/// The header is valid and names mapper 0: loading goes on to the data.
pub open spec fn header_accepted(image: Seq<u8>) -> bool {
    &&& image.len() >= HEADER_SIZE
    &&& is_nes_tag(image)
    &&& (image[7] >> 2u8) & 0x03 == 0
    &&& header_mapper(image) == 0
}

/// The images the loader handles without failing: one whose header it accepts must
/// announce some program and some pattern ROM (a size of 0 has no mask).
pub open spec fn image_loadable(image: Seq<u8>) -> bool {
    header_accepted(image) ==> image[4] > 0 && image[5] > 0
}

/// An iNES cartridge on mapper 0: SRAM, an optional trainer, program and pattern ROM,
/// and the nametable RAM of the console, addressed through the mapper.
pub struct Cartridge {
    pub sram: Vec<u8>,
    pub sram_addr_mask: u16,
    pub sram_is_persistent: bool,
    pub trainer: bool,
    pub trainer_ram: Vec<u8>,
    pub prg_rom: Vec<u8>,
    pub prg_rom_mask: u16,
    pub chr_rom: Vec<u8>,
    pub chr_rom_mask: u16,
    pub mapper: Mapper0,
    pub vram: Vec<u8>,
}

impl Cartridge {
    /// Every mask keeps its memory's indexes in bounds.
    pub open spec fn wf(&self) -> bool {
        &&& self.sram_addr_mask < self.sram@.len()
        &&& self.prg_rom_mask < self.prg_rom@.len()
        &&& self.chr_rom_mask < self.chr_rom@.len()
        &&& self.trainer ==> self.trainer_ram@.len() == TRAINER_SIZE
        &&& self.vram@.len() == VRAM_SIZE
    }

    /// Where a CPU address lands: the trainer, when there is one, answers
    /// 0x7000-0x71FF; the mapper places the rest.
    pub open spec fn cpu_location(&self, addr: u16) -> CartridgeCpuLocation {
        if self.trainer && 0x7000 <= addr && addr <= 0x71FF {
            CartridgeCpuLocation::Trainer((addr - 0x7000) as u16)
        } else {
            self.mapper.cpu_location(addr)
        }
    }

    /// The byte a CPU read gives, or `None` where nothing answers.
    pub open spec fn cpu_value(&self, addr: u16) -> Option<u8> {
        match self.cpu_location(addr) {
            CartridgeCpuLocation::Unmapped => None,
            CartridgeCpuLocation::SRam(a) => Some(self.sram@[(a & self.sram_addr_mask) as int]),
            CartridgeCpuLocation::Trainer(a) => Some(self.trainer_ram@[(a & 0x01FF) as int]),
            CartridgeCpuLocation::PrgRom(a) => Some(self.prg_rom@[(a & self.prg_rom_mask) as int]),
        }
    }

    /// The nametable RAM a PPU address reaches lies within the console's 2K; only
    /// four-screen boards reach past it.
    pub open spec fn ppu_in_range(&self, addr: u16) -> bool {
        self.mapper.ppu_location(addr) matches CartridgePpuLocation::VRam(a) ==> a < VRAM_SIZE
    }

    /// The byte a PPU read gives, or `None` where nothing answers.
    pub open spec fn ppu_value(&self, addr: u16) -> Option<u8> {
        match self.mapper.ppu_location(addr) {
            CartridgePpuLocation::Unmapped => None,
            CartridgePpuLocation::ChrRom(a) => Some(self.chr_rom@[(a & self.chr_rom_mask) as int]),
            CartridgePpuLocation::VRam(a) => Some(self.vram@[a as int]),
        }
    }
}

impl Cartridge {
    /// Builds the cartridge an iNES image describes.
    pub fn from_image(image: &[u8]) -> (r: Result<Cartridge, CartridgeError>)
        requires
            image_loadable(image@),
        ensures
            image@.len() < HEADER_SIZE ==> r == Err::<Cartridge, CartridgeError>(CartridgeError::Truncated),
            image@.len() >= HEADER_SIZE ==> if !is_nes_tag(image@) {
                r == Err::<Cartridge, CartridgeError>(CartridgeError::UnrecognizedFileFormat)
            } else if (image@[7] >> 2u8) & 0x03 != 0 {
                r == Err::<Cartridge, CartridgeError>(CartridgeError::UnsupportedInesVersion)
            } else if header_mapper(image@) != 0 {
                r == Err::<Cartridge, CartridgeError>(CartridgeError::UnsupportedMapper(header_mapper(image@)))
            } else if image@.len() < prg_start(image@) + prg_size(image@) + chr_size(image@) {
                r == Err::<Cartridge, CartridgeError>(CartridgeError::Truncated)
            } else {
                let prg = prg_start(image@);
                let chr = prg + prg_size(image@);
                &&& r matches Ok(c)
                &&& c.wf()
                &&& c.mapper == Mapper0 { mirror_type: header_mirror_type(image@[6]) }
                &&& c.trainer == has_trainer(image@)
                &&& c.sram_is_persistent == (image@[6] & 0x02 != 0)
                &&& c.trainer_ram@ == if has_trainer(image@) {
                    image@.subrange(HEADER_SIZE as int, prg)
                } else {
                    Seq::<u8>::empty()
                }
                &&& c.prg_rom@ == image@.subrange(prg, chr)
                &&& c.chr_rom@ == image@.subrange(chr, chr + chr_size(image@))
                &&& c.sram@ == Seq::new(sram_size(image@) as nat, |i: int| 0u8)
                &&& c.vram@ == Seq::new(VRAM_SIZE as nat, |i: int| 0u8)
                &&& c.prg_rom_mask == size_mask(prg_size(image@), MAX_PRG_ROM_ADDRESSIBLE as int)
                &&& c.chr_rom_mask == size_mask(chr_size(image@), MAX_CHR_ROM_ADDRESSIBLE as int)
                &&& c.sram_addr_mask == size_mask(sram_size(image@), MAX_SRAM_ADDRESSIBLE as int)
            },
    {
        if image.len() < HEADER_SIZE {
            return Err(CartridgeError::Truncated);
        }
        if !(image[0] == 0x4E && image[1] == 0x45 && image[2] == 0x53 && image[3] == 0x1A) {
            return Err(CartridgeError::UnrecognizedFileFormat);
        }
        let ines_ver = (image[7] >> 2) & 0x03;
        if ines_ver != 0 {
            return Err(CartridgeError::UnsupportedInesVersion);
        }

        let four_screen = image[6] & 0x08 != 0;
        let trainer = image[6] & 0x04 != 0;
        let sram_is_persistent = image[6] & 0x02 != 0;
        let vertical_mirroring = image[6] & 0x01 != 0;

        let screen_mirroring = if four_screen {
            MirrorType::FourScreen
        } else if vertical_mirroring {
            MirrorType::Vertical
        } else {
            MirrorType::Horizontal
        };

        let mapper_number = (image[7] & 0xF0) | (image[6] >> 4);
        if mapper_number != 0 {
            return Err(CartridgeError::UnsupportedMapper(mapper_number));
        }
        let mapper = Mapper0::new(screen_mirroring);

        let prg_rom_size = (image[4] as usize) * PRG_ROM_PAGE_SIZE;
        let chr_rom_size = (image[5] as usize) * CHR_ROM_PAGE_SIZE;
        let mut sram_size = (image[8] as usize) * SRAM_PAGE_SIZE;
        if sram_size == 0 {
            sram_size = SRAM_PAGE_SIZE;
        }

        let prg_rom_mask = ((if prg_rom_size < MAX_PRG_ROM_ADDRESSIBLE { prg_rom_size } else { MAX_PRG_ROM_ADDRESSIBLE }) - 1) as u16;
        let chr_rom_mask = ((if chr_rom_size < MAX_CHR_ROM_ADDRESSIBLE { chr_rom_size } else { MAX_CHR_ROM_ADDRESSIBLE }) - 1) as u16;
        let sram_addr_mask = ((if sram_size < MAX_SRAM_ADDRESSIBLE { sram_size } else { MAX_SRAM_ADDRESSIBLE }) - 1) as u16;

        let prg_start = HEADER_SIZE + if trainer { TRAINER_SIZE } else { 0 };
        if image.len() < prg_start || image.len() - prg_start < prg_rom_size
            || image.len() - prg_start - prg_rom_size < chr_rom_size {
            return Err(CartridgeError::Truncated);
        }

        let trainer_ram = if trainer { copy_bytes(image, HEADER_SIZE, TRAINER_SIZE) } else { Vec::new() };
        let prg_rom = copy_bytes(image, prg_start, prg_rom_size);
        let chr_rom = copy_bytes(image, prg_start + prg_rom_size, chr_rom_size);
        let sram = vec![0; sram_size];
        let vram = vec![0; VRAM_SIZE];

        Ok(Cartridge {
            sram,
            sram_addr_mask,
            sram_is_persistent,
            trainer,
            trainer_ram,
            prg_rom,
            prg_rom_mask,
            chr_rom,
            chr_rom_mask,
            mapper,
            vram,
        })
    }

    pub fn translate_cpu_addr(&mut self, addr: u16) -> (r: CartridgeCpuLocation)
        ensures
            r == old(self).cpu_location(addr),
            *final(self) == *old(self),
    {
        if self.trainer && 0x7000 <= addr && addr <= 0x71FF {
            CartridgeCpuLocation::Trainer(addr - 0x7000)
        } else {
            self.mapper.translate_cpu_addr(addr)
        }
    }

    pub fn read_cpu(&mut self, addr: u16) -> (r: Option<u8>)
        requires
            old(self).wf(),
        ensures
            r == old(self).cpu_value(addr),
            *final(self) == *old(self),
    {
        let location = self.translate_cpu_addr(addr);
        match location {
            CartridgeCpuLocation::Unmapped => None,
            CartridgeCpuLocation::SRam(a) => {
                proof { lemma_and_bound16(a, self.sram_addr_mask); }
                Some(self.sram[(a & self.sram_addr_mask) as usize])
            },
            CartridgeCpuLocation::Trainer(a) => {
                proof { lemma_and_bound16(a, 0x01FF); }
                Some(self.trainer_ram[(a & 0x01FF) as usize])
            },
            CartridgeCpuLocation::PrgRom(a) => {
                proof { lemma_and_bound16(a, self.prg_rom_mask); }
                Some(self.prg_rom[(a & self.prg_rom_mask) as usize])
            },
        }
    }

    /// A CPU write: SRAM and the trainer take it and give back the byte they held;
    /// ROM and unmapped addresses ignore it.
    pub fn write_cpu(&mut self, addr: u16, data: u8) -> (r: Option<u8>)
        requires
            old(self).wf(),
        ensures
            final(self).wf(),
            match old(self).cpu_location(addr) {
                CartridgeCpuLocation::SRam(a) => {
                    &&& r == old(self).cpu_value(addr)
                    &&& final(self).sram@ == old(self).sram@.update((a & old(self).sram_addr_mask) as int, data)
                    &&& *final(self) == (Cartridge { sram: final(self).sram, ..*old(self) })
                },
                CartridgeCpuLocation::Trainer(a) => {
                    &&& r == old(self).cpu_value(addr)
                    &&& final(self).trainer_ram@ == old(self).trainer_ram@.update((a & 0x01FF) as int, data)
                    &&& *final(self) == (Cartridge { trainer_ram: final(self).trainer_ram, ..*old(self) })
                },
                _ => r is None && *final(self) == *old(self),
            },
    {
        let location = self.translate_cpu_addr(addr);
        match location {
            CartridgeCpuLocation::Unmapped => None,
            CartridgeCpuLocation::SRam(a) => {
                proof { lemma_and_bound16(a, self.sram_addr_mask); }
                let i = (a & self.sram_addr_mask) as usize;
                let old = self.sram[i];
                self.sram.set(i, data);
                Some(old)
            },
            CartridgeCpuLocation::Trainer(a) => {
                proof { lemma_and_bound16(a, 0x01FF); }
                let i = (a & 0x01FF) as usize;
                let old = self.trainer_ram[i];
                self.trainer_ram.set(i, data);
                Some(old)
            },
            CartridgeCpuLocation::PrgRom(_) => None,
        }
    }

    pub fn read_ppu(&mut self, addr: u16) -> (r: Option<u8>)
        requires
            old(self).wf(),
            old(self).ppu_in_range(addr),
        ensures
            r == old(self).ppu_value(addr),
            *final(self) == *old(self),
    {
        let location = self.mapper.translate_ppu_addr(addr);
        match location {
            CartridgePpuLocation::ChrRom(a) => {
                proof { lemma_and_bound16(a, self.chr_rom_mask); }
                let physical = (a & self.chr_rom_mask) as usize;
                Some(self.chr_rom[physical])
            },
            CartridgePpuLocation::VRam(a) => Some(self.vram[a as usize]),
            CartridgePpuLocation::Unmapped => None,
        }
    }

    /// A PPU write: pattern memory and nametable RAM take it and give back the byte
    /// they held.
    pub fn write_ppu(&mut self, addr: u16, data: u8) -> (r: Option<u8>)
        requires
            old(self).wf(),
            old(self).ppu_in_range(addr),
        ensures
            final(self).wf(),
            r == old(self).ppu_value(addr),
            match old(self).mapper.ppu_location(addr) {
                CartridgePpuLocation::ChrRom(a) => {
                    &&& final(self).chr_rom@ == old(self).chr_rom@.update((a & old(self).chr_rom_mask) as int, data)
                    &&& *final(self) == (Cartridge { chr_rom: final(self).chr_rom, ..*old(self) })
                },
                CartridgePpuLocation::VRam(a) => {
                    &&& final(self).vram@ == old(self).vram@.update(a as int, data)
                    &&& *final(self) == (Cartridge { vram: final(self).vram, ..*old(self) })
                },
                CartridgePpuLocation::Unmapped => *final(self) == *old(self),
            },
    {
        let location = self.mapper.translate_ppu_addr(addr);
        match location {
            CartridgePpuLocation::ChrRom(a) => {
                proof { lemma_and_bound16(a, self.chr_rom_mask); }
                let physical = (a & self.chr_rom_mask) as usize;
                let old = self.chr_rom[physical];
                self.chr_rom.set(physical, data);
                Some(old)
            },
            CartridgePpuLocation::VRam(a) => {
                let physical = a as usize;
                let old = self.vram[physical];
                self.vram.set(physical, data);
                Some(old)
            },
            CartridgePpuLocation::Unmapped => None,
        }
    }
}

/// The cartridge as the CPU bus sees it.
pub struct CartridgeCPUPort<'a> {
    pub cartridge: &'a mut Cartridge,
}

impl<'a> CartridgeCPUPort<'a> {
    pub fn new(cartridge: &'a mut Cartridge) -> (r: CartridgeCPUPort<'a>)
        ensures
            *r.cartridge == *old(cartridge),
            *final(cartridge) == *final(r.cartridge),
    {
        CartridgeCPUPort { cartridge }
    }

    pub fn read(&mut self, addr: u16) -> (r: Option<u8>)
        requires
            old(self).cartridge.wf(),
        ensures
            r == old(self).cartridge.cpu_value(addr),
            *final(self).cartridge == *old(self).cartridge,
    {
        self.cartridge.read_cpu(addr)
    }

    pub fn write(&mut self, addr: u16, data: u8) -> (r: Option<u8>)
        requires
            old(self).cartridge.wf(),
        ensures
            final(self).cartridge.wf(),
            match old(self).cartridge.cpu_location(addr) {
                CartridgeCpuLocation::SRam(a) => {
                    &&& r == old(self).cartridge.cpu_value(addr)
                    &&& final(self).cartridge.sram@ == old(self).cartridge.sram@.update((a & old(self).cartridge.sram_addr_mask) as int, data)
                    &&& *final(self).cartridge == (Cartridge { sram: final(self).cartridge.sram, ..*old(self).cartridge })
                },
                CartridgeCpuLocation::Trainer(a) => {
                    &&& r == old(self).cartridge.cpu_value(addr)
                    &&& final(self).cartridge.trainer_ram@ == old(self).cartridge.trainer_ram@.update((a & 0x01FF) as int, data)
                    &&& *final(self).cartridge == (Cartridge { trainer_ram: final(self).cartridge.trainer_ram, ..*old(self).cartridge })
                },
                _ => r is None && *final(self).cartridge == *old(self).cartridge,
            },
    {
        self.cartridge.write_cpu(addr, data)
    }
}

/// The cartridge as the PPU bus sees it.
pub struct CartridgePPUPort<'a> {
    pub cartridge: &'a mut Cartridge,
}

impl<'a> CartridgePPUPort<'a> {
    pub fn new(cartridge: &'a mut Cartridge) -> (r: CartridgePPUPort<'a>)
        ensures
            *r.cartridge == *old(cartridge),
            *final(cartridge) == *final(r.cartridge),
    {
        CartridgePPUPort { cartridge }
    }

    pub fn read(&mut self, addr: u16) -> (r: Option<u8>)
        requires
            old(self).cartridge.wf(),
            old(self).cartridge.ppu_in_range(addr),
        ensures
            r == old(self).cartridge.ppu_value(addr),
            *final(self).cartridge == *old(self).cartridge,
    {
        self.cartridge.read_ppu(addr)
    }

    pub fn write(&mut self, addr: u16, data: u8) -> (r: Option<u8>)
        requires
            old(self).cartridge.wf(),
            old(self).cartridge.ppu_in_range(addr),
        ensures
            final(self).cartridge.wf(),
            r == old(self).cartridge.ppu_value(addr),
            match old(self).cartridge.mapper.ppu_location(addr) {
                CartridgePpuLocation::ChrRom(a) => {
                    &&& final(self).cartridge.chr_rom@ == old(self).cartridge.chr_rom@.update((a & old(self).cartridge.chr_rom_mask) as int, data)
                    &&& *final(self).cartridge == (Cartridge { chr_rom: final(self).cartridge.chr_rom, ..*old(self).cartridge })
                },
                CartridgePpuLocation::VRam(a) => {
                    &&& final(self).cartridge.vram@ == old(self).cartridge.vram@.update(a as int, data)
                    &&& *final(self).cartridge == (Cartridge { vram: final(self).cartridge.vram, ..*old(self).cartridge })
                },
                CartridgePpuLocation::Unmapped => *final(self).cartridge == *old(self).cartridge,
            },
    {
        self.cartridge.write_ppu(addr, data)
    }
}

/// A CPU read of SRAM gives back what a CPU write put at the same address.
pub proof fn law_sram_read_after_write(before: Cartridge, after: Cartridge, addr: u16, data: u8)
    requires
        before.wf(),
        (before.cpu_location(addr) matches CartridgeCpuLocation::SRam(a)
            && after.sram@ == before.sram@.update((a & before.sram_addr_mask) as int, data)),
        after.sram_addr_mask == before.sram_addr_mask,
        after.trainer == before.trainer,
        after.mapper == before.mapper,
    ensures
        after.cpu_value(addr) == Some(data),
{
    if let CartridgeCpuLocation::SRam(a) = before.cpu_location(addr) {
        lemma_and_bound16(a, before.sram_addr_mask);
    }
}

} // verus!

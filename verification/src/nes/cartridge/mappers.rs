pub mod axrom;
pub mod cnrom;
pub mod color_dreams;
pub mod hvc_un1rom;
pub mod mmc1;
pub mod mmc3;
pub mod mmc3_irq;
pub mod mmc3_tqrom;
pub mod mmc3_tsxrom;
pub mod namcot_108;
pub mod nes_event;
pub mod uxrom;
pub mod uxrom_invert;
pub mod nrom;

use vstd::prelude::*;

use crate::bus::InterruptFlags;
use crate::nes::cartridge::{CartridgeCore, CartridgeError};
use crate::nes::cartridge::mappers::nrom::NRom;
use crate::nes::cartridge::mappers::mmc1::MMC1;
use crate::nes::cartridge::mappers::uxrom::UxRom;
use crate::nes::cartridge::mappers::cnrom::CNRom;
use crate::nes::cartridge::mappers::mmc3::MMC3;
use crate::nes::cartridge::mappers::axrom::AxRom;
use crate::nes::cartridge::mappers::color_dreams::ColorDreams;
use crate::nes::cartridge::mappers::hvc_un1rom::HvcUN1Rom;
use crate::nes::cartridge::mappers::nes_event::NesEvent;
use crate::nes::cartridge::mappers::mmc3_tsxrom::MMC3TxSRom;
use crate::nes::cartridge::mappers::mmc3_tqrom::MMC3TQRom;
use crate::nes::cartridge::mappers::uxrom_invert::UxRomInvert;
use crate::nes::cartridge::mappers::namcot_108::{NamcotBoard, Namcot108};

verus! {

/// A cartridge's mapping hardware, as the CPU and the PPU buses see it.
///
/// Each operation states, through the implementor's spec functions, when it may be
/// called (`*_ok`) and what it returns and leaves behind (`*_post`); `inv` holds
/// between calls.
pub trait Mapper: Sized {
    spec fn inv(&self) -> bool;

    spec fn cpu_clock_ok(&self) -> bool;

    spec fn cpu_clock_post(&self, after: Self, r: u8) -> bool;

    spec fn cpu_read_ok(&self, addr: u16) -> bool;

    spec fn cpu_read_post(&self, after: Self, addr: u16, r: u8) -> bool;

    spec fn cpu_write_ok(&self, addr: u16, value: u8) -> bool;

    spec fn cpu_write_post(&self, after: Self, addr: u16, value: u8, r: u8) -> bool;

    spec fn ppu_clock_ok(&self) -> bool;

    spec fn ppu_clock_post(&self, after: Self) -> bool;

    spec fn ppu_read_ok(&self, addr: u16) -> bool;

    spec fn ppu_read_post(&self, after: Self, addr: u16, r: u8) -> bool;

    spec fn ppu_write_ok(&self, addr: u16) -> bool;

    spec fn ppu_write_post(&self, after: Self, addr: u16, value: u8, r: u8) -> bool;

    /// One CPU cycle; returns the interrupt lines the cartridge raises.
    fn cpu_bus_clock(&mut self) -> (r: u8)
        requires
            old(self).inv(),
            old(self).cpu_clock_ok(),
        ensures
            final(self).inv(),
            old(self).cpu_clock_post(*final(self), r),
    ;

    fn read_cpu(&mut self, addr: u16) -> (r: u8)
        requires
            old(self).inv(),
            old(self).cpu_read_ok(addr),
        ensures
            final(self).inv(),
            old(self).cpu_read_post(*final(self), addr, r),
    ;

    fn write_cpu(&mut self, addr: u16, value: u8) -> (r: u8)
        requires
            old(self).inv(),
            old(self).cpu_write_ok(addr, value),
        ensures
            final(self).inv(),
            old(self).cpu_write_post(*final(self), addr, value, r),
    ;

    /// One PPU cycle.
    fn ppu_bus_clock(&mut self)
        requires
            old(self).inv(),
            old(self).ppu_clock_ok(),
        ensures
            final(self).inv(),
            old(self).ppu_clock_post(*final(self)),
    ;

    fn read_ppu(&mut self, addr: u16) -> (r: u8)
        requires
            old(self).inv(),
            old(self).ppu_read_ok(addr),
        ensures
            final(self).inv(),
            old(self).ppu_read_post(*final(self), addr, r),
    ;

    fn write_ppu(&mut self, addr: u16, value: u8) -> (r: u8)
        requires
            old(self).inv(),
            old(self).ppu_write_ok(addr),
        ensures
            final(self).inv(),
            old(self).ppu_write_post(*final(self), addr, value, r),
    ;
}

/// The mapper of an empty slot: reads give 0 and writes are lost.
pub struct NulMapper {}

impl Mapper for NulMapper {
    open spec fn inv(&self) -> bool { true }

    open spec fn cpu_clock_ok(&self) -> bool { true }

    open spec fn cpu_clock_post(&self, after: Self, r: u8) -> bool { r == 0 }

    open spec fn cpu_read_ok(&self, addr: u16) -> bool { true }

    open spec fn cpu_read_post(&self, after: Self, addr: u16, r: u8) -> bool { r == 0 }

    open spec fn cpu_write_ok(&self, addr: u16, value: u8) -> bool { true }

    open spec fn cpu_write_post(&self, after: Self, addr: u16, value: u8, r: u8) -> bool { r == 0 }

    open spec fn ppu_clock_ok(&self) -> bool { true }

    open spec fn ppu_clock_post(&self, after: Self) -> bool { true }

    open spec fn ppu_read_ok(&self, addr: u16) -> bool { true }

    open spec fn ppu_read_post(&self, after: Self, addr: u16, r: u8) -> bool { r == 0 }

    open spec fn ppu_write_ok(&self, addr: u16) -> bool { true }

    open spec fn ppu_write_post(&self, after: Self, addr: u16, value: u8, r: u8) -> bool { r == 0 }

    fn cpu_bus_clock(&mut self) -> (r: u8) {
        InterruptFlags::empty()
    }

    fn read_cpu(&mut self, _addr: u16) -> (r: u8) {
        0
    }

    fn write_cpu(&mut self, _addr: u16, _value: u8) -> (r: u8) {
        0
    }

    fn ppu_bus_clock(&mut self) {
    }

    fn read_ppu(&mut self, _addr: u16) -> (r: u8) {
        0
    }

    fn write_ppu(&mut self, _addr: u16, _value: u8) -> (r: u8) {
        0
    }
}

/// Any of the mappers this emulator has.
pub enum AnyMapper {
    Nul(NulMapper),
    NRom(NRom),
    MMC1(MMC1),
    UxRom(UxRom),
    CNRom(CNRom),
    MMC3(MMC3),
    AxRom(AxRom),
    ColorDreams(ColorDreams),
    HvcUN1Rom(HvcUN1Rom),
    NesEvent(NesEvent),
    MMC3TxSRom(MMC3TxSRom),
    MMC3TQRom(MMC3TQRom),
    UxRomInvert(UxRomInvert),
    Namcot108(Namcot108),
}

impl Mapper for AnyMapper {
    open spec fn inv(&self) -> bool {
        match self {
            AnyMapper::Nul(m) => m.inv(),
            AnyMapper::NRom(m) => m.inv(),
            AnyMapper::MMC1(m) => m.inv(),
            AnyMapper::UxRom(m) => m.inv(),
            AnyMapper::CNRom(m) => m.inv(),
            AnyMapper::MMC3(m) => m.inv(),
            AnyMapper::AxRom(m) => m.inv(),
            AnyMapper::ColorDreams(m) => m.inv(),
            AnyMapper::HvcUN1Rom(m) => m.inv(),
            AnyMapper::NesEvent(m) => m.inv(),
            AnyMapper::MMC3TxSRom(m) => m.inv(),
            AnyMapper::MMC3TQRom(m) => m.inv(),
            AnyMapper::UxRomInvert(m) => m.inv(),
            AnyMapper::Namcot108(m) => m.inv(),
        }
    }

    open spec fn cpu_clock_ok(&self) -> bool {
        match self {
            AnyMapper::Nul(m) => m.cpu_clock_ok(),
            AnyMapper::NRom(m) => m.cpu_clock_ok(),
            AnyMapper::MMC1(m) => m.cpu_clock_ok(),
            AnyMapper::UxRom(m) => m.cpu_clock_ok(),
            AnyMapper::CNRom(m) => m.cpu_clock_ok(),
            AnyMapper::MMC3(m) => m.cpu_clock_ok(),
            AnyMapper::AxRom(m) => m.cpu_clock_ok(),
            AnyMapper::ColorDreams(m) => m.cpu_clock_ok(),
            AnyMapper::HvcUN1Rom(m) => m.cpu_clock_ok(),
            AnyMapper::NesEvent(m) => m.cpu_clock_ok(),
            AnyMapper::MMC3TxSRom(m) => m.cpu_clock_ok(),
            AnyMapper::MMC3TQRom(m) => m.cpu_clock_ok(),
            AnyMapper::UxRomInvert(m) => m.cpu_clock_ok(),
            AnyMapper::Namcot108(m) => m.cpu_clock_ok(),
        }
    }

    open spec fn cpu_clock_post(&self, after: Self, r: u8) -> bool {
        match (*self, after) {
            (AnyMapper::Nul(m), AnyMapper::Nul(a)) => m.cpu_clock_post(a, r),
            (AnyMapper::NRom(m), AnyMapper::NRom(a)) => m.cpu_clock_post(a, r),
            (AnyMapper::MMC1(m), AnyMapper::MMC1(a)) => m.cpu_clock_post(a, r),
            (AnyMapper::UxRom(m), AnyMapper::UxRom(a)) => m.cpu_clock_post(a, r),
            (AnyMapper::CNRom(m), AnyMapper::CNRom(a)) => m.cpu_clock_post(a, r),
            (AnyMapper::MMC3(m), AnyMapper::MMC3(a)) => m.cpu_clock_post(a, r),
            (AnyMapper::AxRom(m), AnyMapper::AxRom(a)) => m.cpu_clock_post(a, r),
            (AnyMapper::ColorDreams(m), AnyMapper::ColorDreams(a)) => m.cpu_clock_post(a, r),
            (AnyMapper::HvcUN1Rom(m), AnyMapper::HvcUN1Rom(a)) => m.cpu_clock_post(a, r),
            (AnyMapper::NesEvent(m), AnyMapper::NesEvent(a)) => m.cpu_clock_post(a, r),
            (AnyMapper::MMC3TxSRom(m), AnyMapper::MMC3TxSRom(a)) => m.cpu_clock_post(a, r),
            (AnyMapper::MMC3TQRom(m), AnyMapper::MMC3TQRom(a)) => m.cpu_clock_post(a, r),
            (AnyMapper::UxRomInvert(m), AnyMapper::UxRomInvert(a)) => m.cpu_clock_post(a, r),
            (AnyMapper::Namcot108(m), AnyMapper::Namcot108(a)) => m.cpu_clock_post(a, r),
            _ => false,
        }
    }

    open spec fn cpu_read_ok(&self, addr: u16) -> bool {
        match self {
            AnyMapper::Nul(m) => m.cpu_read_ok(addr),
            AnyMapper::NRom(m) => m.cpu_read_ok(addr),
            AnyMapper::MMC1(m) => m.cpu_read_ok(addr),
            AnyMapper::UxRom(m) => m.cpu_read_ok(addr),
            AnyMapper::CNRom(m) => m.cpu_read_ok(addr),
            AnyMapper::MMC3(m) => m.cpu_read_ok(addr),
            AnyMapper::AxRom(m) => m.cpu_read_ok(addr),
            AnyMapper::ColorDreams(m) => m.cpu_read_ok(addr),
            AnyMapper::HvcUN1Rom(m) => m.cpu_read_ok(addr),
            AnyMapper::NesEvent(m) => m.cpu_read_ok(addr),
            AnyMapper::MMC3TxSRom(m) => m.cpu_read_ok(addr),
            AnyMapper::MMC3TQRom(m) => m.cpu_read_ok(addr),
            AnyMapper::UxRomInvert(m) => m.cpu_read_ok(addr),
            AnyMapper::Namcot108(m) => m.cpu_read_ok(addr),
        }
    }

    open spec fn cpu_read_post(&self, after: Self, addr: u16, r: u8) -> bool {
        match (*self, after) {
            (AnyMapper::Nul(m), AnyMapper::Nul(a)) => m.cpu_read_post(a, addr, r),
            (AnyMapper::NRom(m), AnyMapper::NRom(a)) => m.cpu_read_post(a, addr, r),
            (AnyMapper::MMC1(m), AnyMapper::MMC1(a)) => m.cpu_read_post(a, addr, r),
            (AnyMapper::UxRom(m), AnyMapper::UxRom(a)) => m.cpu_read_post(a, addr, r),
            (AnyMapper::CNRom(m), AnyMapper::CNRom(a)) => m.cpu_read_post(a, addr, r),
            (AnyMapper::MMC3(m), AnyMapper::MMC3(a)) => m.cpu_read_post(a, addr, r),
            (AnyMapper::AxRom(m), AnyMapper::AxRom(a)) => m.cpu_read_post(a, addr, r),
            (AnyMapper::ColorDreams(m), AnyMapper::ColorDreams(a)) => m.cpu_read_post(a, addr, r),
            (AnyMapper::HvcUN1Rom(m), AnyMapper::HvcUN1Rom(a)) => m.cpu_read_post(a, addr, r),
            (AnyMapper::NesEvent(m), AnyMapper::NesEvent(a)) => m.cpu_read_post(a, addr, r),
            (AnyMapper::MMC3TxSRom(m), AnyMapper::MMC3TxSRom(a)) => m.cpu_read_post(a, addr, r),
            (AnyMapper::MMC3TQRom(m), AnyMapper::MMC3TQRom(a)) => m.cpu_read_post(a, addr, r),
            (AnyMapper::UxRomInvert(m), AnyMapper::UxRomInvert(a)) => m.cpu_read_post(a, addr, r),
            (AnyMapper::Namcot108(m), AnyMapper::Namcot108(a)) => m.cpu_read_post(a, addr, r),
            _ => false,
        }
    }

    open spec fn cpu_write_ok(&self, addr: u16, value: u8) -> bool {
        match self {
            AnyMapper::Nul(m) => m.cpu_write_ok(addr, value),
            AnyMapper::NRom(m) => m.cpu_write_ok(addr, value),
            AnyMapper::MMC1(m) => m.cpu_write_ok(addr, value),
            AnyMapper::UxRom(m) => m.cpu_write_ok(addr, value),
            AnyMapper::CNRom(m) => m.cpu_write_ok(addr, value),
            AnyMapper::MMC3(m) => m.cpu_write_ok(addr, value),
            AnyMapper::AxRom(m) => m.cpu_write_ok(addr, value),
            AnyMapper::ColorDreams(m) => m.cpu_write_ok(addr, value),
            AnyMapper::HvcUN1Rom(m) => m.cpu_write_ok(addr, value),
            AnyMapper::NesEvent(m) => m.cpu_write_ok(addr, value),
            AnyMapper::MMC3TxSRom(m) => m.cpu_write_ok(addr, value),
            AnyMapper::MMC3TQRom(m) => m.cpu_write_ok(addr, value),
            AnyMapper::UxRomInvert(m) => m.cpu_write_ok(addr, value),
            AnyMapper::Namcot108(m) => m.cpu_write_ok(addr, value),
        }
    }

    open spec fn cpu_write_post(&self, after: Self, addr: u16, value: u8, r: u8) -> bool {
        match (*self, after) {
            (AnyMapper::Nul(m), AnyMapper::Nul(a)) => m.cpu_write_post(a, addr, value, r),
            (AnyMapper::NRom(m), AnyMapper::NRom(a)) => m.cpu_write_post(a, addr, value, r),
            (AnyMapper::MMC1(m), AnyMapper::MMC1(a)) => m.cpu_write_post(a, addr, value, r),
            (AnyMapper::UxRom(m), AnyMapper::UxRom(a)) => m.cpu_write_post(a, addr, value, r),
            (AnyMapper::CNRom(m), AnyMapper::CNRom(a)) => m.cpu_write_post(a, addr, value, r),
            (AnyMapper::MMC3(m), AnyMapper::MMC3(a)) => m.cpu_write_post(a, addr, value, r),
            (AnyMapper::AxRom(m), AnyMapper::AxRom(a)) => m.cpu_write_post(a, addr, value, r),
            (AnyMapper::ColorDreams(m), AnyMapper::ColorDreams(a)) => m.cpu_write_post(a, addr, value, r),
            (AnyMapper::HvcUN1Rom(m), AnyMapper::HvcUN1Rom(a)) => m.cpu_write_post(a, addr, value, r),
            (AnyMapper::NesEvent(m), AnyMapper::NesEvent(a)) => m.cpu_write_post(a, addr, value, r),
            (AnyMapper::MMC3TxSRom(m), AnyMapper::MMC3TxSRom(a)) => m.cpu_write_post(a, addr, value, r),
            (AnyMapper::MMC3TQRom(m), AnyMapper::MMC3TQRom(a)) => m.cpu_write_post(a, addr, value, r),
            (AnyMapper::UxRomInvert(m), AnyMapper::UxRomInvert(a)) => m.cpu_write_post(a, addr, value, r),
            (AnyMapper::Namcot108(m), AnyMapper::Namcot108(a)) => m.cpu_write_post(a, addr, value, r),
            _ => false,
        }
    }

    open spec fn ppu_clock_ok(&self) -> bool {
        match self {
            AnyMapper::Nul(m) => m.ppu_clock_ok(),
            AnyMapper::NRom(m) => m.ppu_clock_ok(),
            AnyMapper::MMC1(m) => m.ppu_clock_ok(),
            AnyMapper::UxRom(m) => m.ppu_clock_ok(),
            AnyMapper::CNRom(m) => m.ppu_clock_ok(),
            AnyMapper::MMC3(m) => m.ppu_clock_ok(),
            AnyMapper::AxRom(m) => m.ppu_clock_ok(),
            AnyMapper::ColorDreams(m) => m.ppu_clock_ok(),
            AnyMapper::HvcUN1Rom(m) => m.ppu_clock_ok(),
            AnyMapper::NesEvent(m) => m.ppu_clock_ok(),
            AnyMapper::MMC3TxSRom(m) => m.ppu_clock_ok(),
            AnyMapper::MMC3TQRom(m) => m.ppu_clock_ok(),
            AnyMapper::UxRomInvert(m) => m.ppu_clock_ok(),
            AnyMapper::Namcot108(m) => m.ppu_clock_ok(),
        }
    }

    open spec fn ppu_clock_post(&self, after: Self) -> bool {
        match (*self, after) {
            (AnyMapper::Nul(m), AnyMapper::Nul(a)) => m.ppu_clock_post(a),
            (AnyMapper::NRom(m), AnyMapper::NRom(a)) => m.ppu_clock_post(a),
            (AnyMapper::MMC1(m), AnyMapper::MMC1(a)) => m.ppu_clock_post(a),
            (AnyMapper::UxRom(m), AnyMapper::UxRom(a)) => m.ppu_clock_post(a),
            (AnyMapper::CNRom(m), AnyMapper::CNRom(a)) => m.ppu_clock_post(a),
            (AnyMapper::MMC3(m), AnyMapper::MMC3(a)) => m.ppu_clock_post(a),
            (AnyMapper::AxRom(m), AnyMapper::AxRom(a)) => m.ppu_clock_post(a),
            (AnyMapper::ColorDreams(m), AnyMapper::ColorDreams(a)) => m.ppu_clock_post(a),
            (AnyMapper::HvcUN1Rom(m), AnyMapper::HvcUN1Rom(a)) => m.ppu_clock_post(a),
            (AnyMapper::NesEvent(m), AnyMapper::NesEvent(a)) => m.ppu_clock_post(a),
            (AnyMapper::MMC3TxSRom(m), AnyMapper::MMC3TxSRom(a)) => m.ppu_clock_post(a),
            (AnyMapper::MMC3TQRom(m), AnyMapper::MMC3TQRom(a)) => m.ppu_clock_post(a),
            (AnyMapper::UxRomInvert(m), AnyMapper::UxRomInvert(a)) => m.ppu_clock_post(a),
            (AnyMapper::Namcot108(m), AnyMapper::Namcot108(a)) => m.ppu_clock_post(a),
            _ => false,
        }
    }

    open spec fn ppu_read_ok(&self, addr: u16) -> bool {
        match self {
            AnyMapper::Nul(m) => m.ppu_read_ok(addr),
            AnyMapper::NRom(m) => m.ppu_read_ok(addr),
            AnyMapper::MMC1(m) => m.ppu_read_ok(addr),
            AnyMapper::UxRom(m) => m.ppu_read_ok(addr),
            AnyMapper::CNRom(m) => m.ppu_read_ok(addr),
            AnyMapper::MMC3(m) => m.ppu_read_ok(addr),
            AnyMapper::AxRom(m) => m.ppu_read_ok(addr),
            AnyMapper::ColorDreams(m) => m.ppu_read_ok(addr),
            AnyMapper::HvcUN1Rom(m) => m.ppu_read_ok(addr),
            AnyMapper::NesEvent(m) => m.ppu_read_ok(addr),
            AnyMapper::MMC3TxSRom(m) => m.ppu_read_ok(addr),
            AnyMapper::MMC3TQRom(m) => m.ppu_read_ok(addr),
            AnyMapper::UxRomInvert(m) => m.ppu_read_ok(addr),
            AnyMapper::Namcot108(m) => m.ppu_read_ok(addr),
        }
    }

    open spec fn ppu_read_post(&self, after: Self, addr: u16, r: u8) -> bool {
        match (*self, after) {
            (AnyMapper::Nul(m), AnyMapper::Nul(a)) => m.ppu_read_post(a, addr, r),
            (AnyMapper::NRom(m), AnyMapper::NRom(a)) => m.ppu_read_post(a, addr, r),
            (AnyMapper::MMC1(m), AnyMapper::MMC1(a)) => m.ppu_read_post(a, addr, r),
            (AnyMapper::UxRom(m), AnyMapper::UxRom(a)) => m.ppu_read_post(a, addr, r),
            (AnyMapper::CNRom(m), AnyMapper::CNRom(a)) => m.ppu_read_post(a, addr, r),
            (AnyMapper::MMC3(m), AnyMapper::MMC3(a)) => m.ppu_read_post(a, addr, r),
            (AnyMapper::AxRom(m), AnyMapper::AxRom(a)) => m.ppu_read_post(a, addr, r),
            (AnyMapper::ColorDreams(m), AnyMapper::ColorDreams(a)) => m.ppu_read_post(a, addr, r),
            (AnyMapper::HvcUN1Rom(m), AnyMapper::HvcUN1Rom(a)) => m.ppu_read_post(a, addr, r),
            (AnyMapper::NesEvent(m), AnyMapper::NesEvent(a)) => m.ppu_read_post(a, addr, r),
            (AnyMapper::MMC3TxSRom(m), AnyMapper::MMC3TxSRom(a)) => m.ppu_read_post(a, addr, r),
            (AnyMapper::MMC3TQRom(m), AnyMapper::MMC3TQRom(a)) => m.ppu_read_post(a, addr, r),
            (AnyMapper::UxRomInvert(m), AnyMapper::UxRomInvert(a)) => m.ppu_read_post(a, addr, r),
            (AnyMapper::Namcot108(m), AnyMapper::Namcot108(a)) => m.ppu_read_post(a, addr, r),
            _ => false,
        }
    }

    open spec fn ppu_write_ok(&self, addr: u16) -> bool {
        match self {
            AnyMapper::Nul(m) => m.ppu_write_ok(addr),
            AnyMapper::NRom(m) => m.ppu_write_ok(addr),
            AnyMapper::MMC1(m) => m.ppu_write_ok(addr),
            AnyMapper::UxRom(m) => m.ppu_write_ok(addr),
            AnyMapper::CNRom(m) => m.ppu_write_ok(addr),
            AnyMapper::MMC3(m) => m.ppu_write_ok(addr),
            AnyMapper::AxRom(m) => m.ppu_write_ok(addr),
            AnyMapper::ColorDreams(m) => m.ppu_write_ok(addr),
            AnyMapper::HvcUN1Rom(m) => m.ppu_write_ok(addr),
            AnyMapper::NesEvent(m) => m.ppu_write_ok(addr),
            AnyMapper::MMC3TxSRom(m) => m.ppu_write_ok(addr),
            AnyMapper::MMC3TQRom(m) => m.ppu_write_ok(addr),
            AnyMapper::UxRomInvert(m) => m.ppu_write_ok(addr),
            AnyMapper::Namcot108(m) => m.ppu_write_ok(addr),
        }
    }

    open spec fn ppu_write_post(&self, after: Self, addr: u16, value: u8, r: u8) -> bool {
        match (*self, after) {
            (AnyMapper::Nul(m), AnyMapper::Nul(a)) => m.ppu_write_post(a, addr, value, r),
            (AnyMapper::NRom(m), AnyMapper::NRom(a)) => m.ppu_write_post(a, addr, value, r),
            (AnyMapper::MMC1(m), AnyMapper::MMC1(a)) => m.ppu_write_post(a, addr, value, r),
            (AnyMapper::UxRom(m), AnyMapper::UxRom(a)) => m.ppu_write_post(a, addr, value, r),
            (AnyMapper::CNRom(m), AnyMapper::CNRom(a)) => m.ppu_write_post(a, addr, value, r),
            (AnyMapper::MMC3(m), AnyMapper::MMC3(a)) => m.ppu_write_post(a, addr, value, r),
            (AnyMapper::AxRom(m), AnyMapper::AxRom(a)) => m.ppu_write_post(a, addr, value, r),
            (AnyMapper::ColorDreams(m), AnyMapper::ColorDreams(a)) => m.ppu_write_post(a, addr, value, r),
            (AnyMapper::HvcUN1Rom(m), AnyMapper::HvcUN1Rom(a)) => m.ppu_write_post(a, addr, value, r),
            (AnyMapper::NesEvent(m), AnyMapper::NesEvent(a)) => m.ppu_write_post(a, addr, value, r),
            (AnyMapper::MMC3TxSRom(m), AnyMapper::MMC3TxSRom(a)) => m.ppu_write_post(a, addr, value, r),
            (AnyMapper::MMC3TQRom(m), AnyMapper::MMC3TQRom(a)) => m.ppu_write_post(a, addr, value, r),
            (AnyMapper::UxRomInvert(m), AnyMapper::UxRomInvert(a)) => m.ppu_write_post(a, addr, value, r),
            (AnyMapper::Namcot108(m), AnyMapper::Namcot108(a)) => m.ppu_write_post(a, addr, value, r),
            _ => false,
        }
    }

    fn cpu_bus_clock(&mut self) -> (r: u8) {
        match self {
            AnyMapper::Nul(m) => m.cpu_bus_clock(),
            AnyMapper::NRom(m) => m.cpu_bus_clock(),
            AnyMapper::MMC1(m) => m.cpu_bus_clock(),
            AnyMapper::UxRom(m) => m.cpu_bus_clock(),
            AnyMapper::CNRom(m) => m.cpu_bus_clock(),
            AnyMapper::MMC3(m) => m.cpu_bus_clock(),
            AnyMapper::AxRom(m) => m.cpu_bus_clock(),
            AnyMapper::ColorDreams(m) => m.cpu_bus_clock(),
            AnyMapper::HvcUN1Rom(m) => m.cpu_bus_clock(),
            AnyMapper::NesEvent(m) => m.cpu_bus_clock(),
            AnyMapper::MMC3TxSRom(m) => m.cpu_bus_clock(),
            AnyMapper::MMC3TQRom(m) => m.cpu_bus_clock(),
            AnyMapper::UxRomInvert(m) => m.cpu_bus_clock(),
            AnyMapper::Namcot108(m) => m.cpu_bus_clock(),
        }
    }

    fn read_cpu(&mut self, addr: u16) -> (r: u8) {
        match self {
            AnyMapper::Nul(m) => m.read_cpu(addr),
            AnyMapper::NRom(m) => m.read_cpu(addr),
            AnyMapper::MMC1(m) => m.read_cpu(addr),
            AnyMapper::UxRom(m) => m.read_cpu(addr),
            AnyMapper::CNRom(m) => m.read_cpu(addr),
            AnyMapper::MMC3(m) => m.read_cpu(addr),
            AnyMapper::AxRom(m) => m.read_cpu(addr),
            AnyMapper::ColorDreams(m) => m.read_cpu(addr),
            AnyMapper::HvcUN1Rom(m) => m.read_cpu(addr),
            AnyMapper::NesEvent(m) => m.read_cpu(addr),
            AnyMapper::MMC3TxSRom(m) => m.read_cpu(addr),
            AnyMapper::MMC3TQRom(m) => m.read_cpu(addr),
            AnyMapper::UxRomInvert(m) => m.read_cpu(addr),
            AnyMapper::Namcot108(m) => m.read_cpu(addr),
        }
    }

    fn write_cpu(&mut self, addr: u16, value: u8) -> (r: u8) {
        match self {
            AnyMapper::Nul(m) => m.write_cpu(addr, value),
            AnyMapper::NRom(m) => m.write_cpu(addr, value),
            AnyMapper::MMC1(m) => m.write_cpu(addr, value),
            AnyMapper::UxRom(m) => m.write_cpu(addr, value),
            AnyMapper::CNRom(m) => m.write_cpu(addr, value),
            AnyMapper::MMC3(m) => m.write_cpu(addr, value),
            AnyMapper::AxRom(m) => m.write_cpu(addr, value),
            AnyMapper::ColorDreams(m) => m.write_cpu(addr, value),
            AnyMapper::HvcUN1Rom(m) => m.write_cpu(addr, value),
            AnyMapper::NesEvent(m) => m.write_cpu(addr, value),
            AnyMapper::MMC3TxSRom(m) => m.write_cpu(addr, value),
            AnyMapper::MMC3TQRom(m) => m.write_cpu(addr, value),
            AnyMapper::UxRomInvert(m) => m.write_cpu(addr, value),
            AnyMapper::Namcot108(m) => m.write_cpu(addr, value),
        }
    }

    fn ppu_bus_clock(&mut self) {
        match self {
            AnyMapper::Nul(m) => m.ppu_bus_clock(),
            AnyMapper::NRom(m) => m.ppu_bus_clock(),
            AnyMapper::MMC1(m) => m.ppu_bus_clock(),
            AnyMapper::UxRom(m) => m.ppu_bus_clock(),
            AnyMapper::CNRom(m) => m.ppu_bus_clock(),
            AnyMapper::MMC3(m) => m.ppu_bus_clock(),
            AnyMapper::AxRom(m) => m.ppu_bus_clock(),
            AnyMapper::ColorDreams(m) => m.ppu_bus_clock(),
            AnyMapper::HvcUN1Rom(m) => m.ppu_bus_clock(),
            AnyMapper::NesEvent(m) => m.ppu_bus_clock(),
            AnyMapper::MMC3TxSRom(m) => m.ppu_bus_clock(),
            AnyMapper::MMC3TQRom(m) => m.ppu_bus_clock(),
            AnyMapper::UxRomInvert(m) => m.ppu_bus_clock(),
            AnyMapper::Namcot108(m) => m.ppu_bus_clock(),
        }
    }

    fn read_ppu(&mut self, addr: u16) -> (r: u8) {
        match self {
            AnyMapper::Nul(m) => m.read_ppu(addr),
            AnyMapper::NRom(m) => m.read_ppu(addr),
            AnyMapper::MMC1(m) => m.read_ppu(addr),
            AnyMapper::UxRom(m) => m.read_ppu(addr),
            AnyMapper::CNRom(m) => m.read_ppu(addr),
            AnyMapper::MMC3(m) => m.read_ppu(addr),
            AnyMapper::AxRom(m) => m.read_ppu(addr),
            AnyMapper::ColorDreams(m) => m.read_ppu(addr),
            AnyMapper::HvcUN1Rom(m) => m.read_ppu(addr),
            AnyMapper::NesEvent(m) => m.read_ppu(addr),
            AnyMapper::MMC3TxSRom(m) => m.read_ppu(addr),
            AnyMapper::MMC3TQRom(m) => m.read_ppu(addr),
            AnyMapper::UxRomInvert(m) => m.read_ppu(addr),
            AnyMapper::Namcot108(m) => m.read_ppu(addr),
        }
    }

    fn write_ppu(&mut self, addr: u16, value: u8) -> (r: u8) {
        match self {
            AnyMapper::Nul(m) => m.write_ppu(addr, value),
            AnyMapper::NRom(m) => m.write_ppu(addr, value),
            AnyMapper::MMC1(m) => m.write_ppu(addr, value),
            AnyMapper::UxRom(m) => m.write_ppu(addr, value),
            AnyMapper::CNRom(m) => m.write_ppu(addr, value),
            AnyMapper::MMC3(m) => m.write_ppu(addr, value),
            AnyMapper::AxRom(m) => m.write_ppu(addr, value),
            AnyMapper::ColorDreams(m) => m.write_ppu(addr, value),
            AnyMapper::HvcUN1Rom(m) => m.write_ppu(addr, value),
            AnyMapper::NesEvent(m) => m.write_ppu(addr, value),
            AnyMapper::MMC3TxSRom(m) => m.write_ppu(addr, value),
            AnyMapper::MMC3TQRom(m) => m.write_ppu(addr, value),
            AnyMapper::UxRomInvert(m) => m.write_ppu(addr, value),
            AnyMapper::Namcot108(m) => m.write_ppu(addr, value),
        }
    }

}

impl AnyMapper {
    /// The memories of the cartridge, for every mapper but the empty one.
    pub open spec fn core_view(&self) -> Option<CartridgeCore> {
        match self {
            AnyMapper::Nul(_) => None,
            AnyMapper::NRom(m) => Some(m.core),
            AnyMapper::MMC1(m) => Some(m.core),
            AnyMapper::UxRom(m) => Some(m.core),
            AnyMapper::CNRom(m) => Some(m.core),
            AnyMapper::MMC3(m) => Some(m.core),
            AnyMapper::AxRom(m) => Some(m.core),
            AnyMapper::ColorDreams(m) => Some(m.core),
            AnyMapper::HvcUN1Rom(m) => Some(m.core),
            AnyMapper::NesEvent(m) => Some(m.core),
            AnyMapper::MMC3TxSRom(m) => Some(m.core),
            AnyMapper::MMC3TQRom(m) => Some(m.core),
            AnyMapper::UxRomInvert(m) => Some(m.core),
            AnyMapper::Namcot108(m) => Some(m.core),
        }
    }
}

/// The mapper numbers this emulator has a mapper for.
pub open spec fn supported_mapper(n: u8) -> bool {
    n == 0 || n == 1 || n == 2 || n == 3 || n == 4 || n == 7 || n == 11 || n == 76 || n == 88 || n == 94
        || n == 95 || n == 105 || n == 118 || n == 119 || n == 154 || n == 155 || n == 180 || n == 185 || n == 206
}

/// `m` is the mapper that number `n` names, with the settings that number gives it.
pub open spec fn is_mapper_for(m: AnyMapper, n: u8) -> bool {
    match m {
        AnyMapper::NRom(_) => n == 0,
        AnyMapper::MMC1(x) => (n == 1 && !x.force_sram_enable) || (n == 155 && x.force_sram_enable),
        AnyMapper::UxRom(_) => n == 2,
        AnyMapper::CNRom(x) => (n == 3 && x.remaining_junk_reads == 0) || (n == 185 && x.remaining_junk_reads == 2),
        AnyMapper::MMC3(_) => n == 4,
        AnyMapper::AxRom(_) => n == 7,
        AnyMapper::ColorDreams(_) => n == 11,
        AnyMapper::HvcUN1Rom(_) => n == 94,
        AnyMapper::NesEvent(x) => n == 105 && x.irq_counter_target == 0x2000_0000u32 | ((0b0100u8 as u32) << 25u32),
        AnyMapper::MMC3TxSRom(_) => n == 118,
        AnyMapper::MMC3TQRom(_) => n == 119,
        AnyMapper::UxRomInvert(_) => n == 180,
        AnyMapper::Namcot108(x) => (n == 206 && x.board == NamcotBoard::N108) || (n == 76 && x.board == NamcotBoard::N3446)
            || (n == 88 && x.board == NamcotBoard::N3443) || (n == 95 && x.board == NamcotBoard::N3425)
            || (n == 154 && x.board == NamcotBoard::N3453),
        AnyMapper::Nul(_) => false,
    }
}

/// The mapper that a cartridge's mapper number names, over the cartridge's memories.
pub fn get_mapper(mapper_number: u8, core: CartridgeCore) -> (r: Result<AnyMapper, CartridgeError>)
    requires
        core.wf(),
    ensures
        supported_mapper(mapper_number) <==> r is Ok,
        r matches Ok(m) ==> {
            &&& m.inv()
            &&& is_mapper_for(m, mapper_number)
            &&& m.core_view() matches Some(c)
            &&& c.prg_rom.memory@ == core.prg_rom.memory@
            &&& c.chr_ram.memory@ == core.chr_ram.memory@
            &&& c.sram.memory@ == core.sram.memory@
            &&& c.nes_header == core.nes_header
        },
        r matches Err(e) ==> e == CartridgeError::UnsupportedMapper(mapper_number),
{
    let mapper = match mapper_number {
        0 => AnyMapper::NRom(NRom::new(core)),
        1 => AnyMapper::MMC1(MMC1::new(core, false)),
        2 => AnyMapper::UxRom(UxRom::new(core)),
        3 => AnyMapper::CNRom(CNRom::new(core, false)),
        4 => AnyMapper::MMC3(MMC3::new(core)),
        7 => AnyMapper::AxRom(AxRom::new(core)),
        11 => AnyMapper::ColorDreams(ColorDreams::new(core)),
        94 => AnyMapper::HvcUN1Rom(HvcUN1Rom::new(core)),
        105 => AnyMapper::NesEvent(NesEvent::new(core, 0b0100)),
        118 => AnyMapper::MMC3TxSRom(MMC3TxSRom::new(core)),
        119 => AnyMapper::MMC3TQRom(MMC3TQRom::new(core)),
        155 => AnyMapper::MMC1(MMC1::new(core, true)),
        180 => AnyMapper::UxRomInvert(UxRomInvert::new(core)),
        185 => AnyMapper::CNRom(CNRom::new(core, true)),
        76 => AnyMapper::Namcot108(Namcot108::new(core, NamcotBoard::N3446)),
        88 => AnyMapper::Namcot108(Namcot108::new(core, NamcotBoard::N3443)),
        95 => AnyMapper::Namcot108(Namcot108::new(core, NamcotBoard::N3425)),
        154 => AnyMapper::Namcot108(Namcot108::new(core, NamcotBoard::N3453)),
        206 => AnyMapper::Namcot108(Namcot108::new(core, NamcotBoard::N108)),
        _ => {
            return Err(CartridgeError::UnsupportedMapper(mapper_number));
        },
    };
    Ok(mapper)
}


impl AnyMapper {
    /// What a CPU read of `addr` gives: the byte the cartridge answers with, or 0 where
    /// no memory of the cartridge answers the address.
    pub open spec fn cpu_view(&self, addr: u16) -> u8 {
        if !self.cpu_read_ok(addr) {
            0
        } else {
            match self {
                AnyMapper::Nul(_) => 0,
                AnyMapper::MMC1(m) => if m.core.sram.start_address <= addr <= m.core.sram.end_address {
                    if m.sram_disabled { 0 } else { m.core.sram.value_at(addr) }
                } else {
                    m.core.cpu_value(addr)
                },
                AnyMapper::NesEvent(m) => if m.core.sram.start_address <= addr <= m.core.sram.end_address {
                    if m.sram_disabled { 0 } else { m.core.sram.value_at(addr) }
                } else {
                    m.core.cpu_value(addr)
                },
                AnyMapper::NRom(m) => m.core.cpu_value(addr),
                AnyMapper::UxRom(m) => m.core.cpu_value(addr),
                AnyMapper::CNRom(m) => m.core.cpu_value(addr),
                AnyMapper::MMC3(m) => m.core.cpu_value(addr),
                AnyMapper::AxRom(m) => m.core.cpu_value(addr),
                AnyMapper::ColorDreams(m) => m.core.cpu_value(addr),
                AnyMapper::HvcUN1Rom(m) => m.core.cpu_value(addr),
                AnyMapper::MMC3TxSRom(m) => m.core.cpu_value(addr),
                AnyMapper::MMC3TQRom(m) => m.core.cpu_value(addr),
                AnyMapper::UxRomInvert(m) => m.core.cpu_value(addr),
                AnyMapper::Namcot108(m) => m.core.cpu_value(addr),
            }
        }
    }

    /// A CPU read that changes nothing: `cpu_view`.
    pub fn peek_cpu(&mut self, addr: u16) -> (r: u8)
        requires
            old(self).inv(),
        ensures
            r == old(self).cpu_view(addr),
            *final(self) == *old(self),
    {
        if self.cpu_readable(addr) {
            self.read_cpu(addr)
        } else {
            0
        }
    }

    /// Checks `inv`.
    pub fn is_consistent(&self) -> (r: bool)
        ensures
            r == self.inv(),
    {
        match self {
            AnyMapper::Nul(m) => true,
            AnyMapper::NRom(m) => m.core.is_wf(),
            AnyMapper::MMC1(m) => m.core.is_wf() && m.shift_count < 5 && m.cycle_count < usize::MAX && m.last_write_cycle < usize::MAX,
            AnyMapper::UxRom(m) => m.core.is_wf(),
            AnyMapper::CNRom(m) => m.core.is_wf(),
            AnyMapper::MMC3(m) => m.core.is_wf() && m.selected_register < 8,
            AnyMapper::AxRom(m) => m.core.is_wf(),
            AnyMapper::ColorDreams(m) => m.core.is_wf(),
            AnyMapper::HvcUN1Rom(m) => m.core.is_wf(),
            AnyMapper::NesEvent(m) => m.core.is_wf() && m.shift_count < 5 && m.cycle_count < usize::MAX && m.last_write_cycle < usize::MAX && m.prg_chip_select <= 1 && m.prg_bank_reg_b <= 7,
            AnyMapper::MMC3TxSRom(m) => m.core.is_wf() && m.selected_register < 8,
            AnyMapper::MMC3TQRom(m) => m.core.is_wf() && m.selected_register < 8,
            AnyMapper::UxRomInvert(m) => m.core.is_wf(),
            AnyMapper::Namcot108(m) => m.core.is_wf() && m.selected_register < 8,
        }
    }

    /// Checks `cpu_read_ok`.
    pub fn cpu_readable(&self, addr: u16) -> (r: bool)
        requires
            self.inv(),
        ensures
            r == self.cpu_read_ok(addr),
    {
        match self {
            AnyMapper::Nul(m) => true,
            AnyMapper::NRom(m) => m.core.cpu_accessible(addr),
            AnyMapper::MMC1(m) => if m.core.sram.contains_addr(addr) { m.sram_disabled || m.core.sram.convertible(addr) } else { m.core.cpu_accessible(addr) },
            AnyMapper::UxRom(m) => m.core.cpu_accessible(addr),
            AnyMapper::CNRom(m) => m.core.cpu_accessible(addr),
            AnyMapper::MMC3(m) => m.core.cpu_accessible(addr),
            AnyMapper::AxRom(m) => m.core.cpu_accessible(addr),
            AnyMapper::ColorDreams(m) => m.core.cpu_accessible(addr),
            AnyMapper::HvcUN1Rom(m) => m.core.cpu_accessible(addr),
            AnyMapper::NesEvent(m) => if m.core.sram.contains_addr(addr) { m.sram_disabled || m.core.sram.convertible(addr) } else { m.core.cpu_accessible(addr) },
            AnyMapper::MMC3TxSRom(m) => m.core.cpu_accessible(addr),
            AnyMapper::MMC3TQRom(m) => m.core.cpu_accessible(addr),
            AnyMapper::UxRomInvert(m) => m.core.cpu_accessible(addr),
            AnyMapper::Namcot108(m) => m.core.cpu_accessible(addr),
        }
    }

    /// Checks `cpu_write_ok`.
    pub fn cpu_writable(&self, addr: u16, value: u8) -> (r: bool)
        requires
            self.inv(),
        ensures
            r == self.cpu_write_ok(addr, value),
    {
        match self {
            AnyMapper::Nul(m) => true,
            AnyMapper::NRom(m) => m.core.cpu_accessible(addr),
            AnyMapper::MMC1(m) => if m.core.sram.contains_addr(addr) { m.sram_disabled || m.core.sram.convertible(addr) } else if m.core.prg_rom.contains_addr(addr) { 0x8000 <= addr } else { m.core.cpu_accessible(addr) },
            AnyMapper::UxRom(m) => m.core.prg_rom.contains_addr(addr) || m.core.cpu_accessible(addr),
            AnyMapper::CNRom(m) => m.core.prg_rom.contains_addr(addr) || m.core.cpu_accessible(addr),
            AnyMapper::MMC3(m) => if m.core.prg_rom.contains_addr(addr) { 0x8000 <= addr } else { m.core.cpu_accessible(addr) },
            AnyMapper::AxRom(m) => m.core.prg_rom.contains_addr(addr) || m.core.cpu_accessible(addr),
            AnyMapper::ColorDreams(m) => m.core.prg_rom.contains_addr(addr) || m.core.cpu_accessible(addr),
            AnyMapper::HvcUN1Rom(m) => m.core.prg_rom.contains_addr(addr) || m.core.cpu_accessible(addr),
            AnyMapper::NesEvent(m) => if m.core.sram.contains_addr(addr) { m.sram_disabled || m.core.sram.convertible(addr) } else if m.core.prg_rom.contains_addr(addr) {
                0x8000 <= addr && !(0xC000 <= addr && addr <= 0xDFFF && m.cycle_count != m.last_write_cycle + 1 && value & 0x80 == 0 && m.shift_count + 1 == 5)
            } else { m.core.cpu_accessible(addr) },
            AnyMapper::MMC3TxSRom(m) => if m.core.prg_rom.contains_addr(addr) { 0x8000 <= addr } else { m.core.cpu_accessible(addr) },
            AnyMapper::MMC3TQRom(m) => if m.core.prg_rom.contains_addr(addr) { 0x8000 <= addr } else { m.core.cpu_accessible(addr) },
            AnyMapper::UxRomInvert(m) => m.core.prg_rom.contains_addr(addr) || m.core.cpu_accessible(addr),
            AnyMapper::Namcot108(m) => if m.core.prg_rom.contains_addr(addr) { 0x8000 <= addr } else { m.core.cpu_accessible(addr) },
        }
    }

    /// Checks `ppu_read_ok`.
    pub fn ppu_readable(&self, addr: u16) -> (r: bool)
        requires
            self.inv(),
        ensures
            r == self.ppu_read_ok(addr),
    {
        match self {
            AnyMapper::Nul(m) => true,
            AnyMapper::NRom(m) => m.core.ppu_accessible(addr),
            AnyMapper::MMC1(m) => m.core.ppu_accessible(addr),
            AnyMapper::UxRom(m) => m.core.ppu_accessible(addr),
            AnyMapper::CNRom(m) => (addr == 0x2007 && m.remaining_junk_reads > 0) || m.core.ppu_accessible(addr),
            AnyMapper::MMC3(m) => m.core.ppu_accessible(addr),
            AnyMapper::AxRom(m) => m.core.ppu_accessible(addr),
            AnyMapper::ColorDreams(m) => m.core.ppu_accessible(addr),
            AnyMapper::HvcUN1Rom(m) => m.core.ppu_accessible(addr),
            AnyMapper::NesEvent(m) => m.core.ppu_accessible(addr),
            AnyMapper::MMC3TxSRom(m) => m.core.ppu_accessible(addr),
            AnyMapper::MMC3TQRom(m) => m.core.ppu_accessible(addr),
            AnyMapper::UxRomInvert(m) => m.core.ppu_accessible(addr),
            AnyMapper::Namcot108(m) => m.core.ppu_accessible(addr),
        }
    }

    /// Checks `ppu_write_ok`.
    pub fn ppu_writable(&self, addr: u16) -> (r: bool)
        requires
            self.inv(),
        ensures
            r == self.ppu_write_ok(addr),
    {
        match self {
            AnyMapper::Nul(m) => true,
            AnyMapper::NRom(m) => m.core.ppu_accessible(addr),
            AnyMapper::MMC1(m) => m.core.ppu_accessible(addr),
            AnyMapper::UxRom(m) => m.core.ppu_accessible(addr),
            AnyMapper::CNRom(m) => m.core.ppu_accessible(addr),
            AnyMapper::MMC3(m) => m.core.ppu_accessible(addr),
            AnyMapper::AxRom(m) => m.core.ppu_accessible(addr),
            AnyMapper::ColorDreams(m) => m.core.ppu_accessible(addr),
            AnyMapper::HvcUN1Rom(m) => m.core.ppu_accessible(addr),
            AnyMapper::NesEvent(m) => m.core.ppu_accessible(addr),
            AnyMapper::MMC3TxSRom(m) => m.core.ppu_accessible(addr),
            AnyMapper::MMC3TQRom(m) => m.core.ppu_accessible(addr),
            AnyMapper::UxRomInvert(m) => m.core.ppu_accessible(addr),
            AnyMapper::Namcot108(m) => m.core.ppu_accessible(addr),
        }
    }
}

} // verus!

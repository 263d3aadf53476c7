pub mod bits;
pub mod apu;
pub mod bus;
pub mod cartridge;
pub mod ram;
pub mod cpu;
pub mod device;
pub mod nes;
pub mod ppu;

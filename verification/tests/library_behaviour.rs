use nes_rs::nes::cartridge::CartridgeError as NesError;
use nes_rs::nes::cartridge::mappers::mmc3_irq::MMC3Irq;
use nes_rs::nes::cartridge::mappers::{AnyMapper, Mapper as NesMapper};
use nes_rs::nes::cartridge::Cartridge as NesCartridge;
use nes_rs::nes::ppu::PPU as NesPpu;
use nes_rs::apu::APU as RegisterApu;
use nes_rs::bus::{Bus, Device};
use nes_rs::cartridge::mappers::mapper0::Mapper0;
use nes_rs::cartridge::mappers::{CartridgeCpuLocation, CartridgePpuLocation, Mapper};
use nes_rs::cartridge::{Cartridge, CartridgeCPUPort, CartridgeError, MirrorType};
use nes_rs::cpu::create_test_configuration as cpu_configuration;
use nes_rs::cpu::flags::Flag;
use nes_rs::cpu::instructions::Instruction::{ADC, PHA, PLA, SBC};
use nes_rs::cpu::instructions::Mode::{Imm, Imp};
use nes_rs::device::BusDevice as RegisterDevice;
use nes_rs::nes::cartridge::address_converters::{AddressConverter, MirroredConverter};
use nes_rs::nes::cartridge::memory_region::{MemoryRegion, MemoryType};
use nes_rs::nes::cartridge::MirrorType as NesMirrorType;
use nes_rs::nes::controllers::{Controller, JoyPad, JoyPadButton, NulController};
use nes_rs::nes::{ControllerPort, NES};
use nes_rs::ppu::create_test_configuration as ppu_configuration;
use nes_rs::ram::RAM;

/// An iNES image: the header, an optional trainer, then program and pattern ROM whose
/// bytes count up from the given seeds.
fn image(prg_pages: u8, chr_pages: u8, flags6: u8, flags7: u8, trainer: bool) -> Vec<u8> {
    let mut v = vec![0x4E, 0x45, 0x53, 0x1A, prg_pages, chr_pages, flags6 | if trainer { 0x04 } else { 0 }, flags7, 0, 0, 0, 0, 0, 0, 0, 0];
    if trainer {
        for i in 0..512usize {
            v.push((i % 251) as u8);
        }
    }
    for i in 0..(prg_pages as usize * 0x4000) {
        v.push((i % 253) as u8);
    }
    for i in 0..(chr_pages as usize * 0x2000) {
        v.push((i % 241) as u8);
    }
    v
}

#[test]
fn work_ram_reads_back_writes_and_mirrors_every_2k() {
    let mut bus = Bus::new();
    bus.add_device(Device::Ram(RAM::new(0x0000, 0x1FFF, 0x07FF)));
    assert_eq!(0, bus.write(0x0005, 42));
    assert_eq!(42, bus.read(0x0005));
    assert_eq!(42, bus.read(0x0805));
    assert_eq!(42, bus.read(0x1805));
    // another cell keeps its byte
    assert_eq!(0, bus.read(0x0006));
    // nothing answers above the RAM
    assert_eq!(0, bus.read(0x2005));
    assert_eq!(0, bus.write(0x2005, 7));
}

#[test]
fn stack_push_then_pop_gives_the_byte_back() {
    let (mut cpu, _mem) = cpu_configuration();
    cpu.sp = 0xFD;
    cpu.a = 0x5A;
    cpu.execute(PHA, Imp);
    assert_eq!(0xFC, cpu.sp);
    cpu.a = 0;
    cpu.execute(PLA, Imp);
    assert_eq!(0x5A, cpu.a);
    assert_eq!(0xFD, cpu.sp);
}

#[test]
fn sbc_matches_adc_of_the_complement() {
    for &(a, m, carry) in &[(0x50u8, 0x10u8, true), (0x50, 0xF0, false), (0x80, 0x01, true), (0x00, 0x00, false)] {
        let (mut sub, _mem) = cpu_configuration();
        sub.set_flag(Flag::Decimal, false);
        sub.set_flag(Flag::Carry, carry);
        sub.pc = 0;
        sub.write_bus_byte(0, m);
        sub.a = a;
        sub.execute(SBC, Imm);

        let (mut add, _mem) = cpu_configuration();
        add.set_flag(Flag::Decimal, false);
        add.set_flag(Flag::Carry, carry);
        add.pc = 0;
        add.write_bus_byte(0, !m);
        add.a = a;
        add.execute(ADC, Imm);

        assert_eq!(sub.a, add.a);
        assert_eq!(sub.status, add.status);
    }
}

#[test]
fn mapper0_places_cpu_addresses() {
    let mut m = Mapper0::new(MirrorType::Vertical);
    assert_eq!(CartridgeCpuLocation::Unmapped, m.translate_cpu_addr(0x5FFF));
    assert_eq!(CartridgeCpuLocation::SRam(0x0000), m.translate_cpu_addr(0x6000));
    assert_eq!(CartridgeCpuLocation::SRam(0x1FFF), m.translate_cpu_addr(0x7FFF));
    assert_eq!(CartridgeCpuLocation::PrgRom(0x0000), m.translate_cpu_addr(0x8000));
    assert_eq!(CartridgeCpuLocation::PrgRom(0x7FFF), m.translate_cpu_addr(0xFFFF));
    assert_eq!(CartridgePpuLocation::ChrRom(0x1ABC), m.translate_ppu_addr(0x1ABC));
    assert_eq!(CartridgePpuLocation::Unmapped, m.translate_ppu_addr(0x4000));
}

#[test]
fn mapper0_nametables_repeat_and_mirror() {
    let mut v = Mapper0::new(MirrorType::Vertical);
    let mut h = Mapper0::new(MirrorType::Horizontal);
    let mut f = Mapper0::new(MirrorType::FourScreen);
    for addr in 0x2000u16..=0x2FFF {
        assert_eq!(v.translate_ppu_addr(addr), v.translate_ppu_addr(addr + 0x1000));
        assert_eq!(h.translate_ppu_addr(addr), h.translate_ppu_addr(addr + 0x1000));
    }
    assert_eq!(v.translate_ppu_addr(0x2123), v.translate_ppu_addr(0x2923));
    assert_eq!(h.translate_ppu_addr(0x2123), h.translate_ppu_addr(0x2523));
    assert_ne!(h.translate_ppu_addr(0x2123), h.translate_ppu_addr(0x2923));
    assert_eq!(CartridgePpuLocation::VRam(0x0C05), f.translate_ppu_addr(0x2C05));
}

#[test]
fn mirrored_converter_repeats_every_4k() {
    let c = MirroredConverter::new(NesMirrorType::Vertical, 0x2000, 0x3EFF, 1, 0x2000);
    assert_eq!(c.convert(0x2345), c.convert(0x3345));
    assert_eq!(c.convert(0x2345), c.convert(0x2B45));
    let h = MirroredConverter::new(NesMirrorType::Horizontal, 0x2000, 0x3EFF, 1, 0x2000);
    assert_eq!(h.convert(0x2045), h.convert(0x2445));
    assert_eq!(0x0445, h.convert(0x2845));
}

#[test]
fn memory_region_reads_back_writes_unless_protected() {
    let mut ram = MemoryRegion::new(MemoryType::SRAM, vec![0; 0x2000], 0x6000, 0x7FFF, false);
    assert_eq!(0, ram.write(0x6123, 0x99));
    assert_eq!(0x99, ram.read(0x6123));
    assert_eq!(0x99, ram.write(0x6123, 0x11));
    assert_eq!(0x11, ram.read(0x6123));

    let mut rom = MemoryRegion::new(MemoryType::PRG_ROM, vec![7; 0x4000], 0x8000, 0xFFFF, true);
    assert_eq!(7, rom.write(0x8001, 0x55));
    assert_eq!(7, rom.read(0x8001));
    // a 16K ROM shows twice in the 32K window
    assert_eq!(rom.convert(0x8001), rom.convert(0xC001));
}

#[test]
fn old_ppu_oam_port_round_trip() {
    let (mut ppu, _mem) = ppu_configuration();
    ppu.write(0x2003, 0x10);
    ppu.write(0x2004, 0xAB);
    assert_eq!(0x11, ppu.oam_addr);
    ppu.write(0x2003, 0x10);
    assert_eq!(Some(0xAB), ppu.read(0x2004));
    // outside the register window nothing answers
    assert_eq!(None, ppu.read(0x1FFF));
    assert_eq!(None, ppu.write(0x4000, 1));
}

#[test]
fn old_ppu_address_and_scroll_ports() {
    let (mut ppu, _mem) = ppu_configuration();
    ppu.write(0x2006, 0xFF);
    ppu.write(0x2006, 0x34);
    assert_eq!(0x3F34, ppu.vram_address.register);
    assert!(!ppu.write_toggle);
    ppu.write(0x2005, 0x7B);
    ppu.write(0x2005, 0x9C);
    assert_eq!(0x7B, ppu.temporary_vram_address.get_x());
    assert_eq!(0x9C, ppu.temporary_vram_address.get_y());
}

#[test]
fn old_ppu_data_port_round_trip_and_late_read() {
    let (mut ppu, _mem) = ppu_configuration();
    ppu.write(0x2006, 0x05);
    ppu.write(0x2006, 0x00);
    ppu.write(0x2007, 0x66);
    ppu.write(0x2006, 0x05);
    ppu.write(0x2006, 0x00);
    // the first read gives the stale latch: the last byte written
    assert_eq!(Some(0x00), ppu.read(0x2007));
    assert_eq!(Some(0x66), ppu.read(0x2007));
}

#[test]
fn old_ppu_draws_the_backdrop_color_of_each_visible_dot() {
    let (mut ppu, _mem) = ppu_configuration();
    // palette entry 0x3F00 holds color 0x21
    ppu.bus.write(0x3F00, 0x21);
    ppu.mask_register = 0x08;
    ppu.scan_line = 0;
    ppu.tick = 0;
    for _ in 0..256 {
        let _ = ppu.clock();
    }
    assert!(ppu.frame[0..256].iter().all(|&c| c == 0x21));
    assert_eq!(0, ppu.frame[256]);
}

#[test]
fn old_ppu_frame_timing_and_nmi() {
    let (mut ppu, _mem) = ppu_configuration();
    ppu.write(0x2000, 0x80);
    let mut nmis = 0;
    let mut clocks = 0u32;
    // one frame, rendering off: 262 lines of 341 dots
    while clocks < 262 * 341 {
        if ppu.clock() {
            nmis += 1;
        }
        clocks += 1;
    }
    assert_eq!(1, nmis);
    assert_eq!(-1, ppu.scan_line);
    assert_eq!(0, ppu.tick);
}

#[test]
fn old_cartridge_rejects_bad_images() {
    assert_eq!(Some(CartridgeError::Truncated), Cartridge::from_image(&[0x4E, 0x45, 0x53]).err());
    let mut bad_tag = image(1, 1, 0, 0, false);
    bad_tag[3] = 0x1B;
    assert_eq!(Some(CartridgeError::UnrecognizedFileFormat), Cartridge::from_image(&bad_tag).err());
    let version2 = image(1, 1, 0, 0x08, false);
    assert_eq!(Some(CartridgeError::UnsupportedInesVersion), Cartridge::from_image(&version2).err());
    let mapper1 = image(1, 1, 0x10, 0, false);
    assert_eq!(Some(CartridgeError::UnsupportedMapper(1)), Cartridge::from_image(&mapper1).err());
    let mut short = image(1, 1, 0, 0, false);
    short.pop();
    assert_eq!(Some(CartridgeError::Truncated), Cartridge::from_image(&short).err());
}

#[test]
fn old_cartridge_reads_its_image() {
    let img = image(1, 1, 0x01, 0, true);
    let mut c = Cartridge::from_image(&img).ok().unwrap();
    assert_eq!(MirrorType::Vertical, c.mapper.mirror_type);
    assert_eq!(0x3FFF, c.prg_rom_mask);
    assert_eq!(0x1FFF, c.chr_rom_mask);
    assert_eq!(0x1FFF, c.sram_addr_mask);
    // 16K of program ROM shows twice
    assert_eq!(Some(img[16 + 512 + 5]), c.read_cpu(0x8005));
    assert_eq!(Some(img[16 + 512 + 5]), c.read_cpu(0xC005));
    // the trainer answers 0x7000-0x71FF
    assert_eq!(Some(img[16 + 3]), c.read_cpu(0x7003));
    // pattern ROM
    assert_eq!(Some(img[16 + 512 + 0x4000 + 0x10]), c.read_ppu(0x0010));
    // ROM ignores writes
    assert_eq!(None, c.write_cpu(0x8005, 1));
    assert_eq!(Some(img[16 + 512 + 5]), c.read_cpu(0x8005));
    // below SRAM nothing answers
    assert_eq!(None, c.read_cpu(0x5000));
}

#[test]
fn old_cartridge_sram_and_vram_read_back_writes() {
    let img = image(2, 1, 0, 0, false);
    let mut c = Cartridge::from_image(&img).ok().unwrap();
    assert_eq!(0x7FFF, c.prg_rom_mask);
    {
        let mut port = CartridgeCPUPort::new(&mut c);
        assert_eq!(Some(0), port.write(0x6100, 0x42));
        assert_eq!(Some(0x42), port.read(0x6100));
    }
    assert_eq!(Some(0), c.write_ppu(0x2400, 0x17));
    // horizontal mirroring: 0x2000 and 0x2400 are the same table
    assert_eq!(Some(0x17), c.read_ppu(0x2000));
    assert_eq!(Some(0x17), c.read_ppu(0x3400));
}

#[test]
fn register_apu_answers_its_window() {
    let mut apu = RegisterApu::new();
    assert_eq!(Some(0xFF), apu.read_from_cpu_bus(0x4003));
    assert_eq!(Some(0xFF), apu.write_to_cpu_bus(0x4003, 0x12));
    assert_eq!(Some(0x12), apu.read_from_cpu_bus(0x4003));
    assert_eq!(None, apu.read_from_cpu_bus(0x4020));
    assert_eq!(None, apu.write_to_cpu_bus(0x3FFF, 1));
}

#[test]
fn joypad_reports_the_buttons_set() {
    let mut pad = JoyPad::new();
    assert_eq!(0, pad.read_value());
    pad.set_buttons(JoyPadButton::A | JoyPadButton::Start);
    assert_eq!(0b0000_1001, pad.read_value());
    assert_eq!(0b1100_0000, 0 | JoyPadButton::Left | JoyPadButton::Right);
    assert_eq!(0, NulController::new().read_value());
    assert_eq!("Select", JoyPadButton::Select.name());
}

#[test]
fn nes_loads_cartridges_and_keeps_the_slot_on_errors() {
    let mut nes = NES::new();
    let mut bad = image(1, 1, 0, 0, false);
    bad[0] = 0;
    assert!(nes.load_cartridge(&bad).is_err());
    assert!(nes.load_cartridge(&image(1, 1, 0, 0, false)).is_ok());
    nes.plugin_controller1(ControllerPort::JoyPad(JoyPad::new()));
    nes.plugin_controller2(ControllerPort::Nul(NulController::new()));
}

#[test]
fn nes_runs_three_ppu_dots_per_cpu_cycle() {
    let mut nes = NES::new();
    assert!(nes.clock_ready());
    assert_eq!(0, nes.tick);
    let _ = nes.clock();
    assert!(nes.clock_ready());
    assert_eq!(1, nes.tick);
    let _ = nes.clock();
    let _ = nes.clock();
    assert_eq!(0, nes.tick);
    nes.reset();
    assert_eq!(0, nes.tick);
    assert!(nes.ppu.resetting);
}

#[test]
fn mmc1_serial_port_loads_five_bits_lowest_first() {
    let img = image(2, 1, 0x10, 0, false);
    let mut cart = NesCartridge::from_image(&img).ok().unwrap();
    // control register: 0b10011, bits written lowest first
    for bit in [1u8, 1, 0, 0, 1] {
        cart.write_cpu(0x8000, bit);
    }
    match cart {
        AnyMapper::MMC1(m) => {
            assert_eq!(0b10011, m.control_reg);
            assert_eq!(0, m.shift_count);
        }
        _ => panic!("mapper 1 should give an MMC1"),
    }
    // a write with bit 4 set resets the port
    let mut cart = NesCartridge::from_image(&img).ok().unwrap();
    cart.write_cpu(0x8000, 1);
    cart.write_cpu(0x8000, 0x10);
    match cart {
        AnyMapper::MMC1(m) => {
            assert_eq!(0, m.shift_count);
            assert_eq!(0b01100, m.control_reg & 0b01100);
        }
        _ => panic!("mapper 1 should give an MMC1"),
    }
}

#[test]
fn mmc3_irq_fires_on_scanline_latch_plus_one() {
    let mut irq = MMC3Irq::new();
    irq.configure(0xC000, 2);
    irq.configure(0xC001, 0);
    irq.configure(0xE001, 0);
    let mut line = |irq: &mut MMC3Irq| {
        irq.check_a12(0x1000);
        irq.check_a12(0x0000);
        for _ in 0..8 {
            irq.ppu_bus_clock();
        }
    };
    line(&mut irq);
    assert_eq!(2, irq.irq_count);
    assert!(!irq.irq_occurred);
    line(&mut irq);
    assert_eq!(1, irq.irq_count);
    assert!(!irq.irq_occurred);
    line(&mut irq);
    assert_eq!(0, irq.irq_count);
    assert!(irq.irq_occurred);
    assert_eq!(1, irq.cpu_bus_clock());
}

#[test]
fn palette_entries_mirror_and_read_back() {
    let mut ppu = NesPpu::new();
    ppu.write_palette(0x3F10, 0xEA);
    assert_eq!(0x2A, ppu.read_palette(0x3F00));
    assert_eq!(0x2A, ppu.read_palette(0x3F30));
    ppu.write_palette(0x3F05, 0x11);
    assert_eq!(0x11, ppu.read_palette(0x3FE5));
    assert_eq!(0x2A, ppu.read_palette(0x3F10));
}

#[test]
fn nes_cartridge_loader_errors() {
    assert_eq!(Some(NesError::Truncated), NesCartridge::from_image(&[0x4E, 0x45]).err());
    let mut bad_tag = image(1, 1, 0, 0, false);
    bad_tag[1] = 0;
    assert_eq!(Some(NesError::UnrecognizedFileFormat), NesCartridge::from_image(&bad_tag).err());
    assert_eq!(Some(NesError::UnsupportedInesVersion), NesCartridge::from_image(&image(1, 1, 0, 0x04, false)).err());
    // mapper 77 = 0x4D: flags7 high nibble 4, flags6 high nibble D
    assert_eq!(Some(NesError::UnsupportedMapper(77)), NesCartridge::from_image(&image(1, 1, 0xD0, 0x40, false)).err());
    // mapper 76 = 0x4C (the Namcot 3446 board) loads
    assert!(NesCartridge::from_image(&image(1, 1, 0xC0, 0x40, false)).is_ok());
    let mut short = image(1, 1, 0, 0, false);
    short.truncate(16 + 0x4000 + 10);
    assert_eq!(Some(NesError::Truncated), NesCartridge::from_image(&short).err());
}

#[test]
fn nes_cartridge_reads_program_rom() {
    let img = image(1, 1, 0, 0, false);
    let mut cart = NesCartridge::from_image(&img).ok().unwrap();
    assert!(matches!(cart, AnyMapper::NRom(_)));
    assert_eq!(img[16 + 0x123], cart.read_cpu(0x8123));
    // 16K of program ROM shows twice
    assert_eq!(img[16 + 0x123], cart.read_cpu(0xC123));
    assert_eq!(img[16 + 0x4000 + 0x45], cart.read_ppu(0x0045));
}

#[test]
fn nes_cartridge_copies_the_trainer_into_save_ram() {
    let img = image(1, 1, 0, 0, true);
    match NesCartridge::from_image(&img) {
        Ok(AnyMapper::NRom(m)) => {
            assert_eq!(0x8000, m.core.sram.memory.len());
            assert_eq!(img[16 + 3], m.core.sram.memory[0x7003]);
            assert_eq!(img[16 + 511], m.core.sram.memory[0x71FF]);
            assert_eq!(0, m.core.sram.memory[0x6FFF]);
            assert_eq!(0, m.core.sram.memory[0x7200]);
        },
        _ => panic!("expected an NROM cartridge"),
    }
}

use nes_rs::bus::{Bus, BusDevice, Device};
use nes_rs::cpu::{CPUType, CPU};
use nes_rs::nes::apu::{APUCycleType, APU};
use nes_rs::nes::cartridge::mappers::{AnyMapper, Mapper};
use nes_rs::nes::cartridge::Cartridge;
use nes_rs::nes::ppu::PPU;
use nes_rs::ram::RAM;

/// An iNES image with the given mapper number, two 16K program pages and one 8K pattern page.
fn image_for_mapper(mapper: u8) -> Vec<u8> {
    let mut v = vec![0x4E, 0x45, 0x53, 0x1A, 2, 1, (mapper & 0x0F) << 4, mapper & 0xF0, 0, 0, 0, 0, 0, 0, 0, 0];
    for i in 0..(2 * 0x4000usize) {
        v.push((i % 253) as u8);
    }
    for i in 0..0x2000usize {
        v.push((i % 241) as u8);
    }
    v
}

#[test]
fn mmc3_starts_with_identity_pattern_banks_and_fixed_last_program_banks() {
    match Cartridge::from_image(&image_for_mapper(4)).ok().unwrap() {
        AnyMapper::MMC3(m) => {
            for p in 0..8 {
                assert_eq!(p as i16, m.core.chr_ram.bank_map[p].0);
            }
            assert_eq!(0, m.core.prg_rom.bank_map[0].0);
            assert_eq!(1, m.core.prg_rom.bank_map[1].0);
            assert_eq!(-2, m.core.prg_rom.bank_map[2].0);
            assert_eq!(-1, m.core.prg_rom.bank_map[3].0);
            // vertical mirroring: nametables 0 and 2 share a bank, as do 1 and 3
            assert_eq!(0, m.core.vram.bank_map[0].0);
            assert_eq!(1, m.core.vram.bank_map[1].0);
            assert_eq!(0, m.core.vram.bank_map[2].0);
            assert_eq!(1, m.core.vram.bank_map[3].0);
        }
        _ => panic!("mapper 4 should give an MMC3"),
    }
}

#[test]
fn mmc1_starts_with_save_ram_bank_zero_and_single_screen_nametables() {
    match Cartridge::from_image(&image_for_mapper(1)).ok().unwrap() {
        AnyMapper::MMC1(m) => {
            assert_eq!(0x2000, m.core.sram.bank_size);
            assert_eq!(0, m.core.sram.bank_map[0].0);
            for p in 0..8 {
                assert_eq!(0, m.core.vram.bank_map[p].0);
            }
        }
        _ => panic!("mapper 1 should give an MMC1"),
    }
}

#[test]
fn nes_event_starts_on_one_32k_program_page() {
    match Cartridge::from_image(&image_for_mapper(105)).ok().unwrap() {
        AnyMapper::NesEvent(m) => {
            assert_eq!(0x8000, m.core.prg_rom.bank_size);
            assert_eq!(0, m.core.prg_rom.bank_map[0].0);
        }
        _ => panic!("mapper 105 should give a NES-EVENT board"),
    }
}

#[test]
fn ppu_reset_keeps_the_vram_address_and_clears_the_temporary_one() {
    let mut ppu = PPU::new();
    ppu.vram_address.register = 0x1234;
    ppu.temporary_vram_address.register = 0x0567;
    ppu.reset();
    assert_eq!(0x1234, ppu.vram_address.register);
    assert_eq!(0, ppu.temporary_vram_address.register);
}

#[test]
fn ppu_starts_with_zeroed_oam_open_for_reads_and_writes() {
    let ppu = PPU::new();
    assert!(ppu.primary_oam.table.iter().all(|b| *b == 0));
    assert!(ppu.primary_oam.read_enabled);
    assert!(ppu.primary_oam.write_enabled);
}

#[test]
fn controller_port_gives_eight_buttons_then_ones() {
    let mut apu = APU::new();
    apu.write(0x4016, 1);
    apu.input_register1 = 0b1010_0101;
    apu.write(0x4016, 0);
    let mut bits = Vec::new();
    for _ in 0..10 {
        bits.push(apu.read(0x4016));
    }
    assert_eq!(vec![1, 0, 1, 0, 0, 1, 0, 1, 1, 1], bits);
}

#[test]
fn frame_counter_starts_over_after_a_whole_sequence() {
    let mut apu = APU::new();
    let mut cpu = CPU::new(CPUType::RP2A03);
    let start = apu.frame_counter;
    for _ in 0..29830 {
        assert!(apu.clock_ready());
        let _ = apu.clock(&mut cpu, nes_rs::cpu::CPUCycleType::Read);
    }
    assert_eq!(start, apu.frame_counter);
}

#[test]
fn cpu_counts_one_cycle_per_running_clock() {
    let (mut cpu, _) = nes_rs::cpu::create_test_configuration();
    cpu.reset();
    for _ in 0..20 {
        assert!(cpu.clock_ready());
        cpu.clock();
    }
    assert_eq!(20, cpu.cycles());
}

#[test]
fn adding_a_device_keeps_reads_with_the_earlier_one() {
    let mut bus = Bus::new();
    bus.add_device(Device::Ram(RAM::new(0x0000, 0x07FF, 0x07FF)));
    bus.write(0x0123, 0x5A);
    bus.add_device(Device::Ram(RAM::new(0x0000, 0xFFFF, 0xFFFF)));
    assert_eq!(0x5A, bus.read(0x0123));
}

/// An NROM image of one 16K program page of NOPs holding `program` at 0x8000 (and its
/// mirror 0xC000), with the reset vector pointing at 0x8000.
fn nrom_with_program(program: &[u8]) -> Vec<u8> {
    let mut v = vec![0x4E, 0x45, 0x53, 0x1A, 1, 1, 0, 0, 0, 0, 0, 0, 0, 0, 0, 0];
    let mut prg = vec![0xEAu8; 0x4000];
    prg[..program.len()].copy_from_slice(program);
    prg[0x3FFC] = 0x00;
    prg[0x3FFD] = 0x80;
    v.extend_from_slice(&prg);
    v.extend(std::iter::repeat(0u8).take(0x2000));
    v
}

#[test]
fn console_cpu_runs_the_cartridge_program_and_reaches_the_ppu() {
    // LDA #$80; STA $2000; LDA #$1E; STA $2001; JMP $800A
    let program = [0xA9, 0x80, 0x8D, 0x00, 0x20, 0xA9, 0x1E, 0x8D, 0x01, 0x20, 0x4C, 0x0A, 0x80];
    let mut nes = nes_rs::nes::NES::new();
    assert!(nes.clock_ready());
    assert!(nes.load_cartridge(&nrom_with_program(&program)).is_ok());
    nes.reset();
    for _ in 0..600 {
        assert!(nes.clock_ready());
        let _ = nes.clock();
    }
    assert_eq!(0x80, nes.ppu.ctrl_high_register & 0x80);
    assert_eq!(0x1E, nes.ppu.mask_register);
}

#[test]
fn console_ppu_fetches_from_the_cartridge() {
    // LDA #$00; STA $2006; STA $2006 (address 0x0000); LDA $2007; LDA $2007; STA $0010; JMP $8011
    let program = [0xA9, 0x00, 0x8D, 0x06, 0x20, 0x8D, 0x06, 0x20, 0xAD, 0x07, 0x20, 0xAD, 0x07, 0x20, 0x85, 0x10, 0x4C, 0x10, 0x80];
    let mut image = nrom_with_program(&program);
    let chr_start = 16 + 0x4000;
    image[chr_start] = 0x42;
    let mut nes = nes_rs::nes::NES::new();
    assert!(nes.load_cartridge(&image).is_ok());
    nes.reset();
    for _ in 0..900 {
        assert!(nes.clock_ready());
        let _ = nes.clock();
    }
    // the first read of 0x2007 gives the stale buffer; the second the pattern byte
    assert_eq!(0x42, nes.cpu.bus.read(0x0010));
}

#[test]
fn integration_tests_test_dma() {
    for alignment in 0..=1 {
        let mut nes = nes_rs::nes::NES::new();
        assert!(nes.load_cartridge(&nrom_with_program(&[])).is_ok());
        let _ = nes.cpu.reset_to(0xC000);
        for i in 0..0x0100u16 {
            nes.cpu.bus.write(0x0300 + i, i as u8);
        }
        // make sure the scanline is in a range that allows oam writes
        nes.ppu.scan_line = 240;
        let cycles = nes.cpu.cycles();

        nes.ppu.write(0x2003, 0x02);
        nes.apu.write(0x4014, 0x03);
        let _ = nes.apu.clock(&mut nes.cpu, nes_rs::cpu::CPUCycleType::Write); // process the write
        // make sure rdy didn't get cleared with that tick, because it was a write cycle
        assert!(nes.cpu.is_rdy());
        if alignment == 1 {
            nes.apu.cycle_type = APUCycleType::Put;
            let _ = nes.apu.clock(&mut nes.cpu, nes_rs::cpu::CPUCycleType::Read); // need extra cycle to align
        }
        assert_eq!(0, nes.tick);
        for _ in 0..512 {
            assert!(nes.clock_ready());
            assert!(!nes.clock().0);
            assert!(!nes.cpu.is_rdy());
            assert_eq!(cycles, nes.cpu.cycles());
            assert!(!nes.clock().0);
            assert!(!nes.clock().0);
        }
        let _ = nes.clock();
        assert!(nes.cpu.is_rdy());

        for address in 0..0x0100usize {
            let data = (address as u8).wrapping_sub(0x02);
            assert_eq!(data, nes.ppu.primary_oam.table[address]);
        }
    }
}

#[test]
fn namcot_3446_selects_four_2k_pattern_banks() {
    match Cartridge::from_image(&image_for_mapper(76)).ok().unwrap() {
        AnyMapper::Namcot108(m) => {
            for p in 0..8 {
                assert_eq!(8 + p as i16, m.core.chr_ram.bank_map[p].0);
            }
            assert_eq!(-2, m.core.prg_rom.bank_map[2].0);
        }
        _ => panic!("mapper 76 should give a Namcot board"),
    }
}

#[test]
fn namcot_3443_takes_1k_pattern_banks_from_the_upper_64k() {
    match Cartridge::from_image(&image_for_mapper(88)).ok().unwrap() {
        AnyMapper::Namcot108(m) => {
            for p in 0..4 {
                assert_eq!(p as i16, m.core.chr_ram.bank_map[p].0);
            }
            for p in 4..8 {
                assert_eq!(0x40 + p as i16, m.core.chr_ram.bank_map[p].0);
            }
        }
        _ => panic!("mapper 88 should give a Namcot board"),
    }
}

#[test]
fn namcot_3425_registers_0_and_1_select_nametables() {
    let mut cart = Cartridge::from_image(&image_for_mapper(95)).ok().unwrap();
    cart.write_cpu(0x8000, 0); // select register 0
    cart.write_cpu(0x8001, 0x20);
    match cart {
        AnyMapper::Namcot108(m) => {
            assert_eq!(1, m.core.vram.bank_map[0].0);
            assert_eq!(1, m.core.vram.bank_map[1].0);
            assert_eq!(0, m.core.vram.bank_map[2].0);
            assert_eq!(0, m.core.vram.bank_map[3].0);
        }
        _ => panic!("mapper 95 should give a Namcot board"),
    }
}

#[test]
fn namcot_3453_bit_6_of_a_write_selects_a_single_screen() {
    let mut cart = Cartridge::from_image(&image_for_mapper(154)).ok().unwrap();
    cart.write_cpu(0xC000, 0x40);
    match cart {
        AnyMapper::Namcot108(m) => {
            for p in 0..8 {
                assert_eq!(1, m.core.vram.bank_map[p].0);
            }
        }
        _ => panic!("mapper 154 should give a Namcot board"),
    }
}

#[test]
fn console_cpu_writes_reach_the_apu() {
    // LDA #$C0; STA $4017; JMP $8005
    let program = [0xA9, 0xC0, 0x8D, 0x17, 0x40, 0x4C, 0x05, 0x80];
    let mut nes = nes_rs::nes::NES::new();
    assert!(nes.load_cartridge(&nrom_with_program(&program)).is_ok());
    nes.reset();
    assert_eq!(0, nes.apu.frame_counter_control);
    for _ in 0..300 {
        assert!(nes.clock_ready());
        let _ = nes.clock();
    }
    assert_eq!(0xC0, nes.apu.frame_counter_control);
}

#[test]
fn console_cpu_reads_of_the_status_register_reach_the_ppu() {
    // LDA $2002; JMP $8003
    let program = [0xAD, 0x02, 0x20, 0x4C, 0x03, 0x80];
    let mut nes = nes_rs::nes::NES::new();
    assert!(nes.load_cartridge(&nrom_with_program(&program)).is_ok());
    nes.reset();
    nes.ppu.write_toggle = true;
    for _ in 0..120 {
        assert!(nes.clock_ready());
        let _ = nes.clock();
    }
    // reading the status register resets the address latch toggle
    assert!(!nes.ppu.write_toggle);
}

#[test]
fn console_without_status_reads_keeps_the_write_toggle() {
    // JMP $8000
    let program = [0x4C, 0x00, 0x80];
    let mut nes = nes_rs::nes::NES::new();
    assert!(nes.load_cartridge(&nrom_with_program(&program)).is_ok());
    nes.reset();
    nes.ppu.write_toggle = true;
    for _ in 0..120 {
        assert!(nes.clock_ready());
        let _ = nes.clock();
    }
    assert!(nes.ppu.write_toggle);
}

use nes_rs::nes::cartridge::memory_region::{MemoryRegion, MemoryType};
use nes_rs::nes::cartridge::MirrorType;

#[test]
fn unit_tests_test_vertical_mirroring() {
    let vram_vec = vec![0; 0x1000];
    let mut vram = MemoryRegion::new(MemoryType::VRAM, vram_vec, 0x2000, 0x3FFF, false);
    vram.set_bank_size_k(1);
    vram.set_mirror_type(MirrorType::Vertical);

    assert_eq!(0x0000, vram.convert(0x2000).0);
    assert_eq!(0x0399, vram.convert(0x2399).0);
    assert_eq!(0x0400, vram.convert(0x2400).0);
    assert_eq!(0x0799, vram.convert(0x2799).0);
    assert_eq!(0x0000, vram.convert(0x2800).0);
    assert_eq!(0x0399, vram.convert(0x2B99).0);
    assert_eq!(0x0400, vram.convert(0x2C00).0);
    assert_eq!(0x0799, vram.convert(0x2F99).0);
    for i in 0..=0x0EFF {
        assert_eq!(vram.convert(0x2000 + i).0, vram.convert(0x3000 + i).0);
    }
}

#[test]
fn unit_tests_test_horizontal_mirroring() {
    let vram_vec = vec![0; 0x1000];
    let mut vram = MemoryRegion::new(MemoryType::VRAM, vram_vec, 0x2000, 0x3FFF, false);
    vram.set_bank_size_k(1);
    vram.set_mirror_type(MirrorType::Horizontal);

    assert_eq!(0x0000, vram.convert(0x2000).0);
    assert_eq!(0x0399, vram.convert(0x2399).0);
    assert_eq!(0x0000, vram.convert(0x2400).0);
    assert_eq!(0x0399, vram.convert(0x2799).0);
    assert_eq!(0x0400, vram.convert(0x2800).0);
    assert_eq!(0x0799, vram.convert(0x2B99).0);
    assert_eq!(0x0400, vram.convert(0x2C00).0);
    assert_eq!(0x0799, vram.convert(0x2F99).0);

    for i in 0..=0x0EFF {
        assert_eq!(vram.convert(0x2000 + i).0, vram.convert(0x3000 + i).0);
    }
}

#[test]
fn test_with_bank_set() {
    let vec = vec![0; 0x4000];
    let mut ram = MemoryRegion::new(MemoryType::SRAM, vec, 0x3000, 0x4FFF, false);
    ram.set_bank_size_k(2);

    assert_eq!(0x0000, ram.convert(0x3000).0);
    assert_eq!(0x07FF, ram.convert(0x37FF).0);
    assert_eq!(0x0000, ram.convert(0x3800).0);
    assert_eq!(0x07FF, ram.convert(0x3FFF).0);

    ram.set_bank(0, 1);

    assert_eq!(0x0800, ram.convert(0x3000).0);
    assert_eq!(0x0FFF, ram.convert(0x37FF).0);
    assert_eq!(0x0000, ram.convert(0x3800).0);
    assert_eq!(0x07FF, ram.convert(0x3FFF).0);

    ram.set_bank(1, 2);

    assert_eq!(0x0800, ram.convert(0x3000).0);
    assert_eq!(0x0FFF, ram.convert(0x37FF).0);
    assert_eq!(0x1000, ram.convert(0x3800).0);
    assert_eq!(0x17FF, ram.convert(0x3FFF).0);

    ram.set_bank(1, -2);

    assert_eq!(0x0800, ram.convert(0x3000).0);
    assert_eq!(0x0FFF, ram.convert(0x37FF).0);
    assert_eq!(0x3000, ram.convert(0x3800).0);
    assert_eq!(0x37FF, ram.convert(0x3FFF).0);
}

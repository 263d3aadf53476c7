use nes_rs::ppu::create_test_configuration;
use nes_rs::ppu::flags::StatusFlag;
use nes_rs::ppu::PPU;

#[test]
fn unit_tests_test_status_regiter() {
    let (mut ppu, _mem) = create_test_configuration();

    assert_eq!(Some(0), ppu.read(0x2002));

    ppu.set_status_flag(StatusFlag::VerticalBlank, true);
    ppu.set_status_flag(StatusFlag::Sprite0Hit, true);

    assert_eq!(
        Some(StatusFlag::VerticalBlank | StatusFlag::Sprite0Hit),
        ppu.read(0x2002)
    );

    // first ready should have cleared the vertical blank flag
    assert_eq!(Some(0 | StatusFlag::Sprite0Hit), ppu.read(0x2002));

    check_read_from_write(&mut ppu, 0 | StatusFlag::Sprite0Hit);
}

fn check_read_from_write(ppu: &mut PPU, expected: u8) {
    // read from write only should return last read

    assert_eq!(Some(expected), ppu.read(0x2000));
    assert_eq!(Some(expected), ppu.read(0x2001));
    assert_eq!(Some(expected), ppu.read(0x2003));
    assert_eq!(Some(expected), ppu.read(0x2005));
    assert_eq!(Some(expected), ppu.read(0x2006));
}

#[test]
fn unit_tests_test_oam_registers() {
    let (mut ppu, _mem) = create_test_configuration();

    assert_eq!(ppu.oam_table, [0; 256]);

    ppu.write(0x2003, 0x42);
    ppu.write(0x2004, 0x12);
    ppu.write(0x2004, 0x34);

    assert_eq!(0x00, ppu.oam_table[0x41]);
    assert_eq!(0x12, ppu.oam_table[0x42]);
    assert_eq!(0x34, ppu.oam_table[0x43]);
    assert_eq!(0x00, ppu.oam_table[0x44]);

    ppu.write(0x2003, 0x42);
    assert_eq!(Some(0x12), ppu.read(0x2004));
    assert_eq!(Some(0x12), ppu.read(0x2004));
    ppu.write(0x2003, 0x43);
    assert_eq!(Some(0x34), ppu.read(0x2004));

    check_read_from_write(&mut ppu, 0x34);
}

use vstd::prelude::*;

verus! {

/// The bits of the PPU control register (0x2000).
pub struct CtrlFlags;

impl CtrlFlags {
    pub const BaseNameTableLow: u8 = 0b00000001;
    pub const BaseNameTableHigh: u8 = 0b00000010;
    pub const IncrementAcross: u8 = 0b00000100;
    pub const SpriteTableHigh: u8 = 0b00001000;
    pub const BackgroundPatternHigh: u8 = 0b00010000;
    pub const SpriteSizeLarge: u8 = 0b00100000;
    pub const PpuMaster: u8 = 0b01000000;
    pub const NmiEnabled: u8 = 0b10000000;
}

/// The bits of the PPU mask register (0x2001).
pub struct MaskFlags;

impl MaskFlags {
    pub const Greyscale: u8 = 0b00000001;
    pub const ShowLeft8BG: u8 = 0b00000010;
    pub const ShowLeft8Sprites: u8 = 0b00000100;
    pub const ShowBG: u8 = 0b00001000;
    pub const ShowSprites: u8 = 0b00010000;
    pub const EmphasizeRed: u8 = 0b00100000;
    pub const EmphasizeGreen: u8 = 0b01000000;
    pub const EmphasizeBlue: u8 = 0b10000000;
}

/// The bits of the PPU status register (0x2002).
pub struct StatusFlags;

impl StatusFlags {
    pub const SpriteOverflow: u8 = 0b00100000;
    pub const Sprite0Hit: u8 = 0b01000000;
    pub const VerticalBlank: u8 = 0b10000000;
}

} // verus!

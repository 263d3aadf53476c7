use core::ops::BitOr;
use vstd::prelude::*;
use vstd::std_specs::ops::BitOrSpecImpl;

verus! {

/// The bits of the control register (0x2000).
#[derive(Clone, Copy, PartialEq, Eq, Debug, Structural)]
pub enum CtrlFlag {
    BaseNameTableLow,
    BaseNameTableHigh,
    IncrementAcross,
    SpriteTableHigh,
    BackgroundPatternHigh,
    SpriteSizeLarge,
    PpuMaster,
    NmiEnabled,
}

impl CtrlFlag {
    /// The bit this flag occupies in its register.
    pub open spec fn value(self) -> u8 {
        match self {
            CtrlFlag::BaseNameTableLow => 0b00000001,
            CtrlFlag::BaseNameTableHigh => 0b00000010,
            CtrlFlag::IncrementAcross => 0b00000100,
            CtrlFlag::SpriteTableHigh => 0b00001000,
            CtrlFlag::BackgroundPatternHigh => 0b00010000,
            CtrlFlag::SpriteSizeLarge => 0b00100000,
            CtrlFlag::PpuMaster => 0b01000000,
            CtrlFlag::NmiEnabled => 0b10000000,
        }
    }

    pub fn bits(self) -> (r: u8)
        ensures
            r == self.value(),
    {
        match self {
            CtrlFlag::BaseNameTableLow => 0b00000001,
            CtrlFlag::BaseNameTableHigh => 0b00000010,
            CtrlFlag::IncrementAcross => 0b00000100,
            CtrlFlag::SpriteTableHigh => 0b00001000,
            CtrlFlag::BackgroundPatternHigh => 0b00010000,
            CtrlFlag::SpriteSizeLarge => 0b00100000,
            CtrlFlag::PpuMaster => 0b01000000,
            CtrlFlag::NmiEnabled => 0b10000000,
        }
    }
}

impl BitOr for CtrlFlag {
    type Output = u8;

    fn bitor(self, rhs: CtrlFlag) -> (r: u8) {
        self.bits() | rhs.bits()
    }
}

impl BitOrSpecImpl for CtrlFlag {
    open spec fn obeys_bitor_spec() -> bool {
        true
    }

    open spec fn bitor_req(self, rhs: CtrlFlag) -> bool {
        true
    }

    open spec fn bitor_spec(self, rhs: CtrlFlag) -> u8 {
        self.value() | rhs.value()
    }
}

impl BitOr<u8> for CtrlFlag {
    type Output = u8;

    fn bitor(self, rhs: u8) -> (r: u8) {
        self.bits() | rhs
    }
}

impl BitOrSpecImpl<u8> for CtrlFlag {
    open spec fn obeys_bitor_spec() -> bool {
        true
    }

    open spec fn bitor_req(self, rhs: u8) -> bool {
        true
    }

    open spec fn bitor_spec(self, rhs: u8) -> u8 {
        self.value() | rhs
    }
}

impl BitOr<CtrlFlag> for u8 {
    type Output = u8;

    fn bitor(self, rhs: CtrlFlag) -> (r: u8) {
        self | rhs.bits()
    }
}

impl BitOrSpecImpl<CtrlFlag> for u8 {
    open spec fn obeys_bitor_spec() -> bool {
        true
    }

    open spec fn bitor_req(self, rhs: CtrlFlag) -> bool {
        true
    }

    open spec fn bitor_spec(self, rhs: CtrlFlag) -> u8 {
        self | rhs.value()
    }
}

/// The bits of the mask register (0x2001).
#[derive(Clone, Copy, PartialEq, Eq, Debug, Structural)]
pub enum MaskFlag {
    Greyscale,
    Left8BG,
    Left8Sprites,
    ShowBG,
    ShowSprites,
    EmphasizeRed,
    EmphasizeGreen,
    EmphasizeBlue,
}

impl MaskFlag {
    /// The bit this flag occupies in its register.
    pub open spec fn value(self) -> u8 {
        match self {
            MaskFlag::Greyscale => 0b00000001,
            MaskFlag::Left8BG => 0b00000010,
            MaskFlag::Left8Sprites => 0b00000100,
            MaskFlag::ShowBG => 0b00001000,
            MaskFlag::ShowSprites => 0b00010000,
            MaskFlag::EmphasizeRed => 0b00100000,
            MaskFlag::EmphasizeGreen => 0b01000000,
            MaskFlag::EmphasizeBlue => 0b10000000,
        }
    }

    pub fn bits(self) -> (r: u8)
        ensures
            r == self.value(),
    {
        match self {
            MaskFlag::Greyscale => 0b00000001,
            MaskFlag::Left8BG => 0b00000010,
            MaskFlag::Left8Sprites => 0b00000100,
            MaskFlag::ShowBG => 0b00001000,
            MaskFlag::ShowSprites => 0b00010000,
            MaskFlag::EmphasizeRed => 0b00100000,
            MaskFlag::EmphasizeGreen => 0b01000000,
            MaskFlag::EmphasizeBlue => 0b10000000,
        }
    }
}

impl BitOr for MaskFlag {
    type Output = u8;

    fn bitor(self, rhs: MaskFlag) -> (r: u8) {
        self.bits() | rhs.bits()
    }
}

impl BitOrSpecImpl for MaskFlag {
    open spec fn obeys_bitor_spec() -> bool {
        true
    }

    open spec fn bitor_req(self, rhs: MaskFlag) -> bool {
        true
    }

    open spec fn bitor_spec(self, rhs: MaskFlag) -> u8 {
        self.value() | rhs.value()
    }
}

impl BitOr<u8> for MaskFlag {
    type Output = u8;

    fn bitor(self, rhs: u8) -> (r: u8) {
        self.bits() | rhs
    }
}

impl BitOrSpecImpl<u8> for MaskFlag {
    open spec fn obeys_bitor_spec() -> bool {
        true
    }

    open spec fn bitor_req(self, rhs: u8) -> bool {
        true
    }

    open spec fn bitor_spec(self, rhs: u8) -> u8 {
        self.value() | rhs
    }
}

impl BitOr<MaskFlag> for u8 {
    type Output = u8;

    fn bitor(self, rhs: MaskFlag) -> (r: u8) {
        self | rhs.bits()
    }
}

impl BitOrSpecImpl<MaskFlag> for u8 {
    open spec fn obeys_bitor_spec() -> bool {
        true
    }

    open spec fn bitor_req(self, rhs: MaskFlag) -> bool {
        true
    }

    open spec fn bitor_spec(self, rhs: MaskFlag) -> u8 {
        self | rhs.value()
    }
}

/// The bits of the status register (0x2002).
#[derive(Clone, Copy, PartialEq, Eq, Debug, Structural)]
pub enum StatusFlag {
    SpriteOverflow,
    Sprite0Hit,
    VerticalBlank,
}

impl StatusFlag {
    /// The bit this flag occupies in its register.
    pub open spec fn value(self) -> u8 {
        match self {
            StatusFlag::SpriteOverflow => 0b00100000,
            StatusFlag::Sprite0Hit => 0b01000000,
            StatusFlag::VerticalBlank => 0b10000000,
        }
    }

    pub fn bits(self) -> (r: u8)
        ensures
            r == self.value(),
    {
        match self {
            StatusFlag::SpriteOverflow => 0b00100000,
            StatusFlag::Sprite0Hit => 0b01000000,
            StatusFlag::VerticalBlank => 0b10000000,
        }
    }
}

impl BitOr for StatusFlag {
    type Output = u8;

    fn bitor(self, rhs: StatusFlag) -> (r: u8) {
        self.bits() | rhs.bits()
    }
}

impl BitOrSpecImpl for StatusFlag {
    open spec fn obeys_bitor_spec() -> bool {
        true
    }

    open spec fn bitor_req(self, rhs: StatusFlag) -> bool {
        true
    }

    open spec fn bitor_spec(self, rhs: StatusFlag) -> u8 {
        self.value() | rhs.value()
    }
}

impl BitOr<u8> for StatusFlag {
    type Output = u8;

    fn bitor(self, rhs: u8) -> (r: u8) {
        self.bits() | rhs
    }
}

impl BitOrSpecImpl<u8> for StatusFlag {
    open spec fn obeys_bitor_spec() -> bool {
        true
    }

    open spec fn bitor_req(self, rhs: u8) -> bool {
        true
    }

    open spec fn bitor_spec(self, rhs: u8) -> u8 {
        self.value() | rhs
    }
}

impl BitOr<StatusFlag> for u8 {
    type Output = u8;

    fn bitor(self, rhs: StatusFlag) -> (r: u8) {
        self | rhs.bits()
    }
}

impl BitOrSpecImpl<StatusFlag> for u8 {
    open spec fn obeys_bitor_spec() -> bool {
        true
    }

    open spec fn bitor_req(self, rhs: StatusFlag) -> bool {
        true
    }

    open spec fn bitor_spec(self, rhs: StatusFlag) -> u8 {
        self | rhs.value()
    }
}

} // verus!

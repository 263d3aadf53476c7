use core::ops::BitOr;
use vstd::prelude::*;
use vstd::std_specs::ops::BitOrSpecImpl;
use vstd::arithmetic::power2::{lemma2_to64, pow2};

verus! {

/// Something plugged into a controller port: it gives the byte of buttons held.
pub trait Controller {
    /// The buttons the controller reports, one bit each (see `JoyPadButton`).
    spec fn buttons(&self) -> u8;

    fn read_value(&self) -> (r: u8)
        ensures
            r == self.buttons(),
    ;
}

/// An empty port: no button is ever held.
pub struct NulController {}

impl NulController {
    pub fn new() -> (r: NulController) {
        NulController {}
    }
}

impl Default for NulController {
    fn default() -> (r: NulController) {
        NulController::new()
    }
}

impl Controller for NulController {
    open spec fn buttons(&self) -> u8 {
        0
    }

    fn read_value(&self) -> (r: u8) {
        0
    }
}

/// A standard joypad: it reports the buttons last set on it.
pub struct JoyPad {
    pub current_buttons: u8,
}

impl JoyPad {
    pub fn new() -> (r: JoyPad)
        ensures
            r.current_buttons == 0,
    {
        JoyPad { current_buttons: 0 }
    }

    pub fn set_buttons(&mut self, buttons: u8)
        ensures
            final(self).current_buttons == buttons,
    {
        self.current_buttons = buttons;
    }
}

impl Default for JoyPad {
    fn default() -> (r: JoyPad)
        ensures
            r.current_buttons == 0,
    {
        JoyPad::new()
    }
}

impl Controller for JoyPad {
    open spec fn buttons(&self) -> u8 {
        self.current_buttons
    }

    fn read_value(&self) -> (r: u8) {
        self.current_buttons
    }
}

/// The buttons of a joypad, each a bit of the byte it reports.
#[derive(Clone, Copy, PartialEq, Eq, Debug, Structural)]
pub enum JoyPadButton {
    A,
    B,
    Select,
    Start,
    Up,
    Down,
    Left,
    Right,
}

impl JoyPadButton {
    /// The bit of the button.
    pub open spec fn value(self) -> u8 {
        match self {
            JoyPadButton::A => 0b00000001,
            JoyPadButton::B => 0b00000010,
            JoyPadButton::Select => 0b00000100,
            JoyPadButton::Start => 0b00001000,
            JoyPadButton::Up => 0b00010000,
            JoyPadButton::Down => 0b00100000,
            JoyPadButton::Left => 0b01000000,
            JoyPadButton::Right => 0b10000000,
        }
    }

    pub fn bits(self) -> (r: u8)
        ensures
            r == self.value(),
    {
        match self {
            JoyPadButton::A => 0b00000001,
            JoyPadButton::B => 0b00000010,
            JoyPadButton::Select => 0b00000100,
            JoyPadButton::Start => 0b00001000,
            JoyPadButton::Up => 0b00010000,
            JoyPadButton::Down => 0b00100000,
            JoyPadButton::Left => 0b01000000,
            JoyPadButton::Right => 0b10000000,
        }
    }

    /// The button's name as it is printed.
    pub open spec fn name_spec(self) -> Seq<char> {
        match self {
            JoyPadButton::A => "A"@,
            JoyPadButton::B => "B"@,
            JoyPadButton::Select => "Select"@,
            JoyPadButton::Start => "Start"@,
            JoyPadButton::Up => "Up"@,
            JoyPadButton::Down => "Down"@,
            JoyPadButton::Left => "Left"@,
            JoyPadButton::Right => "Right"@,
        }
    }

    pub fn name(self) -> (r: &'static str)
        ensures
            r@ == self.name_spec(),
    {
        match self {
            JoyPadButton::A => "A",
            JoyPadButton::B => "B",
            JoyPadButton::Select => "Select",
            JoyPadButton::Start => "Start",
            JoyPadButton::Up => "Up",
            JoyPadButton::Down => "Down",
            JoyPadButton::Left => "Left",
            JoyPadButton::Right => "Right",
        }
    }
}

impl BitOr for JoyPadButton {
    type Output = u8;

    fn bitor(self, rhs: JoyPadButton) -> (r: u8) {
        self.bits() | rhs.bits()
    }
}

impl BitOrSpecImpl for JoyPadButton {
    open spec fn obeys_bitor_spec() -> bool {
        true
    }

    open spec fn bitor_req(self, rhs: JoyPadButton) -> bool {
        true
    }

    open spec fn bitor_spec(self, rhs: JoyPadButton) -> u8 {
        self.value() | rhs.value()
    }
}

impl BitOr<JoyPadButton> for u8 {
    type Output = u8;

    fn bitor(self, rhs: JoyPadButton) -> (r: u8) {
        self | rhs.bits()
    }
}

impl BitOrSpecImpl<JoyPadButton> for u8 {
    open spec fn obeys_bitor_spec() -> bool {
        true
    }

    open spec fn bitor_req(self, rhs: JoyPadButton) -> bool {
        true
    }

    open spec fn bitor_spec(self, rhs: JoyPadButton) -> u8 {
        self | rhs.value()
    }
}

/// The order in which the console reads a joypad's buttons, one per read of its port.
pub open spec fn serial_order() -> Seq<JoyPadButton> {
    seq![JoyPadButton::A, JoyPadButton::B, JoyPadButton::Select, JoyPadButton::Start,
        JoyPadButton::Up, JoyPadButton::Down, JoyPadButton::Left, JoyPadButton::Right]
}

/// Each button is the bit of the byte a joypad reports that the console reads in its
/// place: the k-th button of A, B, Select, Start, Up, Down, Left, Right is bit k.
pub proof fn law_button_bits(k: int)
    requires
        0 <= k < 8,
    ensures
        serial_order()[k].value() as nat == pow2(k as nat),
{
    lemma2_to64();
}

/// A joypad reports the buttons last set on it.
pub proof fn law_joypad_reports_buttons_set(j: JoyPad, buttons: u8)
    ensures
        (JoyPad { current_buttons: buttons, ..j }).buttons() == buttons,
{
}

} // verus!

use vstd::prelude::*;

verus! {

/// Which half of the button matrix the joypad register currently reports.
#[derive(Clone, Copy, Debug, PartialEq, Eq, Structural)]
pub enum GamepadRegion {
    Unselected,
    DPad,
    Buttons,
    /// Both columns at once: a line reads low when either key on it is pressed.
    Both,
}

/// State of the eight buttons and the selected matrix column.
#[derive(Clone, Copy, Debug)]
pub struct Gamepad {
    pub region: GamepadRegion,
    pub up: bool,
    pub down: bool,
    pub left: bool,
    pub right: bool,
    pub a: bool,
    pub b: bool,
    pub select: bool,
    pub start: bool,
}

/// One bit of an active-low register: 1 when the button is released.
pub open spec fn released(pressed: bool, weight: u8) -> u8 {
    if pressed { 0 } else { weight }
}

/// Low nibble of four active-low buttons, first one in bit 0.
pub open spec fn active_low_nibble(b0: bool, b1: bool, b2: bool, b3: bool) -> u8 {
    (released(b0, 1) + released(b1, 2) + released(b2, 4) + released(b3, 8)) as u8
}

fn released_bit(pressed: bool, weight: u8) -> (r: u8)
    ensures
        r == released(pressed, weight),
{
    if pressed { 0 } else { weight }
}

impl Gamepad {
    pub open spec fn d_pad_spec(&self) -> u8 {
        active_low_nibble(self.right, self.left, self.up, self.down)
    }

    pub open spec fn buttons_spec(&self) -> u8 {
        active_low_nibble(self.a, self.b, self.select, self.start)
    }

    /// What a read of the joypad register returns.
    pub open spec fn value(&self) -> u8 {
        match self.region {
            GamepadRegion::Unselected => 0,
            GamepadRegion::DPad => self.d_pad_spec(),
            GamepadRegion::Buttons => self.buttons_spec(),
            GamepadRegion::Both => self.d_pad_spec() & self.buttons_spec(),
        }
    }

    pub open spec fn new_spec() -> Gamepad {
        Gamepad {
            region: GamepadRegion::Unselected,
            up: false,
            down: false,
            left: false,
            right: false,
            a: false,
            b: false,
            select: false,
            start: false,
        }
    }

    /// A gamepad with no button pressed and no column selected.
    pub fn new() -> (r: Self)
        ensures
            r == Self::new_spec(),
    {
        Gamepad {
            region: GamepadRegion::Unselected,
            up: false,
            down: false,
            left: false,
            right: false,
            a: false,
            b: false,
            select: false,
            start: false,
        }
    }

    pub fn get(&self) -> (r: u8)
        ensures
            r == self.value(),
            r < 16,
    {
        match self.region {
            GamepadRegion::Unselected => 0,
            GamepadRegion::DPad => self.get_d_pad(),
            GamepadRegion::Buttons => self.get_buttons(),
            GamepadRegion::Both => {
                let d = self.get_d_pad();
                let b = self.get_buttons();
                assert(d & b <= d) by (bit_vector);
                d & b
            },
        }
    }

    /// Active-low D-pad nibble: right, left, up, down in bits 0 to 3.
    pub fn get_d_pad(&self) -> (r: u8)
        ensures
            r == self.d_pad_spec(),
            r < 16,
    {
        released_bit(self.right, 1) + released_bit(self.left, 2) + released_bit(self.up, 4)
            + released_bit(self.down, 8)
    }

    /// Active-low button nibble: a, b, select, start in bits 0 to 3.
    pub fn get_buttons(&self) -> (r: u8)
        ensures
            r == self.buttons_spec(),
            r < 16,
    {
        released_bit(self.a, 1) + released_bit(self.b, 2) + released_bit(self.select, 4)
            + released_bit(self.start, 8)
    }
}

} // verus!

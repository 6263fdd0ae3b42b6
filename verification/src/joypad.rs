//! The standard controller: an 8-button shift register behind a strobe latch.
//!
//! While the strobe is asserted the read index is pinned to 0, so every read
//! reports the A button. After the strobe is deasserted, successive reads walk
//! the buttons in order A, B, SELECT, START, UP, DOWN, LEFT, RIGHT; once all
//! eight have been reported, further reads return 1 until the next strobe.

use vstd::prelude::*;

verus! {

/// One of the eight buttons, in shift-register order: A is reported first,
/// RIGHT last.
#[derive(Clone, Copy)]
pub enum JoypadButton {
    ButtonA,
    ButtonB,
    Select,
    Start,
    Up,
    Down,
    Left,
    Right,
}

/// The bit that a button occupies in the bitmap (A is bit 0, RIGHT is bit 7).
pub open spec fn button_mask(button: JoypadButton) -> u8 {
    match button {
        JoypadButton::ButtonA => 0x01,
        JoypadButton::ButtonB => 0x02,
        JoypadButton::Select => 0x04,
        JoypadButton::Start => 0x08,
        JoypadButton::Up => 0x10,
        JoypadButton::Down => 0x20,
        JoypadButton::Left => 0x40,
        JoypadButton::Right => 0x80,
    }
}

pub struct Joypad {
    /// Strobe latch: while set, reads keep returning the A button.
    pub strobe: bool,
    /// Which button the next read reports; 8 or more means exhausted.
    pub button_index: u8,
    /// Button bitmap, one bit per button as given by `button_mask`.
    pub button_status: u8,
}

/// The value a read returns: bit `button_index` of the bitmap, or 1 once all
/// eight buttons have been reported.
pub open spec fn joypad_read_value(j: Joypad) -> u8 {
    if j.button_index >= 8 {
        1
    } else {
        (j.button_status >> j.button_index) & 1
    }
}

/// The controller state after a read: the index advances only when the strobe
/// is low and buttons remain to report.
pub open spec fn joypad_after_read(j: Joypad) -> Joypad {
    if j.button_index >= 8 || j.strobe {
        j
    } else {
        Joypad { button_index: (j.button_index + 1) as u8, ..j }
    }
}

/// The controller state after a strobe-port write: bit 0 is the strobe, and
/// asserting it resets the read index.
pub open spec fn joypad_after_write(j: Joypad, data: u8) -> Joypad {
    if data & 1 == 1 {
        Joypad { strobe: true, button_index: 0, ..j }
    } else {
        Joypad { strobe: false, ..j }
    }
}

impl Joypad {
    pub fn new() -> (j: Joypad)
        ensures
            j.strobe == false,
            j.button_index == 0,
            j.button_status == 0,
    {
        Joypad { strobe: false, button_index: 0, button_status: 0 }
    }

    pub fn write(&mut self, data: u8)
        ensures
            *final(self) == joypad_after_write(*old(self), data),
    {
        self.strobe = data & 1 == 1;
        if self.strobe {
            self.button_index = 0;
        }
    }

    pub fn read(&mut self) -> (r: u8)
        ensures
            r == joypad_read_value(*old(self)),
            *final(self) == joypad_after_read(*old(self)),
    {
        if self.button_index >= 8 {
            return 1;
        }
        let response: u8 = (self.button_status >> self.button_index) & 1;
        if !self.strobe {
            self.button_index = self.button_index + 1;
        }
        response
    }

    pub fn set_button_pressed(&mut self, button: JoypadButton, pressed: bool)
        ensures
            final(self).button_status == (if pressed {
                old(self).button_status | button_mask(button)
            } else {
                old(self).button_status & !button_mask(button)
            }),
            final(self).strobe == old(self).strobe,
            final(self).button_index == old(self).button_index,
    {
        let mask: u8 = match button {
            JoypadButton::ButtonA => 0x01,
            JoypadButton::ButtonB => 0x02,
            JoypadButton::Select => 0x04,
            JoypadButton::Start => 0x08,
            JoypadButton::Up => 0x10,
            JoypadButton::Down => 0x20,
            JoypadButton::Left => 0x40,
            JoypadButton::Right => 0x80,
        };
        proof {
            assert(mask == button_mask(button));
        }
        if pressed {
            self.button_status = self.button_status | mask;
        } else {
            self.button_status = self.button_status & !mask;
        }
    }
}

} // verus!

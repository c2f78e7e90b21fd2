//! The joypad: an 8-bit shift register fed by a bitmask of pressed buttons.

use vstd::prelude::*;

verus! {

/// One of the eight buttons, in the fixed order the shift register reports
/// them.
#[derive(Debug, Clone, Copy, PartialEq, Eq, Structural)]
pub enum JoypadButton {
    ButtonA,
    ButtonB,
    Select,
    Start,
    Up,
    Down,
    Left,
    Right,
}

/// The bit a button occupies in the status mask.
pub open spec fn button_mask_spec(button: JoypadButton) -> u8 {
    match button {
        JoypadButton::ButtonA => 0x01,
        JoypadButton::ButtonB => 0x02,
        JoypadButton::Select => 0x04,
        JoypadButton::Start => 0x08,
        JoypadButton::Up => 0x10,
        JoypadButton::Down => 0x20,
        JoypadButton::Left => 0x40,
        JoypadButton::Right => 0x80,
    }
}

impl JoypadButton {
    /// The bit this button occupies in the status mask.
    pub fn mask(&self) -> (r: u8)
        ensures
            r == button_mask_spec(*self),
    {
        match self {
            JoypadButton::ButtonA => 0x01,
            JoypadButton::ButtonB => 0x02,
            JoypadButton::Select => 0x04,
            JoypadButton::Start => 0x08,
            JoypadButton::Up => 0x10,
            JoypadButton::Down => 0x20,
            JoypadButton::Left => 0x40,
            JoypadButton::Right => 0x80,
        }
    }
}

/// The shift register: a strobe latch, the index of the next button to
/// report, and the pressed-button mask.
#[derive(Debug, Clone, Copy, PartialEq, Eq, Structural)]
pub struct Joypad {
    pub strobe_mode: bool,
    pub button_index: u8,
    pub button_status: u8,
}

impl Default for Joypad {
    fn default() -> (r: Self)
        ensures
            r == (Joypad { strobe_mode: false, button_index: 0, button_status: 0 }),
    {
        Joypad { strobe_mode: false, button_index: 0, button_status: 0 }
    }
}

/// What one read of the shift register does: the reported bit and the
/// register afterwards.
pub open spec fn joypad_read_spec(j: Joypad) -> (Joypad, u8) {
    if j.button_index > 7 {
        (j, 1u8)
    } else {
        (
            Joypad {
                button_index: if j.strobe_mode {
                    j.button_index
                } else {
                    (j.button_index + 1) as u8
                },
                ..j
            },
            ((j.button_status >> j.button_index) % 2) as u8,
        )
    }
}

impl Joypad {
    /// Report one button per call while the strobe is low, advancing through
    /// the eight buttons; reads beyond the eighth return 1. While the strobe
    /// is high the index stays put, so button A is reported repeatedly.
    pub fn read(&mut self) -> (r: u8)
        ensures
            *final(self) == joypad_read_spec(*old(self)).0,
            r == joypad_read_spec(*old(self)).1,
    {
        if self.button_index > 7 {
            return 1;
        }

        let response = (self.button_status >> self.button_index) % 2;

        if !self.strobe_mode {
            self.button_index += 1;
        }

        response
    }

    /// Write the strobe bit; raising it pins the shift index back to button
    /// A.
    pub fn write(&mut self, value: u8)
        ensures
            final(self).strobe_mode == (value % 2 == 1),
            final(self).button_index == (if value % 2 == 1 {
                0u8
            } else {
                old(self).button_index
            }),
            final(self).button_status == old(self).button_status,
    {
        self.strobe_mode = value % 2 == 1;

        if self.strobe_mode {
            self.button_index = 0;
        }
    }

    /// Mark a button as held down.
    pub fn press_button(&mut self, button: JoypadButton)
        ensures
            final(self).button_status == (old(self).button_status | button_mask_spec(button)),
            final(self).strobe_mode == old(self).strobe_mode,
            final(self).button_index == old(self).button_index,
    {
        self.button_status = self.button_status | button.mask();
    }

    /// Mark a button as released.
    pub fn release_button(&mut self, button: JoypadButton)
        ensures
            final(self).button_status == (old(self).button_status & !button_mask_spec(button)),
            final(self).strobe_mode == old(self).strobe_mode,
            final(self).button_index == old(self).button_index,
    {
        self.button_status = self.button_status & !button.mask();
    }
}

} // verus!

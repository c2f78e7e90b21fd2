//! The picture unit's address register: a two-byte latch with a write toggle.

use vstd::prelude::*;

verus! {

/// Two bytes of VRAM address plus the toggle saying which byte the next
/// write fills. Values above the mappable window are mirrored back down.
#[derive(Debug, Clone, Copy, PartialEq, Eq, Structural)]
pub struct AddressRegister {
    pub high: u8,
    pub low: u8,
    pub hi_ptr: bool,
}

/// The full address the two latched bytes form.
pub open spec fn get_spec(a: AddressRegister) -> u16 {
    (a.high * 256 + a.low) as u16
}

/// The register with the address replaced, split into its two bytes.
pub open spec fn set_spec(a: AddressRegister, data: u16) -> AddressRegister {
    AddressRegister { high: (data / 256) as u8, low: (data % 256) as u8, ..a }
}

/// The register after folding an out-of-window address back into range.
pub open spec fn mirror_down_spec(a: AddressRegister) -> AddressRegister {
    if get_spec(a) > 0x3fff {
        set_spec(a, (get_spec(a) % 0x4000) as u16)
    } else {
        a
    }
}

/// The register after one write to the address port.
pub open spec fn update_spec(a: AddressRegister, value: u8) -> AddressRegister {
    let written = if a.hi_ptr {
        AddressRegister { high: value, ..a }
    } else {
        AddressRegister { low: value, ..a }
    };
    mirror_down_spec(AddressRegister { hi_ptr: !a.hi_ptr, ..written })
}

/// The register after an auto-increment of the data port.
pub open spec fn increment_spec(a: AddressRegister, increment: u8) -> AddressRegister {
    let new_low = ((a.low + increment) % 256) as u8;
    let carried = if a.low > new_low {
        AddressRegister { low: new_low, high: ((a.high + 1) % 256) as u8, ..a }
    } else {
        AddressRegister { low: new_low, ..a }
    };
    mirror_down_spec(carried)
}

impl Default for AddressRegister {
    fn default() -> (r: Self)
        ensures
            r == (AddressRegister { high: 0, low: 0, hi_ptr: true }),
    {
        Self { high: 0, low: 0, hi_ptr: true }
    }
}

impl AddressRegister {
    /// Latch one byte: the high byte first, then the low byte, alternating.
    pub fn update(&mut self, value: u8)
        ensures
            *final(self) == update_spec(*old(self), value),
    {
        if self.hi_ptr {
            self.high = value;
        } else {
            self.low = value;
        }
        self.hi_ptr = !self.hi_ptr;

        self.mirror_down();
    }

    /// Step the address forward by `increment`, carrying into the high byte.
    pub fn increment(&mut self, increment: u8)
        ensures
            *final(self) == increment_spec(*old(self), increment),
    {
        let prev_low = self.low;
        self.low = self.low.wrapping_add(increment);

        if prev_low > self.low {
            self.high = self.high.wrapping_add(1);
        }

        self.mirror_down();
    }

    /// The full address the two latched bytes form.
    pub fn get(&self) -> (r: u16)
        ensures
            r == get_spec(*self),
    {
        self.high as u16 * 256 + self.low as u16
    }

    /// Point the toggle back at the high byte.
    pub fn reset_latch(&mut self)
        ensures
            *final(self) == (AddressRegister { hi_ptr: true, ..*old(self) }),
    {
        self.hi_ptr = true;
    }

    /// Replace the whole address.
    fn set(&mut self, data: u16)
        ensures
            *final(self) == set_spec(*old(self), data),
    {
        self.high = (data / 256) as u8;
        self.low = (data % 256) as u8;
    }

    /// Fold an address above the mappable window back into range.
    fn mirror_down(&mut self)
        ensures
            *final(self) == mirror_down_spec(*old(self)),
    {
        if self.get() > 0x3fff {
            let mirrored = self.get() % 0x4000;
            self.set(mirrored);
        }
    }
}

} // verus!

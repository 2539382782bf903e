//! The three independent input-state registers: the legacy two-button
//! register, the wide keyboard bit register, and the mouse-button register.
//! Keyboard and legacy bits are edge-triggered (mutated by discrete press and
//! release transitions); mouse buttons are level-triggered (recomputed from
//! the instantaneous button status once per tick).

use vstd::prelude::*;

verus! {

/// The three registers. Each is a plain unsigned value whose bits carry the
/// held/released status of one key or button.
#[derive(Clone, Copy, PartialEq, Eq, Structural, Debug)]
pub struct InputState {
    /// Legacy game-button register: bit 0 = primary key held,
    /// bit 1 = secondary key held.
    pub legacy: u8,
    /// Wide keyboard register, one bit per mapped key name.
    pub keyboard: u128,
    /// Mouse-button register: bit 0 = left button held, bit 1 = right button held.
    pub mouse: u8,
}

/// The legacy register after one press or release of the given bit.
pub open spec fn spec_apply_legacy(v: u8, bit: u8, pressed: bool) -> u8 {
    if pressed {
        v | (1u8 << bit)
    } else {
        v & !(1u8 << bit)
    }
}

/// The keyboard register after one press or release of the given bit.
pub open spec fn spec_apply_keyboard(v: u128, idx: u8, pressed: bool) -> u128 {
    if pressed {
        v | (1u128 << (idx as u128))
    } else {
        v & !(1u128 << (idx as u128))
    }
}

/// The mouse-button register recomputed from the instantaneous status of the
/// two buttons; bits above 1 are carried over unchanged.
pub open spec fn spec_sample_mouse(v: u8, left: bool, right: bool) -> u8 {
    let v1 = if left {
        v | 0x01u8
    } else {
        v & 0xfeu8
    };
    if right {
        v1 | 0x02u8
    } else {
        v1 & 0xfdu8
    }
}

impl InputState {
    /// All three registers empty: nothing held.
    pub fn new() -> (r: InputState)
        ensures
            r == (InputState { legacy: 0u8, keyboard: 0u128, mouse: 0u8 }),
    {
        InputState { legacy: 0, keyboard: 0, mouse: 0 }
    }

    /// Edge-triggered update of one legacy button bit. Returns whether the
    /// observable register value changed.
    pub fn apply_legacy(&mut self, bit: u8, pressed: bool) -> (changed: bool)
        requires
            bit < 8,
        ensures
            final(self).legacy == spec_apply_legacy(old(self).legacy, bit, pressed),
            final(self).keyboard == old(self).keyboard,
            final(self).mouse == old(self).mouse,
            changed == (final(self).legacy != old(self).legacy),
    {
        let prev = self.legacy;
        if pressed {
            self.legacy = self.legacy | (1u8 << bit);
        } else {
            self.legacy = self.legacy & !(1u8 << bit);
        }
        self.legacy != prev
    }

    /// Edge-triggered update of one keyboard bit. Returns whether the
    /// observable register value changed.
    pub fn apply_keyboard(&mut self, idx: u8, pressed: bool) -> (changed: bool)
        requires
            idx < 128,
        ensures
            final(self).keyboard == spec_apply_keyboard(old(self).keyboard, idx, pressed),
            final(self).legacy == old(self).legacy,
            final(self).mouse == old(self).mouse,
            changed == (final(self).keyboard != old(self).keyboard),
    {
        let prev = self.keyboard;
        if pressed {
            self.keyboard = self.keyboard | (1u128 << (idx as u128));
        } else {
            self.keyboard = self.keyboard & !(1u128 << (idx as u128));
        }
        self.keyboard != prev
    }

    /// Level-triggered sample of the two mouse buttons.
    pub fn sample_mouse(&mut self, left: bool, right: bool)
        ensures
            final(self).mouse == spec_sample_mouse(old(self).mouse, left, right),
            final(self).legacy == old(self).legacy,
            final(self).keyboard == old(self).keyboard,
    {
        if left {
            self.mouse = self.mouse | 0x01;
        } else {
            self.mouse = self.mouse & 0xfe;
        }
        if right {
            self.mouse = self.mouse | 0x02;
        } else {
            self.mouse = self.mouse & 0xfd;
        }
    }

    /// Current legacy register value, for encoding.
    pub fn snapshot_legacy(&self) -> (r: u8)
        ensures
            r == self.legacy,
    {
        self.legacy
    }

    /// Current keyboard register value, for encoding.
    pub fn snapshot_keyboard(&self) -> (r: u128)
        ensures
            r == self.keyboard,
    {
        self.keyboard
    }

    /// Current mouse-button register value, for encoding.
    pub fn snapshot_mouse(&self) -> (r: u8)
        ensures
            r == self.mouse,
    {
        self.mouse
    }
}

/// Register updates are idempotent: repeating the same press or release of
/// one bit leaves the register exactly as after the first application.
pub proof fn lemma_apply_keyboard_idempotent(v: u128, idx: u8, pressed: bool)
    requires
        idx < 128,
    ensures
        spec_apply_keyboard(spec_apply_keyboard(v, idx, pressed), idx, pressed)
            == spec_apply_keyboard(v, idx, pressed),
{
    let m = 1u128 << (idx as u128);
    assert(((v | m) | m) == (v | m)) by (bit_vector);
    assert(((v & !m) & !m) == (v & !m)) by (bit_vector);
}

/// The same idempotence for the legacy register.
pub proof fn lemma_apply_legacy_idempotent(v: u8, bit: u8, pressed: bool)
    requires
        bit < 8,
    ensures
        spec_apply_legacy(spec_apply_legacy(v, bit, pressed), bit, pressed)
            == spec_apply_legacy(v, bit, pressed),
{
    let m = 1u8 << bit;
    assert(((v | m) | m) == (v | m)) by (bit_vector);
    assert(((v & !m) & !m) == (v & !m)) by (bit_vector);
}

} // verus!

//! The device-agnostic input-event model.
//!
//! The display layer produces these events from window input; the pacing
//! scheduler translates them into CH9329 commands.

use vstd::prelude::*;

verus! {

/// A USB HID keyboard usage id (Usage Page 0x07), e.g. `0x28` = Enter.
#[derive(Clone, Copy, PartialEq, Eq, Structural, PartialOrd, Ord, Hash, Debug)]
pub struct HidUsage(pub u8);

/// CH9329 keyboard modifier bitmask (USB HID boot-keyboard modifier byte).
#[derive(Clone, Copy, PartialEq, Eq, Structural, Debug)]
pub struct Modifiers(pub u8);

impl Modifiers {
    /// No modifiers held.
    pub fn none() -> (r: Modifiers)
        ensures
            r.0 == 0x00,
    {
        Modifiers(0x00)
    }
    /// Left Control.
    pub fn left_ctrl() -> (r: Modifiers)
        ensures
            r.0 == 0x01,
    {
        Modifiers(0x01)
    }
    /// Left Shift.
    pub fn left_shift() -> (r: Modifiers)
        ensures
            r.0 == 0x02,
    {
        Modifiers(0x02)
    }
    /// Left Alt.
    pub fn left_alt() -> (r: Modifiers)
        ensures
            r.0 == 0x04,
    {
        Modifiers(0x04)
    }
    /// Left GUI (Super/Meta).
    pub fn left_gui() -> (r: Modifiers)
        ensures
            r.0 == 0x08,
    {
        Modifiers(0x08)
    }
    /// Right Control.
    pub fn right_ctrl() -> (r: Modifiers)
        ensures
            r.0 == 0x10,
    {
        Modifiers(0x10)
    }
    /// Right Shift.
    pub fn right_shift() -> (r: Modifiers)
        ensures
            r.0 == 0x20,
    {
        Modifiers(0x20)
    }
    /// Right Alt (AltGr).
    pub fn right_alt() -> (r: Modifiers)
        ensures
            r.0 == 0x40,
    {
        Modifiers(0x40)
    }
    /// Right GUI.
    pub fn right_gui() -> (r: Modifiers)
        ensures
            r.0 == 0x80,
    {
        Modifiers(0x80)
    }

    /// Set containment: every bit of `other` is set in `self`.
    pub open spec fn spec_contains(self, other: Modifiers) -> bool {
        self.0 & other.0 == other.0
    }

    /// Returns `true` if every bit in `other` is set in `self`.
    pub fn contains(self, other: Modifiers) -> (r: bool)
        ensures
            r == self.spec_contains(other),
    {
        self.0 & other.0 == other.0
    }

    /// Returns the union of two modifier sets.
    pub fn union(self, other: Modifiers) -> (r: Modifiers)
        ensures
            r.0 == self.0 | other.0,
    {
        Modifiers(self.0 | other.0)
    }
}

/// The union of two modifier sets contains both of them, and the union is
/// the same whichever set comes first.
pub proof fn lemma_union_contains_both(a: Modifiers, b: Modifiers)
    ensures
        Modifiers(a.0 | b.0).spec_contains(a),
        Modifiers(a.0 | b.0).spec_contains(b),
        a.0 | b.0 == b.0 | a.0,
{
    let (x, y) = (a.0, b.0);
    assert((x | y) & x == x) by (bit_vector);
    assert((x | y) & y == y) by (bit_vector);
    assert(x | y == y | x) by (bit_vector);
}

/// A pointer button.
#[derive(Clone, Copy, PartialEq, Eq, Structural, Debug)]
pub enum MouseButton {
    /// Left button (CH9329 bit 0).
    Left,
    /// Right button (CH9329 bit 1).
    Right,
    /// Middle button (CH9329 bit 2).
    Middle,
}

/// The CH9329 mask bit of a button: bit0 left, bit1 right, bit2 middle.
pub open spec fn button_bit(button: MouseButton) -> u8 {
    match button {
        MouseButton::Left => 0x01,
        MouseButton::Right => 0x02,
        MouseButton::Middle => 0x04,
    }
}

/// CH9329 mouse button bitmask: bit0 left, bit1 right, bit2 middle.
#[derive(Clone, Copy, PartialEq, Eq, Structural, Debug)]
pub struct ButtonMask(pub u8);

impl ButtonMask {
    /// No buttons held.
    pub fn none() -> (r: ButtonMask)
        ensures
            r.0 == 0x00,
    {
        ButtonMask(0x00)
    }
    /// Left button bit.
    pub fn left() -> (r: ButtonMask)
        ensures
            r.0 == 0x01,
    {
        ButtonMask(0x01)
    }
    /// Right button bit.
    pub fn right() -> (r: ButtonMask)
        ensures
            r.0 == 0x02,
    {
        ButtonMask(0x02)
    }
    /// Middle button bit.
    pub fn middle() -> (r: ButtonMask)
        ensures
            r.0 == 0x04,
    {
        ButtonMask(0x04)
    }

    /// The mask bit for a single button.
    pub fn from_button(button: MouseButton) -> (r: ButtonMask)
        ensures
            r.0 == button_bit(button),
    {
        match button {
            MouseButton::Left => ButtonMask::left(),
            MouseButton::Right => ButtonMask::right(),
            MouseButton::Middle => ButtonMask::middle(),
        }
    }

    /// The mask after setting (`pressed`) or clearing the bit of `button`.
    pub open spec fn spec_with(self, button: MouseButton, pressed: bool) -> ButtonMask {
        if pressed {
            ButtonMask(self.0 | button_bit(button))
        } else {
            ButtonMask(self.0 & !button_bit(button))
        }
    }

    /// Returns a copy with `button` set or cleared.
    pub fn with(self, button: MouseButton, pressed: bool) -> (r: ButtonMask)
        ensures
            r == self.spec_with(button, pressed),
    {
        let bit = ButtonMask::from_button(button).0;
        if pressed {
            ButtonMask(self.0 | bit)
        } else {
            ButtonMask(self.0 & !bit)
        }
    }

    /// The raw bitmask byte.
    pub fn bits(self) -> (r: u8)
        ensures
            r == self.0,
    {
        self.0
    }
}

impl Default for Modifiers {
    fn default() -> (r: Modifiers)
        ensures
            r.0 == 0,
    {
        Modifiers(0)
    }
}

impl Default for ButtonMask {
    fn default() -> (r: ButtonMask)
        ensures
            r.0 == 0,
    {
        ButtonMask(0)
    }
}

/// Setting a button's bit makes it held, clearing it makes it released, and
/// in both cases every other button keeps its state.
pub proof fn lemma_with_touches_only_its_button(m: ButtonMask, b: MouseButton, other: MouseButton, pressed: bool)
    ensures
        (m.spec_with(b, pressed).0 & button_bit(b) != 0) == pressed,
        other != b ==> (m.spec_with(b, pressed).0 & button_bit(other)) == (m.0 & button_bit(other)),
{
    let x = m.0;
    let bb = button_bit(b);
    let ob = button_bit(other);
    assert(bb == 1 || bb == 2 || bb == 4);
    assert(ob == 1 || ob == 2 || ob == 4);
    assert((bb == 1u8 || bb == 2u8 || bb == 4u8) ==> ((x | bb) & bb != 0 && (x & !bb) & bb == 0)) by (bit_vector);
    assert((bb == 1u8 || bb == 2u8 || bb == 4u8) && (ob == 1u8 || ob == 2u8 || ob == 4u8) && bb != ob
        ==> ((x | bb) & ob == x & ob && (x & !bb) & ob == x & ob)) by (bit_vector);
}

/// An absolute pointer position in the CH9329 `0..=4095` coordinate space.
#[derive(Clone, Copy, PartialEq, Eq, Structural, Debug)]
pub struct AbsPosition {
    /// X in `0..=4095`.
    pub x: u16,
    /// Y in `0..=4095`.
    pub y: u16,
}

/// The maximum value of an absolute coordinate axis (12-bit).
pub const ABS_MAX: u16 = 4095;

/// A single device-agnostic input event to forward to the target.
#[derive(Clone, Copy, PartialEq, Eq, Structural, Debug)]
pub enum InputEvent {
    /// A key press or release with the modifier set held at the time.
    Key {
        /// The HID usage of the key.
        usage: HidUsage,
        /// Modifiers held with this key.
        modifiers: Modifiers,
        /// `true` for press, `false` for release.
        pressed: bool,
    },
    /// Absolute pointer move.
    MouseMoveAbsolute {
        /// Target position.
        pos: AbsPosition,
    },
    /// Relative pointer move (delta).
    MouseMoveRelative {
        /// Delta X.
        dx: i16,
        /// Delta Y.
        dy: i16,
    },
    /// A pointer button press or release.
    MouseButton {
        /// Which button.
        button: MouseButton,
        /// `true` for press, `false` for release.
        pressed: bool,
    },
    /// A vertical scroll tick (positive = up).
    Scroll {
        /// Wheel delta.
        delta: i8,
    },
    /// Release **all** held keys, modifiers, and mouse buttons.
    ReleaseAll,
}

impl InputEvent {
    /// A key/button release, or the release-everything event.
    pub open spec fn spec_is_release(self) -> bool {
        match self {
            InputEvent::Key { pressed, .. } => !pressed,
            InputEvent::MouseButton { pressed, .. } => !pressed,
            InputEvent::ReleaseAll => true,
            _ => false,
        }
    }

    /// An absolute or relative pointer move.
    pub open spec fn spec_is_mouse_move(self) -> bool {
        self is MouseMoveAbsolute || self is MouseMoveRelative
    }

    /// Returns `true` if this event is a key/button **release** (releases are
    /// latency-critical and must never queue behind mouse moves).
    pub fn is_release(self) -> (r: bool)
        ensures
            r == self.spec_is_release(),
    {
        match self {
            InputEvent::Key { pressed, .. } => !pressed,
            InputEvent::MouseButton { pressed, .. } => !pressed,
            InputEvent::ReleaseAll => true,
            _ => false,
        }
    }

    /// Returns `true` if this event is a mouse move (absolute or relative);
    /// move events are coalescible.
    pub fn is_mouse_move(self) -> (r: bool)
        ensures
            r == self.spec_is_mouse_move(),
    {
        match self {
            InputEvent::MouseMoveAbsolute { .. } => true,
            InputEvent::MouseMoveRelative { .. } => true,
            _ => false,
        }
    }
}

} // verus!

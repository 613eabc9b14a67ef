//! Routing of window input to the target: the keyboard modifier byte
//! tracked from physical modifier keys, the host-local paste shortcuts
//! (whose keys are then swallowed until released), Esc aborting a running
//! paste, and the release of everything held when the window loses focus.

use vstd::prelude::*;

use crate::event::{HidUsage, InputEvent, Modifiers, MouseButton};
use crate::hotkeys::{
    chord_usages, is_paste_hotkey, spec_chord_usages, spec_is_paste_hotkey, usage_set,
    MiddleClickPaste, PasteConfig, PasteSource, SuppressedKeys,
};
use crate::protocol::hid::{modifier_bit, spec_is_modifier};

verus! {

/// The HID usage of the Escape key.
pub const HID_ESCAPE: u8 = 0x29;

/// What to do with one window input event.
#[derive(Clone, Copy, PartialEq, Eq, Structural, Debug)]
pub enum InputAction {
    /// Drop the event.
    Swallow,
    /// Abort the running paste and release everything held on the target.
    AbortPaste,
    /// Release everything held on the target, then paste the selection.
    StartPaste(PasteSource),
    /// Forward the event to the target.
    Forward(InputEvent),
}

/// The routing state: the modifier byte sent with keys, the keys being
/// swallowed, whether a paste is being typed, whether the release of a
/// middle click that started a paste is still to be swallowed, and the paste
/// settings.
pub struct InputRouter {
    modifiers: Modifiers,
    suppressed: SuppressedKeys,
    paste_active: bool,
    swallow_middle_release: bool,
    config: PasteConfig,
}

/// The view of an [`InputRouter`].
pub struct RouterView {
    /// The modifier byte.
    pub modifiers: u8,
    /// The usages being swallowed.
    pub suppressed: Set<u8>,
    /// A paste is being typed.
    pub paste_active: bool,
    /// The next middle-button release is swallowed.
    pub swallow_middle_release: bool,
    /// The paste settings.
    pub config: PasteConfig,
}

impl View for InputRouter {
    type V = RouterView;

    closed spec fn view(&self) -> RouterView {
        RouterView {
            modifiers: self.modifiers.0,
            suppressed: self.suppressed@,
            paste_active: self.paste_active,
            swallow_middle_release: self.swallow_middle_release,
            config: self.config,
        }
    }
}

/// The modifier byte after a key edge: a modifier key sets its bit on press
/// and clears it on release; other keys leave it alone.
pub open spec fn track_modifier(m: u8, usage: u8, pressed: bool) -> u8 {
    if spec_is_modifier(usage) {
        let bit = 1u8 << ((usage - 0xE0) as u8);
        if pressed {
            m | bit
        } else {
            m & !bit
        }
    } else {
        m
    }
}

/// How a key edge is routed and the state after it: a swallowed key stays
/// swallowed until its release (which is swallowed too); Esc aborts a running
/// paste; the paste shortcut starts a clipboard paste and swallows its chord;
/// anything else is forwarded with the tracked modifier byte.
pub open spec fn route_key(v: RouterView, usage: HidUsage, pressed: bool, repeat: bool) -> (
    RouterView,
    InputAction,
) {
    if v.suppressed.contains(usage.0) {
        (
            RouterView {
                suppressed: if pressed {
                    v.suppressed
                } else {
                    v.suppressed.remove(usage.0)
                },
                ..v
            },
            InputAction::Swallow,
        )
    } else if pressed && usage.0 == HID_ESCAPE && v.paste_active {
        (RouterView { paste_active: false, modifiers: 0, ..v }, InputAction::AbortPaste)
    } else if v.config.enabled && pressed && !repeat && spec_is_paste_hotkey(
        usage,
        Modifiers(v.modifiers),
        v.config.shortcut,
    ) {
        let chord = spec_chord_usages(usage, Modifiers(v.modifiers));
        (
            RouterView {
                suppressed: v.suppressed + usage_set(chord, chord.len() as int),
                modifiers: 0,
                ..v
            },
            InputAction::StartPaste(PasteSource::Clipboard),
        )
    } else {
        let m = track_modifier(v.modifiers, usage.0, pressed);
        (
            RouterView { modifiers: m, ..v },
            InputAction::Forward(InputEvent::Key { usage, modifiers: Modifiers(m), pressed }),
        )
    }
}

/// How a pointer button edge is routed and the state after it: with a
/// middle-click paste configured, a middle press starts that paste and its
/// release is swallowed; everything else is forwarded.
pub open spec fn route_button(v: RouterView, button: MouseButton, pressed: bool) -> (
    RouterView,
    InputAction,
) {
    if button == MouseButton::Middle && !pressed && v.swallow_middle_release {
        (RouterView { swallow_middle_release: false, ..v }, InputAction::Swallow)
    } else if button == MouseButton::Middle && pressed && v.config.enabled
        && v.config.middle_click != MiddleClickPaste::Off {
        (
            RouterView { swallow_middle_release: true, ..v },
            InputAction::StartPaste(
                if v.config.middle_click == MiddleClickPaste::Primary {
                    PasteSource::Primary
                } else {
                    PasteSource::Clipboard
                },
            ),
        )
    } else {
        (v, InputAction::Forward(InputEvent::MouseButton { button, pressed }))
    }
}

fn track_modifier_exec(m: Modifiers, usage: HidUsage, pressed: bool) -> (r: Modifiers)
    ensures
        r.0 == track_modifier(m.0, usage.0, pressed),
{
    match modifier_bit(usage) {
        Some(bit) => if pressed {
            m.union(bit)
        } else {
            Modifiers(m.0 & !bit.0)
        },
        None => m,
    }
}

impl InputRouter {
    /// A router with nothing held and nothing swallowed.
    pub fn new(config: PasteConfig) -> (r: InputRouter)
        ensures
            r@.modifiers == 0,
            r@.suppressed == Set::<u8>::empty(),
            !r@.paste_active,
            !r@.swallow_middle_release,
            r@.config == config,
    {
        InputRouter {
            modifiers: Modifiers::none(),
            suppressed: SuppressedKeys::default(),
            paste_active: false,
            swallow_middle_release: false,
            config,
        }
    }

    /// The modifier byte currently sent with keys.
    pub fn modifiers(&self) -> (r: Modifiers)
        ensures
            r.0 == self@.modifiers,
    {
        self.modifiers
    }

    /// The paste settings.
    pub fn config(&self) -> (r: PasteConfig)
        ensures
            r == self@.config,
    {
        self.config
    }

    /// Routes a key edge (`repeat` marks an auto-repeated press).
    pub fn on_key(&mut self, usage: HidUsage, pressed: bool, repeat: bool) -> (r: InputAction)
        ensures
            (final(self)@, r) == route_key(old(self)@, usage, pressed, repeat),
    {
        if self.suppressed.suppress_event(usage, pressed) {
            return InputAction::Swallow;
        }
        if pressed && usage.0 == HID_ESCAPE && self.paste_active {
            self.paste_active = false;
            self.modifiers = Modifiers::none();
            return InputAction::AbortPaste;
        }
        if self.config.enabled && pressed && !repeat && is_paste_hotkey(
            usage,
            self.modifiers,
            self.config.shortcut,
        ) {
            let chord = chord_usages(usage, self.modifiers);
            self.suppressed.extend(chord.as_slice());
            self.modifiers = Modifiers::none();
            return InputAction::StartPaste(PasteSource::Clipboard);
        }
        self.modifiers = track_modifier_exec(self.modifiers, usage, pressed);
        InputAction::Forward(InputEvent::Key { usage, modifiers: self.modifiers, pressed })
    }

    /// Routes a pointer button edge.
    pub fn on_button(&mut self, button: MouseButton, pressed: bool) -> (r: InputAction)
        ensures
            (final(self)@, r) == route_button(old(self)@, button, pressed),
    {
        let middle = match button {
            MouseButton::Middle => true,
            _ => false,
        };
        if middle && !pressed && self.swallow_middle_release {
            self.swallow_middle_release = false;
            return InputAction::Swallow;
        }
        if middle && pressed && self.config.enabled {
            match self.config.middle_click {
                MiddleClickPaste::Off => {},
                MiddleClickPaste::Primary => {
                    self.swallow_middle_release = true;
                    return InputAction::StartPaste(PasteSource::Primary);
                },
                MiddleClickPaste::Clipboard => {
                    self.swallow_middle_release = true;
                    return InputAction::StartPaste(PasteSource::Clipboard);
                },
            }
        }
        InputAction::Forward(InputEvent::MouseButton { button, pressed })
    }

    /// Records whether the paste just submitted is being typed (it queued at
    /// least one report).
    pub fn paste_submitted(&mut self, typing: bool)
        ensures
            final(self)@ == (RouterView { paste_active: typing, ..old(self)@ }),
    {
        self.paste_active = typing;
    }

    /// Records that the running paste has been typed out.
    pub fn paste_finished(&mut self)
        ensures
            final(self)@ == (RouterView { paste_active: false, ..old(self)@ }),
    {
        self.paste_active = false;
    }

    /// The pointer left the window: the held modifiers are forgotten (the
    /// caller releases everything on the target); a running paste goes on.
    pub fn pointer_left(&mut self)
        ensures
            final(self)@ == (RouterView { modifiers: 0, ..old(self)@ }),
    {
        self.modifiers = Modifiers::none();
    }

    /// Focus lost or window closing: nothing stays held. Returns
    /// whether a running paste was aborted; the caller releases everything
    /// on the target.
    pub fn release_everything(&mut self) -> (r: bool)
        ensures
            r == old(self)@.paste_active,
            final(self)@ == (RouterView { modifiers: 0, paste_active: false, ..old(self)@ }),
    {
        let was_active = self.paste_active;
        self.paste_active = false;
        self.modifiers = Modifiers::none();
        was_active
    }
}

/// A paste shortcut never reaches the target: the press that completes it
/// starts a paste, and afterwards every key of its chord (the trigger and
/// each held modifier) is swallowed, press and repeat alike, until its
/// release, which is swallowed too.
pub proof fn lemma_paste_chord_is_swallowed(
    v: RouterView,
    usage: HidUsage,
    key: HidUsage,
    pressed: bool,
    repeat: bool,
)
    requires
        !v.suppressed.contains(usage.0),
        !(usage.0 == HID_ESCAPE && v.paste_active),
        v.config.enabled,
        spec_is_paste_hotkey(usage, Modifiers(v.modifiers), v.config.shortcut),
        spec_chord_usages(usage, Modifiers(v.modifiers)).contains(key),
    ensures
        route_key(v, usage, true, false).1 == InputAction::StartPaste(PasteSource::Clipboard),
        route_key(route_key(v, usage, true, false).0, key, pressed, repeat).1
            == InputAction::Swallow,
{
    let chord = spec_chord_usages(usage, Modifiers(v.modifiers));
    let i = choose|i: int| 0 <= i < chord.len() && chord[i] == key;
    assert(usage_set(chord, chord.len() as int).contains(key.0));
}

/// A key edge forwarded to the target carries the modifier byte tracked from
/// the physical modifier keys: after a modifier key is pressed its bit is
/// held, after it is released its bit is clear, and other keys change
/// nothing.
pub proof fn lemma_forwarded_modifiers_track_keys(
    v: RouterView,
    usage: HidUsage,
    pressed: bool,
    repeat: bool,
)
    requires
        route_key(v, usage, pressed, repeat).1 is Forward,
        spec_is_modifier(usage.0),
    ensures
        ({
            let bit = 1u8 << ((usage.0 - 0xE0) as u8);
            let m = route_key(v, usage, pressed, repeat).0.modifiers;
            (m & bit != 0) == pressed && forall|other: u8|
                #![trigger (m & other)]
                (other & bit == 0) ==> (m & other) == (v.modifiers & other)
        }),
{
    let s = (usage.0 - 0xE0) as u8;
    let x = v.modifiers;
    assert(s < 8);
    let bit = 1u8 << s;
    assert(s < 8 ==> (1u8 << s) != 0) by (bit_vector);
    assert(forall|o: u8| #[trigger] (x | bit) & o == x & o || o & bit != 0) by (bit_vector)
        requires
            bit == 1u8 << s,
            s < 8,
    ;
    assert(forall|o: u8| #[trigger] (x & !bit) & o == x & o || o & bit != 0) by (bit_vector)
        requires
            bit == 1u8 << s,
            s < 8,
    ;
    assert((x | bit) & bit != 0 && (x & !bit) & bit == 0) by (bit_vector)
        requires
            bit == 1u8 << s,
            s < 8,
    ;
}

} // verus!

//! Decisions of the display frontend that do not need a window: the test
//! pattern shown without a session, how long a paste keeps typing, how to
//! recover from a failed surface acquisition, whether to draw window
//! decorations, the clipboard failure categories, and the mapping of window
//! input (physical keys, modifier state, pointer buttons) to the core event
//! model.

use vstd::prelude::*;

use crate::decode::RgbaImage;
use crate::event::{HidUsage, Modifiers, MouseButton};
use crate::pacing::DEFAULT_COMMAND_GAP_MS;
use crate::paste::PasteOutcome;
use crate::text::{concat_str, decimal, eq_ignore_ascii_case, same_word, spec_decimal, str_eq, trim_white_space, trimmed};
use crate::time::Duration;

verus! {

/// Focused clipboard read failures. Their categories never include
/// clipboard text.
#[derive(Clone, Copy, PartialEq, Eq, Structural, Debug)]
pub enum ClipboardError {
    /// The display server is not Wayland.
    UnsupportedDisplay,
    /// The window's display handle was unavailable.
    DisplayHandle,
    /// The selection was empty.
    Empty,
    /// Reading the regular clipboard failed.
    Load,
    /// Reading the primary selection failed.
    PrimarySelection,
}

impl ClipboardError {
    /// A short, stable category name for status lines and logs.
    pub fn category(&self) -> (r: &'static str)
        ensures
            r@ == match *self {
                ClipboardError::UnsupportedDisplay => "unsupported-display"@,
                ClipboardError::DisplayHandle => "display-handle"@,
                ClipboardError::Empty => "empty"@,
                ClipboardError::Load => "load"@,
                ClipboardError::PrimarySelection => "primary-selection"@,
            },
    {
        match self {
            ClipboardError::UnsupportedDisplay => "unsupported-display",
            ClipboardError::DisplayHandle => "display-handle",
            ClipboardError::Empty => "empty",
            ClipboardError::Load => "load",
            ClipboardError::PrimarySelection => "primary-selection",
        }
    }
}

/// The outcome of acquiring the next surface texture.
#[derive(Clone, Copy, PartialEq, Eq, Structural, Debug)]
pub enum SurfaceStatus {
    /// A texture was acquired.
    Success,
    /// A texture was acquired, but no longer matches the surface.
    Suboptimal,
    /// Acquisition timed out.
    Timeout,
    /// The window is occluded.
    Occluded,
    /// The surface configuration is outdated.
    Outdated,
    /// The surface was lost.
    Lost,
    /// A validation error was raised.
    Validation,
}

/// How to react to a failed surface acquisition.
#[derive(Clone, Copy, PartialEq, Eq, Structural, Debug)]
pub enum SurfaceRecovery {
    /// The surface is outdated; reconfigure and try again.
    Reconfigure,
    /// The surface is lost; recreate it from the window before trying again.
    Recreate,
    /// Transient or fatal-but-rare statuses; skip this frame.
    Skip,
}

/// Maps a surface acquisition status to a recovery action: `Outdated` can
/// reuse the surface after reconfiguration, `Lost` needs a new surface, and
/// everything else skips the frame.
pub fn surface_recovery(status: SurfaceStatus) -> (r: SurfaceRecovery)
    ensures
        r == match status {
            SurfaceStatus::Outdated => SurfaceRecovery::Reconfigure,
            SurfaceStatus::Lost => SurfaceRecovery::Recreate,
            _ => SurfaceRecovery::Skip,
        },
{
    match status {
        SurfaceStatus::Outdated => SurfaceRecovery::Reconfigure,
        SurfaceStatus::Lost => SurfaceRecovery::Recreate,
        _ => SurfaceRecovery::Skip,
    }
}

/// Decorations are requested unless the setting is unset, blank, or (trimmed,
/// ASCII case ignored) `0`, `false`, `no` or `off`.
pub open spec fn spec_decorations_enabled(v: Option<Seq<char>>) -> bool {
    match v {
        None => false,
        Some(s) => {
            let t = trimmed(s);
            !(t.len() == 0 || same_word(t, "0"@) || same_word(t, "false"@) || same_word(t, "no"@)
                || same_word(t, "off"@))
        },
    }
}

/// Whether to request client-side window decorations, from
/// `OPENTERFACE_USE_LIBDECOR`. Defaults to off (undecorated xdg-shell):
/// client-side decorations race the surface presentation on
/// focus/visibility changes on some compositors.
pub fn decorations_enabled(var: Option<String>) -> (r: bool)
    ensures
        r == spec_decorations_enabled(
            match var {
                Some(s) => Some(s@),
                None => None,
            },
        ),
{
    match var {
        Some(v) => {
            let t = trim_white_space(v.as_str());
            let w = t.as_str();
            !(crate::text::chars_of(w).len() == 0 || eq_ignore_ascii_case(w, "0") || eq_ignore_ascii_case(
                w,
                "false",
            ) || eq_ignore_ascii_case(w, "no") || eq_ignore_ascii_case(w, "off"))
        },
        None => false,
    }
}

/// `n`, or 1 when `n` is zero.
pub open spec fn at_least_one(n: nat) -> nat {
    if n == 0 {
        1
    } else {
        n
    }
}

/// Byte `k` of the `width`×`height` gradient test pattern: red grows left
/// to right, green top to bottom, blue is `0x40` and alpha opaque.
pub open spec fn pattern_byte(width: nat, height: nat, k: int) -> u8 {
    let p = k / 4;
    let x = p % (width as int);
    let y = p / (width as int);
    let c = k % 4;
    if c == 0 {
        (x * 255 / (at_least_one(width) as int)) as u8
    } else if c == 1 {
        (y * 255 / (at_least_one(height) as int)) as u8
    } else if c == 2 {
        0x40
    } else {
        0xFF
    }
}

proof fn lemma_pattern_position(width: nat, y: nat, x: nat, c: int)
    requires
        x < width,
        0 <= c < 4,
    ensures
        ((y * width + x) * 4 + c) / 4 == y * width + x,
        ((y * width + x) * 4 + c) % 4 == c,
        ((y * width + x) as int) % (width as int) == x,
        ((y * width + x) as int) / (width as int) == y,
{
    let p = (y * width + x) as int;
    vstd::arithmetic::div_mod::lemma_fundamental_div_mod_converse_div(p * 4 + c, 4, p, c);
    vstd::arithmetic::div_mod::lemma_fundamental_div_mod_converse_mod(p * 4 + c, 4, p, c);
    vstd::arithmetic::div_mod::lemma_fundamental_div_mod_converse_div(
        p,
        width as int,
        y as int,
        x as int,
    );
    vstd::arithmetic::div_mod::lemma_fundamental_div_mod_converse_mod(
        p,
        width as int,
        y as int,
        x as int,
    );
}

/// Builds the RGBA gradient test pattern shown in dummy mode.
pub fn test_pattern(width: u32, height: u32) -> (r: RgbaImage)
    requires
        width * height * 4 <= u32::MAX,
        width == 0 || height == 0 || (width - 1) * 255 <= u32::MAX,
        width == 0 || height == 0 || (height - 1) * 255 <= u32::MAX,
    ensures
        r.width == width,
        r.height == height,
        r.pixels@.len() == width * height * 4,
        forall|k: int|
            0 <= k < r.pixels@.len() ==> r.pixels@[k] == pattern_byte(
                width as nat,
                height as nat,
                k,
            ),
{
    let wdiv: u32 = if width > 0 {
        width
    } else {
        1
    };
    let hdiv: u32 = if height > 0 {
        height
    } else {
        1
    };
    let mut pixels: Vec<u8> = Vec::new();
    let mut y: u32 = 0;
    while y < height
        invariant
            y <= height,
            width * height * 4 <= u32::MAX,
            width == 0 || height == 0 || (width - 1) * 255 <= u32::MAX,
            width == 0 || height == 0 || (height - 1) * 255 <= u32::MAX,
            wdiv == at_least_one(width as nat),
            hdiv == at_least_one(height as nat),
            pixels@.len() == y * width * 4,
            forall|k: int|
                0 <= k < pixels@.len() ==> pixels@[k] == pattern_byte(
                    width as nat,
                    height as nat,
                    k,
                ),
        decreases height - y,
    {
        let mut x: u32 = 0;
        while x < width
            invariant
                x <= width,
                y < height,
                width * height * 4 <= u32::MAX,
                width == 0 || height == 0 || (width - 1) * 255 <= u32::MAX,
                width == 0 || height == 0 || (height - 1) * 255 <= u32::MAX,
                wdiv == at_least_one(width as nat),
                hdiv == at_least_one(height as nat),
                pixels@.len() == (y * width + x) * 4,
                forall|k: int|
                    0 <= k < pixels@.len() ==> pixels@[k] == pattern_byte(
                        width as nat,
                        height as nat,
                        k,
                    ),
            decreases width - x,
        {
            assert(x * 255 <= (width - 1) * 255) by (nonlinear_arith)
                requires
                    x < width,
            ;
            assert(y * 255 <= (height - 1) * 255) by (nonlinear_arith)
                requires
                    y < height,
            ;
            proof {
                assert(x * 255 / (wdiv as int) < 256) by (nonlinear_arith)
                    requires
                        x < wdiv,
                ;
                assert(y * 255 / (hdiv as int) < 256) by (nonlinear_arith)
                    requires
                        y < hdiv,
                ;
            }
            let red = (x * 255 / wdiv) as u8;
            let green = (y * 255 / hdiv) as u8;
            let ghost base = pixels@.len() as int;
            pixels.push(red);
            pixels.push(green);
            pixels.push(0x40);
            pixels.push(0xFF);
            proof {
                assert forall|k: int| 0 <= k < pixels@.len() implies pixels@[k] == pattern_byte(
                    width as nat,
                    height as nat,
                    k,
                ) by {
                    if k >= base {
                        lemma_pattern_position(width as nat, y as nat, x as nat, k - base);
                    }
                }
                assert((y * width + x + 1) * 4 == base + 4) by (nonlinear_arith)
                    requires
                        base == (y * width + x) * 4,
                ;
            }
            x = x + 1;
        }
        assert((y * width + width) * 4 == (y + 1) * width * 4) by (nonlinear_arith);
        y = y + 1;
    }
    assert(y * width * 4 == width * height * 4) by (nonlinear_arith)
        requires
            y == height,
    ;
    RgbaImage { width, height, pixels }
}

/// How long a paste keeps the link busy: one command gap per queued report
/// (saturating).
pub fn estimated_paste_duration(outcome: PasteOutcome) -> (r: Duration)
    ensures
        r@ == (if DEFAULT_COMMAND_GAP_MS * outcome.reports <= u64::MAX {
            DEFAULT_COMMAND_GAP_MS * outcome.reports
        } else {
            u64::MAX as int
        }) * 1_000_000,
{
    let millis = match DEFAULT_COMMAND_GAP_MS.checked_mul(outcome.reports as u64) {
        Some(v) => v,
        None => u64::MAX,
    };
    Duration::from_millis(millis)
}

/// The CH9329 modifier byte for the host's modifier state: each held family
/// maps to its left-side bit.
pub fn modifiers_from_state(control: bool, shift: bool, alt: bool, super_key: bool) -> (r:
    Modifiers)
    ensures
        r.0 == (if control {
            0x01u8
        } else {
            0
        }) | (if shift {
            0x02u8
        } else {
            0
        }) | (if alt {
            0x04u8
        } else {
            0
        }) | (if super_key {
            0x08u8
        } else {
            0
        }),
{
    let mut m = Modifiers::none();
    if control {
        m = m.union(Modifiers::left_ctrl());
    }
    if shift {
        m = m.union(Modifiers::left_shift());
    }
    if alt {
        m = m.union(Modifiers::left_alt());
    }
    if super_key {
        m = m.union(Modifiers::left_gui());
    }
    proof {
        let (c, s, a, g) = (control, shift, alt, super_key);
        assert(0u8 | 0 == 0u8) by (bit_vector);
        assert(forall|v: u8| #[trigger] (v | 0u8) == v) by (bit_vector);
        assert(forall|v: u8| #[trigger] (0u8 | v) == v) by (bit_vector);
    }
    m
}

/// The pointer buttons a window reports.
#[derive(Clone, Copy, PartialEq, Eq, Structural, Debug)]
pub enum PointerButton {
    /// The primary button.
    Left,
    /// The secondary button.
    Right,
    /// The wheel button.
    Middle,
    /// The "back" side button.
    Back,
    /// The "forward" side button.
    Forward,
    /// Any other button, by number.
    Other(u16),
}

/// Maps a window pointer button to a core [`MouseButton`], if the target
/// supports it.
pub fn mouse_button(button: PointerButton) -> (r: Option<MouseButton>)
    ensures
        r == match button {
            PointerButton::Left => Some(MouseButton::Left),
            PointerButton::Right => Some(MouseButton::Right),
            PointerButton::Middle => Some(MouseButton::Middle),
            _ => None,
        },
{
    match button {
        PointerButton::Left => Some(MouseButton::Left),
        PointerButton::Right => Some(MouseButton::Right),
        PointerButton::Middle => Some(MouseButton::Middle),
        _ => None,
    }
}

} // verus!

verus! {

/// A physical key, named by its W3C `code` (the key's position, whatever
/// the host layout), as far as the target keyboard has it.
#[derive(Clone, Copy, PartialEq, Eq, Structural, Debug)]
pub enum PhysicalKeyCode {
    /// The `KeyA` key.
    KeyA,
    /// The `KeyB` key.
    KeyB,
    /// The `KeyC` key.
    KeyC,
    /// The `KeyD` key.
    KeyD,
    /// The `KeyE` key.
    KeyE,
    /// The `KeyF` key.
    KeyF,
    /// The `KeyG` key.
    KeyG,
    /// The `KeyH` key.
    KeyH,
    /// The `KeyI` key.
    KeyI,
    /// The `KeyJ` key.
    KeyJ,
    /// The `KeyK` key.
    KeyK,
    /// The `KeyL` key.
    KeyL,
    /// The `KeyM` key.
    KeyM,
    /// The `KeyN` key.
    KeyN,
    /// The `KeyO` key.
    KeyO,
    /// The `KeyP` key.
    KeyP,
    /// The `KeyQ` key.
    KeyQ,
    /// The `KeyR` key.
    KeyR,
    /// The `KeyS` key.
    KeyS,
    /// The `KeyT` key.
    KeyT,
    /// The `KeyU` key.
    KeyU,
    /// The `KeyV` key.
    KeyV,
    /// The `KeyW` key.
    KeyW,
    /// The `KeyX` key.
    KeyX,
    /// The `KeyY` key.
    KeyY,
    /// The `KeyZ` key.
    KeyZ,
    /// The `Digit1` key.
    Digit1,
    /// The `Digit2` key.
    Digit2,
    /// The `Digit3` key.
    Digit3,
    /// The `Digit4` key.
    Digit4,
    /// The `Digit5` key.
    Digit5,
    /// The `Digit6` key.
    Digit6,
    /// The `Digit7` key.
    Digit7,
    /// The `Digit8` key.
    Digit8,
    /// The `Digit9` key.
    Digit9,
    /// The `Digit0` key.
    Digit0,
    /// The `Enter` key.
    Enter,
    /// The `Escape` key.
    Escape,
    /// The `Backspace` key.
    Backspace,
    /// The `Tab` key.
    Tab,
    /// The `Space` key.
    Space,
    /// The `Minus` key.
    Minus,
    /// The `Equal` key.
    Equal,
    /// The `BracketLeft` key.
    BracketLeft,
    /// The `BracketRight` key.
    BracketRight,
    /// The `Backslash` key.
    Backslash,
    /// The `Semicolon` key.
    Semicolon,
    /// The `Quote` key.
    Quote,
    /// The `Backquote` key.
    Backquote,
    /// The `Comma` key.
    Comma,
    /// The `Period` key.
    Period,
    /// The `Slash` key.
    Slash,
    /// The `CapsLock` key.
    CapsLock,
    /// The `F1` key.
    F1,
    /// The `F2` key.
    F2,
    /// The `F3` key.
    F3,
    /// The `F4` key.
    F4,
    /// The `F5` key.
    F5,
    /// The `F6` key.
    F6,
    /// The `F7` key.
    F7,
    /// The `F8` key.
    F8,
    /// The `F9` key.
    F9,
    /// The `F10` key.
    F10,
    /// The `F11` key.
    F11,
    /// The `F12` key.
    F12,
    /// The `PrintScreen` key.
    PrintScreen,
    /// The `ScrollLock` key.
    ScrollLock,
    /// The `Pause` key.
    Pause,
    /// The `Insert` key.
    Insert,
    /// The `Home` key.
    Home,
    /// The `PageUp` key.
    PageUp,
    /// The `Delete` key.
    Delete,
    /// The `End` key.
    End,
    /// The `PageDown` key.
    PageDown,
    /// The `ArrowRight` key.
    ArrowRight,
    /// The `ArrowLeft` key.
    ArrowLeft,
    /// The `ArrowDown` key.
    ArrowDown,
    /// The `ArrowUp` key.
    ArrowUp,
    /// The `NumLock` key.
    NumLock,
    /// The `NumpadDivide` key.
    NumpadDivide,
    /// The `NumpadMultiply` key.
    NumpadMultiply,
    /// The `NumpadSubtract` key.
    NumpadSubtract,
    /// The `NumpadAdd` key.
    NumpadAdd,
    /// The `NumpadEnter` key.
    NumpadEnter,
    /// The `Numpad1` key.
    Numpad1,
    /// The `Numpad2` key.
    Numpad2,
    /// The `Numpad3` key.
    Numpad3,
    /// The `Numpad4` key.
    Numpad4,
    /// The `Numpad5` key.
    Numpad5,
    /// The `Numpad6` key.
    Numpad6,
    /// The `Numpad7` key.
    Numpad7,
    /// The `Numpad8` key.
    Numpad8,
    /// The `Numpad9` key.
    Numpad9,
    /// The `Numpad0` key.
    Numpad0,
    /// The `NumpadDecimal` key.
    NumpadDecimal,
    /// The `IntlBackslash` key.
    IntlBackslash,
    /// The `ControlLeft` key.
    ControlLeft,
    /// The `ShiftLeft` key.
    ShiftLeft,
    /// The `AltLeft` key.
    AltLeft,
    /// The `SuperLeft` key.
    SuperLeft,
    /// The `ControlRight` key.
    ControlRight,
    /// The `ShiftRight` key.
    ShiftRight,
    /// The `AltRight` key.
    AltRight,
    /// The `SuperRight` key.
    SuperRight,
    /// Any other physical key (or an unidentified one).
    Unmapped,
}

/// The USB HID usage (page 0x07) of each physical key the target has.
pub open spec fn spec_keycode_usage(code: PhysicalKeyCode) -> Option<u8> {
    match code {
        PhysicalKeyCode::KeyA => Some(0x04u8),
        PhysicalKeyCode::KeyB => Some(0x05u8),
        PhysicalKeyCode::KeyC => Some(0x06u8),
        PhysicalKeyCode::KeyD => Some(0x07u8),
        PhysicalKeyCode::KeyE => Some(0x08u8),
        PhysicalKeyCode::KeyF => Some(0x09u8),
        PhysicalKeyCode::KeyG => Some(0x0Au8),
        PhysicalKeyCode::KeyH => Some(0x0Bu8),
        PhysicalKeyCode::KeyI => Some(0x0Cu8),
        PhysicalKeyCode::KeyJ => Some(0x0Du8),
        PhysicalKeyCode::KeyK => Some(0x0Eu8),
        PhysicalKeyCode::KeyL => Some(0x0Fu8),
        PhysicalKeyCode::KeyM => Some(0x10u8),
        PhysicalKeyCode::KeyN => Some(0x11u8),
        PhysicalKeyCode::KeyO => Some(0x12u8),
        PhysicalKeyCode::KeyP => Some(0x13u8),
        PhysicalKeyCode::KeyQ => Some(0x14u8),
        PhysicalKeyCode::KeyR => Some(0x15u8),
        PhysicalKeyCode::KeyS => Some(0x16u8),
        PhysicalKeyCode::KeyT => Some(0x17u8),
        PhysicalKeyCode::KeyU => Some(0x18u8),
        PhysicalKeyCode::KeyV => Some(0x19u8),
        PhysicalKeyCode::KeyW => Some(0x1Au8),
        PhysicalKeyCode::KeyX => Some(0x1Bu8),
        PhysicalKeyCode::KeyY => Some(0x1Cu8),
        PhysicalKeyCode::KeyZ => Some(0x1Du8),
        PhysicalKeyCode::Digit1 => Some(0x1Eu8),
        PhysicalKeyCode::Digit2 => Some(0x1Fu8),
        PhysicalKeyCode::Digit3 => Some(0x20u8),
        PhysicalKeyCode::Digit4 => Some(0x21u8),
        PhysicalKeyCode::Digit5 => Some(0x22u8),
        PhysicalKeyCode::Digit6 => Some(0x23u8),
        PhysicalKeyCode::Digit7 => Some(0x24u8),
        PhysicalKeyCode::Digit8 => Some(0x25u8),
        PhysicalKeyCode::Digit9 => Some(0x26u8),
        PhysicalKeyCode::Digit0 => Some(0x27u8),
        PhysicalKeyCode::Enter => Some(0x28u8),
        PhysicalKeyCode::Escape => Some(0x29u8),
        PhysicalKeyCode::Backspace => Some(0x2Au8),
        PhysicalKeyCode::Tab => Some(0x2Bu8),
        PhysicalKeyCode::Space => Some(0x2Cu8),
        PhysicalKeyCode::Minus => Some(0x2Du8),
        PhysicalKeyCode::Equal => Some(0x2Eu8),
        PhysicalKeyCode::BracketLeft => Some(0x2Fu8),
        PhysicalKeyCode::BracketRight => Some(0x30u8),
        PhysicalKeyCode::Backslash => Some(0x31u8),
        PhysicalKeyCode::Semicolon => Some(0x33u8),
        PhysicalKeyCode::Quote => Some(0x34u8),
        PhysicalKeyCode::Backquote => Some(0x35u8),
        PhysicalKeyCode::Comma => Some(0x36u8),
        PhysicalKeyCode::Period => Some(0x37u8),
        PhysicalKeyCode::Slash => Some(0x38u8),
        PhysicalKeyCode::CapsLock => Some(0x39u8),
        PhysicalKeyCode::F1 => Some(0x3Au8),
        PhysicalKeyCode::F2 => Some(0x3Bu8),
        PhysicalKeyCode::F3 => Some(0x3Cu8),
        PhysicalKeyCode::F4 => Some(0x3Du8),
        PhysicalKeyCode::F5 => Some(0x3Eu8),
        PhysicalKeyCode::F6 => Some(0x3Fu8),
        PhysicalKeyCode::F7 => Some(0x40u8),
        PhysicalKeyCode::F8 => Some(0x41u8),
        PhysicalKeyCode::F9 => Some(0x42u8),
        PhysicalKeyCode::F10 => Some(0x43u8),
        PhysicalKeyCode::F11 => Some(0x44u8),
        PhysicalKeyCode::F12 => Some(0x45u8),
        PhysicalKeyCode::PrintScreen => Some(0x46u8),
        PhysicalKeyCode::ScrollLock => Some(0x47u8),
        PhysicalKeyCode::Pause => Some(0x48u8),
        PhysicalKeyCode::Insert => Some(0x49u8),
        PhysicalKeyCode::Home => Some(0x4Au8),
        PhysicalKeyCode::PageUp => Some(0x4Bu8),
        PhysicalKeyCode::Delete => Some(0x4Cu8),
        PhysicalKeyCode::End => Some(0x4Du8),
        PhysicalKeyCode::PageDown => Some(0x4Eu8),
        PhysicalKeyCode::ArrowRight => Some(0x4Fu8),
        PhysicalKeyCode::ArrowLeft => Some(0x50u8),
        PhysicalKeyCode::ArrowDown => Some(0x51u8),
        PhysicalKeyCode::ArrowUp => Some(0x52u8),
        PhysicalKeyCode::NumLock => Some(0x53u8),
        PhysicalKeyCode::NumpadDivide => Some(0x54u8),
        PhysicalKeyCode::NumpadMultiply => Some(0x55u8),
        PhysicalKeyCode::NumpadSubtract => Some(0x56u8),
        PhysicalKeyCode::NumpadAdd => Some(0x57u8),
        PhysicalKeyCode::NumpadEnter => Some(0x58u8),
        PhysicalKeyCode::Numpad1 => Some(0x59u8),
        PhysicalKeyCode::Numpad2 => Some(0x5Au8),
        PhysicalKeyCode::Numpad3 => Some(0x5Bu8),
        PhysicalKeyCode::Numpad4 => Some(0x5Cu8),
        PhysicalKeyCode::Numpad5 => Some(0x5Du8),
        PhysicalKeyCode::Numpad6 => Some(0x5Eu8),
        PhysicalKeyCode::Numpad7 => Some(0x5Fu8),
        PhysicalKeyCode::Numpad8 => Some(0x60u8),
        PhysicalKeyCode::Numpad9 => Some(0x61u8),
        PhysicalKeyCode::Numpad0 => Some(0x62u8),
        PhysicalKeyCode::NumpadDecimal => Some(0x63u8),
        PhysicalKeyCode::IntlBackslash => Some(0x64u8),
        PhysicalKeyCode::ControlLeft => Some(0xE0u8),
        PhysicalKeyCode::ShiftLeft => Some(0xE1u8),
        PhysicalKeyCode::AltLeft => Some(0xE2u8),
        PhysicalKeyCode::SuperLeft => Some(0xE3u8),
        PhysicalKeyCode::ControlRight => Some(0xE4u8),
        PhysicalKeyCode::ShiftRight => Some(0xE5u8),
        PhysicalKeyCode::AltRight => Some(0xE6u8),
        PhysicalKeyCode::SuperRight => Some(0xE7u8),
        PhysicalKeyCode::Unmapped => None,
    }
}

/// The physical key that the USB HID Usage Tables (Keyboard page 0x07) name
/// for a usage, among the keys the target keyboard has.
pub open spec fn usage_key(usage: u8) -> Option<PhysicalKeyCode> {
    match usage {
        0x04u8 => Some(PhysicalKeyCode::KeyA),
        0x05u8 => Some(PhysicalKeyCode::KeyB),
        0x06u8 => Some(PhysicalKeyCode::KeyC),
        0x07u8 => Some(PhysicalKeyCode::KeyD),
        0x08u8 => Some(PhysicalKeyCode::KeyE),
        0x09u8 => Some(PhysicalKeyCode::KeyF),
        0x0Au8 => Some(PhysicalKeyCode::KeyG),
        0x0Bu8 => Some(PhysicalKeyCode::KeyH),
        0x0Cu8 => Some(PhysicalKeyCode::KeyI),
        0x0Du8 => Some(PhysicalKeyCode::KeyJ),
        0x0Eu8 => Some(PhysicalKeyCode::KeyK),
        0x0Fu8 => Some(PhysicalKeyCode::KeyL),
        0x10u8 => Some(PhysicalKeyCode::KeyM),
        0x11u8 => Some(PhysicalKeyCode::KeyN),
        0x12u8 => Some(PhysicalKeyCode::KeyO),
        0x13u8 => Some(PhysicalKeyCode::KeyP),
        0x14u8 => Some(PhysicalKeyCode::KeyQ),
        0x15u8 => Some(PhysicalKeyCode::KeyR),
        0x16u8 => Some(PhysicalKeyCode::KeyS),
        0x17u8 => Some(PhysicalKeyCode::KeyT),
        0x18u8 => Some(PhysicalKeyCode::KeyU),
        0x19u8 => Some(PhysicalKeyCode::KeyV),
        0x1Au8 => Some(PhysicalKeyCode::KeyW),
        0x1Bu8 => Some(PhysicalKeyCode::KeyX),
        0x1Cu8 => Some(PhysicalKeyCode::KeyY),
        0x1Du8 => Some(PhysicalKeyCode::KeyZ),
        0x1Eu8 => Some(PhysicalKeyCode::Digit1),
        0x1Fu8 => Some(PhysicalKeyCode::Digit2),
        0x20u8 => Some(PhysicalKeyCode::Digit3),
        0x21u8 => Some(PhysicalKeyCode::Digit4),
        0x22u8 => Some(PhysicalKeyCode::Digit5),
        0x23u8 => Some(PhysicalKeyCode::Digit6),
        0x24u8 => Some(PhysicalKeyCode::Digit7),
        0x25u8 => Some(PhysicalKeyCode::Digit8),
        0x26u8 => Some(PhysicalKeyCode::Digit9),
        0x27u8 => Some(PhysicalKeyCode::Digit0),
        0x28u8 => Some(PhysicalKeyCode::Enter),
        0x29u8 => Some(PhysicalKeyCode::Escape),
        0x2Au8 => Some(PhysicalKeyCode::Backspace),
        0x2Bu8 => Some(PhysicalKeyCode::Tab),
        0x2Cu8 => Some(PhysicalKeyCode::Space),
        0x2Du8 => Some(PhysicalKeyCode::Minus),
        0x2Eu8 => Some(PhysicalKeyCode::Equal),
        0x2Fu8 => Some(PhysicalKeyCode::BracketLeft),
        0x30u8 => Some(PhysicalKeyCode::BracketRight),
        0x31u8 => Some(PhysicalKeyCode::Backslash),
        0x33u8 => Some(PhysicalKeyCode::Semicolon),
        0x34u8 => Some(PhysicalKeyCode::Quote),
        0x35u8 => Some(PhysicalKeyCode::Backquote),
        0x36u8 => Some(PhysicalKeyCode::Comma),
        0x37u8 => Some(PhysicalKeyCode::Period),
        0x38u8 => Some(PhysicalKeyCode::Slash),
        0x39u8 => Some(PhysicalKeyCode::CapsLock),
        0x3Au8 => Some(PhysicalKeyCode::F1),
        0x3Bu8 => Some(PhysicalKeyCode::F2),
        0x3Cu8 => Some(PhysicalKeyCode::F3),
        0x3Du8 => Some(PhysicalKeyCode::F4),
        0x3Eu8 => Some(PhysicalKeyCode::F5),
        0x3Fu8 => Some(PhysicalKeyCode::F6),
        0x40u8 => Some(PhysicalKeyCode::F7),
        0x41u8 => Some(PhysicalKeyCode::F8),
        0x42u8 => Some(PhysicalKeyCode::F9),
        0x43u8 => Some(PhysicalKeyCode::F10),
        0x44u8 => Some(PhysicalKeyCode::F11),
        0x45u8 => Some(PhysicalKeyCode::F12),
        0x46u8 => Some(PhysicalKeyCode::PrintScreen),
        0x47u8 => Some(PhysicalKeyCode::ScrollLock),
        0x48u8 => Some(PhysicalKeyCode::Pause),
        0x49u8 => Some(PhysicalKeyCode::Insert),
        0x4Au8 => Some(PhysicalKeyCode::Home),
        0x4Bu8 => Some(PhysicalKeyCode::PageUp),
        0x4Cu8 => Some(PhysicalKeyCode::Delete),
        0x4Du8 => Some(PhysicalKeyCode::End),
        0x4Eu8 => Some(PhysicalKeyCode::PageDown),
        0x4Fu8 => Some(PhysicalKeyCode::ArrowRight),
        0x50u8 => Some(PhysicalKeyCode::ArrowLeft),
        0x51u8 => Some(PhysicalKeyCode::ArrowDown),
        0x52u8 => Some(PhysicalKeyCode::ArrowUp),
        0x53u8 => Some(PhysicalKeyCode::NumLock),
        0x54u8 => Some(PhysicalKeyCode::NumpadDivide),
        0x55u8 => Some(PhysicalKeyCode::NumpadMultiply),
        0x56u8 => Some(PhysicalKeyCode::NumpadSubtract),
        0x57u8 => Some(PhysicalKeyCode::NumpadAdd),
        0x58u8 => Some(PhysicalKeyCode::NumpadEnter),
        0x59u8 => Some(PhysicalKeyCode::Numpad1),
        0x5Au8 => Some(PhysicalKeyCode::Numpad2),
        0x5Bu8 => Some(PhysicalKeyCode::Numpad3),
        0x5Cu8 => Some(PhysicalKeyCode::Numpad4),
        0x5Du8 => Some(PhysicalKeyCode::Numpad5),
        0x5Eu8 => Some(PhysicalKeyCode::Numpad6),
        0x5Fu8 => Some(PhysicalKeyCode::Numpad7),
        0x60u8 => Some(PhysicalKeyCode::Numpad8),
        0x61u8 => Some(PhysicalKeyCode::Numpad9),
        0x62u8 => Some(PhysicalKeyCode::Numpad0),
        0x63u8 => Some(PhysicalKeyCode::NumpadDecimal),
        0x64u8 => Some(PhysicalKeyCode::IntlBackslash),
        0xE0u8 => Some(PhysicalKeyCode::ControlLeft),
        0xE1u8 => Some(PhysicalKeyCode::ShiftLeft),
        0xE2u8 => Some(PhysicalKeyCode::AltLeft),
        0xE3u8 => Some(PhysicalKeyCode::SuperLeft),
        0xE4u8 => Some(PhysicalKeyCode::ControlRight),
        0xE5u8 => Some(PhysicalKeyCode::ShiftRight),
        0xE6u8 => Some(PhysicalKeyCode::AltRight),
        0xE7u8 => Some(PhysicalKeyCode::SuperRight),
        _ => None,
    }
}

/// Every physical key is sent as the usage the HID tables assign to that
/// same key, so no two keys share a usage (the target never sees one key
/// for another).
pub proof fn lemma_keycode_usage_matches_tables(a: PhysicalKeyCode, b: PhysicalKeyCode)
    ensures
        spec_keycode_usage(a) matches Some(u) ==> usage_key(u) == Some(a),
        spec_keycode_usage(a) is Some && spec_keycode_usage(a) == spec_keycode_usage(b) ==> a == b,
{
}

/// Maps a physical key to its USB HID usage (Usage Page 0x07), so the target
/// sees the same physical key regardless of the host layout.
pub fn keycode_to_hid(code: PhysicalKeyCode) -> (r: Option<HidUsage>)
    ensures
        match spec_keycode_usage(code) {
            Some(u) => r == Some(HidUsage(u)),
            None => r is None,
        },
{
    let u: u8 = match code {
        PhysicalKeyCode::KeyA => 0x04,
        PhysicalKeyCode::KeyB => 0x05,
        PhysicalKeyCode::KeyC => 0x06,
        PhysicalKeyCode::KeyD => 0x07,
        PhysicalKeyCode::KeyE => 0x08,
        PhysicalKeyCode::KeyF => 0x09,
        PhysicalKeyCode::KeyG => 0x0A,
        PhysicalKeyCode::KeyH => 0x0B,
        PhysicalKeyCode::KeyI => 0x0C,
        PhysicalKeyCode::KeyJ => 0x0D,
        PhysicalKeyCode::KeyK => 0x0E,
        PhysicalKeyCode::KeyL => 0x0F,
        PhysicalKeyCode::KeyM => 0x10,
        PhysicalKeyCode::KeyN => 0x11,
        PhysicalKeyCode::KeyO => 0x12,
        PhysicalKeyCode::KeyP => 0x13,
        PhysicalKeyCode::KeyQ => 0x14,
        PhysicalKeyCode::KeyR => 0x15,
        PhysicalKeyCode::KeyS => 0x16,
        PhysicalKeyCode::KeyT => 0x17,
        PhysicalKeyCode::KeyU => 0x18,
        PhysicalKeyCode::KeyV => 0x19,
        PhysicalKeyCode::KeyW => 0x1A,
        PhysicalKeyCode::KeyX => 0x1B,
        PhysicalKeyCode::KeyY => 0x1C,
        PhysicalKeyCode::KeyZ => 0x1D,
        PhysicalKeyCode::Digit1 => 0x1E,
        PhysicalKeyCode::Digit2 => 0x1F,
        PhysicalKeyCode::Digit3 => 0x20,
        PhysicalKeyCode::Digit4 => 0x21,
        PhysicalKeyCode::Digit5 => 0x22,
        PhysicalKeyCode::Digit6 => 0x23,
        PhysicalKeyCode::Digit7 => 0x24,
        PhysicalKeyCode::Digit8 => 0x25,
        PhysicalKeyCode::Digit9 => 0x26,
        PhysicalKeyCode::Digit0 => 0x27,
        PhysicalKeyCode::Enter => 0x28,
        PhysicalKeyCode::Escape => 0x29,
        PhysicalKeyCode::Backspace => 0x2A,
        PhysicalKeyCode::Tab => 0x2B,
        PhysicalKeyCode::Space => 0x2C,
        PhysicalKeyCode::Minus => 0x2D,
        PhysicalKeyCode::Equal => 0x2E,
        PhysicalKeyCode::BracketLeft => 0x2F,
        PhysicalKeyCode::BracketRight => 0x30,
        PhysicalKeyCode::Backslash => 0x31,
        PhysicalKeyCode::Semicolon => 0x33,
        PhysicalKeyCode::Quote => 0x34,
        PhysicalKeyCode::Backquote => 0x35,
        PhysicalKeyCode::Comma => 0x36,
        PhysicalKeyCode::Period => 0x37,
        PhysicalKeyCode::Slash => 0x38,
        PhysicalKeyCode::CapsLock => 0x39,
        PhysicalKeyCode::F1 => 0x3A,
        PhysicalKeyCode::F2 => 0x3B,
        PhysicalKeyCode::F3 => 0x3C,
        PhysicalKeyCode::F4 => 0x3D,
        PhysicalKeyCode::F5 => 0x3E,
        PhysicalKeyCode::F6 => 0x3F,
        PhysicalKeyCode::F7 => 0x40,
        PhysicalKeyCode::F8 => 0x41,
        PhysicalKeyCode::F9 => 0x42,
        PhysicalKeyCode::F10 => 0x43,
        PhysicalKeyCode::F11 => 0x44,
        PhysicalKeyCode::F12 => 0x45,
        PhysicalKeyCode::PrintScreen => 0x46,
        PhysicalKeyCode::ScrollLock => 0x47,
        PhysicalKeyCode::Pause => 0x48,
        PhysicalKeyCode::Insert => 0x49,
        PhysicalKeyCode::Home => 0x4A,
        PhysicalKeyCode::PageUp => 0x4B,
        PhysicalKeyCode::Delete => 0x4C,
        PhysicalKeyCode::End => 0x4D,
        PhysicalKeyCode::PageDown => 0x4E,
        PhysicalKeyCode::ArrowRight => 0x4F,
        PhysicalKeyCode::ArrowLeft => 0x50,
        PhysicalKeyCode::ArrowDown => 0x51,
        PhysicalKeyCode::ArrowUp => 0x52,
        PhysicalKeyCode::NumLock => 0x53,
        PhysicalKeyCode::NumpadDivide => 0x54,
        PhysicalKeyCode::NumpadMultiply => 0x55,
        PhysicalKeyCode::NumpadSubtract => 0x56,
        PhysicalKeyCode::NumpadAdd => 0x57,
        PhysicalKeyCode::NumpadEnter => 0x58,
        PhysicalKeyCode::Numpad1 => 0x59,
        PhysicalKeyCode::Numpad2 => 0x5A,
        PhysicalKeyCode::Numpad3 => 0x5B,
        PhysicalKeyCode::Numpad4 => 0x5C,
        PhysicalKeyCode::Numpad5 => 0x5D,
        PhysicalKeyCode::Numpad6 => 0x5E,
        PhysicalKeyCode::Numpad7 => 0x5F,
        PhysicalKeyCode::Numpad8 => 0x60,
        PhysicalKeyCode::Numpad9 => 0x61,
        PhysicalKeyCode::Numpad0 => 0x62,
        PhysicalKeyCode::NumpadDecimal => 0x63,
        PhysicalKeyCode::IntlBackslash => 0x64,
        PhysicalKeyCode::ControlLeft => 0xE0,
        PhysicalKeyCode::ShiftLeft => 0xE1,
        PhysicalKeyCode::AltLeft => 0xE2,
        PhysicalKeyCode::SuperLeft => 0xE3,
        PhysicalKeyCode::ControlRight => 0xE4,
        PhysicalKeyCode::ShiftRight => 0xE5,
        PhysicalKeyCode::AltRight => 0xE6,
        PhysicalKeyCode::SuperRight => 0xE7,
        PhysicalKeyCode::Unmapped => return None,
    };
    Some(HidUsage(u))
}

} // verus!

verus! {

/// Fullscreen is requested unless the setting, trimmed, is empty, `0`,
/// `false`, `no` or `off` (`OPENTERFACE_FULLSCREEN`; unset means windowed).
pub open spec fn spec_fullscreen_enabled(v: Option<Seq<char>>) -> bool {
    match v {
        None => false,
        Some(s) => {
            let t = trimmed(s);
            !(t.len() == 0 || t == "0"@ || t == "false"@ || t == "no"@ || t == "off"@)
        },
    }
}

/// Whether to open the window fullscreen.
pub fn fullscreen_enabled(var: Option<&str>) -> (r: bool)
    ensures
        r == spec_fullscreen_enabled(
            match var {
                Some(s) => Some(s@),
                None => None,
            },
        ),
{
    match var {
        Some(v) => {
            let t = trim_white_space(v);
            let w = t.as_str();
            !(crate::text::chars_of(w).len() == 0 || str_eq(w, "0") || str_eq(w, "false") || str_eq(
                w,
                "no",
            ) || str_eq(w, "off"))
        },
        None => false,
    }
}

/// How long a status line stays up.
#[derive(Clone, Copy, PartialEq, Eq, Structural, Debug)]
pub enum StatusLifetime {
    /// Until replaced.
    Linger,
    /// Until the paste has been typed.
    UntilPasteEnds,
}

/// The status line reporting a paste: what was typed, skipped and truncated.
pub open spec fn paste_status_text(o: PasteOutcome) -> (Seq<char>, StatusLifetime) {
    let s = o.stats;
    let n = |v: usize| spec_decimal(v as nat);
    if s.submitted > 0 && (s.truncated > 0 || s.skipped > 0) {
        (
            "Pasting "@ + n(s.submitted) + " chars... skipped "@ + n(s.skipped) + ", truncated "@ + n(
                s.truncated,
            ) + " \u{2014} Esc aborts"@,
            StatusLifetime::UntilPasteEnds,
        )
    } else if s.truncated > 0 || s.skipped > 0 {
        (
            "Paste warning: no mappable text, skipped "@ + n(s.skipped) + ", truncated "@ + n(
                s.truncated,
            ),
            StatusLifetime::Linger,
        )
    } else if s.submitted == 0 {
        ("Paste warning: no mappable text"@, StatusLifetime::Linger)
    } else {
        ("Pasting "@ + n(s.submitted) + " chars... Esc aborts"@, StatusLifetime::UntilPasteEnds)
    }
}

/// The status line (and its lifetime) that reports a paste outcome.
pub fn paste_status(outcome: PasteOutcome) -> (r: (String, StatusLifetime))
    ensures
        (r.0@, r.1) == paste_status_text(outcome),
{
    let s = outcome.stats;
    if s.submitted > 0 && (s.truncated > 0 || s.skipped > 0) {
        let m = concat_str("Pasting ", decimal(s.submitted as u64).as_str());
        let m = concat_str(m.as_str(), " chars... skipped ");
        let m = concat_str(m.as_str(), decimal(s.skipped as u64).as_str());
        let m = concat_str(m.as_str(), ", truncated ");
        let m = concat_str(m.as_str(), decimal(s.truncated as u64).as_str());
        let m = concat_str(m.as_str(), " \u{2014} Esc aborts");
        (m, StatusLifetime::UntilPasteEnds)
    } else if s.truncated > 0 || s.skipped > 0 {
        let m = concat_str("Paste warning: no mappable text, skipped ", decimal(s.skipped as u64).as_str());
        let m = concat_str(m.as_str(), ", truncated ");
        let m = concat_str(m.as_str(), decimal(s.truncated as u64).as_str());
        (m, StatusLifetime::Linger)
    } else if s.submitted == 0 {
        ("Paste warning: no mappable text".to_owned(), StatusLifetime::Linger)
    } else {
        let m = concat_str("Pasting ", decimal(s.submitted as u64).as_str());
        let m = concat_str(m.as_str(), " chars... Esc aborts");
        (m, StatusLifetime::UntilPasteEnds)
    }
}

} // verus!

verus! {

/// The physical key (by its W3C code name) that a Linux evdev `KEY_*` code
/// denotes, for the keys both name alike.
pub open spec fn evdev_physical_key(code: u16) -> Option<PhysicalKeyCode> {
    match code {
        1 => Some(PhysicalKeyCode::Escape),
        2 => Some(PhysicalKeyCode::Digit1),
        3 => Some(PhysicalKeyCode::Digit2),
        4 => Some(PhysicalKeyCode::Digit3),
        5 => Some(PhysicalKeyCode::Digit4),
        6 => Some(PhysicalKeyCode::Digit5),
        7 => Some(PhysicalKeyCode::Digit6),
        8 => Some(PhysicalKeyCode::Digit7),
        9 => Some(PhysicalKeyCode::Digit8),
        10 => Some(PhysicalKeyCode::Digit9),
        11 => Some(PhysicalKeyCode::Digit0),
        12 => Some(PhysicalKeyCode::Minus),
        13 => Some(PhysicalKeyCode::Equal),
        14 => Some(PhysicalKeyCode::Backspace),
        15 => Some(PhysicalKeyCode::Tab),
        16 => Some(PhysicalKeyCode::KeyQ),
        17 => Some(PhysicalKeyCode::KeyW),
        18 => Some(PhysicalKeyCode::KeyE),
        19 => Some(PhysicalKeyCode::KeyR),
        20 => Some(PhysicalKeyCode::KeyT),
        21 => Some(PhysicalKeyCode::KeyY),
        22 => Some(PhysicalKeyCode::KeyU),
        23 => Some(PhysicalKeyCode::KeyI),
        24 => Some(PhysicalKeyCode::KeyO),
        25 => Some(PhysicalKeyCode::KeyP),
        26 => Some(PhysicalKeyCode::BracketLeft),
        27 => Some(PhysicalKeyCode::BracketRight),
        28 => Some(PhysicalKeyCode::Enter),
        29 => Some(PhysicalKeyCode::ControlLeft),
        30 => Some(PhysicalKeyCode::KeyA),
        31 => Some(PhysicalKeyCode::KeyS),
        32 => Some(PhysicalKeyCode::KeyD),
        33 => Some(PhysicalKeyCode::KeyF),
        34 => Some(PhysicalKeyCode::KeyG),
        35 => Some(PhysicalKeyCode::KeyH),
        36 => Some(PhysicalKeyCode::KeyJ),
        37 => Some(PhysicalKeyCode::KeyK),
        38 => Some(PhysicalKeyCode::KeyL),
        39 => Some(PhysicalKeyCode::Semicolon),
        40 => Some(PhysicalKeyCode::Quote),
        41 => Some(PhysicalKeyCode::Backquote),
        42 => Some(PhysicalKeyCode::ShiftLeft),
        44 => Some(PhysicalKeyCode::KeyZ),
        45 => Some(PhysicalKeyCode::KeyX),
        46 => Some(PhysicalKeyCode::KeyC),
        47 => Some(PhysicalKeyCode::KeyV),
        48 => Some(PhysicalKeyCode::KeyB),
        49 => Some(PhysicalKeyCode::KeyN),
        50 => Some(PhysicalKeyCode::KeyM),
        51 => Some(PhysicalKeyCode::Comma),
        52 => Some(PhysicalKeyCode::Period),
        53 => Some(PhysicalKeyCode::Slash),
        54 => Some(PhysicalKeyCode::ShiftRight),
        55 => Some(PhysicalKeyCode::NumpadMultiply),
        56 => Some(PhysicalKeyCode::AltLeft),
        57 => Some(PhysicalKeyCode::Space),
        58 => Some(PhysicalKeyCode::CapsLock),
        59 => Some(PhysicalKeyCode::F1),
        60 => Some(PhysicalKeyCode::F2),
        61 => Some(PhysicalKeyCode::F3),
        62 => Some(PhysicalKeyCode::F4),
        63 => Some(PhysicalKeyCode::F5),
        64 => Some(PhysicalKeyCode::F6),
        65 => Some(PhysicalKeyCode::F7),
        66 => Some(PhysicalKeyCode::F8),
        67 => Some(PhysicalKeyCode::F9),
        68 => Some(PhysicalKeyCode::F10),
        69 => Some(PhysicalKeyCode::NumLock),
        70 => Some(PhysicalKeyCode::ScrollLock),
        71 => Some(PhysicalKeyCode::Numpad7),
        72 => Some(PhysicalKeyCode::Numpad8),
        73 => Some(PhysicalKeyCode::Numpad9),
        74 => Some(PhysicalKeyCode::NumpadSubtract),
        75 => Some(PhysicalKeyCode::Numpad4),
        76 => Some(PhysicalKeyCode::Numpad5),
        77 => Some(PhysicalKeyCode::Numpad6),
        78 => Some(PhysicalKeyCode::NumpadAdd),
        79 => Some(PhysicalKeyCode::Numpad1),
        80 => Some(PhysicalKeyCode::Numpad2),
        81 => Some(PhysicalKeyCode::Numpad3),
        82 => Some(PhysicalKeyCode::Numpad0),
        83 => Some(PhysicalKeyCode::NumpadDecimal),
        86 => Some(PhysicalKeyCode::IntlBackslash),
        87 => Some(PhysicalKeyCode::F11),
        88 => Some(PhysicalKeyCode::F12),
        96 => Some(PhysicalKeyCode::NumpadEnter),
        97 => Some(PhysicalKeyCode::ControlRight),
        98 => Some(PhysicalKeyCode::NumpadDivide),
        99 => Some(PhysicalKeyCode::PrintScreen),
        100 => Some(PhysicalKeyCode::AltRight),
        102 => Some(PhysicalKeyCode::Home),
        103 => Some(PhysicalKeyCode::ArrowUp),
        104 => Some(PhysicalKeyCode::PageUp),
        105 => Some(PhysicalKeyCode::ArrowLeft),
        106 => Some(PhysicalKeyCode::ArrowRight),
        107 => Some(PhysicalKeyCode::End),
        108 => Some(PhysicalKeyCode::ArrowDown),
        109 => Some(PhysicalKeyCode::PageDown),
        110 => Some(PhysicalKeyCode::Insert),
        111 => Some(PhysicalKeyCode::Delete),
        119 => Some(PhysicalKeyCode::Pause),
        125 => Some(PhysicalKeyCode::SuperLeft),
        126 => Some(PhysicalKeyCode::SuperRight),
        _ => None,
    }
}

/// An evdev key code is sent as the same usage as the physical key it
/// denotes, with two deliberate exceptions: `KEY_BACKSLASH` (43) goes out as
/// the non-US `#`/`~` key (0x32) and `KEY_COMPOSE` (127) as the Application
/// key (0x65); no two evdev codes share a usage.
pub proof fn lemma_evdev_usage_matches_keys(code: u16, other: u16)
    ensures
        evdev_physical_key(code) matches Some(k) ==> crate::protocol::hid::spec_evdev_usage(code) == spec_keycode_usage(k),
        crate::protocol::hid::spec_evdev_usage(code) is Some ==> evdev_physical_key(code) is Some || code == 43 || code == 127,
        crate::protocol::hid::spec_evdev_usage(43) == Some(0x32u8),
        crate::protocol::hid::spec_evdev_usage(127) == Some(0x65u8),
        crate::protocol::hid::spec_evdev_usage(code) is Some && crate::protocol::hid::spec_evdev_usage(code) == crate::protocol::hid::spec_evdev_usage(other) ==> code == other,
{
}

} // verus!

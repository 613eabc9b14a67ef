use openterface::event::{HidUsage, InputEvent, Modifiers, MouseButton};
use openterface::hotkeys::{hid_v, MiddleClickPaste, PasteConfig, PasteSource};
use openterface::router::{InputAction, InputRouter};

fn config(middle: Option<&str>) -> PasteConfig {
    PasteConfig::from_env_values(None, None, None, middle)
}

fn key(usage: u8, mods: u8, pressed: bool) -> InputAction {
    InputAction::Forward(InputEvent::Key { usage: HidUsage(usage), modifiers: Modifiers(mods), pressed })
}

#[test]
fn modifier_keys_build_the_modifier_byte() {
    let mut r = InputRouter::new(config(None));
    assert_eq!(r.on_key(HidUsage(0xE0), true, false), key(0xE0, 0x01, true));
    assert_eq!(r.on_key(HidUsage(0xE6), true, false), key(0xE6, 0x41, true));
    assert_eq!(r.on_key(HidUsage(0x04), true, false), key(0x04, 0x41, true));
    assert_eq!(r.on_key(HidUsage(0xE0), false, false), key(0xE0, 0x40, false));
    assert_eq!(r.modifiers().0, 0x40);
    assert!(!r.release_everything());
    assert_eq!(r.modifiers().0, 0);
}

#[test]
fn paste_shortcut_starts_a_paste_and_swallows_its_chord() {
    let mut r = InputRouter::new(config(None));
    r.on_key(HidUsage(0xE0), true, false);
    r.on_key(HidUsage(0xE1), true, false);
    assert_eq!(r.on_key(hid_v(), true, false), InputAction::StartPaste(PasteSource::Clipboard));
    assert_eq!(r.on_key(hid_v(), true, true), InputAction::Swallow);
    assert_eq!(r.on_key(hid_v(), false, false), InputAction::Swallow);
    assert_eq!(r.on_key(HidUsage(0xE0), false, false), InputAction::Swallow);
    assert_eq!(r.on_key(HidUsage(0xE1), false, false), InputAction::Swallow);
    assert_eq!(r.on_key(hid_v(), true, false), key(0x19, 0, true));
}

#[test]
fn escape_aborts_a_running_paste_only() {
    let mut r = InputRouter::new(config(None));
    assert_eq!(r.on_key(HidUsage(0x29), true, false), key(0x29, 0, true));
    r.paste_submitted(true);
    assert_eq!(r.on_key(HidUsage(0x29), true, false), InputAction::AbortPaste);
    assert_eq!(r.on_key(HidUsage(0x29), true, false), key(0x29, 0, true));
    r.paste_submitted(true);
    r.paste_finished();
    assert!(!r.release_everything());
    r.paste_submitted(true);
    assert!(r.release_everything());
}

#[test]
fn middle_click_paste_swallows_its_release() {
    let mut r = InputRouter::new(config(Some("primary")));
    assert_eq!(r.config().middle_click, MiddleClickPaste::Primary);
    assert_eq!(r.on_button(MouseButton::Middle, true), InputAction::StartPaste(PasteSource::Primary));
    assert_eq!(r.on_button(MouseButton::Middle, false), InputAction::Swallow);
    assert_eq!(
        r.on_button(MouseButton::Left, true),
        InputAction::Forward(InputEvent::MouseButton { button: MouseButton::Left, pressed: true })
    );
    let mut off = InputRouter::new(config(None));
    assert_eq!(
        off.on_button(MouseButton::Middle, true),
        InputAction::Forward(InputEvent::MouseButton { button: MouseButton::Middle, pressed: true })
    );
}

#[test]
fn disabled_paste_forwards_the_shortcut() {
    let mut r = InputRouter::new(PasteConfig::from_env_values(Some("off"), None, None, Some("clipboard")));
    r.on_key(HidUsage(0xE0), true, false);
    r.on_key(HidUsage(0xE1), true, false);
    assert_eq!(r.on_key(hid_v(), true, false), key(0x19, 0x03, true));
    assert_eq!(
        r.on_button(MouseButton::Middle, true),
        InputAction::Forward(InputEvent::MouseButton { button: MouseButton::Middle, pressed: true })
    );
}

#[test]
fn pointer_leaving_forgets_modifiers_but_keeps_the_paste() {
    let mut r = InputRouter::new(config(None));
    let _ = r.on_key(HidUsage(0xE0), true, false);
    assert_eq!(r.modifiers(), Modifiers(0x01));
    r.paste_submitted(true);
    r.pointer_left();
    assert_eq!(r.modifiers(), Modifiers(0x00));
    // Escape still aborts the running paste.
    assert_eq!(r.on_key(HidUsage(0x29), true, false), InputAction::AbortPaste);
}

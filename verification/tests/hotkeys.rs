use openterface::event::{HidUsage, Modifiers};
use openterface::hotkeys::{
    chord_usages, hid_v, is_paste_hotkey, MiddleClickPaste, PasteConfig, PasteShortcut,
    PasteSource, SuppressedKeys, DEFAULT_PASTE_MAX_CHARS,
};

#[test]
fn default_hotkey_accepts_left_and_right_ctrl_shift() {
    assert!(is_paste_hotkey(
        hid_v(),
        Modifiers::left_ctrl().union(Modifiers::left_shift()),
        PasteShortcut::default()
    ));
    assert!(is_paste_hotkey(
        hid_v(),
        Modifiers::right_ctrl().union(Modifiers::right_shift()),
        PasteShortcut::default()
    ));
    assert!(!is_paste_hotkey(
        hid_v(),
        Modifiers::left_ctrl().union(Modifiers::left_alt()).union(Modifiers::left_shift()),
        PasteShortcut::default()
    ));
    assert!(!is_paste_hotkey(
        HidUsage(0x04),
        Modifiers::left_ctrl().union(Modifiers::left_shift()),
        PasteShortcut::default()
    ));
}

#[test]
fn configurable_shortcut_parses_common_modifier_v_combos() {
    let old = PasteShortcut::parse("ctrl-alt-shift-v").unwrap();
    assert_eq!(old.label(), "Ctrl+Alt+Shift+V");
    assert!(is_paste_hotkey(
        hid_v(),
        Modifiers::left_ctrl().union(Modifiers::left_alt()).union(Modifiers::left_shift()),
        old
    ));
    assert!(!is_paste_hotkey(hid_v(), Modifiers::left_ctrl().union(Modifiers::left_shift()), old));
    assert_eq!(PasteShortcut::parse("control+shift+v"), Some(PasteShortcut::default()));
    assert_eq!(PasteShortcut::parse("v"), None);
    assert_eq!(PasteShortcut::parse("ctrl-shift-x"), None);
}

#[test]
fn shortcut_tokens_ignore_case_and_repeated_separators() {
    let s = PasteShortcut::parse("  Super__V ").unwrap();
    assert_eq!(s.label(), "Super+V");
    assert_eq!(PasteShortcut::parse("META+v").unwrap().label(), "Super+V");
    assert_eq!(PasteShortcut::parse("ctrl+win+v").unwrap().label(), "Ctrl+Super+V");
    assert_eq!(PasteShortcut::parse("alt shift super v").unwrap().label(), "custom modifier+V");
    assert_eq!(PasteShortcut::parse(""), None);
    assert_eq!(PasteShortcut::parse("ctrl+shift"), None);
}

#[test]
fn paste_source_labels_are_stable() {
    assert_eq!(PasteSource::Clipboard.label(), "clipboard");
    assert_eq!(PasteSource::Primary.label(), "primary selection");
}

#[test]
fn chord_usages_include_trigger_and_held_modifier_sides() {
    let usages = chord_usages(
        hid_v(),
        Modifiers::left_ctrl().union(Modifiers::right_alt()).union(Modifiers::left_shift()),
    );
    assert_eq!(usages, vec![hid_v(), HidUsage(0xE0), HidUsage(0xE1), HidUsage(0xE6)]);
}

#[test]
fn suppression_swallows_press_repeat_and_release_until_up_edge() {
    let mut suppressed = SuppressedKeys::default();
    suppressed.extend(&[hid_v(), HidUsage(0xE0)]);
    assert!(suppressed.suppress_event(hid_v(), true));
    assert!(suppressed.suppress_event(hid_v(), true));
    assert!(suppressed.suppress_event(hid_v(), false));
    assert!(!suppressed.suppress_event(hid_v(), false));
    assert!(suppressed.suppress_event(HidUsage(0xE0), true));
    assert!(suppressed.suppress_event(HidUsage(0xE0), false));
}

#[test]
fn env_config_defaults_and_ranges() {
    assert_eq!(
        PasteConfig::from_env_values(None, None, None, None),
        PasteConfig {
            enabled: true,
            max_chars: DEFAULT_PASTE_MAX_CHARS,
            shortcut: PasteShortcut::default(),
            middle_click: MiddleClickPaste::Off,
        }
    );
    assert_eq!(
        PasteConfig::from_env_values(Some("0"), Some("12"), Some("ctrl-alt-shift-v"), Some("clipboard")),
        PasteConfig {
            enabled: false,
            max_chars: 12,
            shortcut: PasteShortcut::parse("ctrl-alt-shift-v").unwrap(),
            middle_click: MiddleClickPaste::Clipboard,
        }
    );
    assert_eq!(PasteConfig::from_env_values(None, None, None, Some("off")).middle_click, MiddleClickPaste::Off);
    assert_eq!(
        PasteConfig::from_env_values(None, None, None, Some("invalid")).middle_click,
        MiddleClickPaste::Off
    );
    assert_eq!(
        PasteConfig::from_env_values(None, None, Some("not-a-shortcut"), None).shortcut,
        PasteShortcut::default()
    );
    assert_eq!(
        PasteConfig::from_env_values(None, Some("0"), None, None).max_chars,
        DEFAULT_PASTE_MAX_CHARS
    );
}

#[test]
fn paste_settings_edge_values() {
    assert!(PasteConfig::from_env_values(Some(" yes "), None, None, None).enabled);
    assert!(!PasteConfig::from_env_values(Some(" off "), None, None, None).enabled);
    assert!(PasteConfig::from_env_values(Some("OFF"), None, None, None).enabled);
    assert_eq!(PasteConfig::from_env_values(None, Some("65536"), None, None).max_chars, 65536);
    assert_eq!(PasteConfig::from_env_values(None, Some("65537"), None, None).max_chars, 4096);
    assert_eq!(PasteConfig::from_env_values(None, Some(" 12"), None, None).max_chars, 4096);
    assert_eq!(MiddleClickPaste::parse(" Selection "), Some(MiddleClickPaste::Primary));
    assert_eq!(MiddleClickPaste::parse("REGULAR"), Some(MiddleClickPaste::Clipboard));
    assert_eq!(MiddleClickPaste::parse("maybe"), None);
}

use openterface::display::{
    decorations_enabled, estimated_paste_duration, fullscreen_enabled, keycode_to_hid,
    modifiers_from_state, mouse_button, paste_status, surface_recovery, test_pattern,
    ClipboardError, PhysicalKeyCode, PointerButton, StatusLifetime, SurfaceRecovery, SurfaceStatus,
};
use openterface::event::{HidUsage, Modifiers, MouseButton};
use openterface::paste::{PasteOutcome, PasteStats};
use openterface::time::Duration;

#[test]
fn outdated_surface_reconfigures() {
    assert_eq!(surface_recovery(SurfaceStatus::Outdated), SurfaceRecovery::Reconfigure);
}

#[test]
fn lost_surface_recreates() {
    assert_eq!(surface_recovery(SurfaceStatus::Lost), SurfaceRecovery::Recreate);
}

#[test]
fn transient_or_fatal_surface_errors_skip() {
    assert_eq!(surface_recovery(SurfaceStatus::Timeout), SurfaceRecovery::Skip);
    assert_eq!(surface_recovery(SurfaceStatus::Validation), SurfaceRecovery::Skip);
}

#[test]
fn decorations_default_off_and_opt_in() {
    assert!(!decorations_enabled(None));
    assert!(!decorations_enabled(Some(String::new())));
    assert!(!decorations_enabled(Some("   ".to_string())));
    for v in ["0", "false", "FALSE", "No", "off", " Off "] {
        assert!(!decorations_enabled(Some(v.to_string())), "{v:?}");
    }
    for v in ["1", "true", "YES", "on"] {
        assert!(decorations_enabled(Some(v.to_string())), "{v:?}");
    }
}

#[test]
fn fullscreen_is_opt_in() {
    assert!(!fullscreen_enabled(None));
    assert!(!fullscreen_enabled(Some(" ")));
    assert!(!fullscreen_enabled(Some("off")));
    assert!(fullscreen_enabled(Some("1")));
    assert!(fullscreen_enabled(Some("OFF")));
}

#[test]
fn letters_and_specials_map() {
    assert_eq!(keycode_to_hid(PhysicalKeyCode::KeyA), Some(HidUsage(0x04)));
    assert_eq!(keycode_to_hid(PhysicalKeyCode::Enter), Some(HidUsage(0x28)));
    assert_eq!(keycode_to_hid(PhysicalKeyCode::Escape), Some(HidUsage(0x29)));
    assert_eq!(keycode_to_hid(PhysicalKeyCode::Delete), Some(HidUsage(0x4C)));
    assert_eq!(keycode_to_hid(PhysicalKeyCode::ControlLeft), Some(HidUsage(0xE0)));
    assert_eq!(keycode_to_hid(PhysicalKeyCode::Unmapped), None);
}

#[test]
fn modifiers_convert() {
    let m = modifiers_from_state(true, false, true, false);
    assert!(m.contains(Modifiers::left_ctrl()));
    assert!(m.contains(Modifiers::left_alt()));
    assert!(!m.contains(Modifiers::left_shift()));
    assert_eq!(modifiers_from_state(true, true, true, true).0, 0x0F);
}

#[test]
fn buttons_map() {
    assert_eq!(mouse_button(PointerButton::Left), Some(MouseButton::Left));
    assert_eq!(mouse_button(PointerButton::Back), None);
    assert_eq!(mouse_button(PointerButton::Other(9)), None);
}

#[test]
fn clipboard_error_categories_are_stable() {
    assert_eq!(ClipboardError::UnsupportedDisplay.category(), "unsupported-display");
    assert_eq!(ClipboardError::DisplayHandle.category(), "display-handle");
    assert_eq!(ClipboardError::Empty.category(), "empty");
    assert_eq!(ClipboardError::Load.category(), "load");
    assert_eq!(ClipboardError::PrimarySelection.category(), "primary-selection");
}

#[test]
fn test_pattern_is_a_gradient() {
    let img = test_pattern(4, 2);
    assert_eq!((img.width, img.height), (4, 2));
    assert_eq!(img.pixels.len(), 32);
    assert_eq!(&img.pixels[0..4], &[0, 0, 0x40, 0xFF]);
    assert_eq!(&img.pixels[4..8], &[63, 0, 0x40, 0xFF]);
    assert_eq!(&img.pixels[28..32], &[191, 127, 0x40, 0xFF]);
    assert!(test_pattern(0, 5).pixels.is_empty());
}

#[test]
fn paste_duration_is_one_gap_per_report() {
    let o = PasteOutcome { stats: PasteStats { submitted: 2, skipped: 0, truncated: 0 }, reports: 4 };
    assert_eq!(estimated_paste_duration(o), Duration::from_millis(20));
    let huge = PasteOutcome { stats: o.stats, reports: usize::MAX };
    assert_eq!(estimated_paste_duration(huge), Duration::from_millis(u64::MAX));
}

#[test]
fn paste_status_reports_what_happened() {
    let mk = |submitted, skipped, truncated| PasteOutcome {
        stats: PasteStats { submitted, skipped, truncated },
        reports: 2 * submitted,
    };
    assert_eq!(
        paste_status(mk(3, 1, 2)),
        ("Pasting 3 chars... skipped 1, truncated 2 \u{2014} Esc aborts".to_owned(), StatusLifetime::UntilPasteEnds)
    );
    assert_eq!(
        paste_status(mk(0, 4, 0)),
        ("Paste warning: no mappable text, skipped 4, truncated 0".to_owned(), StatusLifetime::Linger)
    );
    assert_eq!(paste_status(mk(0, 0, 0)), ("Paste warning: no mappable text".to_owned(), StatusLifetime::Linger));
    assert_eq!(
        paste_status(mk(12, 0, 0)),
        ("Pasting 12 chars... Esc aborts".to_owned(), StatusLifetime::UntilPasteEnds)
    );
}

use openterface::event::{ButtonMask, HidUsage, InputEvent, Modifiers, MouseButton};

#[test]
fn release_detection() {
    let press = InputEvent::Key { usage: HidUsage(0x04), modifiers: Modifiers::none(), pressed: true };
    let release =
        InputEvent::Key { usage: HidUsage(0x04), modifiers: Modifiers::none(), pressed: false };
    assert!(!press.is_release());
    assert!(release.is_release());
}

#[test]
fn modifier_set_ops() {
    let cs = Modifiers::left_ctrl().union(Modifiers::left_shift());
    assert!(cs.contains(Modifiers::left_ctrl()));
    assert!(cs.contains(Modifiers::left_shift()));
    assert!(!cs.contains(Modifiers::left_alt()));
}

#[test]
fn union_contains_both_and_commutes() {
    let a = Modifiers::left_alt().union(Modifiers::right_gui());
    let b = Modifiers::right_ctrl();
    let u = a.union(b);
    assert!(u.contains(a) && u.contains(b));
    assert_eq!(u, b.union(a));
    assert_eq!(u.0, 0x04 | 0x80 | 0x10);
}

#[test]
fn button_mask_with_touches_only_its_button() {
    let m = ButtonMask::left().with(MouseButton::Middle, true);
    assert_eq!(m.bits(), 0x05);
    let m = m.with(MouseButton::Left, false);
    assert_eq!(m.bits(), 0x04);
    assert_eq!(ButtonMask::from_button(MouseButton::Right), ButtonMask::right());
    assert_eq!(ButtonMask::default().bits(), 0);
}

#[test]
fn releases_and_moves_are_classified() {
    assert!(InputEvent::ReleaseAll.is_release());
    assert!(InputEvent::MouseButton { button: MouseButton::Left, pressed: false }.is_release());
    assert!(!InputEvent::Scroll { delta: 1 }.is_release());
    assert!(InputEvent::MouseMoveRelative { dx: 1, dy: 2 }.is_mouse_move());
    assert!(!InputEvent::ReleaseAll.is_mouse_move());
}

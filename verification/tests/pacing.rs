use openterface::event::{AbsPosition, ButtonMask, HidUsage, InputEvent, Modifiers, MouseButton};
use openterface::pacing::{
    default_command_gap, default_mouse_interval, gap_remaining, PacingConfig, PacingScheduler,
};
use openterface::protocol::ch9329::{cmd, keyboard_release};
use openterface::time::Duration;

fn sched() -> PacingScheduler {
    PacingScheduler::new(PacingConfig::default())
}

fn t0() -> Duration {
    Duration::from_secs(100)
}

fn after(ms: u64) -> Duration {
    t0().saturating_add(Duration::from_millis(ms))
}

#[test]
fn default_is_about_30hz() {
    assert_eq!(PacingConfig::default().mouse_interval, Duration::from_millis(33));
}

#[test]
fn env_override_in_range() {
    assert_eq!(
        PacingConfig::from_env_value(Some("50")).mouse_interval,
        Duration::from_millis(50)
    );
    assert_eq!(PacingConfig::from_env_value(Some("2")).mouse_interval, default_mouse_interval());
    assert_eq!(
        PacingConfig::from_env_value(Some("99999")).mouse_interval,
        default_mouse_interval()
    );
    assert_eq!(PacingConfig::from_env_value(None).mouse_interval, default_mouse_interval());
}

#[test]
fn first_move_is_immediate_then_paced() {
    let mut s = sched();
    s.submit(InputEvent::MouseMoveAbsolute { pos: AbsPosition { x: 100, y: 100 } });
    assert!(s.poll(t0()).is_some());
    s.submit(InputEvent::MouseMoveAbsolute { pos: AbsPosition { x: 200, y: 200 } });
    assert!(s.poll(t0()).is_none());
    assert!(s.poll(after(10)).is_none());
    assert!(s.poll(after(33)).is_some());
}

#[test]
fn moves_coalesce_to_latest_position() {
    let mut s = sched();
    s.submit(InputEvent::MouseMoveAbsolute { pos: AbsPosition { x: 1, y: 1 } });
    let _ = s.poll(t0());
    for x in [10u16, 20, 30, 40] {
        s.submit(InputEvent::MouseMoveAbsolute { pos: AbsPosition { x, y: x } });
    }
    let c = s.poll(after(33)).unwrap();
    assert_eq!(c[3], cmd::MOUSE_ABS);
    assert_eq!(c[7], 40);
    assert!(s.poll(after(100)).is_none());
}

#[test]
fn release_jumps_ahead_of_move_backlog() {
    let mut s = sched();
    s.submit(InputEvent::MouseMoveAbsolute { pos: AbsPosition { x: 1, y: 1 } });
    let _ = s.poll(t0());
    s.submit(InputEvent::MouseMoveAbsolute { pos: AbsPosition { x: 9, y: 9 } });
    s.submit(InputEvent::Key { usage: HidUsage(0x04), modifiers: Modifiers::none(), pressed: false });
    let c = s.poll(t0()).expect("release should be ready now");
    assert_eq!(c[3], cmd::KEYBOARD);
    assert!(s.poll(t0()).is_none());
}

#[test]
fn key_press_and_release_build_reports() {
    let mut s = sched();
    s.submit(InputEvent::Key {
        usage: HidUsage(0x04),
        modifiers: Modifiers::left_shift(),
        pressed: true,
    });
    let press = s.poll(t0()).unwrap();
    assert_eq!(press[3], cmd::KEYBOARD);
    assert_eq!(press[5], Modifiers::left_shift().0);
    assert_eq!(press[7], 0x04);
    s.submit(InputEvent::Key { usage: HidUsage(0x04), modifiers: Modifiers::none(), pressed: false });
    let release = s.poll(t0()).unwrap();
    assert_eq!(&release[7..13], &[0, 0, 0, 0, 0, 0]);
}

#[test]
fn modifier_keys_do_not_fill_key_array() {
    let mut s = sched();
    s.submit(InputEvent::Key {
        usage: HidUsage(0xE1),
        modifiers: Modifiers::left_shift(),
        pressed: true,
    });
    let c = s.poll(t0()).unwrap();
    assert_eq!(c[5], Modifiers::left_shift().0);
    assert_eq!(&c[7..13], &[0, 0, 0, 0, 0, 0]);
}

#[test]
fn button_command_carries_mask_at_last_position() {
    let mut s = sched();
    s.submit(InputEvent::MouseMoveAbsolute { pos: AbsPosition { x: 500, y: 600 } });
    let _ = s.poll(t0());
    s.submit(InputEvent::MouseButton { button: MouseButton::Left, pressed: true });
    let c = s.poll(t0()).unwrap();
    assert_eq!(c[3], cmd::MOUSE_ABS);
    assert_eq!(c[6], ButtonMask::left().0);
    assert_eq!(c[7], 0xF4);
    assert_eq!(c[8], 0x01);
}

#[test]
fn scroll_uses_relative_wheel_byte() {
    let mut s = sched();
    s.submit(InputEvent::Scroll { delta: 1 });
    let c = s.poll(t0()).unwrap();
    assert_eq!(c[3], cmd::MOUSE_REL);
    assert_eq!(c[9], 0x01);
}

#[test]
fn relative_moves_accumulate_and_clamp() {
    let mut s = sched();
    s.submit(InputEvent::MouseMoveRelative { dx: 1, dy: 1 });
    let _ = s.poll(t0());
    for _ in 0..50 {
        s.submit(InputEvent::MouseMoveRelative { dx: 10, dy: -10 });
    }
    let c = s.poll(after(33)).unwrap();
    assert_eq!(c[3], cmd::MOUSE_REL);
    assert_eq!(c[7] as i8, 127);
    assert_eq!(c[8] as i8, -127);
}

#[test]
fn idle_scheduler_reports_no_readiness() {
    let s = sched();
    assert_eq!(s.time_until_ready(t0()), None);
}

#[test]
fn readiness_matches_poll() {
    let mut s = sched();
    s.submit(InputEvent::MouseMoveAbsolute { pos: AbsPosition { x: 3, y: 3 } });
    assert_eq!(s.time_until_ready(t0()), Some(Duration::zero()));
    assert!(s.poll(t0()).is_some());
    s.submit(InputEvent::MouseMoveAbsolute { pos: AbsPosition { x: 4, y: 4 } });
    assert_eq!(s.time_until_ready(after(13)), Some(Duration::from_millis(20)));
    assert!(s.poll(after(13)).is_none());
}

#[test]
fn release_all_releases_keys_and_buttons() {
    let mut s = sched();
    s.submit(InputEvent::Key { usage: HidUsage(0x04), modifiers: Modifiers::none(), pressed: true });
    let _ = s.poll(t0());
    s.submit(InputEvent::ReleaseAll);
    let c = s.poll(t0()).unwrap();
    assert_eq!(c, keyboard_release());
}

#[test]
fn command_gap_counts_down_from_the_last_write() {
    assert_eq!(gap_remaining(None, t0()), Duration::zero());
    assert_eq!(gap_remaining(Some(t0()), after(2)), Duration::from_millis(3));
    assert_eq!(gap_remaining(Some(t0()), after(9)), Duration::zero());
    assert_eq!(default_command_gap(), Duration::from_millis(5));
}

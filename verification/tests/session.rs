use openterface::error::Error;
use openterface::event::{HidUsage, InputEvent, Modifiers, MouseButton};
use openterface::session::{
    capture_action, click_events, ctrl_alt_del_events, plan_paste, tap_key_events, text_events,
    write_ready, writer_wait, CaptureAction,
};
use openterface::pacing::{PacingConfig, PacingScheduler};
use openterface::protocol::ch9329::keyboard_release;
use openterface::support::MockSerial;
use openterface::time::Duration;

fn key(usage: u8, mods: u8, pressed: bool) -> InputEvent {
    InputEvent::Key { usage: HidUsage(usage), modifiers: Modifiers(mods), pressed }
}

#[test]
fn ctrl_alt_del_presses_then_releases_delete() {
    assert_eq!(ctrl_alt_del_events(), vec![key(0x4C, 0x05, true), key(0x4C, 0x00, false)]);
}

#[test]
fn taps_and_clicks_are_press_release_pairs() {
    assert_eq!(tap_key_events(HidUsage(0x28)), vec![key(0x28, 0, true), key(0x28, 0, false)]);
    assert_eq!(
        click_events(MouseButton::Right),
        vec![
            InputEvent::MouseButton { button: MouseButton::Right, pressed: true },
            InputEvent::MouseButton { button: MouseButton::Right, pressed: false },
        ]
    );
}

#[test]
fn text_types_each_mappable_char() {
    assert_eq!(
        text_events("A€b"),
        vec![key(0x04, 0x02, true), key(0x04, 0, false), key(0x05, 0, true), key(0x05, 0, false)]
    );
    assert!(text_events("").is_empty());
}

#[test]
fn paste_plan_sends_two_reports_per_typed_char() {
    let (prepared, events, outcome) = plan_paste("hi\r\n€!", 10);
    assert_eq!(prepared.text(), "hi\n€!");
    assert_eq!(events.len(), 8);
    assert_eq!(outcome.reports, 8);
    assert_eq!(outcome.stats.submitted, 4);
    assert_eq!(outcome.stats.skipped, 1);
}

#[test]
fn writer_waits_at_most_one_tick() {
    assert_eq!(writer_wait(None, Duration::zero()), Duration::from_millis(10));
    assert_eq!(writer_wait(Some(Duration::from_millis(2)), Duration::from_millis(4)), Duration::from_millis(4));
    assert_eq!(writer_wait(Some(Duration::from_millis(7)), Duration::from_millis(1)), Duration::from_millis(7));
    assert_eq!(writer_wait(Some(Duration::from_millis(50)), Duration::zero()), Duration::from_millis(10));
}

#[test]
fn capture_results_pick_the_next_step() {
    assert_eq!(capture_action(&Err(Error::Timeout)), CaptureAction::Retry);
    assert_eq!(capture_action(&Err(Error::Video("x".to_owned()))), CaptureAction::Backoff);
}

#[test]
fn write_ready_waits_for_the_gap_then_writes_one_command() {
    let mut sched = PacingScheduler::new(PacingConfig::default());
    let mut serial = MockSerial::new();
    sched.submit(key(0x04, 0, false));
    let t = Duration::from_secs(10);
    let last = Some(t.saturating_sub(Duration::from_millis(1)));
    assert_eq!(write_ready(&mut sched, &mut serial, last, t).unwrap(), false);
    assert!(serial.written().is_empty());
    assert_eq!(write_ready(&mut sched, &mut serial, None, t).unwrap(), true);
    assert_eq!(serial.written(), keyboard_release().as_slice());
    assert_eq!(write_ready(&mut sched, &mut serial, None, t).unwrap(), false);
}

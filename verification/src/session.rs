//! The decisions of a running KVM session, apart from its threads: the input
//! event sequences for key taps, text, clicks and Ctrl+Alt+Del, the plan of a
//! paste, how long the serial writer waits, and what the capture loop does
//! with each capture result.

use vstd::prelude::*;

use crate::error::{Error, Result};
use crate::event::{HidUsage, InputEvent, Modifiers, MouseButton};
use crate::paste::{mapped_count, prepare_paste, PasteOutcome, PreparedPaste};
use crate::protocol::hid::{ascii_to_hid, spec_ascii_to_hid};
use crate::pacing::{gap_remaining, spec_poll, PacingScheduler};
use crate::serial::{err_of, LineCall, SerialTransport};
use crate::time::Duration;
use crate::video::Frame;

verus! {

broadcast use vstd::string::axiom_spec_iter;

/// How long the worker loops block before re-checking for shutdown (ms).
pub const TICK_MS: u64 = 10;

/// How long the capture loop waits for a frame before treating the stream as
/// stalled (ms). It must comfortably exceed one frame interval and the
/// first-frame warm-up after stream start.
pub const CAPTURE_TIMEOUT_MS: u64 = 1000;

/// Bound on the frame channel; capture drops frames when the consumer lags.
pub const FRAME_CHANNEL_BOUND: usize = 4;

/// The HID usage of the Delete key.
pub const HID_DELETE: u8 = 0x4C;

/// A key press with the given modifiers.
pub open spec fn press(usage: HidUsage, modifiers: Modifiers) -> InputEvent {
    InputEvent::Key { usage, modifiers, pressed: true }
}

/// A key release with no modifiers.
pub open spec fn release(usage: HidUsage) -> InputEvent {
    InputEvent::Key { usage, modifiers: Modifiers(0), pressed: false }
}

/// Ctrl+Alt+Del: Delete pressed with left Ctrl and left Alt, then released.
pub fn ctrl_alt_del_events() -> (r: Vec<InputEvent>)
    ensures
        r@ == seq![press(HidUsage(HID_DELETE), Modifiers(0x05)), release(HidUsage(HID_DELETE))],
{
    let mods = Modifiers::left_ctrl().union(Modifiers::left_alt());
    assert(0x01u8 | 0x04u8 == 0x05u8) by (bit_vector);
    let mut v: Vec<InputEvent> = Vec::new();
    v.push(InputEvent::Key { usage: HidUsage(HID_DELETE), modifiers: mods, pressed: true });
    v.push(
        InputEvent::Key { usage: HidUsage(HID_DELETE), modifiers: Modifiers::none(), pressed: false },
    );
    assert(v@ =~= seq![press(HidUsage(HID_DELETE), Modifiers(0x05)), release(HidUsage(HID_DELETE))]);
    v
}

/// A single key tapped (pressed then released) with no modifiers.
pub fn tap_key_events(usage: HidUsage) -> (r: Vec<InputEvent>)
    ensures
        r@ == seq![press(usage, Modifiers(0)), release(usage)],
{
    let mut v: Vec<InputEvent> = Vec::new();
    v.push(InputEvent::Key { usage, modifiers: Modifiers::none(), pressed: true });
    v.push(InputEvent::Key { usage, modifiers: Modifiers::none(), pressed: false });
    assert(v@ =~= seq![press(usage, Modifiers(0)), release(usage)]);
    v
}

/// A mouse button clicked (pressed then released) at the current position.
pub fn click_events(button: MouseButton) -> (r: Vec<InputEvent>)
    ensures
        r@ == seq![
            InputEvent::MouseButton { button, pressed: true },
            InputEvent::MouseButton { button, pressed: false },
        ],
{
    let mut v: Vec<InputEvent> = Vec::new();
    v.push(InputEvent::MouseButton { button, pressed: true });
    v.push(InputEvent::MouseButton { button, pressed: false });
    assert(v@ =~= seq![
        InputEvent::MouseButton { button, pressed: true },
        InputEvent::MouseButton { button, pressed: false },
    ]);
    v
}

/// The keystroke that types `c`: its key pressed with the needed modifiers,
/// then released; nothing for a character without a US-layout mapping.
pub open spec fn keystroke(c: char) -> Seq<InputEvent> {
    match spec_ascii_to_hid(c) {
        Some((m, u)) => seq![press(HidUsage(u), Modifiers(m)), release(HidUsage(u))],
        None => Seq::empty(),
    }
}

/// The keystrokes that type `s`, character by character.
pub open spec fn text_keystrokes(s: Seq<char>) -> Seq<InputEvent>
    decreases s.len(),
{
    if s.len() == 0 {
        Seq::empty()
    } else {
        text_keystrokes(s.drop_last()) + keystroke(s.last())
    }
}

/// Typing text takes two events (press, release) per character that has a
/// US-layout mapping, and none for any other character.
pub proof fn lemma_text_keystrokes_len(s: Seq<char>)
    ensures
        text_keystrokes(s).len() == 2 * mapped_count(s),
    decreases s.len(),
{
    if s.len() > 0 {
        lemma_text_keystrokes_len(s.drop_last());
    }
}

/// The events that type `text` on the target: for each character with a
/// US-layout mapping, a press (with any needed modifier) followed by a
/// release; other characters are skipped.
pub fn text_events(text: &str) -> (r: Vec<InputEvent>)
    ensures
        r@ == text_keystrokes(text@),
{
    let mut v: Vec<InputEvent> = Vec::new();
    for c in it: text.chars()
        invariant
            it.seq() == text@,
            v@ == text_keystrokes(text@.take(it.index() as int)),
    {
        let ghost k = it.index() as int;
        proof {
            assert(text@.take(k + 1).drop_last() =~= text@.take(k));
            assert(text@.take(k + 1).last() == c);
        }
        let ghost before = v@;
        match ascii_to_hid(c) {
            Some((mods, usage)) => {
                v.push(InputEvent::Key { usage, modifiers: mods, pressed: true });
                v.push(InputEvent::Key { usage, modifiers: Modifiers::none(), pressed: false });
                assert(v@ =~= before + keystroke(c));
            },
            None => {
                assert(v@ =~= before + keystroke(c));
            },
        }
    }
    assert(text@.take(text@.len() as int) =~= text@);
    v
}

/// What a paste submits: the prepared (normalized, capped) text, the events
/// that type it, and the outcome reported to the user, whose report count is
/// the number of events (two per submitted character).
pub fn plan_paste(text: &str, max_chars: usize) -> (r: (PreparedPaste, Vec<InputEvent>, PasteOutcome))
    ensures
        r.0@ == prepare_paste_view(text@, max_chars as nat),
        r.1@ == text_keystrokes(r.0@.0),
        r.2.stats == r.0@.1,
        r.2.reports == r.1@.len(),
        r.2.reports == 2 * r.2.stats.submitted,
{
    let prepared = prepare_paste(text, max_chars);
    let events = text_events(prepared.text());
    proof {
        lemma_text_keystrokes_len(prepared@.0);
    }
    let outcome = PasteOutcome { stats: prepared.stats(), reports: events.len() };
    (prepared, events, outcome)
}

/// The prepared text and metrics of a paste of `s` capped at `max` (the
/// contract of [`prepare_paste`]).
pub open spec fn prepare_paste_view(s: Seq<char>, max: nat) -> (Seq<char>, crate::paste::PasteStats) {
    let text = crate::paste::capped(crate::paste::normalized(s), max);
    let submitted = mapped_count(text);
    (
        text,
        crate::paste::PasteStats {
            submitted: submitted as usize,
            skipped: (text.len() - submitted) as usize,
            truncated: (crate::paste::normalized(s).len() - text.len()) as usize,
        },
    )
}

/// Whether the command gap has passed at `now`, given the last write.
pub open spec fn gap_elapsed(last_write: Option<Duration>, now: Duration) -> bool {
    match last_write {
        None => true,
        Some(last) => now@ >= last@ && now@ - last@ >= 5_000_000,
    }
}

/// One write turn of the serial writer: once the command gap has passed at
/// `now`, the next command the scheduler has ready is written. Returns
/// whether a command was written; a write error is returned as it is and
/// ends the session.
pub fn write_ready<T: SerialTransport>(
    scheduler: &mut PacingScheduler,
    serial: &mut T,
    last_write: Option<Duration>,
    now: Duration,
) -> (r: Result<bool>)
    ensures
        !gap_elapsed(last_write, now) ==> r == Ok::<bool, Error>(false) && final(scheduler)@ == old(scheduler)@
            && *final(serial) == *old(serial),
        gap_elapsed(last_write, now) ==> {
            &&& final(scheduler)@ == spec_poll(old(scheduler)@, now@).0
            &&& match spec_poll(old(scheduler)@, now@).1 {
                None => r == Ok::<bool, Error>(false) && *final(serial) == *old(serial),
                Some(cmd) => {
                    &&& r matches Ok(w) ==> w
                    &&& final(serial).line_baud() == old(serial).line_baud()
                    &&& old(serial).call_log() is Some ==> final(serial).call_log() == Some(
                        old(serial).call_log()->0.push(
                            (LineCall::Write { baud: old(serial).line_baud(), bytes: cmd, err: err_of(r) }),
                        ),
                    )
                },
            }
        },
{
    if !gap_remaining(last_write, now).is_zero() {
        return Ok(false);
    }
    match scheduler.poll(now) {
        Some(cmd) => match serial.write_all(cmd.as_slice()) {
            Ok(()) => Ok(true),
            Err(e) => Err(e),
        },
        None => Ok(false),
    }
}

/// How long the serial writer blocks for input: one tick when the scheduler
/// has nothing queued, else until the scheduler is ready and the command gap
/// has passed, but never longer than one tick.
pub fn writer_wait(until_ready: Option<Duration>, gap_remaining: Duration) -> (r: Duration)
    ensures
        r@ == match until_ready {
            None => (TICK_MS * 1_000_000) as nat,
            Some(d) => {
                let w = if d@ >= gap_remaining@ {
                    d@
                } else {
                    gap_remaining@
                };
                if w <= TICK_MS * 1_000_000 {
                    w
                } else {
                    (TICK_MS * 1_000_000) as nat
                }
            },
        },
{
    let tick = Duration::from_millis(TICK_MS);
    match until_ready {
        None => tick,
        Some(ready_in) => ready_in.max(gap_remaining).min(tick),
    }
}

/// What the capture loop does with one capture result.
#[derive(Clone, Copy, PartialEq, Eq, Structural, Debug)]
pub enum CaptureAction {
    /// Forward the frame to the consumer (dropped if the consumer lags).
    Forward,
    /// The stream stalled; retry at once.
    Retry,
    /// A recoverable error; wait one tick, then retry.
    Backoff,
}

/// A frame is forwarded, a timeout retries at once, and any other error
/// backs off for one tick.
pub fn capture_action(result: &Result<Frame>) -> (r: CaptureAction)
    ensures
        r == match result {
            Ok(_) => CaptureAction::Forward,
            Err(Error::Timeout) => CaptureAction::Retry,
            Err(_) => CaptureAction::Backoff,
        },
{
    match result {
        Ok(_) => CaptureAction::Forward,
        Err(Error::Timeout) => CaptureAction::Retry,
        Err(_) => CaptureAction::Backoff,
    }
}

} // verus!

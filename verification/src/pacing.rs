//! The paced CH9329 command scheduler.
//!
//! Over USB/IP the CH9329 drains absolute-move commands at only ~30-40/sec.
//! Forwarding mouse moves faster overruns its command buffer and the sparse
//! key/button **release** commands then arrive late. The scheduler therefore
//! paces mouse moves to one per [`PacingConfig::mouse_interval`], coalesces
//! consecutive moves (only the latest position matters), and lets
//! key/button/scroll commands jump ahead of the move backlog.
//!
//! [`PacingScheduler::poll`] takes the current time explicitly, so the whole
//! state machine is deterministic.

use std::collections::VecDeque;

use vstd::prelude::*;

use crate::event::{button_bit, AbsPosition, ButtonMask, HidUsage, InputEvent, Modifiers, MouseButton};
use crate::protocol::ch9329::{self, cmd, keyboard_payload, mouse_absolute_payload, mouse_relative_payload, release_report, spec_frame};
use crate::protocol::hid::{is_modifier, spec_is_modifier};
use crate::text::spec_parse_nat;
use crate::time::{sat_sub, Duration};

verus! {

/// Default mouse-move forward interval in milliseconds (~30 Hz).
pub const DEFAULT_MOUSE_INTERVAL_MS: u64 = 33;

/// Environment variable that overrides the mouse-move interval (milliseconds).
pub const ENV_MOUSE_INTERVAL_MS: &'static str = "OPENTERFACE_MOUSE_INTERVAL_MS";

/// Minimum accepted mouse interval in milliseconds.
pub const MIN_INTERVAL_MS: u64 = 5;

/// Maximum accepted mouse interval in milliseconds.
pub const MAX_INTERVAL_MS: u64 = 1000;

/// Minimum spacing in milliseconds between two consecutive CH9329 writes.
pub const DEFAULT_COMMAND_GAP_MS: u64 = 5;

/// The default mouse-move forward interval (~30 Hz).
pub fn default_mouse_interval() -> (r: Duration)
    ensures
        r@ == 33_000_000,
{
    Duration::from_millis(DEFAULT_MOUSE_INTERVAL_MS)
}

/// The minimum spacing between two consecutive CH9329 writes.
pub fn default_command_gap() -> (r: Duration)
    ensures
        r@ == 5_000_000,
{
    Duration::from_millis(DEFAULT_COMMAND_GAP_MS)
}

/// Time remaining at `now` before another CH9329 write is allowed, given the
/// time of the last write (zero if ready now).
pub fn gap_remaining(last_write: Option<Duration>, now: Duration) -> (r: Duration)
    ensures
        r@ == match last_write {
            None => 0,
            Some(last) => sat_sub(5_000_000, sat_sub(now@, last@)),
        },
{
    match last_write {
        None => Duration::zero(),
        Some(last) => default_command_gap().saturating_sub(now.saturating_sub(last)),
    }
}

/// Configuration for the pacing scheduler.
#[derive(Clone, Copy, PartialEq, Eq, Debug)]
pub struct PacingConfig {
    /// Minimum interval between forwarded mouse-move commands.
    pub mouse_interval: Duration,
}

impl Default for PacingConfig {
    fn default() -> (r: PacingConfig)
        ensures
            r.mouse_interval@ == 33_000_000,
    {
        PacingConfig { mouse_interval: default_mouse_interval() }
    }
}

/// The interval (in ms) that a value of `OPENTERFACE_MOUSE_INTERVAL_MS`
/// selects: the value if it is a decimal number in `5..=1000`, else 33.
pub open spec fn interval_ms_from_value(value: Option<Seq<char>>) -> nat {
    match value {
        Some(v) => match spec_parse_nat(v) {
            Some(n) => if 5 <= n <= 1000 { n } else { 33 },
            None => 33,
        },
        None => 33,
    }
}

impl PacingConfig {
    /// Builds a config from the value of `OPENTERFACE_MOUSE_INTERVAL_MS`
    /// (`None` when unset): the value applies if it parses as a whole number
    /// of milliseconds in `5..=1000`; otherwise the 33 ms default.
    pub fn from_env_value(value: Option<&str>) -> (r: PacingConfig)
        ensures
            r.mouse_interval@ == interval_ms_from_value(
                match value {
                    Some(v) => Some(v@),
                    None => None,
                },
            ) * 1_000_000,
    {
        let ms = match value {
            Some(v) => match crate::text::parse_uint(v, u64::MAX) {
                Some(n) => if MIN_INTERVAL_MS <= n && n <= MAX_INTERVAL_MS { n } else { DEFAULT_MOUSE_INTERVAL_MS },
                None => DEFAULT_MOUSE_INTERVAL_MS,
            },
            None => DEFAULT_MOUSE_INTERVAL_MS,
        };
        PacingConfig { mouse_interval: Duration::from_millis(ms) }
    }
}

/// The coalesced pending mouse motion, if any.
#[derive(Clone, Copy, PartialEq, Eq, Structural, Debug)]
pub enum PendingMove {
    /// Latest absolute position (replaces any prior pending absolute move).
    Absolute(AbsPosition),
    /// Accumulated relative delta (saturating).
    Relative { dx: i32, dy: i32 },
}

/// The abstract state of a [`PacingScheduler`].
pub struct SchedulerView {
    /// The mouse-move interval, in nanoseconds.
    pub interval: nat,
    /// Frames that must go out promptly and in order.
    pub queue: Seq<Seq<u8>>,
    /// The coalesced pending move.
    pub pending: Option<PendingMove>,
    /// When the last paced move was emitted.
    pub last_move_at: Option<nat>,
    /// Current pressed-button mask.
    pub buttons: ButtonMask,
    /// Last known absolute position.
    pub last_abs: Option<AbsPosition>,
    /// Non-modifier usages currently held (the 6-key report array).
    pub held: Seq<HidUsage>,
    /// Current modifier byte.
    pub modifiers: Modifiers,
}

/// `a + b` saturated to the `i32` range.
pub open spec fn sat_add_i32(a: int, b: int) -> i32 {
    if a + b > i32::MAX {
        i32::MAX
    } else if a + b < i32::MIN {
        i32::MIN
    } else {
        (a + b) as i32
    }
}

/// `v` clamped to `-127..=127`.
pub open spec fn clamp127(v: i32) -> i8 {
    if v > 127 {
        127i8
    } else if v < -127 {
        -127i8
    } else {
        v as i8
    }
}

/// The frame that re-asserts `buttons`: absolute at the last known position,
/// or a zero-delta relative frame if none is known.
pub open spec fn button_command(buttons: ButtonMask, last_abs: Option<AbsPosition>) -> Seq<u8> {
    match last_abs {
        Some(pos) => spec_frame(cmd::MOUSE_ABS, mouse_absolute_payload(pos, buttons, 0)),
        None => spec_frame(cmd::MOUSE_REL, mouse_relative_payload(0, 0, buttons, 0)),
    }
}

/// The frame that carries a pending move with the current buttons.
pub open spec fn move_command(mv: PendingMove, buttons: ButtonMask) -> Seq<u8> {
    match mv {
        PendingMove::Absolute(pos) => spec_frame(cmd::MOUSE_ABS, mouse_absolute_payload(pos, buttons, 0)),
        PendingMove::Relative { dx, dy } => spec_frame(
            cmd::MOUSE_REL,
            mouse_relative_payload(clamp127(dx), clamp127(dy), buttons, 0),
        ),
    }
}

/// `s` with every occurrence of `u` removed, order kept.
pub open spec fn without(s: Seq<HidUsage>, u: HidUsage) -> Seq<HidUsage>
    decreases s.len(),
{
    if s.len() == 0 {
        s
    } else {
        let p = without(s.drop_last(), u);
        if s.last() == u {
            p
        } else {
            p.push(s.last())
        }
    }
}

/// The held-key array after a key event: modifiers are not tracked here; a
/// press adds a new key while fewer than six are held; a release removes it.
pub open spec fn update_held(held: Seq<HidUsage>, u: HidUsage, pressed: bool) -> Seq<HidUsage> {
    if spec_is_modifier(u.0) {
        held
    } else if pressed {
        if held.contains(u) || held.len() >= 6 {
            held
        } else {
            held.push(u)
        }
    } else {
        without(held, u)
    }
}

/// The scheduler state after submitting `e`.
pub open spec fn spec_submit(v: SchedulerView, e: InputEvent) -> SchedulerView {
    match e {
        InputEvent::MouseMoveAbsolute { pos } => SchedulerView {
            last_abs: Some(pos),
            pending: Some(PendingMove::Absolute(pos)),
            ..v
        },
        InputEvent::MouseMoveRelative { dx, dy } => SchedulerView {
            pending: Some(
                match v.pending {
                    Some(PendingMove::Relative { dx: ax, dy: ay }) => PendingMove::Relative {
                        dx: sat_add_i32(ax as int, dx as int),
                        dy: sat_add_i32(ay as int, dy as int),
                    },
                    _ => PendingMove::Relative { dx: dx as i32, dy: dy as i32 },
                },
            ),
            ..v
        },
        InputEvent::MouseButton { button, pressed } => {
            let b = v.buttons.spec_with(button, pressed);
            SchedulerView { buttons: b, queue: v.queue.push(button_command(b, v.last_abs)), ..v }
        },
        InputEvent::Key { usage, modifiers, pressed } => {
            let h = update_held(v.held, usage, pressed);
            SchedulerView {
                modifiers: modifiers,
                held: h,
                queue: v.queue.push(spec_frame(cmd::KEYBOARD, keyboard_payload(modifiers, h))),
                ..v
            }
        },
        InputEvent::Scroll { delta } => SchedulerView {
            queue: v.queue.push(spec_frame(cmd::MOUSE_REL, mouse_relative_payload(0, 0, v.buttons, delta))),
            ..v
        },
        InputEvent::ReleaseAll => SchedulerView {
            modifiers: Modifiers(0),
            held: Seq::empty(),
            buttons: ButtonMask(0),
            queue: v.queue.push(release_report()).push(button_command(ButtonMask(0), v.last_abs)),
            ..v
        },
    }
}

/// Whether a paced move may go out at `now`.
pub open spec fn move_due(v: SchedulerView, now: nat) -> bool {
    match v.last_move_at {
        None => true,
        Some(last) => sat_sub(now, last) >= v.interval,
    }
}

/// What [`PacingScheduler::poll`] returns at `now`, and the state after it.
pub open spec fn spec_poll(v: SchedulerView, now: nat) -> (SchedulerView, Option<Seq<u8>>) {
    if v.queue.len() > 0 {
        (SchedulerView { queue: v.queue.drop_first(), ..v }, Some(v.queue[0]))
    } else if v.pending is Some && move_due(v, now) {
        (
            SchedulerView { pending: None, last_move_at: Some(now), ..v },
            Some(move_command(v.pending->0, v.buttons)),
        )
    } else {
        (v, None)
    }
}

/// How long (in nanoseconds) until the scheduler next has something to send
/// at `now`; `None` when idle.
pub open spec fn spec_time_until_ready(v: SchedulerView, now: nat) -> Option<nat> {
    if v.queue.len() > 0 {
        Some(0)
    } else if v.pending is None {
        None
    } else {
        match v.last_move_at {
            None => Some(0),
            Some(last) => Some(sat_sub(v.interval, sat_sub(now, last))),
        }
    }
}

/// The held-key array holds at most six distinct non-modifier usages.
pub open spec fn held_wf(held: Seq<HidUsage>) -> bool {
    &&& held.len() <= 6
    &&& forall|i: int| 0 <= i < held.len() ==> !spec_is_modifier(#[trigger] held[i].0)
    &&& forall|i: int, j: int| 0 <= i < j < held.len() ==> held[i] != held[j]
}

/// A paced CH9329 command scheduler. Feed it [`InputEvent`]s with
/// [`PacingScheduler::submit`] and pull ready CH9329 frames with
/// [`PacingScheduler::poll`].
pub struct PacingScheduler {
    config: PacingConfig,
    priority: VecDeque<Vec<u8>>,
    pending_move: Option<PendingMove>,
    last_move_at: Option<Duration>,
    buttons: ButtonMask,
    last_abs: Option<AbsPosition>,
    held_keys: Vec<HidUsage>,
    modifiers: Modifiers,
}

impl View for PacingScheduler {
    type V = SchedulerView;

    closed spec fn view(&self) -> SchedulerView {
        SchedulerView {
            interval: self.config.mouse_interval@,
            queue: self.priority@.map_values(|f: Vec<u8>| f@),
            pending: self.pending_move,
            last_move_at: match self.last_move_at {
                Some(t) => Some(t@),
                None => None,
            },
            buttons: self.buttons,
            last_abs: self.last_abs,
            held: self.held_keys@,
            modifiers: self.modifiers,
        }
    }
}

proof fn lemma_without_step(s: Seq<HidUsage>, i: int, u: HidUsage)
    requires
        0 <= i < s.len(),
    ensures
        without(s.take(i + 1), u) == if s[i] == u {
            without(s.take(i), u)
        } else {
            without(s.take(i), u).push(s[i])
        },
{
    assert(s.take(i + 1).drop_last() =~= s.take(i));
}

/// Every element of `without(s, u)` is an element of `s` other than `u`, and
/// it keeps the elements of `s` distinct.
proof fn lemma_without_props(s: Seq<HidUsage>, u: HidUsage)
    ensures
        without(s, u).len() <= s.len(),
        forall|x: HidUsage| #[trigger] without(s, u).contains(x) <==> (s.contains(x) && x != u),
        (forall|i: int, j: int| 0 <= i < j < s.len() ==> s[i] != s[j]) ==> (forall|i: int, j: int|
            0 <= i < j < without(s, u).len() ==> without(s, u)[i] != without(s, u)[j]),
    decreases s.len(),
{
    if s.len() > 0 {
        let t = s.drop_last();
        lemma_without_props(t, u);
        let p = without(t, u);
        assert forall|x: HidUsage| without(s, u).contains(x) <==> (s.contains(x) && x != u) by {
            if s.contains(x) && x != u {
                let k = choose|k: int| 0 <= k < s.len() && s[k] == x;
                if k < t.len() {
                    assert(t[k] == x);
                    assert(t.contains(x));
                    assert(p.contains(x));
                    let j = choose|j: int| 0 <= j < p.len() && p[j] == x;
                    if s.last() == u {
                        assert(without(s, u) == p);
                    } else {
                        assert(without(s, u) == p.push(s.last()));
                        assert(without(s, u)[j] == x);
                    }
                } else {
                    assert(without(s, u) == p.push(s.last()));
                    assert(without(s, u)[p.len() as int] == x);
                }
            }
            if without(s, u).contains(x) {
                let k = choose|k: int| 0 <= k < without(s, u).len() && without(s, u)[k] == x;
                if s.last() == u {
                    assert(without(s, u) == p);
                    assert(p.contains(x));
                } else if k < p.len() {
                    assert(without(s, u) == p.push(s.last()));
                    assert(p[k] == x);
                    assert(p.contains(x));
                } else {
                    assert(x == s.last());
                }
                if p.contains(x) {
                    assert(t.contains(x));
                    let m = choose|m: int| 0 <= m < t.len() && t[m] == x;
                    assert(s[m] == x);
                }
            }
        }
        if forall|i: int, j: int| 0 <= i < j < s.len() ==> s[i] != s[j] {
            assert(forall|i: int, j: int| 0 <= i < j < t.len() ==> t[i] != t[j]) by {
                assert forall|i: int, j: int| 0 <= i < j < t.len() implies t[i] != t[j] by {
                    assert(s[i] == t[i] && s[j] == t[j]);
                }
            }
            if s.last() != u {
                assert(!t.contains(s.last())) by {
                    if t.contains(s.last()) {
                        let m = choose|m: int| 0 <= m < t.len() && t[m] == s.last();
                        assert(s[m] == s[s.len() - 1]);
                    }
                }
                assert(!p.contains(s.last()));
                assert forall|i: int, j: int| 0 <= i < j < without(s, u).len() implies without(s, u)[i] != without(s, u)[j] by {
                    if j == p.len() {
                        assert(p[i] == without(s, u)[i]);
                        assert(p.contains(p[i]));
                    }
                }
            }
        }
    }
}

/// Submitting any event keeps the held-key array well formed: at most six
/// The test "is not `u`".
pub open spec fn other_than(u: HidUsage) -> spec_fn(HidUsage) -> bool {
    |x: HidUsage| x != u
}

proof fn lemma_without_is_filter(s: Seq<HidUsage>, u: HidUsage)
    ensures
        without(s, u) == s.filter(other_than(u)),
    decreases s.len(),
{
    reveal(Seq::filter);
    if s.len() > 0 {
        lemma_without_is_filter(s.drop_last(), u);
    }
}

/// Releasing a non-modifier key removes exactly that key from the held
/// keys: every other held key stays held, in its order, and no key is added.
/// Pressing a key that is not held while fewer than six are held appends
/// it, and a press never drops a held key.
pub proof fn lemma_held_keys_track_presses_and_releases(held: Seq<HidUsage>, u: HidUsage)
    requires
        !spec_is_modifier(u.0),
    ensures
        update_held(held, u, false) == held.filter(other_than(u)),
        forall|x: HidUsage|
            #[trigger] update_held(held, u, false).contains(x) <==> (held.contains(x) && x != u),
        !held.contains(u) && held.len() < 6 ==> update_held(held, u, true) == held.push(u),
        forall|x: HidUsage| held.contains(x) ==> #[trigger] update_held(held, u, true).contains(x),
{
    lemma_without_is_filter(held, u);
    lemma_without_props(held, u);
    assert forall|x: HidUsage| held.contains(x) implies #[trigger] update_held(held, u, true).contains(x) by {
        if !held.contains(u) && held.len() < 6 {
            let k = choose|k: int| 0 <= k < held.len() && held[k] == x;
            assert(held.push(u)[k] == x);
        }
    }
}

/// distinct keys, none of them a modifier.
pub proof fn lemma_submit_keeps_held_wf(v: SchedulerView, e: InputEvent)
    requires
        held_wf(v.held),
    ensures
        held_wf(spec_submit(v, e).held),
{
    match e {
        InputEvent::Key { usage, modifiers, pressed } => {
            let h = update_held(v.held, usage, pressed);
            if !spec_is_modifier(usage.0) {
                if pressed {
                    if !(v.held.contains(usage) || v.held.len() >= 6) {
                        assert forall|i: int, j: int| 0 <= i < j < h.len() implies h[i] != h[j] by {
                            if j == v.held.len() {
                                assert(v.held[i] == h[i]);
                                assert(v.held.contains(h[i]));
                            }
                        }
                        assert forall|i: int| 0 <= i < h.len() implies !spec_is_modifier(#[trigger] h[i].0) by {
                            if i < v.held.len() {
                                assert(h[i] == v.held[i]);
                            }
                        }
                    }
                } else {
                    lemma_without_props(v.held, usage);
                    assert forall|i: int| 0 <= i < h.len() implies !spec_is_modifier(#[trigger] h[i].0) by {
                        assert(h.contains(h[i]));
                        assert(v.held.contains(h[i]));
                        let m = choose|m: int| 0 <= m < v.held.len() && v.held[m] == h[i];
                    }
                }
            }
        },
        _ => {},
    }
}

/// A release (or any key, button, scroll or release-all event) never waits
/// behind the move backlog: submitted to a scheduler with nothing queued,
/// its frame is what the very next poll returns, at any time, whatever move
/// is pending.
pub proof fn lemma_priority_event_sent_first(v: SchedulerView, e: InputEvent, now: nat)
    requires
        v.queue.len() == 0,
        !e.spec_is_mouse_move(),
    ensures
        spec_poll(spec_submit(v, e), now).1 == Some(spec_submit(v, e).queue[0]),
        spec_poll(spec_submit(v, e), now).0.pending == v.pending,
{
}

/// Consecutive absolute moves coalesce: only the latest position is pending.
pub proof fn lemma_absolute_moves_coalesce(v: SchedulerView, a: AbsPosition, b: AbsPosition)
    ensures
        spec_submit(
            spec_submit(v, InputEvent::MouseMoveAbsolute { pos: a }),
            InputEvent::MouseMoveAbsolute { pos: b },
        ).pending == Some(PendingMove::Absolute(b)),
        spec_submit(
            spec_submit(v, InputEvent::MouseMoveAbsolute { pos: a }),
            InputEvent::MouseMoveAbsolute { pos: b },
        ).queue == v.queue,
{
}

/// Relative moves coalesce by adding up: two relative moves submitted while
/// no move is pending leave one pending move of their summed deltas, and
/// queue nothing.
pub proof fn lemma_relative_moves_add_up(v: SchedulerView, dx1: i16, dy1: i16, dx2: i16, dy2: i16)
    requires
        v.pending is None,
    ensures
        spec_submit(
            spec_submit(v, InputEvent::MouseMoveRelative { dx: dx1, dy: dy1 }),
            InputEvent::MouseMoveRelative { dx: dx2, dy: dy2 },
        ).pending == Some(PendingMove::Relative { dx: (dx1 + dx2) as i32, dy: (dy1 + dy2) as i32 }),
        spec_submit(
            spec_submit(v, InputEvent::MouseMoveRelative { dx: dx1, dy: dy1 }),
            InputEvent::MouseMoveRelative { dx: dx2, dy: dy2 },
        ).queue == v.queue,
{
}

/// Moves are paced: no move goes out sooner than one interval after the
/// previous one.
pub proof fn lemma_moves_are_paced(v: SchedulerView, now: nat)
    requires
        v.queue.len() == 0,
        v.last_move_at is Some,
        sat_sub(now, v.last_move_at->0) < v.interval,
    ensures
        spec_poll(v, now).1 is None,
        spec_poll(v, now).0 == v,
{
}

/// `time_until_ready` and `poll` agree: the scheduler reports "ready now"
/// exactly when a poll at the same time returns a frame, and reports idle
/// exactly when nothing is queued or pending.
pub proof fn lemma_readiness_matches_poll(v: SchedulerView, now: nat)
    ensures
        (spec_time_until_ready(v, now) == Some(0nat)) == (spec_poll(v, now).1 is Some),
        (spec_time_until_ready(v, now) is None) == (v.queue.len() == 0 && v.pending is None),
{
}

impl PacingScheduler {
    /// Creates a scheduler with the given configuration.
    pub fn new(config: PacingConfig) -> (r: PacingScheduler)
        ensures
            r@.interval == config.mouse_interval@,
            r@.queue.len() == 0,
            r@.pending is None,
            r@.last_move_at is None,
            r@.buttons == ButtonMask(0),
            r@.last_abs is None,
            r@.held.len() == 0,
            r@.modifiers == Modifiers(0),
    {
        let r = PacingScheduler {
            config,
            priority: VecDeque::new(),
            pending_move: None,
            last_move_at: None,
            buttons: ButtonMask(0),
            last_abs: None,
            held_keys: Vec::new(),
            modifiers: Modifiers(0),
        };
        assert(r@.queue =~= Seq::<Seq<u8>>::empty());
        r
    }

    fn enqueue(&mut self, f: Vec<u8>)
        ensures
            final(self)@ == (SchedulerView { queue: old(self)@.queue.push(f@), ..old(self)@ }),
    {
        let ghost before = self.priority@;
        self.priority.push_back(f);
        assert(self.priority@.map_values(|g: Vec<u8>| g@) =~= before.map_values(|g: Vec<u8>| g@).push(f@));
    }

    /// Submits an input event for forwarding.
    pub fn submit(&mut self, event: InputEvent)
        ensures
            final(self)@ == spec_submit(old(self)@, event),
    {
        match event {
            InputEvent::MouseMoveAbsolute { pos } => {
                self.last_abs = Some(pos);
                self.pending_move = Some(PendingMove::Absolute(pos));
            },
            InputEvent::MouseMoveRelative { dx, dy } => {
                let acc = match self.pending_move {
                    Some(PendingMove::Relative { dx: ax, dy: ay }) => PendingMove::Relative {
                        dx: sat_add(ax, dx as i32),
                        dy: sat_add(ay, dy as i32),
                    },
                    _ => PendingMove::Relative { dx: dx as i32, dy: dy as i32 },
                };
                self.pending_move = Some(acc);
            },
            InputEvent::MouseButton { button, pressed } => {
                self.buttons = self.buttons.with(button, pressed);
                let f = self.mouse_button_command();
                self.enqueue(f);
            },
            InputEvent::Key { usage, modifiers, pressed } => {
                self.modifiers = modifiers;
                self.update_held(usage, pressed);
                let f = ch9329::keyboard(self.modifiers, self.held_keys.as_slice());
                self.enqueue(f);
            },
            InputEvent::Scroll { delta } => {
                let f = ch9329::mouse_relative(0, 0, self.buttons, delta);
                self.enqueue(f);
            },
            InputEvent::ReleaseAll => {
                self.held_keys = Vec::new();
                self.modifiers = Modifiers(0);
                self.buttons = ButtonMask(0);
                let f = ch9329::keyboard_release();
                self.enqueue(f);
                let g = self.mouse_button_command();
                self.enqueue(g);
                assert(self@.held =~= Seq::<HidUsage>::empty());
            },
        }
    }

    /// Returns the next CH9329 frame ready to send at `now`, or `None` if
    /// nothing is ready yet. Queued key/button/scroll frames come first; a
    /// coalesced mouse move goes out at most once per `mouse_interval`.
    pub fn poll(&mut self, now: Duration) -> (r: Option<Vec<u8>>)
        ensures
            final(self)@ == spec_poll(old(self)@, now@).0,
            match (r, spec_poll(old(self)@, now@).1) {
                (Some(f), Some(g)) => f@ == g,
                (None, None) => true,
                _ => false,
            },
    {
        let ghost before = self.priority@;
        if self.priority.len() > 0 {
            let f = self.priority.pop_front();
            assert(self.priority@.map_values(|g: Vec<u8>| g@) =~= before.map_values(|g: Vec<u8>| g@).drop_first());
            return f;
        }
        match self.pending_move {
            Some(mv) => {
                if self.move_due(now) {
                    self.pending_move = None;
                    self.last_move_at = Some(now);
                    Some(self.move_command(mv))
                } else {
                    None
                }
            },
            None => None,
        }
    }

    /// Returns how long until the scheduler next has something to send at
    /// `now`, or `None` if it is idle; zero means "ready now".
    pub fn time_until_ready(&self, now: Duration) -> (r: Option<Duration>)
        ensures
            match (r, spec_time_until_ready(self@, now@)) {
                (Some(d), Some(n)) => d@ == n,
                (None, None) => true,
                _ => false,
            },
    {
        if self.priority.len() > 0 {
            return Some(Duration::zero());
        }
        if self.pending_move.is_none() {
            return None;
        }
        match self.last_move_at {
            None => Some(Duration::zero()),
            Some(last) => {
                let elapsed = now.saturating_sub(last);
                Some(self.config.mouse_interval.saturating_sub(elapsed))
            },
        }
    }

    fn move_due(&self, now: Duration) -> (r: bool)
        ensures
            r == move_due(self@, now@),
    {
        match self.last_move_at {
            None => true,
            Some(last) => now.saturating_sub(last).at_least(self.config.mouse_interval),
        }
    }

    fn move_command(&self, mv: PendingMove) -> (r: Vec<u8>)
        ensures
            r@ == move_command(mv, self.buttons),
    {
        match mv {
            PendingMove::Absolute(pos) => ch9329::mouse_absolute(pos, self.buttons, 0),
            PendingMove::Relative { dx, dy } => {
                let x = clamp_i8(dx);
                let y = clamp_i8(dy);
                ch9329::mouse_relative(x, y, self.buttons, 0)
            },
        }
    }

    fn mouse_button_command(&self) -> (r: Vec<u8>)
        ensures
            r@ == button_command(self.buttons, self.last_abs),
    {
        match self.last_abs {
            Some(pos) => ch9329::mouse_absolute(pos, self.buttons, 0),
            None => ch9329::mouse_relative(0, 0, self.buttons, 0),
        }
    }

    fn update_held(&mut self, usage: HidUsage, pressed: bool)
        ensures
            final(self)@ == (SchedulerView { held: update_held(old(self)@.held, usage, pressed), ..old(self)@ }),
    {
        if is_modifier(usage) {
            return;
        }
        if pressed {
            if !contains_usage(&self.held_keys, usage) && self.held_keys.len() < ch9329::MAX_KEYS {
                self.held_keys.push(usage);
            }
        } else {
            let mut kept: Vec<HidUsage> = Vec::new();
            let mut i: usize = 0;
            while i < self.held_keys.len()
                invariant
                    i <= self.held_keys@.len(),
                    kept@ == without(self.held_keys@.take(i as int), usage),
                decreases self.held_keys@.len() - i,
            {
                proof {
                    lemma_without_step(self.held_keys@, i as int, usage);
                }
                let k = self.held_keys[i];
                if k != usage {
                    kept.push(k);
                }
                i = i + 1;
            }
            assert(self.held_keys@.take(i as int) =~= self.held_keys@);
            self.held_keys = kept;
        }
    }
}

/// Whether `keys` holds `usage`.
fn contains_usage(keys: &Vec<HidUsage>, usage: HidUsage) -> (r: bool)
    ensures
        r == keys@.contains(usage),
{
    let mut i: usize = 0;
    while i < keys.len()
        invariant
            i <= keys@.len(),
            forall|j: int| 0 <= j < i ==> keys@[j] != usage,
        decreases keys@.len() - i,
    {
        if keys[i] == usage {
            return true;
        }
        i = i + 1;
    }
    false
}

/// `a + b` saturated to the `i32` range.
fn sat_add(a: i32, b: i32) -> (r: i32)
    ensures
        r == sat_add_i32(a as int, b as int),
{
    let s = a as i64 + b as i64;
    if s > i32::MAX as i64 {
        i32::MAX
    } else if s < i32::MIN as i64 {
        i32::MIN
    } else {
        s as i32
    }
}

/// `v` clamped to `-127..=127`.
fn clamp_i8(v: i32) -> (r: i8)
    ensures
        r == clamp127(v),
{
    if v > 127 {
        127
    } else if v < -127 {
        -127
    } else {
        v as i8
    }
}

} // verus!

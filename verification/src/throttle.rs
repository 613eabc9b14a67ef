//! The idle MJPEG-decode throttle state machine.
//!
//! Decoding every frame of a static remote screen wastes CPU. The throttle:
//!
//! 1. **Raw dedup** — byte-identical encoded frames skip decode *and* upload.
//! 2. **Non-deterministic MJPEG** — after a decode, identical *decoded* pixels
//!    skip the GPU upload.
//! 3. **Idle gate** — after `idle_after_frames` static frames, cap decode
//!    attempts to one per `idle_decode`.
//! 4. **Input wake** — any input keeps full-rate decode for `input_wake`.
//! 5. **Watchdog** — re-present the cached frame at least every `watchdog`.
//! 6. **Disable** — `OPENTERFACE_THROTTLE=0` always decodes.
//!
//! Time is passed in explicitly, so the machine is deterministic.

use vstd::prelude::*;

use crate::text::spec_parse_nat;
use crate::time::{sat_sub, Duration};

verus! {

/// Environment variable that disables the throttle when set to `0`.
pub const ENV_THROTTLE: &'static str = "OPENTERFACE_THROTTLE";
/// Environment variable for the idle decode interval (ms).
pub const ENV_IDLE_DECODE_MS: &'static str = "OPENTERFACE_IDLE_DECODE_MS";
/// Environment variable for the input wake window (ms).
pub const ENV_INPUT_WAKE_MS: &'static str = "OPENTERFACE_INPUT_WAKE_MS";
/// Environment variable for the watchdog refresh interval (ms).
pub const ENV_IDLE_WATCHDOG_MS: &'static str = "OPENTERFACE_IDLE_WATCHDOG_MS";

/// Throttle configuration.
#[derive(Clone, Copy, PartialEq, Eq, Debug)]
pub struct ThrottleConfig {
    /// When `false`, every frame is decoded and uploaded.
    pub enabled: bool,
    /// Minimum interval between decodes once idle.
    pub idle_decode: Duration,
    /// Full-rate window after any input.
    pub input_wake: Duration,
    /// Forced cached-frame refresh interval (anti-freeze).
    pub watchdog: Duration,
    /// Consecutive static frames before declaring idle.
    pub idle_after_frames: u32,
}

impl Default for ThrottleConfig {
    fn default() -> (r: ThrottleConfig)
        ensures
            r.enabled,
            r.idle_decode@ == 100_000_000,
            r.input_wake@ == 250_000_000,
            r.watchdog@ == 1_000_000_000,
            r.idle_after_frames == 15,
    {
        ThrottleConfig {
            enabled: true,
            idle_decode: Duration::from_millis(100),
            input_wake: Duration::from_millis(250),
            watchdog: Duration::from_millis(1000),
            idle_after_frames: 15,
        }
    }
}

/// The milliseconds that an `OPENTERFACE_*_MS` value selects, if it is a
/// whole number no greater than 100000.
pub open spec fn env_ms_value(value: Option<Seq<char>>) -> Option<nat> {
    match value {
        Some(v) => match spec_parse_nat(v) {
            Some(n) => if n <= 100_000 { Some(n) } else { None },
            None => None,
        },
        None => None,
    }
}

/// The view of an optional string.
pub open spec fn opt_view(value: Option<&str>) -> Option<Seq<char>> {
    match value {
        Some(v) => Some(v@),
        None => None,
    }
}

/// Parses a millisecond setting: a whole number no greater than 100000.
pub fn env_ms(value: Option<&str>) -> (r: Option<u64>)
    ensures
        match env_ms_value(opt_view(value)) {
            Some(n) => r == Some(n as u64),
            None => r is None,
        },
{
    match value {
        Some(v) => crate::text::parse_uint(v, 100_000),
        None => None,
    }
}

/// Whether a value of `OPENTERFACE_THROTTLE` disables the throttle (exactly `"0"`).
pub open spec fn throttle_disabled_by(value: Option<Seq<char>>) -> bool {
    value == Some(seq!['0'])
}

impl ThrottleConfig {
    /// Builds the configuration from the values of `OPENTERFACE_THROTTLE`,
    /// `OPENTERFACE_IDLE_DECODE_MS`, `OPENTERFACE_INPUT_WAKE_MS` and
    /// `OPENTERFACE_IDLE_WATCHDOG_MS` (`None` when unset); unset or invalid
    /// values keep the defaults.
    pub fn from_env_values(
        throttle: Option<&str>,
        idle_decode_ms: Option<&str>,
        input_wake_ms: Option<&str>,
        watchdog_ms: Option<&str>,
    ) -> (r: ThrottleConfig)
        ensures
            r.enabled == !throttle_disabled_by(opt_view(throttle)),
            r.idle_decode@ == match env_ms_value(opt_view(idle_decode_ms)) {
                Some(n) => n * 1_000_000,
                None => 100_000_000,
            },
            r.input_wake@ == match env_ms_value(opt_view(input_wake_ms)) {
                Some(n) => n * 1_000_000,
                None => 250_000_000,
            },
            r.watchdog@ == match env_ms_value(opt_view(watchdog_ms)) {
                Some(n) => n * 1_000_000,
                None => 1_000_000_000,
            },
            r.idle_after_frames == 15,
    {
        let mut cfg = ThrottleConfig::default();
        match throttle {
            Some(t) => {
                if is_single_zero(t) {
                    cfg.enabled = false;
                }
            },
            None => {},
        }
        match env_ms(idle_decode_ms) {
            Some(ms) => cfg.idle_decode = Duration::from_millis(ms),
            None => {},
        }
        match env_ms(input_wake_ms) {
            Some(ms) => cfg.input_wake = Duration::from_millis(ms),
            None => {},
        }
        match env_ms(watchdog_ms) {
            Some(ms) => cfg.watchdog = Duration::from_millis(ms),
            None => {},
        }
        cfg
    }
}

fn is_single_zero(s: &str) -> (r: bool)
    ensures
        r == (s@ == seq!['0']),
{
    let cs = crate::text::chars_of(s);
    let r = cs.len() == 1 && cs[0] == '0';
    proof {
        if r {
            assert(s@ =~= seq!['0']);
        }
    }
    r
}

/// The abstract state of a [`FrameThrottle`].
pub struct ThrottleView {
    /// Whether throttling is on.
    pub enabled: bool,
    /// Idle decode interval (ns).
    pub idle_decode: nat,
    /// Input wake window (ns).
    pub input_wake: nat,
    /// Watchdog interval (ns).
    pub watchdog: nat,
    /// Static frames before idle.
    pub idle_after_frames: u32,
    /// Hash of the last raw frame considered.
    pub last_raw_hash: Option<u64>,
    /// Hash of the last uploaded decoded image.
    pub last_decoded_hash: Option<u64>,
    /// Consecutive byte-identical raw frames seen.
    pub static_count: u32,
    /// Time of the last input.
    pub last_input: Option<nat>,
    /// Time of the last decode.
    pub last_decode: Option<nat>,
    /// Time of the last upload.
    pub last_upload: Option<nat>,
    /// Time of the last watchdog refresh.
    pub last_refresh: Option<nat>,
    /// A frame has been decoded and displayed.
    pub have_displayed: bool,
    /// Byte-identical raw frames are trusted to mean identical pixels.
    pub raw_reliable: bool,
}

/// Within the full-rate window after the last input.
pub open spec fn within_wake(v: ThrottleView, now: nat) -> bool {
    match v.last_input {
        None => false,
        Some(t) => sat_sub(now, t) < v.input_wake,
    }
}

/// The decode decision for a raw frame with hash `hash` at `now`, and the
/// state after it.
pub open spec fn decide_decode(v: ThrottleView, now: nat, hash: u64) -> (ThrottleView, bool) {
    if !v.enabled {
        (ThrottleView { last_decode: Some(now), ..v }, true)
    } else if within_wake(v, now) {
        (ThrottleView { last_raw_hash: Some(hash), last_decode: Some(now), ..v }, true)
    } else if v.last_raw_hash == Some(hash) {
        if v.have_displayed && v.raw_reliable {
            (v, false)
        } else {
            let sc: u32 = if v.static_count < u32::MAX { (v.static_count + 1) as u32 } else { u32::MAX };
            if sc < v.idle_after_frames {
                (ThrottleView { static_count: sc, last_decode: Some(now), ..v }, true)
            } else {
                let due = match v.last_decode {
                    None => true,
                    Some(last) => sat_sub(now, last) >= v.idle_decode,
                };
                (ThrottleView { static_count: sc, last_decode: if due { Some(now) } else { v.last_decode }, ..v }, due)
            }
        }
    } else {
        (ThrottleView { last_raw_hash: Some(hash), static_count: 0, last_decode: Some(now), ..v }, true)
    }
}

/// The upload decision for a decoded image with hash `hash` at `now`, and
/// the state after it.
pub open spec fn decide_upload(v: ThrottleView, now: nat, hash: u64) -> (ThrottleView, bool) {
    if v.last_decoded_hash == Some(hash) {
        (ThrottleView { raw_reliable: false, ..v }, false)
    } else {
        (
            ThrottleView {
                last_decoded_hash: Some(hash),
                last_upload: Some(now),
                last_refresh: Some(now),
                have_displayed: true,
                ..v
            },
            true,
        )
    }
}

/// Whether the cached frame should be re-presented at `now`.
pub open spec fn spec_force_refresh(v: ThrottleView, now: nat) -> bool {
    if !v.enabled || !v.have_displayed {
        false
    } else {
        match (v.last_refresh, v.last_upload) {
            (None, None) => false,
            (Some(r), Some(u)) => sat_sub(now, if r >= u { r } else { u }) >= v.watchdog,
            (Some(r), None) => sat_sub(now, r) >= v.watchdog,
            (None, Some(u)) => sat_sub(now, u) >= v.watchdog,
        }
    }
}

/// The FNV-1a offset basis (64-bit).
pub const FNV_OFFSET: u64 = 0xcbf2_9ce4_8422_2325;

/// The FNV-1a prime (64-bit).
pub const FNV_PRIME: u64 = 0x0000_0100_0000_01b3;

/// The fingerprint the throttle keeps of a byte buffer: its 64-bit FNV-1a
/// hash. Equal buffers have equal fingerprints; distinct buffers may
/// collide, as with any hash.
pub open spec fn frame_hash(bytes: Seq<u8>) -> u64
    decreases bytes.len(),
{
    if bytes.len() == 0 {
        FNV_OFFSET
    } else {
        vstd::wrapping::u64_specs::wrapping_mul(frame_hash(bytes.drop_last()) ^ (bytes.last() as u64), FNV_PRIME)
    }
}

/// The inverse of [`FNV_PRIME`] modulo 2^64.
pub const FNV_PRIME_INVERSE: u64 = 0xce96_5057_aff6_957b;

proof fn lemma_prime_step_undoes(x: u64)
    by (bit_vector)
    ensures
        (((x as int * 0x100000001b3int) % 0x1_0000_0000_0000_0000int) * 0xce965057aff6957bint) % 0x1_0000_0000_0000_0000int
            == x as int,
{
}

/// One hashing step maps distinct states to distinct states, and distinct
/// bytes from one state to distinct states.
proof fn lemma_hash_step_injective(h1: u64, h2: u64, a: u8, b: u8)
    ensures
        vstd::wrapping::u64_specs::wrapping_mul(h1 ^ (a as u64), FNV_PRIME)
            == vstd::wrapping::u64_specs::wrapping_mul(h2 ^ (b as u64), FNV_PRIME) ==> (h1 ^ (a as u64))
            == (h2 ^ (b as u64)),
        (h1 ^ (a as u64)) == (h2 ^ (b as u64)) && a == b ==> h1 == h2,
        (h1 ^ (a as u64)) == (h2 ^ (b as u64)) && h1 == h2 ==> a == b,
{
    let x = h1 ^ (a as u64);
    let y = h2 ^ (b as u64);
    lemma_prime_step_undoes(x);
    lemma_prime_step_undoes(y);
    assert(((x as int * 0x100000001b3int) % 0x1_0000_0000_0000_0000int) == vstd::wrapping::u64_specs::wrapping_mul(
        x,
        FNV_PRIME,
    ) as int);
    assert(((y as int * 0x100000001b3int) % 0x1_0000_0000_0000_0000int) == vstd::wrapping::u64_specs::wrapping_mul(
        y,
        FNV_PRIME,
    ) as int);
    assert((h1 ^ (a as u64)) == (h2 ^ (b as u64)) && a == b ==> h1 == h2) by (bit_vector);
    assert((h1 ^ (a as u64)) == (h2 ^ (b as u64)) && h1 == h2 ==> a == b) by (bit_vector);
}

/// The fingerprint depends on every byte: two buffers of the same length
/// that differ in exactly one position have different fingerprints,
/// wherever that position lies.
pub proof fn lemma_hash_sees_every_byte(a: Seq<u8>, b: Seq<u8>, i: int)
    requires
        a.len() == b.len(),
        0 <= i < a.len(),
        a[i] != b[i],
        forall|j: int| 0 <= j < a.len() && j != i ==> a[j] == b[j],
    ensures
        frame_hash(a) != frame_hash(b),
    decreases a.len(),
{
    let n = a.len() as int;
    let pa = a.drop_last();
    let pb = b.drop_last();
    if i == n - 1 {
        assert(pa =~= pb);
        lemma_hash_step_injective(frame_hash(pa), frame_hash(pb), a.last(), b.last());
    } else {
        lemma_hash_sees_every_byte(pa, pb, i);
        assert(a.last() == b.last());
        lemma_hash_step_injective(frame_hash(pa), frame_hash(pb), a.last(), b.last());
    }
}

/// Computes [`frame_hash`] of a byte buffer.
pub fn hash_bytes(bytes: &[u8]) -> (r: u64)
    ensures
        r == frame_hash(bytes@),
{
    let mut h: u64 = FNV_OFFSET;
    let mut i: usize = 0;
    while i < bytes.len()
        invariant
            i <= bytes@.len(),
            h == frame_hash(bytes@.take(i as int)),
        decreases bytes@.len() - i,
    {
        proof {
            assert(bytes@.take(i + 1).drop_last() =~= bytes@.take(i as int));
        }
        h = (h ^ (bytes[i] as u64)).wrapping_mul(FNV_PRIME);
        i = i + 1;
    }
    assert(bytes@.take(bytes@.len() as int) =~= bytes@);
    h
}

/// The throttle's per-frame decode/upload/refresh decision machine.
pub struct FrameThrottle {
    config: ThrottleConfig,
    last_raw_hash: Option<u64>,
    last_decoded_hash: Option<u64>,
    static_count: u32,
    last_input: Option<Duration>,
    last_decode: Option<Duration>,
    last_upload: Option<Duration>,
    last_refresh: Option<Duration>,
    have_displayed: bool,
    raw_reliable: bool,
}

/// The view of an optional time.
pub open spec fn opt_time(t: Option<Duration>) -> Option<nat> {
    match t {
        Some(d) => Some(d@),
        None => None,
    }
}

impl View for FrameThrottle {
    type V = ThrottleView;

    closed spec fn view(&self) -> ThrottleView {
        ThrottleView {
            enabled: self.config.enabled,
            idle_decode: self.config.idle_decode@,
            input_wake: self.config.input_wake@,
            watchdog: self.config.watchdog@,
            idle_after_frames: self.config.idle_after_frames,
            last_raw_hash: self.last_raw_hash,
            last_decoded_hash: self.last_decoded_hash,
            static_count: self.static_count,
            last_input: opt_time(self.last_input),
            last_decode: opt_time(self.last_decode),
            last_upload: opt_time(self.last_upload),
            last_refresh: opt_time(self.last_refresh),
            have_displayed: self.have_displayed,
            raw_reliable: self.raw_reliable,
        }
    }
}

/// A disabled throttle decodes every frame and never forces a refresh.
pub proof fn lemma_disabled_always_decodes(v: ThrottleView, now: nat, hash: u64)
    requires
        !v.enabled,
    ensures
        decide_decode(v, now, hash).1,
        !decide_decode(v, now, hash).0.enabled,
        !spec_force_refresh(v, now),
{
}

/// Within the input-wake window every frame is decoded.
pub proof fn lemma_wake_window_decodes(v: ThrottleView, now: nat, hash: u64)
    requires
        within_wake(v, now),
    ensures
        decide_decode(v, now, hash).1,
{
}

/// Once a frame is displayed from a deterministic stream, a raw frame
/// byte-identical to the last one considered is skipped (no decode, no state
/// change) outside the wake window.
pub proof fn lemma_identical_frame_skipped(v: ThrottleView, now: nat, last: Seq<u8>, frame: Seq<u8>)
    requires
        v.enabled,
        !within_wake(v, now),
        v.last_raw_hash == Some(frame_hash(last)),
        frame == last,
        v.have_displayed,
        v.raw_reliable,
    ensures
        decide_decode(v, now, frame_hash(frame)) == (v, false),
{
}

/// A decoded image byte-identical to the one just considered is not
/// uploaded, whenever it comes, and seeing it marks the raw stream as
/// non-deterministic.
pub proof fn lemma_identical_upload_skipped(v: ThrottleView, t1: nat, t2: nat, image: Seq<u8>, again: Seq<u8>)
    requires
        again == image,
    ensures
        !decide_upload(decide_upload(v, t1, frame_hash(image)).0, t2, frame_hash(again)).1,
        !decide_upload(decide_upload(v, t1, frame_hash(image)).0, t2, frame_hash(again)).0.raw_reliable,
{
}

impl FrameThrottle {
    /// Creates a throttle with the given configuration.
    pub fn new(config: ThrottleConfig) -> (r: FrameThrottle)
        ensures
            r@.enabled == config.enabled,
            r@.idle_decode == config.idle_decode@,
            r@.input_wake == config.input_wake@,
            r@.watchdog == config.watchdog@,
            r@.idle_after_frames == config.idle_after_frames,
            r@.last_raw_hash is None,
            r@.last_decoded_hash is None,
            r@.static_count == 0,
            r@.last_input is None,
            r@.last_decode is None,
            r@.last_upload is None,
            r@.last_refresh is None,
            !r@.have_displayed,
            r@.raw_reliable,
    {
        FrameThrottle {
            config,
            last_raw_hash: None,
            last_decoded_hash: None,
            static_count: 0,
            last_input: None,
            last_decode: None,
            last_upload: None,
            last_refresh: None,
            have_displayed: false,
            raw_reliable: true,
        }
    }

    /// Records input activity at `now` (opens the full-rate wake window).
    pub fn note_input(&mut self, now: Duration)
        ensures
            final(self)@ == (ThrottleView { last_input: Some(now@), ..old(self)@ }),
    {
        self.last_input = Some(now);
    }

    /// Records that the cached frame was re-presented at `now`.
    pub fn note_refresh(&mut self, now: Duration)
        ensures
            final(self)@ == (ThrottleView { last_refresh: Some(now@), ..old(self)@ }),
    {
        self.last_refresh = Some(now);
    }

    /// Decides whether the raw frame whose hash is `hash` should be decoded
    /// at `now`.
    pub fn decide_decode(&mut self, now: Duration, hash: u64) -> (r: bool)
        ensures
            (final(self)@, r) == decide_decode(old(self)@, now@, hash),
    {
        if !self.config.enabled {
            self.last_decode = Some(now);
            return true;
        }
        if self.within_wake(now) {
            self.last_raw_hash = Some(hash);
            self.last_decode = Some(now);
            return true;
        }
        if self.last_raw_hash == Some(hash) {
            if self.have_displayed && self.raw_reliable {
                return false;
            }
            self.static_count = if self.static_count < u32::MAX { self.static_count + 1 } else { u32::MAX };
            if self.static_count < self.config.idle_after_frames {
                self.last_decode = Some(now);
                return true;
            }
            let due = match self.last_decode {
                None => true,
                Some(last) => now.saturating_sub(last).at_least(self.config.idle_decode),
            };
            if due {
                self.last_decode = Some(now);
            }
            return due;
        }
        self.last_raw_hash = Some(hash);
        self.static_count = 0;
        self.last_decode = Some(now);
        true
    }

    /// Decides whether the raw `frame` should be decoded at `now` (its bytes
    /// are hashed; see [`FrameThrottle::decide_decode`]).
    pub fn should_decode(&mut self, now: Duration, frame: &[u8]) -> (r: bool)
        ensures
            (final(self)@, r) == decide_decode(
                old(self)@,
                now@,
                if old(self)@.enabled {
                    frame_hash(frame@)
                } else {
                    0
                },
            ),
            !old(self)@.enabled ==> r,
            within_wake(old(self)@, now@) ==> r,
    {
        if !self.config.enabled {
            return self.decide_decode(now, 0);
        }
        let h = hash_bytes(frame);
        self.decide_decode(now, h)
    }

    /// Decides whether the decoded image whose hash is `hash` should be
    /// uploaded at `now`.
    pub fn decide_upload(&mut self, now: Duration, hash: u64) -> (r: bool)
        ensures
            (final(self)@, r) == decide_upload(old(self)@, now@, hash),
    {
        if self.last_decoded_hash == Some(hash) {
            self.raw_reliable = false;
            return false;
        }
        self.last_decoded_hash = Some(hash);
        self.last_upload = Some(now);
        self.last_refresh = Some(now);
        self.have_displayed = true;
        true
    }

    /// After a decode, decides whether the decoded pixels should be uploaded
    /// at `now` (skipped when the decoded image is unchanged).
    pub fn should_upload(&mut self, now: Duration, decoded: &[u8]) -> (r: bool)
        ensures
            (final(self)@, r) == decide_upload(old(self)@, now@, frame_hash(decoded@)),
    {
        let h = hash_bytes(decoded);
        self.decide_upload(now, h)
    }

    /// Whether the cached frame should be re-presented now (anti-freeze
    /// watchdog), at most once per `watchdog` interval.
    pub fn should_force_refresh(&self, now: Duration) -> (r: bool)
        ensures
            r == spec_force_refresh(self@, now@),
    {
        if !self.config.enabled || !self.have_displayed {
            return false;
        }
        let base = match (self.last_refresh, self.last_upload) {
            (Some(r), Some(u)) => r.max(u),
            (Some(r), None) => r,
            (None, Some(u)) => u,
            (None, None) => return false,
        };
        now.saturating_sub(base).at_least(self.config.watchdog)
    }

    fn within_wake(&self, now: Duration) -> (r: bool)
        ensures
            r == within_wake(self@, now@),
    {
        match self.last_input {
            None => false,
            Some(t) => !now.saturating_sub(t).at_least(self.config.input_wake),
        }
    }
}

} // verus!

use openterface::throttle::{hash_bytes, FrameThrottle, ThrottleConfig};
use openterface::time::Duration;

fn cfg() -> ThrottleConfig {
    ThrottleConfig::default()
}

fn ms(n: u64) -> Duration {
    Duration::from_millis(n)
}

#[test]
fn changing_frames_always_decode() {
    let mut t = FrameThrottle::new(cfg());
    assert!(t.should_decode(ms(0), b"frame-a"));
    assert!(t.should_decode(ms(33), b"frame-b"));
    assert!(t.should_decode(ms(66), b"frame-c"));
}

#[test]
fn static_frames_skip_decode_once_displayed() {
    let mut t = FrameThrottle::new(cfg());
    assert!(t.should_decode(ms(0), b"static"));
    assert!(t.should_upload(ms(0), b"pixels"));
    assert!(!t.should_decode(ms(33), b"static"));
    assert!(!t.should_decode(ms(66), b"static"));
}

#[test]
fn nondeterministic_stream_falls_back_to_idle_gate() {
    let mut t = FrameThrottle::new(cfg());
    assert!(t.should_decode(ms(0), b"raw-a"));
    assert!(t.should_upload(ms(0), b"P"));
    assert!(t.should_decode(ms(33), b"raw-b"));
    assert!(!t.should_upload(ms(33), b"P"));
    for i in 1..15 {
        assert!(t.should_decode(ms(33 + i * 33), b"raw-b"));
    }
}

#[test]
fn input_wake_forces_full_rate() {
    let mut t = FrameThrottle::new(cfg());
    for i in 0..20 {
        t.should_decode(ms(i * 33), b"static");
    }
    let base = 20 * 33;
    t.note_input(ms(base));
    assert!(t.should_decode(ms(base + 10), b"static"));
    assert!(t.should_decode(ms(base + 240), b"static"));
    assert!(!t.should_decode(ms(base + 300), b"static"));
}

#[test]
fn disabled_always_decodes() {
    let mut t = FrameThrottle::new(ThrottleConfig { enabled: false, ..cfg() });
    for i in 0..50 {
        assert!(t.should_decode(ms(i), b"static"));
    }
    assert!(!t.should_force_refresh(ms(100_000)));
}

#[test]
fn upload_skipped_when_decoded_unchanged() {
    let mut t = FrameThrottle::new(cfg());
    assert!(t.should_upload(ms(0), b"pixels-1"));
    assert!(!t.should_upload(ms(33), b"pixels-1"));
    assert!(t.should_upload(ms(66), b"pixels-2"));
}

#[test]
fn watchdog_forces_refresh_after_interval_and_debounces() {
    let mut t = FrameThrottle::new(cfg());
    t.should_decode(ms(0), b"raw");
    t.should_upload(ms(0), b"pixels");
    assert!(!t.should_force_refresh(ms(500)));
    assert!(t.should_force_refresh(ms(1000)));
    t.note_refresh(ms(1000));
    assert!(!t.should_force_refresh(ms(1500)));
    assert!(t.should_force_refresh(ms(2000)));
}

#[test]
fn throttle_settings_come_from_their_variables() {
    let d = ThrottleConfig::from_env_values(None, None, None, None);
    assert!(d.enabled);
    assert_eq!(d.idle_decode, ms(100));
    assert_eq!(d.input_wake, ms(250));
    assert_eq!(d.watchdog, ms(1000));
    let c = ThrottleConfig::from_env_values(Some("0"), Some("40"), Some("junk"), Some("2000"));
    assert!(!c.enabled);
    assert_eq!(c.idle_decode, ms(40));
    assert_eq!(c.input_wake, ms(250));
    assert_eq!(c.watchdog, ms(2000));
}

#[test]
fn identical_decision_hashes_skip_after_display() {
    let mut t = FrameThrottle::new(cfg());
    assert!(t.decide_decode(ms(0), 7));
    assert!(t.decide_upload(ms(0), 9));
    assert!(!t.decide_decode(ms(33), 7));
    assert!(!t.decide_upload(ms(33), 9));
    assert!(t.decide_decode(ms(66), 8));
}

#[test]
fn frame_fingerprint_is_fnv1a() {
    assert_eq!(hash_bytes(b""), 0xcbf2_9ce4_8422_2325);
    assert_eq!(hash_bytes(b"a"), 0xaf63_dc4c_8601_ec8c);
    assert_eq!(hash_bytes(b"foobar"), 0x8594_4171_f739_67e8);
    assert_eq!(hash_bytes(b"static"), hash_bytes(b"static"));
    assert_ne!(hash_bytes(b"raw-a"), hash_bytes(b"raw-b"));
}

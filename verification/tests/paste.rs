use openterface::paste::{normalize_line_endings, prepare_paste, PasteOutcome, PasteStats};
use openterface::protocol::hid::ascii_to_hid;

#[test]
fn crlf_and_lone_cr_normalize_to_single_lf() {
    assert_eq!(normalize_line_endings("a\r\nb\rc\n"), "a\nb\nc\n");
}

#[test]
fn stats_count_after_normalization() {
    let paste = prepare_paste("a\r\n€\r", 99);
    assert_eq!(paste.text(), "a\n€\n");
    assert_eq!(paste.stats(), PasteStats { submitted: 3, skipped: 1, truncated: 0 });
}

#[test]
fn cap_is_measured_in_normalized_chars() {
    let exactly = prepare_paste("a\r\nb", 3);
    assert_eq!(exactly.text(), "a\nb");
    assert_eq!(exactly.stats().truncated, 0);

    let truncated = prepare_paste("a\r\nbc", 3);
    assert_eq!(truncated.text(), "a\nb");
    assert_eq!(truncated.stats(), PasteStats { submitted: 3, skipped: 0, truncated: 1 });
}

#[test]
fn lone_cr_at_cap_boundary_is_deterministic() {
    let paste = prepare_paste("ab\rc", 3);
    assert_eq!(paste.text(), "ab\n");
    assert_eq!(paste.stats(), PasteStats { submitted: 3, skipped: 0, truncated: 1 });
}

#[test]
fn skipped_uses_ascii_to_hid_source_of_truth() {
    let input = "A\t\n€\u{0}";
    let paste = prepare_paste(input, usize::MAX);
    let normalized = normalize_line_endings(input);
    let expected_submitted = normalized.chars().filter(|&ch| ascii_to_hid(ch).is_some()).count();
    let expected_skipped = normalized.chars().count() - expected_submitted;
    assert_eq!(paste.stats().submitted, expected_submitted);
    assert_eq!(paste.stats().skipped, expected_skipped);
}

#[test]
fn normalizing_twice_changes_nothing() {
    for s in ["a\r\n\r\rb", "\r\r\n\n", "plain", "", "\n\r"] {
        let once = normalize_line_endings(s);
        assert!(!once.contains('\r'));
        assert_eq!(normalize_line_endings(&once), once);
        assert!(once.chars().count() <= s.chars().count());
    }
    assert_eq!(normalize_line_endings("\r\r\n"), "\n\n");
}

#[test]
fn every_normalized_char_is_counted_once() {
    let p = prepare_paste("x€\r\ny\u{1}z", 4);
    let s = p.stats();
    assert_eq!(s.submitted + s.skipped + s.truncated, 6);
    assert_eq!(p.text(), "x€\ny");
    assert_eq!(s, PasteStats { submitted: 3, skipped: 1, truncated: 2 });
    let empty = prepare_paste("abc", 0);
    assert_eq!(empty.text(), "");
    assert_eq!(empty.stats().truncated, 3);
}

#[test]
fn outcome_defaults_to_nothing_sent() {
    let o = PasteOutcome::default();
    assert_eq!(o.reports, 0);
    assert_eq!(o.stats, PasteStats::default());
}

//! Text preparation for paste-as-keystrokes.
//!
//! Pure and GUI-free: normalizes line endings, applies the paste-size cap and
//! computes metrics with the same US-layout HID mapper that later generates
//! CH9329 keyboard reports. Intermediate copies of the pasted text are wiped.

use vstd::prelude::*;
use zeroize::Zeroize;

use crate::protocol::hid::{ascii_to_hid, spec_ascii_to_hid};
use crate::text::char_count_fits;

verus! {

broadcast use vstd::string::axiom_spec_iter;

/// Result counters for a paste operation.
#[derive(Clone, Copy, PartialEq, Eq, Structural, Debug)]
pub struct PasteStats {
    /// Normalized characters that have a HID mapping and were submitted.
    pub submitted: usize,
    /// Normalized characters retained by the cap but not mappable on the US
    /// HID text path.
    pub skipped: usize,
    /// Normalized characters dropped because they exceeded the paste cap.
    pub truncated: usize,
}

impl Default for PasteStats {
    fn default() -> (r: PasteStats)
        ensures
            r == (PasteStats { submitted: 0, skipped: 0, truncated: 0 }),
    {
        PasteStats { submitted: 0, skipped: 0, truncated: 0 }
    }
}

/// Paste submission outcome.
#[derive(Clone, Copy, PartialEq, Eq, Structural, Debug)]
pub struct PasteOutcome {
    /// Text classification counters.
    pub stats: PasteStats,
    /// Number of keyboard reports queued for this paste.
    pub reports: usize,
}

impl Default for PasteOutcome {
    fn default() -> (r: PasteOutcome)
        ensures
            r == (PasteOutcome {
                stats: PasteStats { submitted: 0, skipped: 0, truncated: 0 },
                reports: 0,
            }),
    {
        PasteOutcome { stats: PasteStats::default(), reports: 0 }
    }
}

/// A normalized and capped paste payload plus its metrics.
#[derive(Clone, PartialEq, Eq, Debug)]
pub struct PreparedPaste {
    text: String,
    stats: PasteStats,
}

impl View for PreparedPaste {
    type V = (Seq<char>, PasteStats);

    /// The text to type and its metrics.
    closed spec fn view(&self) -> (Seq<char>, PasteStats) {
        (self.text@, self.stats)
    }
}

/// Wipes the string's bytes and leaves it empty (`Zeroize` for `String`).
#[verifier::external_body]
fn wipe_string(s: &mut String)
    ensures
        final(s)@ == Seq::<char>::empty(),
    opens_invariants none
    no_unwind
{
    s.zeroize();
}

impl Drop for PreparedPaste {
    /// Wipes the pasted text from memory.
    fn drop(&mut self)
        opens_invariants none
        no_unwind
    {
        wipe_string(&mut self.text);
    }
}

impl PreparedPaste {
    /// The normalized, capped text that should be typed.
    pub fn text(&self) -> (r: &str)
        ensures
            r@ == self@.0,
    {
        self.text.as_str()
    }

    /// Metrics for this prepared paste.
    pub fn stats(&self) -> (r: PasteStats)
        ensures
            r == self@.1,
    {
        self.stats
    }
}

/// `s` with line endings folded for keyboard injection: every CR becomes an
/// LF, and an LF directly after a CR is dropped (so CRLF, and a lone CR,
/// each give one LF).
pub open spec fn normalized(s: Seq<char>) -> Seq<char>
    decreases s.len(),
{
    if s.len() == 0 {
        Seq::empty()
    } else {
        let before = normalized(s.drop_last());
        let c = s.last();
        if c == '\r' {
            before.push('\n')
        } else if c == '\n' && s.len() >= 2 && s[s.len() - 2] == '\r' {
            before
        } else {
            before.push(c)
        }
    }
}

/// At most `max` characters of `s`, from its start.
pub open spec fn capped(s: Seq<char>, max: nat) -> Seq<char> {
    if s.len() <= max {
        s
    } else {
        s.take(max as int)
    }
}

/// How many characters of `s` have a US-layout HID mapping.
pub open spec fn mapped_count(s: Seq<char>) -> nat
    decreases s.len(),
{
    if s.len() == 0 {
        0
    } else {
        mapped_count(s.drop_last()) + if spec_ascii_to_hid(s.last()) is Some {
            1nat
        } else {
            0nat
        }
    }
}

proof fn lemma_mapped_count_le(s: Seq<char>)
    ensures
        mapped_count(s) <= s.len(),
    decreases s.len(),
{
    if s.len() > 0 {
        lemma_mapped_count_le(s.drop_last());
    }
}

/// Normalizes line endings for keyboard injection.
///
/// The CH9329 text path maps `\n` to Enter, while `\r` has no HID mapping.
/// CRLF and lone CR fold to one `\n` so Windows and classic Mac line endings
/// produce a single Enter.
pub fn normalize_line_endings(input: &str) -> (r: String)
    ensures
        r@ == normalized(input@),
        forall|i: int| 0 <= i < r@.len() ==> r@[i] != '\r',
        (forall|i: int| 0 <= i < input@.len() ==> input@[i] != '\r') ==> r@ == input@,
        r@.len() <= input@.len(),
{
    let mut out = String::new();
    let mut prev_cr = false;
    for c in it: input.chars()
        invariant
            it.seq() == input@,
            out@ == normalized(input@.take(it.index() as int)),
            prev_cr == (it.index() > 0 && input@[it.index() - 1] == '\r'),
    {
        let ghost k = it.index() as int;
        proof {
            let t = input@.take(k + 1);
            assert(t.drop_last() =~= input@.take(k));
            assert(t.last() == c);
            if k > 0 {
                assert(t[t.len() - 2] == input@[k - 1]);
            }
        }
        if c == '\r' {
            out.push('\n');
            prev_cr = true;
        } else if c == '\n' && prev_cr {
            prev_cr = false;
        } else {
            out.push(c);
            prev_cr = false;
        }
    }
    assert(input@.take(input@.len() as int) =~= input@);
    proof {
        lemma_normalized_has_no_cr(input@);
        lemma_normalized_not_longer(input@);
        if forall|i: int| 0 <= i < input@.len() ==> input@[i] != '\r' {
            lemma_normalized_without_cr_is_identity(input@);
        }
    }
    out
}

/// Normalizes `input`, caps it to `max_chars` normalized characters, and
/// reports how much text will be typed, skipped, or truncated.
///
/// The cap is measured in normalized characters, after CRLF/CR folding and
/// before HID classification: `truncated` counts normalized characters
/// dropped by the cap, `skipped` counts retained characters without a
/// US-layout HID mapping. Every normalized character is counted exactly once.
pub fn prepare_paste(input: &str, max_chars: usize) -> (r: PreparedPaste)
    ensures
        r@.0 == capped(normalized(input@), max_chars as nat),
        r@.1.submitted == mapped_count(r@.0),
        r@.1.skipped == r@.0.len() - mapped_count(r@.0),
        r@.1.truncated == normalized(input@).len() - r@.0.len(),
        r@.1.submitted + r@.1.skipped + r@.1.truncated == normalized(input@).len(),
{
    let mut normalized_text = normalize_line_endings(input);
    let mut text = String::new();
    let mut submitted: usize = 0;
    let mut skipped: usize = 0;
    let mut truncated: usize = 0;
    let ghost all = normalized_text@;
    {
        let view = normalized_text.as_str();
        char_count_fits(view);
        for c in it: view.chars()
            invariant
                it.seq() == all,
                view@ == all,
                all.len() <= usize::MAX,
                text@ == capped(all.take(it.index() as int), max_chars as nat),
                submitted == mapped_count(text@),
                skipped == text@.len() - mapped_count(text@),
                truncated == it.index() - text@.len(),
                text@.len() <= it.index(),
        {
            let ghost k = it.index() as int;
            proof {
                lemma_mapped_count_le(text@);
                let t = all.take(k + 1);
                assert(t.drop_last() =~= all.take(k));
            }
            if text_len_below(submitted, skipped, max_chars) {
                text.push(c);
                proof {
                    assert(text@.drop_last() =~= capped(all.take(k), max_chars as nat));
                    assert(text@ =~= capped(all.take(k + 1), max_chars as nat));
                }
                if ascii_to_hid(c).is_some() {
                    submitted = submitted + 1;
                } else {
                    skipped = skipped + 1;
                }
            } else {
                proof {
                    assert(capped(all.take(k + 1), max_chars as nat) =~= capped(
                        all.take(k),
                        max_chars as nat,
                    ));
                }
                truncated = truncated + 1;
            }
        }
        assert(all.take(all.len() as int) =~= all);
    }
    wipe_string(&mut normalized_text);
    PreparedPaste { text, stats: PasteStats { submitted, skipped, truncated } }
}

/// Whether `submitted + skipped` retained characters are still under the cap.
fn text_len_below(submitted: usize, skipped: usize, max_chars: usize) -> (r: bool)
    ensures
        r == (submitted + skipped < max_chars),
{
    if submitted >= max_chars {
        false
    } else {
        skipped < max_chars - submitted
    }
}

/// Normalized text holds no carriage return.
pub proof fn lemma_normalized_has_no_cr(s: Seq<char>)
    ensures
        forall|i: int| 0 <= i < normalized(s).len() ==> normalized(s)[i] != '\r',
    decreases s.len(),
{
    if s.len() > 0 {
        lemma_normalized_has_no_cr(s.drop_last());
        let before = normalized(s.drop_last());
        assert forall|i: int| 0 <= i < normalized(s).len() implies normalized(s)[i] != '\r' by {
            if i < before.len() {
                assert(normalized(s)[i] == before[i]);
            }
        }
    }
}

/// Text without a carriage return is left unchanged by normalization.
pub proof fn lemma_normalized_without_cr_is_identity(s: Seq<char>)
    requires
        forall|i: int| 0 <= i < s.len() ==> s[i] != '\r',
    ensures
        normalized(s) == s,
    decreases s.len(),
{
    if s.len() > 0 {
        lemma_normalized_without_cr_is_identity(s.drop_last());
        if s.len() >= 2 {
            assert(s[s.len() - 2] != '\r');
        }
        assert(s.drop_last().push(s.last()) =~= s);
    }
}

/// Normalizing twice gives the same text as normalizing once.
pub proof fn lemma_normalize_idempotent(s: Seq<char>)
    ensures
        normalized(normalized(s)) == normalized(s),
{
    lemma_normalized_has_no_cr(s);
    lemma_normalized_without_cr_is_identity(normalized(s));
}

/// Normalization never lengthens text.
pub proof fn lemma_normalized_not_longer(s: Seq<char>)
    ensures
        normalized(s).len() <= s.len(),
    decreases s.len(),
{
    if s.len() > 0 {
        lemma_normalized_not_longer(s.drop_last());
    }
}

} // verus!

//! Focused-GUI paste configuration and hotkey helpers.
//!
//! A host-local paste shortcut is a modifier combination over the physical
//! `V` key. Modifier families are matched exactly (left or right side), so
//! `Ctrl+Shift+V` does not also steal `Ctrl+Alt+Shift+V`. The keys of a
//! recognised chord are then swallowed until their physical release.

use std::collections::BTreeSet;
use vstd::prelude::*;

use crate::event::{HidUsage, Modifiers};
use crate::text::{
    chars_of, eq_ignore_ascii_case, parse_uint, same_word, spec_parse_bounded, str_eq,
    string_of, trim_white_space, trimmed,
};

verus! {

/// Environment variable that enables/disables focused GUI paste.
pub const ENV_ENABLE_PASTE: &'static str = "OPENTERFACE_ENABLE_PASTE";
/// Environment variable that caps normalized characters per paste.
pub const ENV_PASTE_MAX_CHARS: &'static str = "OPENTERFACE_PASTE_MAX_CHARS";
/// Environment variable that sets the focused GUI paste shortcut.
pub const ENV_PASTE_SHORTCUT: &'static str = "OPENTERFACE_PASTE_SHORTCUT";
/// Environment variable that controls host-side paste on middle mouse click.
pub const ENV_MIDDLE_CLICK_PASTE: &'static str = "OPENTERFACE_MIDDLE_CLICK_PASTE";

/// Default normalized-character paste cap.
pub const DEFAULT_PASTE_MAX_CHARS: usize = 4096;
/// Maximum accepted normalized-character paste cap.
pub const MAX_PASTE_MAX_CHARS: usize = 65_536;

/// The HID usage of the `V` key.
pub const HID_V_USAGE: u8 = 0x19;

/// The `V` key.
pub fn hid_v() -> (r: HidUsage)
    ensures
        r == HidUsage(HID_V_USAGE),
{
    HidUsage(HID_V_USAGE)
}

/// A focused-GUI host-local paste shortcut: which modifier families must be
/// held (and no others) together with the trigger key.
#[derive(Clone, Copy, PartialEq, Eq, Structural, Debug)]
pub struct PasteShortcut {
    /// A Control key.
    pub ctrl: bool,
    /// An Alt key.
    pub alt: bool,
    /// A Shift key.
    pub shift: bool,
    /// A Super (GUI) key.
    pub super_key: bool,
    /// The trigger key.
    pub key: HidUsage,
}

/// The default shortcut, `Ctrl+Shift+V`.
pub open spec fn default_shortcut() -> PasteShortcut {
    PasteShortcut { ctrl: true, alt: false, shift: true, super_key: false, key: HidUsage(0x19) }
}

impl Default for PasteShortcut {
    /// `Ctrl+Shift+V`.
    fn default() -> (r: PasteShortcut)
        ensures
            r == default_shortcut(),
    {
        PasteShortcut { ctrl: true, alt: false, shift: true, super_key: false, key: hid_v() }
    }
}

/// A shortcut token separator.
pub open spec fn is_separator(c: char) -> bool {
    c == '+' || c == '-' || c == ' ' || c == '_'
}

/// Splitting `s` at separators: the completed tokens and the token still
/// being read.
pub open spec fn split_state(s: Seq<char>) -> (Seq<Seq<char>>, Seq<char>)
    decreases s.len(),
{
    if s.len() == 0 {
        (Seq::empty(), Seq::empty())
    } else {
        let (done, cur) = split_state(s.drop_last());
        if is_separator(s.last()) {
            if cur.len() > 0 {
                (done.push(cur), Seq::empty())
            } else {
                (done, Seq::empty())
            }
        } else {
            (done, cur.push(s.last()))
        }
    }
}

/// The non-empty tokens of `s` between separators, in order.
pub open spec fn tokens(s: Seq<char>) -> Seq<Seq<char>> {
    let (done, cur) = split_state(s);
    if cur.len() > 0 {
        done.push(cur)
    } else {
        done
    }
}

/// What a shortcut's tokens have named so far: Ctrl, Alt, Shift, Super, the
/// `V` key, and whether every token was understood.
pub type ShortcutScan = (bool, bool, bool, bool, bool, bool);

/// One token applied to a shortcut scan.
pub open spec fn scan_token(st: ShortcutScan, t: Seq<char>) -> ShortcutScan {
    let (c, a, sh, su, k, ok) = st;
    if same_word(t, "ctrl"@) || same_word(t, "control"@) {
        (true, a, sh, su, k, ok)
    } else if same_word(t, "alt"@) {
        (c, true, sh, su, k, ok)
    } else if same_word(t, "shift"@) {
        (c, a, true, su, k, ok)
    } else if same_word(t, "super"@) || same_word(t, "meta"@) || same_word(t, "mod"@) || same_word(
        t,
        "win"@,
    ) || same_word(t, "logo"@) {
        (c, a, sh, true, k, ok)
    } else if same_word(t, "v"@) {
        (c, a, sh, su, true, ok)
    } else {
        (c, a, sh, su, k, false)
    }
}

/// The scan of a token sequence.
pub open spec fn scan_tokens(ts: Seq<Seq<char>>) -> ShortcutScan
    decreases ts.len(),
{
    if ts.len() == 0 {
        (false, false, false, false, false, true)
    } else {
        scan_token(scan_tokens(ts.drop_last()), ts.last())
    }
}

/// The shortcut that `s` names: tokens separated by `+`, `-`, space or `_`,
/// each a modifier name or `v` (ASCII case ignored), naming the key and at
/// least one modifier.
pub open spec fn spec_parse_shortcut(s: Seq<char>) -> Option<PasteShortcut> {
    let (c, a, sh, su, k, ok) = scan_tokens(tokens(s));
    if ok && k && (c || a || sh || su) {
        Some(PasteShortcut { ctrl: c, alt: a, shift: sh, super_key: su, key: HidUsage(0x19) })
    } else {
        None
    }
}

/// The display label of a shortcut.
pub open spec fn shortcut_label(s: PasteShortcut) -> Seq<char> {
    if s.key != HidUsage(0x19) {
        "custom modifier+V"@
    } else {
        match (s.ctrl, s.alt, s.shift, s.super_key) {
            (true, false, true, false) => "Ctrl+Shift+V"@,
            (true, true, true, false) => "Ctrl+Alt+Shift+V"@,
            (true, false, false, false) => "Ctrl+V"@,
            (false, true, false, false) => "Alt+V"@,
            (false, false, true, false) => "Shift+V"@,
            (false, false, false, true) => "Super+V"@,
            (true, false, false, true) => "Ctrl+Super+V"@,
            (true, false, true, true) => "Ctrl+Shift+Super+V"@,
            (true, true, false, false) => "Ctrl+Alt+V"@,
            (false, true, true, false) => "Alt+Shift+V"@,
            _ => "custom modifier+V"@,
        }
    }
}

fn token_scan(st: ShortcutScan, t: &Vec<char>) -> (r: ShortcutScan)
    ensures
        r == scan_token(st, t@),
{
    let word = string_of(t);
    let w = word.as_str();
    let (c, a, sh, su, k, ok) = st;
    if eq_ignore_ascii_case(w, "ctrl") || eq_ignore_ascii_case(w, "control") {
        (true, a, sh, su, k, ok)
    } else if eq_ignore_ascii_case(w, "alt") {
        (c, true, sh, su, k, ok)
    } else if eq_ignore_ascii_case(w, "shift") {
        (c, a, true, su, k, ok)
    } else if eq_ignore_ascii_case(w, "super") || eq_ignore_ascii_case(w, "meta")
        || eq_ignore_ascii_case(w, "mod") || eq_ignore_ascii_case(w, "win")
        || eq_ignore_ascii_case(w, "logo") {
        (c, a, sh, true, k, ok)
    } else if eq_ignore_ascii_case(w, "v") {
        (c, a, sh, su, true, ok)
    } else {
        (c, a, sh, su, k, false)
    }
}

impl PasteShortcut {
    /// Parses a shortcut such as `ctrl-alt-shift-v` or `Control+Shift+V`.
    /// `None` unless every token is a modifier name or `v`, the key is named
    /// and at least one modifier is.
    pub fn parse(value: &str) -> (r: Option<PasteShortcut>)
        ensures
            r == spec_parse_shortcut(value@),
    {
        let cs = chars_of(value);
        let mut st: ShortcutScan = (false, false, false, false, false, true);
        let mut cur: Vec<char> = Vec::new();
        let ghost mut done: Seq<Seq<char>> = Seq::empty();
        let mut i: usize = 0;
        while i < cs.len()
            invariant
                i <= cs@.len(),
                cs@ == value@,
                split_state(value@.take(i as int)) == (done, cur@),
                st == scan_tokens(done),
            decreases cs@.len() - i,
        {
            let c = cs[i];
            assert(value@.take(i + 1).drop_last() =~= value@.take(i as int));
            assert(value@.take(i + 1).last() == c);
            if c == '+' || c == '-' || c == ' ' || c == '_' {
                if cur.len() > 0 {
                    st = token_scan(st, &cur);
                    proof {
                        assert(done.push(cur@).drop_last() =~= done);
                        done = done.push(cur@);
                    }
                    cur = Vec::new();
                    assert(cur@ =~= Seq::<char>::empty());
                } else {
                    assert(cur@ =~= Seq::<char>::empty());
                }
            } else {
                cur.push(c);
            }
            i = i + 1;
        }
        assert(value@.take(cs@.len() as int) =~= value@);
        if cur.len() > 0 {
            st = token_scan(st, &cur);
            assert(done.push(cur@).drop_last() =~= done);
        }
        let (c, a, sh, su, k, ok) = st;
        if ok && k && (c || a || sh || su) {
            Some(PasteShortcut { ctrl: c, alt: a, shift: sh, super_key: su, key: hid_v() })
        } else {
            None
        }
    }

    /// The shortcut's display label (`custom modifier+V` for combinations
    /// without a name of their own).
    pub fn label(self) -> (r: &'static str)
        ensures
            r@ == shortcut_label(self),
    {
        if self.key.0 != HID_V_USAGE {
            return "custom modifier+V";
        }
        match (self.ctrl, self.alt, self.shift, self.super_key) {
            (true, false, true, false) => "Ctrl+Shift+V",
            (true, true, true, false) => "Ctrl+Alt+Shift+V",
            (true, false, false, false) => "Ctrl+V",
            (false, true, false, false) => "Alt+V",
            (false, false, true, false) => "Shift+V",
            (false, false, false, true) => "Super+V",
            (true, false, false, true) => "Ctrl+Super+V",
            (true, false, true, true) => "Ctrl+Shift+Super+V",
            (true, true, false, false) => "Ctrl+Alt+V",
            (false, true, true, false) => "Alt+Shift+V",
            _ => "custom modifier+V",
        }
    }
}

/// Host-side paste behavior for middle mouse clicks.
#[derive(Clone, Copy, PartialEq, Eq, Structural, Debug)]
pub enum MiddleClickPaste {
    /// Forward middle click to the target unchanged.
    Off,
    /// Paste the host primary selection.
    Primary,
    /// Paste the host regular clipboard.
    Clipboard,
}

impl Default for MiddleClickPaste {
    fn default() -> (r: MiddleClickPaste)
        ensures
            r == MiddleClickPaste::Off,
    {
        MiddleClickPaste::Off
    }
}

/// The middle-click behavior a setting names (after trimming, ASCII case
/// ignored).
pub open spec fn spec_parse_middle_click(v: Seq<char>) -> Option<MiddleClickPaste> {
    let t = trimmed(v);
    if same_word(t, "0"@) || same_word(t, "false"@) || same_word(t, "no"@) || same_word(t, "off"@)
        || same_word(t, "forward"@) || same_word(t, "target"@) {
        Some(MiddleClickPaste::Off)
    } else if same_word(t, "1"@) || same_word(t, "true"@) || same_word(t, "yes"@) || same_word(
        t,
        "on"@,
    ) || same_word(t, "primary"@) || same_word(t, "selection"@) {
        Some(MiddleClickPaste::Primary)
    } else if same_word(t, "clipboard"@) || same_word(t, "regular"@) {
        Some(MiddleClickPaste::Clipboard)
    } else {
        None
    }
}

impl MiddleClickPaste {
    /// Parses a middle-click setting: off/forward/target, on/primary/selection
    /// (and the usual boolean spellings), or clipboard/regular.
    pub fn parse(value: &str) -> (r: Option<MiddleClickPaste>)
        ensures
            r == spec_parse_middle_click(value@),
    {
        let t = trim_white_space(value);
        let w = t.as_str();
        if eq_ignore_ascii_case(w, "0") || eq_ignore_ascii_case(w, "false") || eq_ignore_ascii_case(
            w,
            "no",
        ) || eq_ignore_ascii_case(w, "off") || eq_ignore_ascii_case(w, "forward")
            || eq_ignore_ascii_case(w, "target") {
            Some(MiddleClickPaste::Off)
        } else if eq_ignore_ascii_case(w, "1") || eq_ignore_ascii_case(w, "true")
            || eq_ignore_ascii_case(w, "yes") || eq_ignore_ascii_case(w, "on")
            || eq_ignore_ascii_case(w, "primary") || eq_ignore_ascii_case(w, "selection") {
            Some(MiddleClickPaste::Primary)
        } else if eq_ignore_ascii_case(w, "clipboard") || eq_ignore_ascii_case(w, "regular") {
            Some(MiddleClickPaste::Clipboard)
        } else {
            None
        }
    }
}

/// Which host selection to paste.
#[derive(Clone, Copy, PartialEq, Eq, Structural, Debug)]
pub enum PasteSource {
    /// Regular clipboard (`Ctrl+C` / `Ctrl+V`).
    Clipboard,
    /// Primary selection (mouse selection / middle-click paste).
    Primary,
}

impl PasteSource {
    /// A stable, human-readable name of the selection.
    pub fn label(self) -> (r: &'static str)
        ensures
            r@ == match self {
                PasteSource::Clipboard => "clipboard"@,
                PasteSource::Primary => "primary selection"@,
            },
    {
        match self {
            PasteSource::Clipboard => "clipboard",
            PasteSource::Primary => "primary selection",
        }
    }
}

/// Runtime paste settings.
#[derive(Clone, Copy, PartialEq, Eq, Structural, Debug)]
pub struct PasteConfig {
    /// Focused-GUI paste is on.
    pub enabled: bool,
    /// The normalized-character cap per paste.
    pub max_chars: usize,
    /// The paste shortcut.
    pub shortcut: PasteShortcut,
    /// Host-side paste on middle click.
    pub middle_click: MiddleClickPaste,
}

/// Paste is on unless the setting, trimmed, is `0`, `false`, `no` or `off`.
pub open spec fn spec_paste_enabled(v: Option<Seq<char>>) -> bool {
    match v {
        None => true,
        Some(s) => {
            let t = trimmed(s);
            !(t == "0"@ || t == "false"@ || t == "no"@ || t == "off"@)
        },
    }
}

/// The paste cap a setting gives: a decimal in `1..=65536`, else the default.
pub open spec fn spec_paste_max_chars(v: Option<Seq<char>>) -> usize {
    match v {
        None => DEFAULT_PASTE_MAX_CHARS,
        Some(s) => match spec_parse_bounded(s, MAX_PASTE_MAX_CHARS as nat) {
            Some(n) => if n >= 1 {
                n as usize
            } else {
                DEFAULT_PASTE_MAX_CHARS
            },
            None => DEFAULT_PASTE_MAX_CHARS,
        },
    }
}

/// The characters of an optional string slice.
pub open spec fn opt_str(v: Option<&str>) -> Option<Seq<char>> {
    match v {
        Some(s) => Some(s@),
        None => None,
    }
}

fn paste_enabled(v: Option<&str>) -> (r: bool)
    ensures
        r == spec_paste_enabled(opt_str(v)),
{
    match v {
        None => true,
        Some(s) => {
            let t = trim_white_space(s);
            let w = t.as_str();
            !(str_eq(w, "0") || str_eq(w, "false") || str_eq(w, "no") || str_eq(w, "off"))
        },
    }
}

fn paste_max_chars(v: Option<&str>) -> (r: usize)
    ensures
        r == spec_paste_max_chars(opt_str(v)),
{
    match v {
        None => DEFAULT_PASTE_MAX_CHARS,
        Some(s) => match parse_uint(s, MAX_PASTE_MAX_CHARS as u64) {
            Some(n) => if n >= 1 {
                n as usize
            } else {
                DEFAULT_PASTE_MAX_CHARS
            },
            None => DEFAULT_PASTE_MAX_CHARS,
        },
    }
}

impl PasteConfig {
    /// Builds the paste settings from the values of `OPENTERFACE_ENABLE_PASTE`,
    /// `OPENTERFACE_PASTE_MAX_CHARS`, `OPENTERFACE_PASTE_SHORTCUT` and
    /// `OPENTERFACE_MIDDLE_CLICK_PASTE` (`None` where unset). Unusable values
    /// fall back to the defaults.
    pub fn from_env_values(
        enable: Option<&str>,
        max_chars: Option<&str>,
        shortcut: Option<&str>,
        middle_click: Option<&str>,
    ) -> (r: PasteConfig)
        ensures
            r.enabled == spec_paste_enabled(opt_str(enable)),
            r.max_chars == spec_paste_max_chars(opt_str(max_chars)),
            r.shortcut == match shortcut {
                Some(s) => match spec_parse_shortcut(s@) {
                    Some(p) => p,
                    None => default_shortcut(),
                },
                None => default_shortcut(),
            },
            r.middle_click == match middle_click {
                Some(s) => match spec_parse_middle_click(s@) {
                    Some(m) => m,
                    None => MiddleClickPaste::Off,
                },
                None => MiddleClickPaste::Off,
            },
    {
        let shortcut = match shortcut {
            Some(s) => match PasteShortcut::parse(s) {
                Some(p) => p,
                None => PasteShortcut::default(),
            },
            None => PasteShortcut::default(),
        };
        let middle_click = match middle_click {
            Some(s) => match MiddleClickPaste::parse(s) {
                Some(m) => m,
                None => MiddleClickPaste::default(),
            },
            None => MiddleClickPaste::default(),
        };
        PasteConfig {
            enabled: paste_enabled(enable),
            max_chars: paste_max_chars(max_chars),
            shortcut,
            middle_click,
        }
    }
}

/// A Control key is held.
pub open spec fn any_ctrl(m: Modifiers) -> bool {
    m.0 & 0x01 == 0x01 || m.0 & 0x10 == 0x10
}

/// An Alt key is held.
pub open spec fn any_alt(m: Modifiers) -> bool {
    m.0 & 0x04 == 0x04 || m.0 & 0x40 == 0x40
}

/// A Shift key is held.
pub open spec fn any_shift(m: Modifiers) -> bool {
    m.0 & 0x02 == 0x02 || m.0 & 0x20 == 0x20
}

/// A Super (GUI) key is held.
pub open spec fn any_super(m: Modifiers) -> bool {
    m.0 & 0x08 == 0x08 || m.0 & 0x80 == 0x80
}

/// Whether either Control key is held.
pub fn has_any_ctrl(modifiers: Modifiers) -> (r: bool)
    ensures
        r == any_ctrl(modifiers),
{
    modifiers.contains(Modifiers::left_ctrl()) || modifiers.contains(Modifiers::right_ctrl())
}

/// Whether either Alt key is held.
pub fn has_any_alt(modifiers: Modifiers) -> (r: bool)
    ensures
        r == any_alt(modifiers),
{
    modifiers.contains(Modifiers::left_alt()) || modifiers.contains(Modifiers::right_alt())
}

/// Whether either Shift key is held.
pub fn has_any_shift(modifiers: Modifiers) -> (r: bool)
    ensures
        r == any_shift(modifiers),
{
    modifiers.contains(Modifiers::left_shift()) || modifiers.contains(Modifiers::right_shift())
}

/// Whether either Super (GUI) key is held.
pub fn has_any_super(modifiers: Modifiers) -> (r: bool)
    ensures
        r == any_super(modifiers),
{
    modifiers.contains(Modifiers::left_gui()) || modifiers.contains(Modifiers::right_gui())
}

/// The key is the shortcut's and exactly its modifier families are held.
pub open spec fn spec_is_paste_hotkey(usage: HidUsage, m: Modifiers, s: PasteShortcut) -> bool {
    &&& usage == s.key
    &&& any_ctrl(m) == s.ctrl
    &&& any_alt(m) == s.alt
    &&& any_shift(m) == s.shift
    &&& any_super(m) == s.super_key
}

/// Returns true for the configured focused-GUI paste hotkey.
pub fn is_paste_hotkey(usage: HidUsage, modifiers: Modifiers, shortcut: PasteShortcut) -> (r: bool)
    ensures
        r == spec_is_paste_hotkey(usage, modifiers, shortcut),
{
    usage.0 == shortcut.key.0 && has_any_ctrl(modifiers) == shortcut.ctrl && has_any_alt(modifiers)
        == shortcut.alt && has_any_shift(modifiers) == shortcut.shift && has_any_super(modifiers)
        == shortcut.super_key
}

/// The usage of a modifier key when its bit is held, else nothing.
pub open spec fn held_usage(m: Modifiers, bit: u8, usage: u8) -> Seq<HidUsage> {
    if m.0 & bit == bit {
        seq![HidUsage(usage)]
    } else {
        Seq::empty()
    }
}

/// The keys of an active chord: the trigger, then each held modifier key in
/// the order left Ctrl, Shift, Alt, GUI, right Ctrl, Shift, Alt, GUI.
pub open spec fn spec_chord_usages(trigger: HidUsage, m: Modifiers) -> Seq<HidUsage> {
    seq![trigger] + held_usage(m, 0x01, 0xE0) + held_usage(m, 0x02, 0xE1) + held_usage(m, 0x04, 0xE2)
        + held_usage(m, 0x08, 0xE3) + held_usage(m, 0x10, 0xE4) + held_usage(m, 0x20, 0xE5)
        + held_usage(m, 0x40, 0xE6) + held_usage(m, 0x80, 0xE7)
}

fn push_if_held(out: &mut Vec<HidUsage>, m: Modifiers, bit: Modifiers, usage: u8)
    ensures
        final(out)@ == old(out)@ + held_usage(m, bit.0, usage),
{
    if m.contains(bit) {
        out.push(HidUsage(usage));
        assert(final(out)@ =~= old(out)@ + seq![HidUsage(usage)]);
    } else {
        assert(old(out)@ + Seq::<HidUsage>::empty() =~= old(out)@);
    }
}

/// Returns the HID usages that belong to the active paste chord.
pub fn chord_usages(trigger: HidUsage, modifiers: Modifiers) -> (r: Vec<HidUsage>)
    ensures
        r@ == spec_chord_usages(trigger, modifiers),
{
    let mut out: Vec<HidUsage> = Vec::new();
    out.push(trigger);
    push_if_held(&mut out, modifiers, Modifiers::left_ctrl(), 0xE0);
    push_if_held(&mut out, modifiers, Modifiers::left_shift(), 0xE1);
    push_if_held(&mut out, modifiers, Modifiers::left_alt(), 0xE2);
    push_if_held(&mut out, modifiers, Modifiers::left_gui(), 0xE3);
    push_if_held(&mut out, modifiers, Modifiers::right_ctrl(), 0xE4);
    push_if_held(&mut out, modifiers, Modifiers::right_shift(), 0xE5);
    push_if_held(&mut out, modifiers, Modifiers::right_alt(), 0xE6);
    push_if_held(&mut out, modifiers, Modifiers::right_gui(), 0xE7);
    assert(out@ =~= spec_chord_usages(trigger, modifiers));
    out
}

/// Keys whose press, repeat and release edges are swallowed until their
/// physical release, because they formed a host-local shortcut.
pub struct SuppressedKeys {
    keys: BTreeSet<u8>,
}

impl View for SuppressedKeys {
    type V = Set<u8>;

    /// The usages being swallowed.
    closed spec fn view(&self) -> Set<u8> {
        self.keys@
    }
}

/// The usages of the first `n` keys of `s`.
pub open spec fn usage_set(s: Seq<HidUsage>, n: int) -> Set<u8> {
    Set::new(|u: u8| exists|k: int| 0 <= k < n && s[k].0 == u)
}

impl Default for SuppressedKeys {
    fn default() -> (r: SuppressedKeys)
        ensures
            r@ == Set::<u8>::empty(),
    {
        SuppressedKeys { keys: BTreeSet::new() }
    }
}

impl SuppressedKeys {
    /// Starts swallowing `usages` as well.
    pub fn extend(&mut self, usages: &[HidUsage])
        ensures
            final(self)@ == old(self)@ + usage_set(usages@, usages@.len() as int),
    {
        broadcast use vstd::std_specs::btree::group_btree_axioms;
        let mut i: usize = 0;
        while i < usages.len()
            invariant
                i <= usages@.len(),
                self@ == old(self)@ + usage_set(usages@, i as int),
            decreases usages@.len() - i,
        {
            let ghost before = self@;
            self.keys.insert(usages[i].0);
            assert forall|u: u8|
                #[trigger] usage_set(usages@, i + 1).contains(u) == (usage_set(
                    usages@,
                    i as int,
                ).contains(u) || u == usages@[i as int].0) by {
                if usage_set(usages@, i + 1).contains(u) {
                    let k = choose|k: int| 0 <= k < i + 1 && usages@[k].0 == u;
                    if k < i {
                        assert(usage_set(usages@, i as int).contains(u));
                    }
                }
                if u == usages@[i as int].0 {
                    assert(0 <= i < i + 1 && usages@[i as int].0 == u);
                }
                if usage_set(usages@, i as int).contains(u) {
                    let k = choose|k: int| 0 <= k < i && usages@[k].0 == u;
                    assert(0 <= k < i + 1 && usages@[k].0 == u);
                }
            }
            assert(self@ =~= old(self)@ + usage_set(usages@, i + 1));
            i = i + 1;
        }
    }

    /// Returns true if this key event should be swallowed. Press and repeat
    /// events of a swallowed key stay swallowed; its release is swallowed and
    /// ends the swallowing.
    pub fn suppress_event(&mut self, usage: HidUsage, pressed: bool) -> (r: bool)
        ensures
            r == old(self)@.contains(usage.0),
            final(self)@ == if r && !pressed {
                old(self)@.remove(usage.0)
            } else {
                old(self)@
            },
    {
        broadcast use vstd::std_specs::btree::group_btree_axioms;
        if !self.keys.contains(&usage.0) {
            return false;
        }
        if !pressed {
            self.keys.remove(&usage.0);
        }
        true
    }
}

} // verus!

//! Character-level helpers shared by the text-handling parts of the library.

use vstd::prelude::*;

verus! {

broadcast use vstd::string::axiom_spec_iter;

/// The characters of `s`, in order.
pub fn chars_of(s: &str) -> (r: Vec<char>)
    ensures
        r@ == s@,
{
    let mut out: Vec<char> = Vec::new();
    for c in it: s.chars()
        invariant
            out@ == it.seq().take(it.index() as int),
    {
        out.push(c);
    }
    out
}

/// A string has no more characters than UTF-8 bytes.
pub proof fn lemma_chars_le_bytes(cs: Seq<char>)
    ensures
        cs.len() <= vstd::utf8::encode_utf8(cs).len(),
    decreases cs.len(),
{
    if cs.len() > 0 {
        lemma_chars_le_bytes(cs.drop_first());
    }
}

/// The number of characters of `s` fits in a `usize`.
pub fn char_count_fits(s: &str)
    ensures
        s@.len() <= usize::MAX,
{
    let bytes = s.as_bytes();
    let _n: usize = bytes.len();
    proof {
        lemma_chars_le_bytes(s@);
    }
}

} // verus!

verus! {

/// An ASCII decimal digit.
pub open spec fn is_digit(c: char) -> bool {
    '0' <= c <= '9'
}

/// The value of a decimal digit.
pub open spec fn digit_value(c: char) -> nat {
    (c as u32 - 48) as nat
}

/// Every character of `s` is a decimal digit.
pub open spec fn all_digits(s: Seq<char>) -> bool {
    forall|i: int| 0 <= i < s.len() ==> is_digit(#[trigger] s[i])
}

/// The number written by the decimal digits `s`.
pub open spec fn digits_value(s: Seq<char>) -> nat
    decreases s.len(),
{
    if s.len() == 0 {
        0
    } else {
        digits_value(s.drop_last()) * 10 + digit_value(s.last())
    }
}

/// The unsigned decimal number that `s` spells: an optional `+`, then one or
/// more ASCII digits and nothing else (the grammar of `str::parse` for
/// unsigned integers, before the range check).
pub open spec fn spec_parse_nat(s: Seq<char>) -> Option<nat> {
    let body = if s.len() > 0 && s[0] == '+' { s.drop_first() } else { s };
    if body.len() > 0 && all_digits(body) {
        Some(digits_value(body))
    } else {
        None
    }
}

/// The value of `s` parsed as an unsigned integer no greater than `max`.
pub open spec fn spec_parse_bounded(s: Seq<char>, max: nat) -> Option<nat> {
    match spec_parse_nat(s) {
        Some(n) => if n <= max { Some(n) } else { None },
        None => None,
    }
}

proof fn lemma_digits_value_grows(s: Seq<char>, i: int)
    requires
        0 <= i <= s.len(),
        all_digits(s),
    ensures
        digits_value(s) >= digits_value(s.take(i)),
    decreases s.len() - i,
{
    if i < s.len() {
        lemma_digits_value_grows(s, i + 1);
        assert(s.take(i + 1).drop_last() =~= s.take(i));
        assert(s.take(i + 1).last() == s[i]);
    } else {
        assert(s.take(i) =~= s);
    }
}

/// Parses `s` as an unsigned decimal integer no greater than `max` (the
/// grammar of `str::parse` for unsigned integers: optional `+`, then digits).
pub fn parse_uint(s: &str, max: u64) -> (r: Option<u64>)
    ensures
        match spec_parse_bounded(s@, max as nat) {
            Some(n) => r == Some(n as u64),
            None => r is None,
        },
{
    let chars = chars_of(s);
    let start: usize = if chars.len() > 0 && chars[0] == '+' { 1 } else { 0 };
    let ghost body = if s@.len() > 0 && s@[0] == '+' { s@.drop_first() } else { s@ };
    assert(body =~= chars@.subrange(start as int, chars@.len() as int));
    if start == chars.len() {
        return None;
    }
    let mut acc: u128 = 0;
    let mut i: usize = start;
    while i < chars.len()
        invariant
            start <= i <= chars@.len(),
            chars@ == s@,
            body == (if s@.len() > 0 && s@[0] == '+' { s@.drop_first() } else { s@ }),
            body == chars@.subrange(start as int, chars@.len() as int),
            all_digits(body.take(i - start)),
            acc == digits_value(body.take(i - start)),
            acc <= max,
        decreases chars@.len() - i,
    {
        let c = chars[i];
        assert(body[i - start] == c);
        if !('0' <= c && c <= '9') {
            assert(!is_digit(body[i - start]));
            assert(!all_digits(body));
            assert(spec_parse_nat(s@) is None);
            return None;
        }
        let d = (c as u32 - 48) as u128;
        proof {
            assert(body.take(i - start + 1).drop_last() =~= body.take(i - start));
            assert(all_digits(body.take(i - start + 1)));
        }
        acc = acc * 10 + d;
        i = i + 1;
        assert(acc == digits_value(body.take(i - start)));
        if acc > max as u128 {
            proof {
                if all_digits(body) {
                    lemma_digits_value_grows(body, (i - start) as int);
                    assert(spec_parse_nat(s@) == Some(digits_value(body)));
                }
            }
            return None;
        }
    }
    assert(body.take(i - start) =~= body);
    Some(acc as u64)
}

} // verus!

verus! {

/// `String::push` appends one character to the end of the string.
pub assume_specification[ String::push ](s: &mut String, ch: char)
    ensures
        final(s)@ == old(s)@.push(ch),
;

/// The decimal digit character for `d < 10`.
pub open spec fn digit_char(d: nat) -> char {
    (48 + d) as char
}

/// The decimal representation of `n` (no sign, no leading zeros).
pub open spec fn spec_decimal(n: nat) -> Seq<char>
    decreases n,
{
    if n < 10 {
        seq![digit_char(n)]
    } else {
        spec_decimal(n / 10).push(digit_char(n % 10))
    }
}

/// `a` followed by `b`.
pub fn concat_str(a: &str, b: &str) -> (r: String)
    ensures
        r@ == a@ + b@,
{
    let mut s = a.to_owned();
    s.append(b);
    s
}

/// A string holding exactly the characters of `cs`.
pub fn string_of(cs: &Vec<char>) -> (r: String)
    ensures
        r@ == cs@,
{
    let mut s = String::new();
    let mut i: usize = 0;
    while i < cs.len()
        invariant
            i <= cs@.len(),
            s@ == cs@.take(i as int),
        decreases cs@.len() - i,
    {
        s.push(cs[i]);
        i = i + 1;
        assert(s@ =~= cs@.take(i as int));
    }
    assert(cs@.take(i as int) =~= cs@);
    s
}

fn decimal_chars(n: u64) -> (r: Vec<char>)
    ensures
        r@ == spec_decimal(n as nat),
    decreases n,
{
    let c = char_of_digit((n % 10) as u8);
    if n < 10 {
        let mut v = Vec::new();
        v.push(c);
        v
    } else {
        let mut v = decimal_chars(n / 10);
        v.push(c);
        v
    }
}

fn char_of_digit(d: u8) -> (r: char)
    requires
        d < 10,
    ensures
        r == digit_char(d as nat),
{
    match d {
        0 => '0',
        1 => '1',
        2 => '2',
        3 => '3',
        4 => '4',
        5 => '5',
        6 => '6',
        7 => '7',
        8 => '8',
        _ => '9',
    }
}

/// The decimal representation of `n`.
pub fn decimal(n: u64) -> (r: String)
    ensures
        r@ == spec_decimal(n as nat),
{
    let cs = decimal_chars(n);
    string_of(&cs)
}

} // verus!

verus! {

/// The ASCII lower-case form of `c` (other characters are unchanged).
pub open spec fn ascii_lower(c: char) -> char {
    if 'A' <= c <= 'Z' {
        ((c as u32) + 32) as char
    } else {
        c
    }
}

/// The ASCII lower-case form of `c`.
pub fn to_ascii_lower(c: char) -> (r: char)
    ensures
        r == ascii_lower(c),
{
    if 'A' <= c && c <= 'Z' {
        ((c as u8) + 32) as char
    } else {
        c
    }
}

/// `s` begins with `prefix`.
pub open spec fn has_prefix(s: Seq<char>, prefix: Seq<char>) -> bool {
    prefix.len() <= s.len() && s.take(prefix.len() as int) == prefix
}

/// Whether `s` begins with `prefix`.
pub fn starts_with_str(s: &str, prefix: &str) -> (r: bool)
    ensures
        r == has_prefix(s@, prefix@),
{
    let a = chars_of(s);
    let p = chars_of(prefix);
    if p.len() > a.len() {
        return false;
    }
    let mut i: usize = 0;
    while i < p.len()
        invariant
            i <= p@.len() <= a@.len(),
            a@ == s@,
            p@ == prefix@,
            forall|j: int| 0 <= j < i ==> a@[j] == p@[j],
        decreases p@.len() - i,
    {
        if a[i] != p[i] {
            assert(s@.take(prefix@.len() as int)[i as int] != prefix@[i as int]);
            return false;
        }
        i = i + 1;
    }
    assert(s@.take(prefix@.len() as int) =~= prefix@);
    true
}

/// `needle` occurs in `hay` at position `at`, comparing characters after
/// ASCII lower-casing when `fold` holds and exactly otherwise.
pub open spec fn occurs_at(hay: Seq<char>, needle: Seq<char>, at: int, fold: bool) -> bool {
    &&& 0 <= at
    &&& at + needle.len() <= hay.len()
    &&& forall|j: int|
        0 <= j < needle.len() ==> if fold {
            ascii_lower(#[trigger] hay[at + j]) == ascii_lower(needle[j])
        } else {
            hay[at + j] == needle[j]
        }
}

/// `needle` occurs somewhere in `hay`.
pub open spec fn occurs_in(hay: Seq<char>, needle: Seq<char>, fold: bool) -> bool {
    exists|at: int| occurs_at(hay, needle, at, fold)
}

fn chars_equal(a: char, b: char, fold: bool) -> (r: bool)
    ensures
        r == if fold {
            ascii_lower(a) == ascii_lower(b)
        } else {
            a == b
        },
{
    if fold {
        to_ascii_lower(a) == to_ascii_lower(b)
    } else {
        a == b
    }
}

fn occurs_at_exec(hay: &Vec<char>, needle: &Vec<char>, at: usize, fold: bool) -> (r: bool)
    requires
        at + needle@.len() <= hay@.len(),
    ensures
        r == occurs_at(hay@, needle@, at as int, fold),
{
    let hay_len = hay.len();
    let mut j: usize = 0;
    while j < needle.len()
        invariant
            hay_len == hay@.len(),
            j <= needle@.len(),
            at + needle@.len() <= hay@.len(),
            forall|k: int|
                0 <= k < j ==> if fold {
                    ascii_lower(#[trigger] hay@[at + k]) == ascii_lower(needle@[k])
                } else {
                    hay@[at + k] == needle@[k]
                },
        decreases needle@.len() - j,
    {
        assert(at + j < hay@.len());
        let k: usize = at + j;
        if !chars_equal(hay[k], needle[j], fold) {
            return false;
        }
        j = j + 1;
    }
    true
}

fn occurs_in_exec(hay: &str, needle: &str, fold: bool) -> (r: bool)
    ensures
        r == occurs_in(hay@, needle@, fold),
{
    let h = chars_of(hay);
    let n = chars_of(needle);
    if n.len() > h.len() {
        return false;
    }
    let mut at: usize = 0;
    while at <= h.len() - n.len()
        invariant
            h@ == hay@,
            n@ == needle@,
            n@.len() <= h@.len(),
            at <= h@.len() - n@.len() + 1,
            forall|k: int| 0 <= k < at ==> !occurs_at(hay@, needle@, k, fold),
        decreases h@.len() - at,
    {
        if occurs_at_exec(&h, &n, at, fold) {
            return true;
        }
        at = at + 1;
    }
    assert forall|k: int| !occurs_at(hay@, needle@, k, fold) by {
        if 0 <= k < at {
        }
    }
    false
}

/// Whether `needle` occurs in `hay`.
pub fn contains_str(hay: &str, needle: &str) -> (r: bool)
    ensures
        r == occurs_in(hay@, needle@, false),
{
    occurs_in_exec(hay, needle, false)
}

/// Whether `needle` occurs in `hay`, ignoring ASCII case.
pub fn contains_ignore_ascii_case(hay: &str, needle: &str) -> (r: bool)
    ensures
        r == occurs_in(hay@, needle@, true),
{
    occurs_in_exec(hay, needle, true)
}

/// Whether `a` and `b` are equal, ignoring ASCII case.
pub fn eq_ignore_ascii_case(a: &str, b: &str) -> (r: bool)
    ensures
        r == (a@.len() == b@.len() && occurs_at(a@, b@, 0, true)),
{
    let x = chars_of(a);
    let y = chars_of(b);
    if x.len() != y.len() {
        return false;
    }
    occurs_at_exec(&x, &y, 0, true)
}

} // verus!

verus! {

/// A Unicode `White_Space` character (what `str::trim` removes).
pub open spec fn is_white_space(c: char) -> bool {
    ||| '\u{9}' <= c <= '\u{d}'
    ||| c == ' '
    ||| c == '\u{85}'
    ||| c == '\u{a0}'
    ||| c == '\u{1680}'
    ||| '\u{2000}' <= c <= '\u{200a}'
    ||| c == '\u{2028}'
    ||| c == '\u{2029}'
    ||| c == '\u{202f}'
    ||| c == '\u{205f}'
    ||| c == '\u{3000}'
}

/// `s` without its leading white space.
pub open spec fn trim_start(s: Seq<char>) -> Seq<char>
    decreases s.len(),
{
    if s.len() > 0 && is_white_space(s[0]) {
        trim_start(s.drop_first())
    } else {
        s
    }
}

/// `s` without its trailing white space.
pub open spec fn trim_end(s: Seq<char>) -> Seq<char>
    decreases s.len(),
{
    if s.len() > 0 && is_white_space(s.last()) {
        trim_end(s.drop_last())
    } else {
        s
    }
}

/// `s` without leading and trailing white space.
pub open spec fn trimmed(s: Seq<char>) -> Seq<char> {
    trim_end(trim_start(s))
}

fn white_space(c: char) -> (r: bool)
    ensures
        r == is_white_space(c),
{
    ('\u{9}' <= c && c <= '\u{d}') || c == ' ' || c == '\u{85}' || c == '\u{a0}' || c
        == '\u{1680}' || ('\u{2000}' <= c && c <= '\u{200a}') || c == '\u{2028}' || c
        == '\u{2029}' || c == '\u{202f}' || c == '\u{205f}' || c == '\u{3000}'
}

/// `s` with leading and trailing white space removed (as `str::trim`).
pub fn trim_white_space(s: &str) -> (r: String)
    ensures
        r@ == trimmed(s@),
{
    let cs = chars_of(s);
    let n = cs.len();
    let mut a: usize = 0;
    assert(s@.skip(0) =~= s@);
    while a < n && white_space(cs[a])
        invariant
            a <= n == cs@.len(),
            cs@ == s@,
            trim_start(s@) == trim_start(s@.skip(a as int)),
        decreases n - a,
    {
        assert(s@.skip(a as int).drop_first() =~= s@.skip(a + 1));
        a = a + 1;
    }
    assert(trim_start(s@) == s@.skip(a as int));
    let mut b: usize = n;
    while b > a && white_space(cs[b - 1])
        invariant
            a <= b <= n == cs@.len(),
            cs@ == s@,
            trim_end(s@.skip(a as int)) == trim_end(s@.subrange(a as int, b as int)),
        decreases b,
    {
        assert(s@.subrange(a as int, b as int).drop_last() =~= s@.subrange(a as int, b - 1));
        b = b - 1;
    }
    if a == 0 && b == n {
        assert(s@.subrange(0, n as int) =~= s@.skip(0));
    }
    assert(trim_end(s@.subrange(a as int, b as int)) == s@.subrange(a as int, b as int));
    let mut out = String::new();
    let mut i: usize = a;
    while i < b
        invariant
            a <= i <= b <= n == cs@.len(),
            cs@ == s@,
            out@ == s@.subrange(a as int, i as int),
        decreases b - i,
    {
        out.push(cs[i]);
        i = i + 1;
        assert(out@ =~= s@.subrange(a as int, i as int));
    }
    out
}

} // verus!

verus! {

/// Whether `a` and `b` hold the same characters.
pub fn str_eq(a: &str, b: &str) -> (r: bool)
    ensures
        r == (a@ == b@),
{
    let x = chars_of(a);
    let y = chars_of(b);
    if x.len() != y.len() {
        return false;
    }
    let mut i: usize = 0;
    while i < x.len()
        invariant
            i <= x@.len() == y@.len(),
            x@ == a@,
            y@ == b@,
            forall|k: int| 0 <= k < i ==> x@[k] == y@[k],
        decreases x@.len() - i,
    {
        if x[i] != y[i] {
            return false;
        }
        i = i + 1;
    }
    assert(x@ =~= y@);
    true
}

/// `t` equals the word `w`, ignoring ASCII case.
pub open spec fn same_word(t: Seq<char>, w: Seq<char>) -> bool {
    t.len() == w.len() && occurs_at(t, w, 0, true)
}

} // verus!

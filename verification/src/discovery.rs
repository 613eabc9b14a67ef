//! Openterface device enumeration: the rules that pick the KVM's two
//! endpoints out of what Linux sysfs shows.
//!
//! Discovery prefers matching on the `uvcvideo` driver, advertised MJPG
//! formats when sysfs exposes them, and USB identity over a bare device-node
//! guess. In a VM several `/dev/video*` nodes exist and only the uvcvideo
//! MS2109 node is the KVM (the virtio-media decoder adapter must be skipped).
//!
//! Reading `/sys` is the caller's part: it reports what each class entry
//! shows ([`VideoNodeFacts`], [`TtyNodeFacts`]) and [`SysfsScanner`] decides.

use vstd::prelude::*;

use crate::device::{is_serial_device, is_video_device, spec_is_serial_device, spec_is_video_device};
use crate::error::Result;
use crate::text::{
    char_count_fits, concat_str, contains_ignore_ascii_case, contains_str, eq_ignore_ascii_case,
    occurs_at, occurs_in, parse_uint, spec_parse_bounded, starts_with_str, has_prefix,
};

verus! {

/// A discovered Openterface device (its two endpoints, paired when possible).
#[derive(Clone, PartialEq, Eq, Debug)]
pub struct DeviceInfo {
    /// Path to the CH9329 serial control node (e.g. `/dev/ttyACM0`).
    pub serial_path: Option<String>,
    /// Path to the MS2109 capture node (e.g. `/dev/video2`).
    pub video_path: Option<String>,
    /// Serial-bridge USB vendor id, if known.
    pub serial_vendor_id: Option<u16>,
    /// Serial-bridge USB product id, if known.
    pub serial_product_id: Option<u16>,
    /// Human-readable description for `scan`/`status` output.
    pub description: String,
}

impl Default for DeviceInfo {
    fn default() -> (r: DeviceInfo)
        ensures
            r.serial_path is None,
            r.video_path is None,
            r.serial_vendor_id is None,
            r.serial_product_id is None,
            r.description@ == Seq::<char>::empty(),
    {
        DeviceInfo {
            serial_path: None,
            video_path: None,
            serial_vendor_id: None,
            serial_product_id: None,
            description: String::new(),
        }
    }
}

impl DeviceInfo {
    /// Returns `true` if both endpoints were resolved.
    pub fn is_complete(&self) -> (r: bool)
        ensures
            r == (self.serial_path is Some && self.video_path is Some),
    {
        self.serial_path.is_some() && self.video_path.is_some()
    }
}

/// Enumerates Openterface devices present on the system.
pub trait DeviceScanner: Send {
    /// Returns all detected Openterface devices.
    fn scan(&self) -> Result<Vec<DeviceInfo>>;
}

/// The value of an ASCII hexadecimal digit byte.
pub open spec fn hex_digit(b: u8) -> Option<nat> {
    if 0x30 <= b <= 0x39 {
        Some((b - 0x30) as nat)
    } else if 0x61 <= b <= 0x66 {
        Some((b - 0x61 + 10) as nat)
    } else if 0x41 <= b <= 0x46 {
        Some((b - 0x41 + 10) as nat)
    } else {
        None
    }
}

/// Every byte of `b` is an ASCII hexadecimal digit.
pub open spec fn all_hex(b: Seq<u8>) -> bool {
    forall|i: int| 0 <= i < b.len() ==> (#[trigger] hex_digit(b[i])) is Some
}

/// The number written by the hexadecimal digits `b`.
pub open spec fn hex_value(b: Seq<u8>) -> nat
    decreases b.len(),
{
    if b.len() == 0 {
        0
    } else {
        hex_value(b.drop_last()) * 16 + hex_digit(b.last()).unwrap_or(0)
    }
}

/// Four ASCII hexadecimal digits read as a `u16`; anything else is refused.
pub open spec fn spec_hex4(b: Seq<u8>) -> Option<u16> {
    if b.len() == 4 && all_hex(b) {
        Some(hex_value(b) as u16)
    } else {
        None
    }
}

/// The bytes of `usb:v`.
pub open spec fn usb_prefix() -> Seq<u8> {
    seq![0x75u8, 0x73u8, 0x62u8, 0x3Au8, 0x76u8]
}

/// The `(vendor, product)` that a USB modalias such as `usb:v1A86p7523d...`
/// names, read from its UTF-8 bytes.
pub open spec fn spec_parse_usb_modalias(b: Seq<u8>) -> Option<(u16, u16)> {
    if b.len() >= 14 && b.take(5) == usb_prefix() && b[9] == 0x70 {
        match (spec_hex4(b.subrange(5, 9)), spec_hex4(b.subrange(10, 14))) {
            (Some(v), Some(p)) => Some((v, p)),
            _ => None,
        }
    } else {
        None
    }
}

proof fn lemma_hex_value_bound(b: Seq<u8>)
    requires
        all_hex(b),
    ensures
        hex_value(b) < pow16(b.len()),
    decreases b.len(),
{
    if b.len() > 0 {
        lemma_hex_value_bound(b.drop_last());
        assert(hex_digit(b[b.len() - 1]) is Some);
        assert(hex_value(b.drop_last()) * 16 + 16 <= pow16(b.len())) by (nonlinear_arith)
            requires
                hex_value(b.drop_last()) + 1 <= pow16((b.len() - 1) as nat),
                pow16(b.len()) == pow16((b.len() - 1) as nat) * 16,
        ;
    }
}

/// 16 to the power `n`.
pub open spec fn pow16(n: nat) -> nat
    decreases n,
{
    if n == 0 {
        1
    } else {
        pow16((n - 1) as nat) * 16
    }
}

fn hex_digit_exec(b: u8) -> (r: Option<u16>)
    ensures
        match hex_digit(b) {
            Some(d) => r == Some(d as u16),
            None => r is None,
        },
{
    if 0x30 <= b && b <= 0x39 {
        Some((b - 0x30) as u16)
    } else if 0x61 <= b && b <= 0x66 {
        Some((b - 0x61 + 10) as u16)
    } else if 0x41 <= b && b <= 0x46 {
        Some((b - 0x41 + 10) as u16)
    } else {
        None
    }
}

/// Parses exactly four ASCII hexadecimal digits into a `u16`.
fn hex4(bytes: &[u8]) -> (r: Option<u16>)
    requires
        bytes@.len() == 4,
    ensures
        r == spec_hex4(bytes@),
{
    let mut acc: u32 = 0;
    let mut i: usize = 0;
    while i < 4
        invariant
            i <= 4,
            bytes@.len() == 4,
            all_hex(bytes@.take(i as int)),
            acc == hex_value(bytes@.take(i as int)),
            acc < pow16(i as nat),
        decreases 4 - i,
    {
        let d = match hex_digit_exec(bytes[i]) {
            Some(d) => d,
            None => {
                assert(!all_hex(bytes@));
                return None;
            },
        };
        proof {
            assert(bytes@.take(i + 1).drop_last() =~= bytes@.take(i as int));
            assert(all_hex(bytes@.take(i + 1)));
            lemma_hex_value_bound(bytes@.take(i + 1));
            reveal_with_fuel(pow16, 5);
        }
        acc = acc * 16 + d as u32;
        i = i + 1;
    }
    assert(bytes@.take(4) =~= bytes@);
    assert(acc < 65536) by {
        reveal_with_fuel(pow16, 5);
    }
    Some(acc as u16)
}

/// Parses `(vendor, product)` from a USB `modalias` string such as
/// `usb:v1A86p7523d...`. Returns `None` if the pattern is absent.
///
/// Parses the UTF-8 bytes, so arbitrary sysfs contents with multibyte
/// characters are simply rejected.
pub fn parse_usb_modalias(modalias: &str) -> (r: Option<(u16, u16)>)
    ensures
        r == spec_parse_usb_modalias(vstd::utf8::encode_utf8(modalias@)),
{
    let bytes = modalias.as_bytes();
    let ghost b = bytes@;
    if bytes.len() < 14 {
        return None;
    }
    if !(bytes[0] == 0x75 && bytes[1] == 0x73 && bytes[2] == 0x62 && bytes[3] == 0x3A && bytes[4]
        == 0x76) {
        assert(b.take(5) != usb_prefix()) by {
            if b.take(5) == usb_prefix() {
                assert(b.take(5)[0] == b[0]);
                assert(b.take(5)[1] == b[1]);
                assert(b.take(5)[2] == b[2]);
                assert(b.take(5)[3] == b[3]);
                assert(b.take(5)[4] == b[4]);
            }
        }
        return None;
    }
    assert(b.take(5) =~= usb_prefix());
    if bytes[9] != 0x70 {
        return None;
    }
    let vid = match hex4(vstd::slice::slice_subrange(bytes, 5, 9)) {
        Some(v) => v,
        None => return None,
    };
    let pid = match hex4(vstd::slice::slice_subrange(bytes, 10, 14)) {
        Some(p) => p,
        None => return None,
    };
    Some((vid, pid))
}

} // verus!

verus! {

/// What sysfs shows of one `/sys/class/video4linux/<name>` entry.
pub struct VideoNodeFacts {
    /// The entry's name (e.g. `video2`).
    pub name: String,
    /// The name of the bound driver, if any.
    pub driver: Option<String>,
    /// The non-empty, trimmed USB modalias values found for the entry, in the
    /// order `device/modalias`, `device/../modalias`.
    pub modaliases: Vec<String>,
    /// The trimmed card name (empty when unreadable).
    pub card: String,
    /// The first non-empty, trimmed format list among `formats`, `format`,
    /// `device/formats` and `device/format`.
    pub formats: Option<String>,
}

/// What sysfs shows of one `/sys/class/tty/<name>` entry.
pub struct TtyNodeFacts {
    /// The entry's name (e.g. `ttyACM0`).
    pub name: String,
    /// The non-empty, trimmed USB modalias values found for the entry, in the
    /// order `device/modalias`, `device/../modalias`.
    pub modaliases: Vec<String>,
}

/// The characters of each string.
pub open spec fn strings_view(v: Seq<String>) -> Seq<Seq<char>> {
    v.map_values(|s: String| s@)
}

/// The characters of an optional string.
pub open spec fn opt_chars(o: Option<String>) -> Option<Seq<char>> {
    match o {
        Some(s) => Some(s@),
        None => None,
    }
}

/// The device node path `/dev/<name>`.
pub open spec fn dev_path(name: Seq<char>) -> Seq<char> {
    "/dev/"@ + name
}

/// The number of a `video<N>` class entry.
pub open spec fn spec_video_node_index(name: Seq<char>) -> Option<u32> {
    if has_prefix(name, "video"@) {
        match spec_parse_bounded(name.skip("video"@.len() as int), u32::MAX as nat) {
            Some(n) => Some(n as u32),
            None => None,
        }
    } else {
        None
    }
}

/// The driver is `uvcvideo` (ignoring ASCII case).
pub open spec fn spec_is_uvcvideo(driver: Option<Seq<char>>) -> bool {
    match driver {
        Some(d) => d.len() == "uvcvideo"@.len() && occurs_at(d, "uvcvideo"@, 0, true),
        None => false,
    }
}

/// The driver name or one of the modaliases mentions `virtio` (ignoring
/// ASCII case).
pub open spec fn spec_is_virtio(driver: Option<Seq<char>>, modaliases: Seq<Seq<char>>) -> bool {
    ||| (driver matches Some(d) && occurs_in(d, "virtio"@, true))
    ||| exists|i: int| 0 <= i < modaliases.len() && occurs_in(modaliases[i], "virtio"@, true)
}

/// The format list mentions MJPG or MJPEG (ignoring ASCII case).
pub open spec fn spec_advertises_mjpg(formats: Seq<char>) -> bool {
    occurs_in(formats, "MJPG"@, true) || occurs_in(formats, "MJPEG"@, true)
}

/// The USB ids named by the first modalias that parses.
pub open spec fn first_usb_ids(modaliases: Seq<Seq<char>>) -> Option<(u16, u16)>
    decreases modaliases.len(),
{
    if modaliases.len() == 0 {
        None
    } else {
        match spec_parse_usb_modalias(vstd::utf8::encode_utf8(modaliases[0])) {
            Some(ids) => Some(ids),
            None => first_usb_ids(modaliases.drop_first()),
        }
    }
}

/// The USB ids of a video entry.
pub open spec fn video_ids(n: VideoNodeFacts) -> Option<(u16, u16)> {
    first_usb_ids(strings_view(n.modaliases@))
}

/// A video entry is the Openterface capture node: a `video<N>` entry bound to
/// `uvcvideo` and not a virtio device, named "Openterface" or carrying the
/// MS2109 USB ids, and advertising MJPG where it lists formats at all. Its
/// node number, if so.
pub open spec fn spec_video_candidate(n: VideoNodeFacts) -> Option<u32> {
    match spec_video_node_index(n.name@) {
        None => None,
        Some(index) => {
            let driver = opt_chars(n.driver);
            let modaliases = strings_view(n.modaliases@);
            let openterface = occurs_in(n.card@, "Openterface"@, false) || (video_ids(
                n,
            ) matches Some((v, p)) && spec_is_video_device(v, p));
            let mjpg = match n.formats {
                None => true,
                Some(f) => spec_advertises_mjpg(f@),
            };
            if spec_is_virtio(driver, modaliases) || !spec_is_uvcvideo(driver) || !openterface
                || !mjpg {
                None
            } else {
                Some(index)
            }
        },
    }
}

/// The ids of a serial entry that is an Openterface serial bridge: a
/// `ttyACM*` or `ttyUSB*` entry whose USB ids are the CH9329's.
pub open spec fn spec_serial_entry(n: TtyNodeFacts) -> Option<(u16, u16)> {
    if has_prefix(n.name@, "ttyACM"@) || has_prefix(n.name@, "ttyUSB"@) {
        match first_usb_ids(strings_view(n.modaliases@)) {
            Some((v, p)) => if spec_is_serial_device(v, p) {
                Some((v, p))
            } else {
                None
            },
            None => None,
        }
    } else {
        None
    }
}

/// A video4linux entry is a capture candidate exactly when it is a numbered
/// `video<N>` node bound to `uvcvideo`, is not a virtio device, is an
/// Openterface capture (by card name or by the MS2109's USB ids), and
/// advertises MJPG where it lists formats; its number is then `N`.
pub proof fn lemma_video_candidate_rules(n: VideoNodeFacts)
    ensures
        spec_video_candidate(n) is Some <==> {
            &&& spec_video_node_index(n.name@) is Some
            &&& spec_is_uvcvideo(opt_chars(n.driver))
            &&& !spec_is_virtio(opt_chars(n.driver), strings_view(n.modaliases@))
            &&& (occurs_in(n.card@, "Openterface"@, false) || (video_ids(n) matches Some((v, p)) && (v == 0x345F
                || v == 0x534D) && p == 0x2109))
            &&& (n.formats matches Some(f) ==> spec_advertises_mjpg(f@))
        },
        spec_video_candidate(n) is Some ==> spec_video_candidate(n) == spec_video_node_index(n.name@),
{
}

/// A tty entry name of the kind the CH9329's USB serial bridge gets: it
/// begins with `ttyACM` (cdc-acm) or `ttyUSB` (ch341).
pub open spec fn bridge_tty_name(name: Seq<char>) -> bool {
    &&& name.len() >= 6
    &&& name.take(3) == seq!['t', 't', 'y']
    &&& (name.subrange(3, 6) == seq!['A', 'C', 'M'] || name.subrange(3, 6) == seq!['U', 'S', 'B'])
}

/// A serial entry is selected exactly when its name is a bridge tty name and
/// the first USB ids its modaliases carry are the CH9329 bridge's
/// (1A86:7523 or 1A86:FE0C); it is then reported with those ids.
pub proof fn lemma_serial_entry_selects_bridges(n: TtyNodeFacts)
    ensures
        spec_serial_entry(n) is Some <==> {
            &&& bridge_tty_name(n.name@)
            &&& first_usb_ids(strings_view(n.modaliases@)) matches Some((v, p))
            &&& v == 0x1A86 && (p == 0x7523 || p == 0xFE0C)
        },
        spec_serial_entry(n) is Some ==> spec_serial_entry(n) == first_usb_ids(strings_view(n.modaliases@)),
{
    reveal_strlit("ttyACM");
    reveal_strlit("ttyUSB");
    assert("ttyACM"@ =~= seq!['t', 't', 'y', 'A', 'C', 'M']);
    assert("ttyUSB"@ =~= seq!['t', 't', 'y', 'U', 'S', 'B']);
    let name = n.name@;
    if name.len() >= 6 {
        assert(name.take(6).take(3) =~= name.take(3));
        assert(name.take(6).subrange(3, 6) =~= name.subrange(3, 6));
        assert(has_prefix(name, "ttyACM"@) <==> name.take(6) =~= seq!['t', 't', 'y', 'A', 'C', 'M']);
        assert(has_prefix(name, "ttyUSB"@) <==> name.take(6) =~= seq!['t', 't', 'y', 'U', 'S', 'B']);
        if name.take(6) =~= seq!['t', 't', 'y', 'A', 'C', 'M'] {
            assert(name.take(3) =~= seq!['t', 't', 'y']);
            assert(name.subrange(3, 6) =~= seq!['A', 'C', 'M']);
        }
        if name.take(6) =~= seq!['t', 't', 'y', 'U', 'S', 'B'] {
            assert(name.take(3) =~= seq!['t', 't', 'y']);
            assert(name.subrange(3, 6) =~= seq!['U', 'S', 'B']);
        }
        if bridge_tty_name(name) {
            if name.subrange(3, 6) == seq!['A', 'C', 'M'] {
                assert(name.take(6) =~= name.take(3) + name.subrange(3, 6));
            } else {
                assert(name.take(6) =~= name.take(3) + name.subrange(3, 6));
            }
        }
    }
}

/// `x` placed into `s` after every entry whose index is not greater.
pub open spec fn insert_by_index(s: Seq<(u32, usize)>, x: (u32, usize)) -> Seq<(u32, usize)>
    decreases s.len(),
{
    if s.len() == 0 {
        seq![x]
    } else if s.last().0 <= x.0 {
        s.push(x)
    } else {
        insert_by_index(s.drop_last(), x).push(s.last())
    }
}

/// The accepted video entries as `(node number, position)`, ordered by node
/// number; entries with equal numbers keep their order.
pub open spec fn video_selection(nodes: Seq<VideoNodeFacts>) -> Seq<(u32, usize)>
    decreases nodes.len(),
{
    if nodes.len() == 0 {
        Seq::empty()
    } else {
        let before = video_selection(nodes.drop_last());
        match spec_video_candidate(nodes.last()) {
            Some(index) => insert_by_index(before, (index, (nodes.len() - 1) as usize)),
            None => before,
        }
    }
}

/// The accepted serial entries, in order, as `(device path, USB ids)`.
pub open spec fn serial_selection(nodes: Seq<TtyNodeFacts>) -> Seq<(Seq<char>, (u16, u16))>
    decreases nodes.len(),
{
    if nodes.len() == 0 {
        Seq::empty()
    } else {
        let before = serial_selection(nodes.drop_last());
        match spec_serial_entry(nodes.last()) {
            Some(ids) => before.push((dev_path(nodes.last().name@), ids)),
            None => before,
        }
    }
}

/// The entries are ordered by node number.
pub open spec fn ordered_by_index(s: Seq<(u32, usize)>) -> bool {
    forall|i: int, j: int| 0 <= i < j < s.len() ==> s[i].0 <= s[j].0
}

/// Where [`insert_by_index`] places `x`.
pub open spec fn insert_point(s: Seq<(u32, usize)>, x: (u32, usize)) -> int
    decreases s.len(),
{
    if s.len() == 0 {
        0
    } else if s.last().0 <= x.0 {
        s.len() as int
    } else {
        insert_point(s.drop_last(), x)
    }
}

proof fn lemma_insert_point(s: Seq<(u32, usize)>, x: (u32, usize))
    ensures
        0 <= insert_point(s, x) <= s.len(),
        forall|k: int| insert_point(s, x) <= k < s.len() ==> s[k].0 > x.0,
        insert_point(s, x) == 0 || s[insert_point(s, x) - 1].0 <= x.0,
    decreases s.len(),
{
    if s.len() > 0 && s.last().0 > x.0 {
        lemma_insert_point(s.drop_last(), x);
        assert forall|k: int| insert_point(s, x) <= k < s.len() implies s[k].0 > x.0 by {
            if k < s.len() - 1 {
                assert(s.drop_last()[k] == s[k]);
            }
        }
    }
}

proof fn lemma_insert_split(s: Seq<(u32, usize)>, x: (u32, usize), j: int)
    requires
        0 <= j <= s.len(),
        forall|k: int| j <= k < s.len() ==> s[k].0 > x.0,
        j == 0 || s[j - 1].0 <= x.0,
    ensures
        insert_by_index(s, x) == s.take(j).push(x) + s.skip(j),
    decreases s.len(),
{
    if s.len() == 0 {
        assert(s.take(j).push(x) + s.skip(j) =~= seq![x]);
    } else if s.last().0 <= x.0 {
        assert(j == s.len());
        assert(s.take(j).push(x) + s.skip(j) =~= s.push(x));
    } else {
        lemma_insert_split(s.drop_last(), x, j);
        assert(s.drop_last().take(j).push(x) + s.drop_last().skip(j) + seq![s.last()] =~= s.take(
            j,
        ).push(x) + s.skip(j));
        assert((s.drop_last().take(j).push(x) + s.drop_last().skip(j)).push(s.last()) =~= s.drop_last().take(j).push(x) + s.drop_last().skip(j) + seq![s.last()]);
    }
}

proof fn lemma_insert_keeps_order(s: Seq<(u32, usize)>, x: (u32, usize))
    requires
        ordered_by_index(s),
    ensures
        ordered_by_index(insert_by_index(s, x)),
        insert_by_index(s, x).len() == s.len() + 1,
        forall|k: int|
            0 <= k < insert_by_index(s, x).len() ==> (insert_by_index(s, x)[k] == x || s.contains(
                #[trigger] insert_by_index(s, x)[k],
            )),
{
    let p = insert_point(s, x);
    lemma_insert_point(s, x);
    lemma_insert_split(s, x, p);
    let r = insert_by_index(s, x);
    assert forall|k: int| 0 <= k < r.len() implies (r[k] == x || s.contains(#[trigger] r[k])) by {
        if k < p {
            assert(r[k] == s[k]);
        } else if k > p {
            assert(r[k] == s[k - 1]);
        }
    }
    assert forall|i: int, j: int| 0 <= i < j < r.len() implies r[i].0 <= r[j].0 by {
        if j < p {
            assert(r[i] == s[i] && r[j] == s[j]);
        } else if j == p {
            assert(r[i] == s[i]);
            assert(s[i].0 <= s[p - 1].0);
        } else if i < p {
            assert(r[i] == s[i] && r[j] == s[j - 1]);
        } else if i == p {
            assert(r[j] == s[j - 1]);
        } else {
            assert(r[i] == s[i - 1] && r[j] == s[j - 1]);
        }
    }
}

proof fn lemma_insert_positions(s: Seq<(u32, usize)>, x: (u32, usize))
    ensures
        insert_by_index(s, x).len() == s.len() + 1,
        0 <= insert_point(s, x) <= s.len(),
        insert_by_index(s, x)[insert_point(s, x)] == x,
        forall|m: int|
            0 <= m < s.len() ==> insert_by_index(s, x)[if m < insert_point(s, x) {
                m
            } else {
                m + 1
            }] == #[trigger] s[m],
        forall|k: int|
            0 <= k < insert_by_index(s, x).len() && k != insert_point(s, x) ==> #[trigger] insert_by_index(
                s,
                x,
            )[k] == s[if k < insert_point(s, x) {
                k
            } else {
                k - 1
            }],
{
    let p = insert_point(s, x);
    lemma_insert_point(s, x);
    lemma_insert_split(s, x, p);
}

/// Discovery lists every accepted video entry exactly once: each entry that
/// passes the candidate checks appears in the selection, and no entry
/// appears twice.
#[verifier::spinoff_prover]
#[verifier::rlimit(50)]
pub proof fn lemma_video_selection_complete(nodes: Seq<VideoNodeFacts>)
    requires
        nodes.len() <= usize::MAX,
    ensures
        forall|i: int|
            0 <= i < nodes.len() && (#[trigger] spec_video_candidate(nodes[i])) is Some ==> exists|k: int|
                0 <= k < video_selection(nodes).len() && video_selection(nodes)[k].1 == i,
        forall|k1: int, k2: int|
            0 <= k1 < video_selection(nodes).len() && 0 <= k2 < video_selection(nodes).len() && k1 != k2
                ==> (#[trigger] video_selection(nodes)[k1]).1 != (#[trigger] video_selection(nodes)[k2]).1,
    decreases nodes.len(),
{
    lemma_video_selection_ordered(nodes);
    if nodes.len() > 0 {
        let d = nodes.drop_last();
        let before = video_selection(d);
        lemma_video_selection_complete(d);
        lemma_video_selection_ordered(d);
        match spec_video_candidate(nodes.last()) {
            Some(index) => {
                let x = (index, (nodes.len() - 1) as usize);
                let r = insert_by_index(before, x);
                let p = insert_point(before, x);
                lemma_insert_positions(before, x);
                assert forall|i: int|
                    0 <= i < nodes.len() && (#[trigger] spec_video_candidate(nodes[i])) is Some implies exists|
                    k: int,
                | 0 <= k < r.len() && r[k].1 == i by {
                    if i == nodes.len() - 1 {
                        assert(r[p].1 == i);
                    } else {
                        assert(d[i] == nodes[i]);
                        assert(spec_video_candidate(d[i]) is Some);
                        let m = choose|m: int| 0 <= m < before.len() && before[m].1 == i;
                        let k = if m < p {
                            m
                        } else {
                            m + 1
                        };
                        assert(r[k] == before[m]);
                    }
                }
                assert forall|k1: int, k2: int|
                    0 <= k1 < r.len() && 0 <= k2 < r.len() && k1 != k2 implies (#[trigger] r[k1]).1 != (
                    #[trigger] r[k2]).1 by {
                    if k1 != p && k2 != p {
                        let m1 = if k1 < p {
                            k1
                        } else {
                            k1 - 1
                        };
                        let m2 = if k2 < p {
                            k2
                        } else {
                            k2 - 1
                        };
                        assert(r[k1] == before[m1]);
                        assert(r[k2] == before[m2]);
                    } else if k1 == p {
                        let m2 = if k2 < p {
                            k2
                        } else {
                            k2 - 1
                        };
                        assert(r[k2] == before[m2]);
                        assert(before[m2].1 < d.len());
                    } else {
                        let m1 = if k1 < p {
                            k1
                        } else {
                            k1 - 1
                        };
                        assert(r[k1] == before[m1]);
                        assert(before[m1].1 < d.len());
                    }
                }
            },
            None => {
                assert forall|i: int|
                    0 <= i < nodes.len() && (#[trigger] spec_video_candidate(nodes[i])) is Some implies exists|
                    k: int,
                | 0 <= k < before.len() && before[k].1 == i by {
                    assert(i != nodes.len() - 1);
                    assert(d[i] == nodes[i]);
                    assert(spec_video_candidate(d[i]) is Some);
                }
            },
        }
    }
}

/// Every accepted video entry is a candidate, listed once with its node
/// number and a valid position, and the list is ordered by node number.
pub proof fn lemma_video_selection_ordered(nodes: Seq<VideoNodeFacts>)
    requires
        nodes.len() <= usize::MAX,
    ensures
        ordered_by_index(video_selection(nodes)),
        forall|k: int|
            0 <= k < video_selection(nodes).len() ==> {
                let e = #[trigger] video_selection(nodes)[k];
                &&& 0 <= e.1 < nodes.len()
                &&& spec_video_candidate(nodes[e.1 as int]) == Some(e.0)
            },
    decreases nodes.len(),
{
    if nodes.len() > 0 {
        let before = video_selection(nodes.drop_last());
        lemma_video_selection_ordered(nodes.drop_last());
        match spec_video_candidate(nodes.last()) {
            Some(index) => {
                let x = (index, (nodes.len() - 1) as usize);
                lemma_insert_keeps_order(before, x);
                let r = insert_by_index(before, x);
                assert forall|k: int| 0 <= k < r.len() implies {
                    let e = #[trigger] r[k];
                    &&& 0 <= e.1 < nodes.len()
                    &&& spec_video_candidate(nodes[e.1 as int]) == Some(e.0)
                } by {
                    if r[k] != x {
                        let m = choose|m: int| 0 <= m < before.len() && before[m] == r[k];
                        assert(before[m] == r[k]);
                        assert(nodes.drop_last()[before[m].1 as int] == nodes[before[m].1 as int]);
                    }
                }
            },
            None => {
                assert forall|k: int| 0 <= k < before.len() implies {
                    let e = #[trigger] before[k];
                    &&& 0 <= e.1 < nodes.len()
                    &&& spec_video_candidate(nodes[e.1 as int]) == Some(e.0)
                } by {
                    assert(nodes.drop_last()[before[k].1 as int] == nodes[before[k].1 as int]);
                }
            },
        }
    }
}

} // verus!

verus! {

/// The number of a `video<N>` class entry.
fn video_node_index(name: &str) -> (r: Option<u32>)
    ensures
        r == spec_video_node_index(name@),
{
    let prefix = "video";
    if !starts_with_str(name, prefix) {
        return None;
    }
    let cs = crate::text::chars_of(name);
    let p = crate::text::chars_of(prefix);
    let mut rest: Vec<char> = Vec::new();
    let mut i: usize = p.len();
    while i < cs.len()
        invariant
            cs@ == name@,
            p@ == prefix@,
            p@.len() <= i <= cs@.len(),
            rest@ == name@.subrange(p@.len() as int, i as int),
        decreases cs@.len() - i,
    {
        rest.push(cs[i]);
        i = i + 1;
        assert(rest@ =~= name@.subrange(p@.len() as int, i as int));
    }
    assert(rest@ =~= name@.skip(prefix@.len() as int));
    let rest = crate::text::string_of(&rest);
    match parse_uint(rest.as_str(), 0xFFFF_FFFF) {
        Some(n) => Some(n as u32),
        None => None,
    }
}

/// Whether the bound driver is `uvcvideo`.
fn is_uvcvideo_driver(driver: Option<&str>) -> (r: bool)
    ensures
        r == spec_is_uvcvideo(
            match driver {
                Some(d) => Some(d@),
                None => None,
            },
        ),
{
    match driver {
        Some(d) => eq_ignore_ascii_case(d, "uvcvideo"),
        None => false,
    }
}

/// Whether the driver or a modalias marks a virtio device.
fn is_virtio_video(driver: Option<&str>, modaliases: &Vec<String>) -> (r: bool)
    ensures
        r == spec_is_virtio(
            match driver {
                Some(d) => Some(d@),
                None => None,
            },
            strings_view(modaliases@),
        ),
{
    let by_driver = match driver {
        Some(d) => contains_ignore_ascii_case(d, "virtio"),
        None => false,
    };
    if by_driver {
        return true;
    }
    let ghost ms = strings_view(modaliases@);
    let mut i: usize = 0;
    while i < modaliases.len()
        invariant
            i <= modaliases@.len(),
            ms == strings_view(modaliases@),
            forall|k: int| 0 <= k < i ==> !occurs_in(ms[k], "virtio"@, true),
        decreases modaliases@.len() - i,
    {
        if contains_ignore_ascii_case(modaliases[i].as_str(), "virtio") {
            assert(occurs_in(ms[i as int], "virtio"@, true));
            return true;
        }
        i = i + 1;
    }
    false
}

/// Whether a format list advertises MJPG.
fn advertises_mjpg_text(formats: &str) -> (r: bool)
    ensures
        r == spec_advertises_mjpg(formats@),
{
    contains_ignore_ascii_case(formats, "MJPG") || contains_ignore_ascii_case(formats, "MJPEG")
}

/// The USB ids named by the first modalias that parses.
fn usb_ids(modaliases: &Vec<String>) -> (r: Option<(u16, u16)>)
    ensures
        r == first_usb_ids(strings_view(modaliases@)),
{
    let ghost ms = strings_view(modaliases@);
    let mut i: usize = 0;
    assert(ms.skip(0) =~= ms);
    while i < modaliases.len()
        invariant
            i <= modaliases@.len(),
            ms == strings_view(modaliases@),
            first_usb_ids(ms) == first_usb_ids(ms.skip(i as int)),
        decreases modaliases@.len() - i,
    {
        assert(ms.skip(i as int)[0] == modaliases@[i as int]@);
        assert(ms.skip(i as int).drop_first() =~= ms.skip(i + 1));
        match parse_usb_modalias(modaliases[i].as_str()) {
            Some(ids) => return Some(ids),
            None => {},
        }
        i = i + 1;
    }
    None
}

/// The node number of a video entry that is the Openterface capture node.
fn video_candidate(n: &VideoNodeFacts) -> (r: Option<u32>)
    ensures
        r == spec_video_candidate(*n),
{
    let index = match video_node_index(n.name.as_str()) {
        Some(i) => i,
        None => return None,
    };
    let driver: Option<&str> = match &n.driver {
        Some(d) => Some(d.as_str()),
        None => None,
    };
    if is_virtio_video(driver, &n.modaliases) || !is_uvcvideo_driver(driver) {
        return None;
    }
    let openterface = contains_str(n.card.as_str(), "Openterface") || match usb_ids(
        &n.modaliases,
    ) {
        Some((v, p)) => is_video_device(v, p),
        None => false,
    };
    if !openterface {
        return None;
    }
    let mjpg = match &n.formats {
        None => true,
        Some(f) => advertises_mjpg_text(f.as_str()),
    };
    if mjpg {
        Some(index)
    } else {
        None
    }
}

/// Places `x` after every entry whose index is not greater.
fn insert_by_index_exec(v: &mut Vec<(u32, usize)>, x: (u32, usize))
    ensures
        final(v)@ == insert_by_index(old(v)@, x),
{
    let mut j: usize = v.len();
    while j > 0 && v[j - 1].0 > x.0
        invariant
            j <= v@.len(),
            forall|k: int| j <= k < v@.len() ==> v@[k].0 > x.0,
        decreases j,
    {
        j = j - 1;
    }
    proof {
        lemma_insert_split(v@, x, j as int);
    }
    let ghost before = v@;
    v.insert(j, x);
    assert(v@ =~= before.take(j as int).push(x) + before.skip(j as int));
}

/// The `/dev/<name>` path of a class entry.
fn dev_path_of(name: &str) -> (r: String)
    ensures
        r@ == dev_path(name@),
{
    concat_str("/dev/", name)
}

/// The Openterface capture nodes among `nodes` (in the caller's order, which
/// is sorted by path), ordered by node number, with their USB ids.
fn select_video(nodes: &Vec<VideoNodeFacts>) -> (r: Vec<(String, Option<(u16, u16)>)>)
    ensures
        r@.len() == video_selection(nodes@).len(),
        forall|k: int|
            0 <= k < r@.len() ==> {
                let e = video_selection(nodes@)[k];
                &&& (#[trigger] r@[k]).0@ == dev_path(nodes@[e.1 as int].name@)
                &&& r@[k].1 == video_ids(nodes@[e.1 as int])
            },
{
    let mut order: Vec<(u32, usize)> = Vec::new();
    let mut i: usize = 0;
    while i < nodes.len()
        invariant
            i <= nodes@.len(),
            order@ == video_selection(nodes@.take(i as int)),
        decreases nodes@.len() - i,
    {
        assert(nodes@.take(i + 1).drop_last() =~= nodes@.take(i as int));
        match video_candidate(&nodes[i]) {
            Some(index) => insert_by_index_exec(&mut order, (index, i)),
            None => {},
        }
        i = i + 1;
    }
    assert(nodes@.take(nodes@.len() as int) =~= nodes@);
    proof {
        lemma_video_selection_ordered(nodes@);
    }
    let mut out: Vec<(String, Option<(u16, u16)>)> = Vec::new();
    let mut k: usize = 0;
    while k < order.len()
        invariant
            order@ == video_selection(nodes@),
            k <= order@.len(),
            out@.len() == k,
            forall|m: int|
                0 <= m < order@.len() ==> #[trigger] order@[m].1 < nodes@.len(),
            forall|m: int|
                0 <= m < k ==> {
                    let e = order@[m];
                    &&& (#[trigger] out@[m]).0@ == dev_path(nodes@[e.1 as int].name@)
                    &&& out@[m].1 == video_ids(nodes@[e.1 as int])
                },
        decreases order@.len() - k,
    {
        let pos = order[k].1;
        let node = &nodes[pos];
        let path = dev_path_of(node.name.as_str());
        let ids = usb_ids(&node.modaliases);
        out.push((path, ids));
        k = k + 1;
    }
    out
}

/// The serial entries as `(device path, USB ids)` views.
pub open spec fn serial_entries_view(v: Seq<(String, (u16, u16))>) -> Seq<(Seq<char>, (u16, u16))> {
    v.map_values(|e: (String, (u16, u16))| (e.0@, e.1))
}

/// The ids of a serial entry that is an Openterface serial bridge.
fn serial_entry(n: &TtyNodeFacts) -> (r: Option<(u16, u16)>)
    ensures
        r == spec_serial_entry(*n),
{
    if !(starts_with_str(n.name.as_str(), "ttyACM") || starts_with_str(n.name.as_str(), "ttyUSB")) {
        return None;
    }
    match usb_ids(&n.modaliases) {
        Some((v, p)) => if is_serial_device(v, p) {
            Some((v, p))
        } else {
            None
        },
        None => None,
    }
}

/// The Openterface serial nodes among `nodes`, in the caller's order (sorted
/// by path, so `ttyACM*` before `ttyUSB*`).
fn select_serial(nodes: &Vec<TtyNodeFacts>) -> (r: Vec<(String, (u16, u16))>)
    ensures
        serial_entries_view(r@) == serial_selection(nodes@),
{
    let mut out: Vec<(String, (u16, u16))> = Vec::new();
    let mut i: usize = 0;
    while i < nodes.len()
        invariant
            i <= nodes@.len(),
            serial_entries_view(out@) == serial_selection(nodes@.take(i as int)),
        decreases nodes@.len() - i,
    {
        assert(nodes@.take(i + 1).drop_last() =~= nodes@.take(i as int));
        assert(nodes@.take(i + 1).last() == nodes@[i as int]);
        match serial_entry(&nodes[i]) {
            Some(ids) => {
                let path = dev_path_of(nodes[i].name.as_str());
                let ghost before = out@;
                out.push((path, ids));
                assert(serial_entries_view(out@) =~= serial_entries_view(before).push(
                    (dev_path(nodes@[i as int].name@), ids),
                ));
            },
            None => {},
        }
        i = i + 1;
    }
    assert(nodes@.take(nodes@.len() as int) =~= nodes@);
    out
}

} // verus!

verus! {

/// The video class directory, relative to the scanner's root.
pub const VIDEO_CLASS_DIR: &'static str = "sys/class/video4linux";

/// The tty class directory, relative to the scanner's root.
pub const TTY_CLASS_DIR: &'static str = "sys/class/tty";

/// The description of a discovered device with the given endpoints.
pub open spec fn scan_description(video: bool, serial: bool) -> Seq<char> {
    if video && serial {
        "Openterface Mini-KVM (video + serial)"@
    } else if video {
        "Openterface video only (no serial control found)"@
    } else {
        "Openterface serial only (no capture found)"@
    }
}

/// The device that discovery reports for the given sysfs entries: none when
/// neither endpoint was found, else one device pairing the first capture node
/// (lowest node number) with the first serial node.
pub open spec fn scan_result(
    videos: Seq<VideoNodeFacts>,
    ttys: Seq<TtyNodeFacts>,
    r: Seq<DeviceInfo>,
) -> bool {
    let vs = video_selection(videos);
    let ss = serial_selection(ttys);
    if vs.len() == 0 && ss.len() == 0 {
        r.len() == 0
    } else {
        &&& r.len() == 1
        &&& opt_chars(r[0].video_path) == if vs.len() > 0 {
            Some(dev_path(videos[vs[0].1 as int].name@))
        } else {
            None
        }
        &&& opt_chars(r[0].serial_path) == if ss.len() > 0 {
            Some(ss[0].0)
        } else {
            None
        }
        &&& r[0].serial_vendor_id == if ss.len() > 0 {
            Some(ss[0].1.0)
        } else {
            None
        }
        &&& r[0].serial_product_id == if ss.len() > 0 {
            Some(ss[0].1.1)
        } else {
            None
        }
        &&& r[0].description@ == scan_description(vs.len() > 0, ss.len() > 0)
    }
}

/// Discovery over a Linux `/sys` tree.
///
/// Defaults to the real root `/`; tests point the root at a fixture tree. The
/// caller reads the class entries under the root and hands them in.
pub struct SysfsScanner {
    root: String,
}

impl View for SysfsScanner {
    type V = Seq<char>;

    /// The root directory.
    closed spec fn view(&self) -> Seq<char> {
        self.root@
    }
}

impl Default for SysfsScanner {
    fn default() -> (r: SysfsScanner)
        ensures
            r@ == "/"@,
    {
        SysfsScanner::with_root("/")
    }
}

impl SysfsScanner {
    /// Creates a scanner rooted at `/` (the real system).
    pub fn new() -> (r: SysfsScanner)
        ensures
            r@ == "/"@,
    {
        SysfsScanner::default()
    }

    /// Creates a scanner rooted at `root` (a fixture `/sys` parent for tests).
    pub fn with_root(root: &str) -> (r: SysfsScanner)
        ensures
            r@ == root@,
    {
        SysfsScanner { root: root.to_owned() }
    }

    /// The root directory that the class directories are read under.
    pub fn root(&self) -> (r: &str)
        ensures
            r@ == self@,
    {
        self.root.as_str()
    }

    /// All detected Openterface capture node paths, lowest node number first.
    pub fn video_nodes(&self, nodes: &Vec<VideoNodeFacts>) -> (r: Vec<String>)
        ensures
            r@.len() == video_selection(nodes@).len(),
            forall|k: int|
                0 <= k < r@.len() ==> (#[trigger] r@[k])@ == dev_path(
                    nodes@[video_selection(nodes@)[k].1 as int].name@,
                ),
    {
        let selected = select_video(nodes);
        let mut out: Vec<String> = Vec::new();
        let mut k: usize = 0;
        while k < selected.len()
            invariant
                k <= selected@.len(),
                selected@.len() == video_selection(nodes@).len(),
                forall|m: int|
                    0 <= m < selected@.len() ==> (#[trigger] selected@[m]).0@ == dev_path(
                        nodes@[video_selection(nodes@)[m].1 as int].name@,
                    ),
                out@.len() == k,
                forall|m: int| 0 <= m < k ==> (#[trigger] out@[m])@ == selected@[m].0@,
            decreases selected@.len() - k,
        {
            out.push(selected[k].0.clone());
            k = k + 1;
        }
        out
    }

    /// All detected Openterface serial nodes with their USB (vendor, product)
    /// ids, in path order.
    pub fn serial_nodes(&self, nodes: &Vec<TtyNodeFacts>) -> (r: Vec<(String, (u16, u16))>)
        ensures
            serial_entries_view(r@) == serial_selection(nodes@),
    {
        select_serial(nodes)
    }

    /// The devices that the given class entries show.
    pub fn devices(&self, videos: &Vec<VideoNodeFacts>, ttys: &Vec<TtyNodeFacts>) -> (r: Vec<
        DeviceInfo,
    >)
        ensures
            scan_result(videos@, ttys@, r@),
    {
        let vs = select_video(videos);
        let ss = select_serial(ttys);
        let ghost sview = serial_entries_view(ss@);
        assert(sview.len() == ss@.len());
        if vs.len() == 0 && ss.len() == 0 {
            return Vec::new();
        }
        let (serial_path, serial_vendor_id, serial_product_id) = if ss.len() > 0 {
            assert(sview[0] == (ss@[0].0@, ss@[0].1));
            (Some(ss[0].0.clone()), Some(ss[0].1.0), Some(ss[0].1.1))
        } else {
            (None, None, None)
        };
        let video_path = if vs.len() > 0 {
            Some(vs[0].0.clone())
        } else {
            None
        };
        let description = if vs.len() > 0 && ss.len() > 0 {
            "Openterface Mini-KVM (video + serial)".to_owned()
        } else if vs.len() > 0 {
            "Openterface video only (no serial control found)".to_owned()
        } else {
            "Openterface serial only (no capture found)".to_owned()
        };
        let mut out: Vec<DeviceInfo> = Vec::new();
        out.push(
            DeviceInfo {
                serial_path,
                video_path,
                serial_vendor_id,
                serial_product_id,
                description,
            },
        );
        out
    }
}

} // verus!

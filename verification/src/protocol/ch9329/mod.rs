//! CH9329 command framing and command builders.
//!
//! Every command is `57 AB 00 <CMD> <LEN> <DATA..> <SUM>`, where `SUM` is the
//! low byte of the additive sum of all preceding bytes. The builders here are
//! pure; the pacing scheduler decides *when* to write them.
//!
//! Layouts:
//! - **Absolute mouse** — `CMD=0x04`, data `02 <buttons> <xLo> <xHi> <yLo>
//!   <yHi> <wheel>`, X/Y in `0..=4095` little-endian.
//! - **Relative mouse** — `CMD=0x05`, data `01 <buttons> <dx> <dy> <wheel>`.
//! - **Keyboard** — `CMD=0x02`, data `<mod> 00 <k1>..<k6>`; an all-zero
//!   report is a release.

pub mod cmd;

use vstd::prelude::*;

use crate::event::{AbsPosition, ButtonMask, HidUsage, Modifiers, ABS_MAX};
use crate::protocol::hid::{ascii_to_hid, spec_ascii_to_hid};

verus! {

/// The 3-byte prefix that begins every CH9329 command frame.
pub const FRAME_PREFIX: [u8; 3] = [0x57, 0xAB, 0x00];

/// Maximum number of simultaneous non-modifier keys in one HID report.
pub const MAX_KEYS: usize = 6;

/// The 50-byte `SET_PARA_CFG` payload that restores the CH9329 to mode 0x82
/// (protocol-transfer USB keyboard+mouse) at 115200 baud.
pub const PARA_CFG_MODE_82: [u8; 50] = [
    0x82, 0x80, 0x00, 0x00, 0x00, 0x01, 0xC2, 0x00, 0x08, 0x00, 0x00, 0x03, 0x86, 0x1A, 0x29, 0xE1,
    0x00, 0x00, 0x00, 0x01, 0x00, 0x0D, 0x00, 0x00, 0x00, 0x00, 0x00, 0x00, 0x00, 0x00, 0x00, 0x00,
    0x00, 0x00, 0x00, 0x00, 0x00, 0x00, 0x00, 0x00, 0x00, 0x00, 0x00, 0x00, 0x00, 0x00, 0x00, 0x00,
    0x00, 0x00,
];

/// The three prefix bytes as a sequence.
pub open spec fn prefix_seq() -> Seq<u8> {
    seq![0x57u8, 0xABu8, 0x00u8]
}

/// The additive sum of a byte sequence.
pub open spec fn byte_sum(s: Seq<u8>) -> nat
    decreases s.len(),
{
    if s.len() == 0 {
        0
    } else {
        byte_sum(s.drop_last()) + s.last() as nat
    }
}

/// The CH9329 checksum: the low byte of the additive sum.
pub open spec fn spec_checksum(s: Seq<u8>) -> u8 {
    (byte_sum(s) % 256) as u8
}

/// The frame header: prefix, opcode and length byte.
pub open spec fn frame_header(cmd: u8, len: nat) -> Seq<u8> {
    prefix_seq().push(cmd).push(len as u8)
}

/// The complete frame for `cmd` and `data`: header, data, checksum.
pub open spec fn spec_frame(cmd: u8, data: Seq<u8>) -> Seq<u8> {
    let body = frame_header(cmd, data.len()) + data;
    body.push(spec_checksum(body))
}

proof fn lemma_take_step(s: Seq<u8>, i: int)
    requires
        0 <= i < s.len(),
    ensures
        s.take(i + 1).drop_last() == s.take(i),
        s.take(i + 1).last() == s[i],
{
    assert(s.take(i + 1).drop_last() =~= s.take(i));
}

/// Computes the CH9329 checksum: the low byte of the additive sum of `bytes`.
pub fn checksum(bytes: &[u8]) -> (r: u8)
    ensures
        r == spec_checksum(bytes@),
{
    let mut acc: u8 = 0;
    let mut i: usize = 0;
    while i < bytes.len()
        invariant
            i <= bytes@.len(),
            acc == spec_checksum(bytes@.take(i as int)),
        decreases bytes@.len() - i,
    {
        proof {
            lemma_take_step(bytes@, i as int);
        }
        let b = bytes[i];
        acc = ((acc as u16 + b as u16) % 256) as u8;
        i = i + 1;
    }
    assert(bytes@.take(i as int) =~= bytes@);
    acc
}

/// Appends every byte of `data` to `out`.
fn push_all(out: &mut Vec<u8>, data: &[u8])
    ensures
        final(out)@ == old(out)@ + data@,
{
    let ghost start = out@;
    let mut i: usize = 0;
    while i < data.len()
        invariant
            i <= data@.len(),
            out@ == start + data@.take(i as int),
        decreases data@.len() - i,
    {
        out.push(data[i]);
        i = i + 1;
        assert(out@ =~= start + data@.take(i as int));
    }
    assert(data@.take(i as int) =~= data@);
}

/// Frames a command: prefix + opcode + length + data + checksum.
///
/// `data.len()` must fit in the single CH9329 length byte.
pub fn frame(cmd: u8, data: &[u8]) -> (r: Vec<u8>)
    requires
        data@.len() <= 255,
    ensures
        r@ == spec_frame(cmd, data@),
{
    let mut out: Vec<u8> = Vec::new();
    out.push(0x57);
    out.push(0xAB);
    out.push(0x00);
    out.push(cmd);
    out.push(data.len() as u8);
    assert(out@ =~= frame_header(cmd, data@.len()));
    push_all(&mut out, data);
    let sum = checksum(out.as_slice());
    out.push(sum);
    out
}

/// A frame is well formed: prefix, opcode, length byte equal to the payload
/// length, total length six more than the payload, and a trailing checksum
/// over everything before it.
pub open spec fn well_formed_frame(f: Seq<u8>, cmd: u8, data: Seq<u8>) -> bool {
    &&& f.len() == data.len() + 6
    &&& f[0] == 0x57 && f[1] == 0xAB && f[2] == 0x00
    &&& f[3] == cmd
    &&& f[4] as nat == data.len()
    &&& f.subrange(5, 5 + data.len() as int) == data
    &&& f.last() == spec_checksum(f.drop_last())
}

/// Every frame built from a payload of at most 255 bytes is well formed.
pub proof fn lemma_frame_well_formed(cmd: u8, data: Seq<u8>)
    requires
        data.len() <= 255,
    ensures
        well_formed_frame(spec_frame(cmd, data), cmd, data),
{
    let f = spec_frame(cmd, data);
    let body = frame_header(cmd, data.len()) + data;
    assert(f.drop_last() =~= body);
    assert(f.subrange(5, 5 + data.len() as int) =~= data);
}

/// The absolute-mouse payload for a clamped position.
pub open spec fn clamp_axis(v: u16) -> u16 {
    if v <= 4095 { v } else { 4095 }
}

/// The seven absolute-mouse payload bytes.
pub open spec fn mouse_absolute_payload(pos: AbsPosition, buttons: ButtonMask, wheel: i8) -> Seq<u8> {
    let x = clamp_axis(pos.x);
    let y = clamp_axis(pos.y);
    seq![0x02u8, buttons.0, (x % 256) as u8, (x / 256) as u8, (y % 256) as u8, (y / 256) as u8, wheel as u8]
}

/// Builds an **absolute** mouse command; each axis is clamped to `0..=4095`.
pub fn mouse_absolute(pos: AbsPosition, buttons: ButtonMask, wheel: i8) -> (r: Vec<u8>)
    ensures
        r@ == spec_frame(cmd::MOUSE_ABS, mouse_absolute_payload(pos, buttons, wheel)),
{
    let x = if pos.x <= ABS_MAX { pos.x } else { ABS_MAX };
    let y = if pos.y <= ABS_MAX { pos.y } else { ABS_MAX };
    assert((x & 0xFF) as u8 == (x % 256) as u8 && (x >> 8) as u8 == (x / 256) as u8) by (bit_vector);
    assert((y & 0xFF) as u8 == (y % 256) as u8 && (y >> 8) as u8 == (y / 256) as u8) by (bit_vector);
    let data: [u8; 7] = [
        0x02,
        buttons.bits(),
        (x & 0xFF) as u8,
        (x >> 8) as u8,
        (y & 0xFF) as u8,
        (y >> 8) as u8,
        wheel as u8,
    ];
    assert(data@ =~= mouse_absolute_payload(pos, buttons, wheel));
    frame(cmd::MOUSE_ABS, &data)
}

/// The absolute coordinates carried by an absolute-mouse frame never exceed
/// 4095, whatever position was asked for.
pub proof fn lemma_absolute_coordinates_clamped(pos: AbsPosition, buttons: ButtonMask, wheel: i8)
    ensures
        ({
            let f = spec_frame(cmd::MOUSE_ABS, mouse_absolute_payload(pos, buttons, wheel));
            &&& f[7] as int + 256 * (f[8] as int) <= 4095
            &&& f[9] as int + 256 * (f[10] as int) <= 4095
            &&& f[7] as int + 256 * (f[8] as int) == clamp_axis(pos.x)
            &&& f[9] as int + 256 * (f[10] as int) == clamp_axis(pos.y)
        }),
{
    let p = mouse_absolute_payload(pos, buttons, wheel);
    let f = spec_frame(cmd::MOUSE_ABS, p);
    assert(f[7] == p[2] && f[8] == p[3] && f[9] == p[4] && f[10] == p[5]);
}

/// The five relative-mouse payload bytes.
pub open spec fn mouse_relative_payload(dx: i8, dy: i8, buttons: ButtonMask, wheel: i8) -> Seq<u8> {
    seq![0x01u8, buttons.0, dx as u8, dy as u8, wheel as u8]
}

/// Builds a **relative** mouse command from signed 8-bit deltas and wheel.
pub fn mouse_relative(dx: i8, dy: i8, buttons: ButtonMask, wheel: i8) -> (r: Vec<u8>)
    ensures
        r@ == spec_frame(cmd::MOUSE_REL, mouse_relative_payload(dx, dy, buttons, wheel)),
{
    let data: [u8; 5] = [0x01, buttons.bits(), dx as u8, dy as u8, wheel as u8];
    assert(data@ =~= mouse_relative_payload(dx, dy, buttons, wheel));
    frame(cmd::MOUSE_REL, &data)
}

/// The eight keyboard payload bytes: modifiers, reserved zero, then the
/// first six keys (zero-filled).
pub open spec fn keyboard_payload(modifiers: Modifiers, keys: Seq<HidUsage>) -> Seq<u8> {
    Seq::new(8, |i: int|
        if i == 0 {
            modifiers.0
        } else if i == 1 {
            0u8
        } else if i - 2 < keys.len() {
            keys[i - 2].0
        } else {
            0u8
        })
}

/// Builds a keyboard report with the given modifiers and up to [`MAX_KEYS`]
/// held keys; keys beyond the sixth are ignored.
pub fn keyboard(modifiers: Modifiers, keys: &[HidUsage]) -> (r: Vec<u8>)
    ensures
        r@ == spec_frame(cmd::KEYBOARD, keyboard_payload(modifiers, keys@)),
{
    let mut data: [u8; 8] = [0u8; 8];
    data[0] = modifiers.0;
    let mut i: usize = 0;
    while i < MAX_KEYS && i < keys.len()
        invariant
            i <= 6,
            i <= keys@.len(),
            data@.len() == 8,
            data@[0] == modifiers.0,
            data@[1] == 0,
            forall|j: int| 2 <= j < 8 ==> data@[j] == (if j - 2 < i { keys@[j - 2].0 } else { 0u8 }),
        decreases 6 - i,
    {
        data[i + 2] = keys[i].0;
        i = i + 1;
    }
    assert(data@ =~= keyboard_payload(modifiers, keys@));
    frame(cmd::KEYBOARD, &data)
}

/// The all-zero keyboard report (release all keys and modifiers).
pub open spec fn release_report() -> Seq<u8> {
    spec_frame(cmd::KEYBOARD, keyboard_payload(Modifiers(0), Seq::empty()))
}

/// Builds an all-zero keyboard report (release all keys and modifiers).
pub fn keyboard_release() -> (r: Vec<u8>)
    ensures
        r@ == release_report(),
{
    let none: [HidUsage; 0] = [];
    assert(none@ =~= Seq::<HidUsage>::empty());
    keyboard(Modifiers(0), &none)
}

/// The reports that type `text`: for each mappable character a press report
/// (with its modifier) then the release report; other characters are skipped.
pub open spec fn text_reports(text: Seq<char>) -> Seq<Seq<u8>>
    decreases text.len(),
{
    if text.len() == 0 {
        Seq::empty()
    } else {
        let prev = text_reports(text.drop_last());
        match spec_ascii_to_hid(text.last()) {
            Some((m, u)) => prev.push(spec_frame(cmd::KEYBOARD, keyboard_payload(Modifiers(m), seq![HidUsage(u)]))).push(
                release_report(),
            ),
            None => prev,
        }
    }
}

/// The press report that types a mappable character.
pub open spec fn press_report(c: char) -> Seq<u8> {
    let (m, u) = spec_ascii_to_hid(c)->0;
    spec_frame(cmd::KEYBOARD, keyboard_payload(Modifiers(m), seq![HidUsage(u)]))
}

/// The characters of `text` that have a US-layout mapping, in order.
pub open spec fn typed_chars(text: Seq<char>) -> Seq<char>
    decreases text.len(),
{
    if text.len() == 0 {
        Seq::empty()
    } else {
        let prev = typed_chars(text.drop_last());
        if spec_ascii_to_hid(text.last()) is Some {
            prev.push(text.last())
        } else {
            prev
        }
    }
}

/// Typing text yields two reports per mappable character and none for the
/// others: for the `k`-th mappable character (in text order) its press
/// report stands at `2k` and the all-zero release report at `2k + 1`.
pub proof fn lemma_text_reports_shape(text: Seq<char>)
    ensures
        text_reports(text).len() == 2 * typed_chars(text).len(),
        typed_chars(text).len() == crate::paste::mapped_count(text),
        forall|k: int|
            0 <= k < typed_chars(text).len() ==> spec_ascii_to_hid(#[trigger] typed_chars(text)[k]) is Some
                && text_reports(text)[2 * k] == press_report(typed_chars(text)[k]) && text_reports(text)[2 * k
                + 1] == release_report(),
    decreases text.len(),
{
    if text.len() > 0 {
        let p = text.drop_last();
        lemma_text_reports_shape(p);
        let tp = typed_chars(p);
        let rp = text_reports(p);
        assert forall|k: int| 0 <= k < typed_chars(text).len() implies spec_ascii_to_hid(
            #[trigger] typed_chars(text)[k],
        ) is Some && text_reports(text)[2 * k] == press_report(typed_chars(text)[k]) && text_reports(text)[2
            * k + 1] == release_report() by {
            if k < tp.len() {
                assert(typed_chars(text)[k] == tp[k]);
                assert(text_reports(text)[2 * k] == rp[2 * k]);
                assert(text_reports(text)[2 * k + 1] == rp[2 * k + 1]);
            }
        }
    }
}

/// Builds the sequence of keyboard frames that "types" `text` on a US layout.
pub fn text_to_reports(text: &str) -> (r: Vec<Vec<u8>>)
    ensures
        r.deep_view() == text_reports(text@),
{
    let chars = crate::text::chars_of(text);
    let mut out: Vec<Vec<u8>> = Vec::new();
    let mut i: usize = 0;
    while i < chars.len()
        invariant
            i <= chars@.len(),
            chars@ == text@,
            out.deep_view() == text_reports(chars@.take(i as int)),
        decreases chars@.len() - i,
    {
        let ch = chars[i];
        proof {
            assert(chars@.take(i + 1).drop_last() =~= chars@.take(i as int));
        }
        let ghost before = out.deep_view();
        match ascii_to_hid(ch) {
            Some((mods, usage)) => {
                let keys: [HidUsage; 1] = [usage];
                assert(keys@ =~= seq![HidUsage(usage.0)]);
                let press = keyboard(mods, &keys);
                let ghost p = press@;
                assert(press.deep_view() =~= p);
                out.push(press);
                let rel = keyboard_release();
                let ghost q = rel@;
                assert(rel.deep_view() =~= q);
                out.push(rel);
                assert(out.deep_view() =~= before.push(p).push(q));
            },
            None => {},
        }
        i = i + 1;
        assert(out.deep_view() =~= text_reports(chars@.take(i as int)));
    }
    assert(chars@.take(i as int) =~= chars@);
    out
}

/// Builds the `SET_PARA_CFG` command that restores mode 0x82 at 115200 baud.
pub fn set_para_cfg() -> (r: Vec<u8>)
    ensures
        r@ == spec_frame(cmd::SET_PARA_CFG, PARA_CFG_MODE_82@),
{
    let payload = PARA_CFG_MODE_82;
    frame(cmd::SET_PARA_CFG, &payload)
}

/// Builds the `GET_INFO` query.
pub fn get_info() -> (r: Vec<u8>)
    ensures
        r@ == spec_frame(cmd::GET_INFO, Seq::empty()),
{
    let none: [u8; 0] = [];
    let r = frame(cmd::GET_INFO, &none);
    assert(none@ =~= Seq::<u8>::empty());
    r
}

/// Builds the software reset command.
pub fn software_reset() -> (r: Vec<u8>)
    ensures
        r@ == spec_frame(cmd::RESET, Seq::empty()),
{
    let none: [u8; 0] = [];
    let r = frame(cmd::RESET, &none);
    assert(none@ =~= Seq::<u8>::empty());
    r
}

/// A parsed CH9329 response frame.
#[derive(Clone, PartialEq, Eq, Debug)]
pub struct Response {
    /// The response command byte (typically the request cmd with bit 7 set).
    pub cmd: u8,
    /// The response payload (between length and checksum).
    pub data: Vec<u8>,
}

/// The frame at the start of `b`, if `b` begins with a complete frame whose
/// checksum is valid: its opcode, its payload and its total length.
pub open spec fn spec_parse_response(b: Seq<u8>) -> Option<(u8, Seq<u8>, nat)> {
    if b.len() < 6 || b[0] != 0x57 || b[1] != 0xAB || b[2] != 0x00 {
        None
    } else {
        let len = b[4] as nat;
        let total: nat = 6 + len;
        if b.len() < total {
            None
        } else if spec_checksum(b.take(total - 1)) != b[total - 1] {
            None
        } else {
            Some((b[3], b.subrange(5, 5 + len as int), total))
        }
    }
}

/// Parses and validates a single CH9329 response frame from the start of
/// `bytes`. Returns the response and the number of bytes consumed, or `None`
/// if `bytes` does not begin with a complete, checksum-valid frame.
pub fn parse_response(bytes: &[u8]) -> (r: Option<(Response, usize)>)
    ensures
        match (r, spec_parse_response(bytes@)) {
            (Some((resp, n)), Some((c, d, t))) => resp.cmd == c && resp.data@ == d && n == t,
            (None, None) => true,
            _ => false,
        },
{
    if bytes.len() < 6 || bytes[0] != 0x57 || bytes[1] != 0xAB || bytes[2] != 0x00 {
        return None;
    }
    let cmd = bytes[3];
    let len = bytes[4] as usize;
    let total = 5 + len + 1;
    if bytes.len() < total {
        return None;
    }
    let sum = checksum(slice_prefix(bytes, total - 1));
    if sum != bytes[total - 1] {
        return None;
    }
    let mut data: Vec<u8> = Vec::new();
    let end = 5 + len;
    let mut i: usize = 5;
    while i < end
        invariant
            end == 5 + len,
            5 <= i <= end,
            end < bytes@.len(),
            data@ == bytes@.subrange(5, i as int),
        decreases end - i,
    {
        data.push(bytes[i]);
        i = i + 1;
        assert(data@ =~= bytes@.subrange(5, i as int));
    }
    Some((Response { cmd, data }, total))
}

/// The first `n` elements of a slice.
fn slice_prefix(s: &[u8], n: usize) -> (r: &[u8])
    requires
        n <= s@.len(),
    ensures
        r@ == s@.take(n as int),
{
    let (head, _) = s.split_at(n);
    head
}

proof fn lemma_checksum_prefix(data: Seq<u8>, cmd: u8, rest: Seq<u8>)
    requires
        data.len() <= 255,
    ensures
        (spec_frame(cmd, data) + rest).take(data.len() + 5int) == frame_header(cmd, data.len()) + data,
{
    assert((spec_frame(cmd, data) + rest).take(data.len() + 5int) =~= frame_header(cmd, data.len()) + data);
}

/// Reading back a frame gives exactly what was framed: parsing the bytes of
/// `frame(cmd, data)`, followed by anything at all, yields `cmd`, `data` and
/// the frame's length.
pub proof fn lemma_parse_frame_roundtrip(cmd: u8, data: Seq<u8>, rest: Seq<u8>)
    requires
        data.len() <= 255,
    ensures
        spec_parse_response(spec_frame(cmd, data) + rest) == Some((cmd, data, data.len() + 6)),
{
    let f = spec_frame(cmd, data);
    let b = f + rest;
    lemma_checksum_prefix(data, cmd, rest);
    assert(b[4] as nat == data.len());
    assert(b.take(data.len() + 5int) =~= frame_header(cmd, data.len()) + data);
    assert(b[data.len() + 5int] == spec_checksum(frame_header(cmd, data.len()) + data));
    assert(b.subrange(5, 5 + data.len() as int) =~= data);
}

} // verus!

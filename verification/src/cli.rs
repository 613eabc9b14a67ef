//! Values of the command-line interface: the `WIDTHxHEIGHT` window-size
//! argument and the process exit codes.

use vstd::prelude::*;

use crate::discovery::{opt_chars, serial_entries_view, strings_view, DeviceInfo};
use crate::text::{chars_of, concat_str, parse_uint, spec_parse_bounded, string_of, trim_white_space, trimmed};

verus! {

/// The largest accepted window dimension.
pub const MAX_WINDOW_DIMENSION: u32 = 32_767;

/// Physical video/content dimensions parsed from `WIDTHxHEIGHT`.
#[derive(Clone, Copy, PartialEq, Eq, Structural, Debug)]
pub struct WindowSize {
    /// Width in pixels.
    pub width: u32,
    /// Height in pixels.
    pub height: u32,
}

impl WindowSize {
    /// A size of `width`×`height`.
    pub fn new(width: u32, height: u32) -> (r: WindowSize)
        ensures
            r == (WindowSize { width, height }),
    {
        WindowSize { width, height }
    }
}

/// An `x` or `X`, the separator of `WIDTHxHEIGHT`.
pub open spec fn is_size_separator(c: char) -> bool {
    c == 'x' || c == 'X'
}

/// The position of the first separator in `s`.
pub open spec fn first_separator(s: Seq<char>) -> Option<int>
    decreases s.len(),
{
    if s.len() == 0 {
        None
    } else if is_size_separator(s[0]) {
        Some(0)
    } else {
        match first_separator(s.drop_first()) {
            Some(i) => Some(i + 1),
            None => None,
        }
    }
}

/// The window size that `value` gives, or the message explaining why it
/// gives none: the trimmed value must be two trimmed decimal numbers around
/// exactly one `x`/`X`, each in `1..=32767`.
pub open spec fn spec_parse_window_size(value: Seq<char>) -> Result<WindowSize, Seq<char>> {
    let v = trimmed(value);
    match first_separator(v) {
        None => Err("expected WIDTHxHEIGHT, for example 1920x1080"@),
        Some(i) => {
            let w = trimmed(v.take(i));
            let h = trimmed(v.skip(i + 1));
            if first_separator(h) is Some {
                Err("expected exactly one 'x' separator in WIDTHxHEIGHT"@)
            } else {
                match (spec_parse_bounded(w, u32::MAX as nat), spec_parse_bounded(
                    h,
                    u32::MAX as nat,
                )) {
                    (None, _) => Err("window width must be a positive integer"@),
                    (Some(_), None) => Err("window height must be a positive integer"@),
                    (Some(wn), Some(hn)) => if wn == 0 || hn == 0 {
                        Err("window width and height must be greater than zero"@)
                    } else if wn > MAX_WINDOW_DIMENSION || hn > MAX_WINDOW_DIMENSION {
                        Err("window width and height must be at most 32767"@)
                    } else {
                        Ok(WindowSize { width: wn as u32, height: hn as u32 })
                    },
                }
            }
        },
    }
}

/// The position of the first separator in `cs`.
fn find_separator(cs: &Vec<char>) -> (r: Option<usize>)
    ensures
        r matches Some(k) ==> k < cs@.len() && first_separator(cs@) == Some(k as int),
        match first_separator(cs@) {
            Some(i) => r == Some(i as usize),
            None => r is None,
        },
{
    let mut i: usize = 0;
    assert(cs@.skip(0) =~= cs@);
    while i < cs.len()
        invariant
            i <= cs@.len(),
            forall|k: int| 0 <= k < i ==> !is_size_separator(#[trigger] cs@[k]),
            first_separator(cs@) == match first_separator(cs@.skip(i as int)) {
                Some(j) => Some(j + i),
                None => None,
            },
        decreases cs@.len() - i,
    {
        assert(cs@.skip(i as int)[0] == cs@[i as int]);
        if cs[i] == 'x' || cs[i] == 'X' {
            return Some(i);
        }
        assert(cs@.skip(i as int).drop_first() =~= cs@.skip(i + 1));
        i = i + 1;
    }
    None
}

/// The characters `cs[from..to]` as a string.
fn substring(cs: &Vec<char>, from: usize, to: usize) -> (r: String)
    requires
        from <= to <= cs@.len(),
    ensures
        r@ == cs@.subrange(from as int, to as int),
{
    let mut out = String::new();
    let mut i: usize = from;
    while i < to
        invariant
            from <= i <= to <= cs@.len(),
            out@ == cs@.subrange(from as int, i as int),
        decreases to - i,
    {
        out.push(cs[i]);
        i = i + 1;
        assert(out@ =~= cs@.subrange(from as int, i as int));
    }
    out
}

/// Parses a `WIDTHxHEIGHT` window size such as `1920x1080` or ` 1920 X 1080 `.
pub fn parse_window_size(value: &str) -> (r: Result<WindowSize, String>)
    ensures
        match (r, spec_parse_window_size(value@)) {
            (Ok(a), Ok(b)) => a == b,
            (Err(m), Err(e)) => m@ == e,
            _ => false,
        },
{
    let v = trim_white_space(value);
    let cs = chars_of(v.as_str());
    let i = match find_separator(&cs) {
        Some(i) => i,
        None => return Err("expected WIDTHxHEIGHT, for example 1920x1080".to_owned()),
    };
    assert(cs@.take(i as int) =~= cs@.subrange(0, i as int));
    assert(cs@.skip(i + 1) =~= cs@.subrange(i + 1, cs@.len() as int));
    let width_raw = substring(&cs, 0, i);
    let n = cs.len();
    let height_raw = substring(&cs, i + 1, n);
    let width = trim_white_space(width_raw.as_str());
    let height = trim_white_space(height_raw.as_str());
    let hs = chars_of(height.as_str());
    if find_separator(&hs).is_some() {
        return Err("expected exactly one 'x' separator in WIDTHxHEIGHT".to_owned());
    }
    let w = match parse_uint(width.as_str(), 0xFFFF_FFFF) {
        Some(w) => w,
        None => return Err("window width must be a positive integer".to_owned()),
    };
    let h = match parse_uint(height.as_str(), 0xFFFF_FFFF) {
        Some(h) => h,
        None => return Err("window height must be a positive integer".to_owned()),
    };
    if w == 0 || h == 0 {
        return Err("window width and height must be greater than zero".to_owned());
    }
    if w > MAX_WINDOW_DIMENSION as u64 || h > MAX_WINDOW_DIMENSION as u64 {
        return Err("window width and height must be at most 32767".to_owned());
    }
    Ok(WindowSize::new(w as u32, h as u32))
}

/// Process exit codes returned by the command layer (the argument parser
/// uses `2` for usage errors and `0` for `--help`/`--version`).
#[derive(Clone, Copy, PartialEq, Eq, Structural, Debug)]
pub enum ExitCode {
    /// Command completed successfully.
    Success,
    /// A runtime failure (e.g. no device found, connection failed).
    Failure,
}

impl ExitCode {
    /// The numeric process exit status.
    pub fn code(self) -> (r: u8)
        ensures
            r == match self {
                ExitCode::Success => 0u8,
                ExitCode::Failure => 1u8,
            },
    {
        match self {
            ExitCode::Success => 0,
            ExitCode::Failure => 1,
        }
    }
}

/// Whether logging is raised so input/debug output is visible: the global
/// `-v/--verbose` flag, or `--debug` on a `connect` command (`connect_debug`
/// is `None` for the other commands).
pub fn wants_verbose_logging(verbose: bool, connect_debug: Option<bool>) -> (r: bool)
    ensures
        r == (verbose || connect_debug == Some(true)),
{
    verbose || match connect_debug {
        Some(debug) => debug,
        None => false,
    }
}

} // verus!

verus! {

/// The lower-case hexadecimal digit for `d < 16`.
pub open spec fn hex_char(d: nat) -> char {
    if d < 10 {
        (48 + d) as char
    } else {
        (87 + d) as char
    }
}

/// `n` as four lower-case hexadecimal digits, zero-padded (`{:04x}`).
pub open spec fn hex4_lower(n: u16) -> Seq<char> {
    seq![
        hex_char((n as nat / 4096) % 16),
        hex_char((n as nat / 256) % 16),
        hex_char((n as nat / 16) % 16),
        hex_char(n as nat % 16),
    ]
}

fn hex_char_exec(d: u16) -> (r: char)
    requires
        d < 16,
    ensures
        r == hex_char(d as nat),
{
    if d < 10 {
        ((d as u8) + 48) as char
    } else {
        ((d as u8) + 87) as char
    }
}

/// Formats `n` as four lower-case hexadecimal digits.
pub fn format_hex4(n: u16) -> (r: String)
    ensures
        r@ == hex4_lower(n),
{
    let mut s = String::new();
    s.push(hex_char_exec((n / 4096) % 16));
    s.push(hex_char_exec((n / 256) % 16));
    s.push(hex_char_exec((n / 16) % 16));
    s.push(hex_char_exec(n % 16));
    assert(s@ =~= hex4_lower(n));
    s
}

/// The `scan` line for a serial node.
pub open spec fn serial_found_line(path: Seq<char>, ids: (u16, u16)) -> Seq<char> {
    "Found: "@ + path + " (VID:PID "@ + hex4_lower(ids.0) + ":"@ + hex4_lower(ids.1) + ")"@
}

/// The listing of the video nodes for `scan`.
pub open spec fn video_listing(videos: Seq<Seq<char>>) -> Seq<Seq<char>> {
    if videos.len() == 0 {
        seq!["(none found)"@]
    } else {
        videos.map_values(|p: Seq<char>| "Found: "@ + p)
    }
}

/// The listing of the serial nodes for `scan`.
pub open spec fn serial_listing(serials: Seq<(Seq<char>, (u16, u16))>) -> Seq<Seq<char>> {
    if serials.len() == 0 {
        seq!["(none found)"@]
    } else {
        serials.map_values(|e: (Seq<char>, (u16, u16))| serial_found_line(e.0, e.1))
    }
}

/// The closing advice of `scan`: how to connect to what was found.
pub open spec fn scan_advice(videos: Seq<Seq<char>>, serials: Seq<(Seq<char>, (u16, u16))>) -> Seq<
    Seq<char>,
> {
    if videos.len() == 0 && serials.len() == 0 {
        seq![
            "\nNo Openterface devices detected."@,
            "Ensure the device is plugged in and recognized by the system."@,
            "Or use: openterface-rs connect --dummy"@,
        ]
    } else if videos.len() > 0 && serials.len() > 0 {
        seq![
            "\nRecommended: openterface-rs connect --video="@ + videos[0] + " --serial="@
                + serials[0].0,
        ]
    } else if videos.len() > 0 {
        seq![
            "\nRecommended (no serial found): openterface-rs connect --video="@ + videos[0]
                + " --no-serial"@,
        ]
    } else {
        seq!["\nRecommended (no capture found): openterface-rs connect --no-video --serial="@ + serials[0].0]
    }
}

/// The lines that `scan` prints for the given capture and serial nodes.
pub open spec fn scan_report_lines(videos: Seq<Seq<char>>, serials: Seq<(Seq<char>, (u16, u16))>) -> Seq<
    Seq<char>,
> {
    seq!["Scanning for Openterface USB KVM devices..."@, "\n=== Video Devices ==="@] + video_listing(
        videos,
    ) + seq!["\n=== Serial Devices ==="@] + serial_listing(serials) + scan_advice(videos, serials)
}

/// The characters of each string.
pub open spec fn lines_view(v: Seq<String>) -> Seq<Seq<char>> {
    v.map_values(|s: String| s@)
}

fn push_line(out: &mut Vec<String>, line: String)
    ensures
        lines_view(final(out)@) == lines_view(old(out)@).push(line@),
{
    out.push(line);
    assert(lines_view(final(out)@) =~= lines_view(old(out)@).push(line@));
}

/// The lines that `scan` prints: every capture node, every serial node with
/// its USB ids, and how to connect to what was found.
pub fn scan_report(videos: &Vec<String>, serials: &Vec<(String, (u16, u16))>) -> (r: Vec<String>)
    ensures
        lines_view(r@) == scan_report_lines(
            strings_view(videos@),
            serial_entries_view(serials@),
        ),
{
    let ghost vs = strings_view(videos@);
    let ghost ss = serial_entries_view(serials@);
    let mut out: Vec<String> = Vec::new();
    push_line(&mut out, "Scanning for Openterface USB KVM devices...".to_owned());
    push_line(&mut out, "\n=== Video Devices ===".to_owned());
    let ghost head = lines_view(out@);
    if videos.len() == 0 {
        push_line(&mut out, "(none found)".to_owned());
    } else {
        let mut i: usize = 0;
        while i < videos.len()
            invariant
                i <= videos@.len(),
                vs == strings_view(videos@),
                lines_view(out@) == head + vs.take(i as int).map_values(
                    |p: Seq<char>| "Found: "@ + p,
                ),
            decreases videos@.len() - i,
        {
            push_line(&mut out, concat_str("Found: ", videos[i].as_str()));
            i = i + 1;
            assert(lines_view(out@) =~= head + vs.take(i as int).map_values(
                |p: Seq<char>| "Found: "@ + p,
            ));
        }
        assert(vs.take(i as int) =~= vs);
    }
    assert(lines_view(out@) =~= head + video_listing(vs));
    push_line(&mut out, "\n=== Serial Devices ===".to_owned());
    let ghost head2 = lines_view(out@);
    if serials.len() == 0 {
        push_line(&mut out, "(none found)".to_owned());
    } else {
        let mut i: usize = 0;
        while i < serials.len()
            invariant
                i <= serials@.len(),
                ss == serial_entries_view(serials@),
                lines_view(out@) == head2 + ss.take(i as int).map_values(
                    |e: (Seq<char>, (u16, u16))| serial_found_line(e.0, e.1),
                ),
            decreases serials@.len() - i,
        {
            let (path, ids) = (&serials[i].0, serials[i].1);
            let line = concat_str("Found: ", path.as_str());
            let line = concat_str(line.as_str(), " (VID:PID ");
            let line = concat_str(line.as_str(), format_hex4(ids.0).as_str());
            let line = concat_str(line.as_str(), ":");
            let line = concat_str(line.as_str(), format_hex4(ids.1).as_str());
            let line = concat_str(line.as_str(), ")");
            push_line(&mut out, line);
            i = i + 1;
            assert(lines_view(out@) =~= head2 + ss.take(i as int).map_values(
                |e: (Seq<char>, (u16, u16))| serial_found_line(e.0, e.1),
            ));
        }
        assert(ss.take(i as int) =~= ss);
    }
    assert(lines_view(out@) =~= head2 + serial_listing(ss));
    let ghost head3 = lines_view(out@);
    if videos.len() == 0 && serials.len() == 0 {
        push_line(&mut out, "\nNo Openterface devices detected.".to_owned());
        push_line(&mut out, "Ensure the device is plugged in and recognized by the system.".to_owned());
        push_line(&mut out, "Or use: openterface-rs connect --dummy".to_owned());
    } else if videos.len() > 0 && serials.len() > 0 {
        let line = concat_str("\nRecommended: openterface-rs connect --video=", videos[0].as_str());
        let line = concat_str(line.as_str(), " --serial=");
        let line = concat_str(line.as_str(), serials[0].0.as_str());
        push_line(&mut out, line);
    } else if videos.len() > 0 {
        let line = concat_str(
            "\nRecommended (no serial found): openterface-rs connect --video=",
            videos[0].as_str(),
        );
        let line = concat_str(line.as_str(), " --no-serial");
        push_line(&mut out, line);
    } else {
        let line = concat_str(
            "\nRecommended (no capture found): openterface-rs connect --no-video --serial=",
            serials[0].0.as_str(),
        );
        push_line(&mut out, line);
    }
    assert(lines_view(out@) =~= head3 + scan_advice(vs, ss));
    assert(lines_view(out@) =~= scan_report_lines(vs, ss));
    out
}

/// The `status` line for an endpoint.
pub open spec fn status_value(path: Option<Seq<char>>) -> Seq<char> {
    match path {
        Some(p) => "DETECTED ("@ + p + ")"@,
        None => "NOT DETECTED"@,
    }
}

fn status_value_exec(path: &Option<String>) -> (r: String)
    ensures
        r@ == status_value(opt_chars(*path)),
{
    match path {
        Some(p) => {
            let s = concat_str("DETECTED (", p.as_str());
            concat_str(s.as_str(), ")")
        },
        None => "NOT DETECTED".to_owned(),
    }
}

/// The lines that `status` prints for the first discovered device, if any.
pub fn status_report(devices: &Vec<DeviceInfo>) -> (r: Vec<String>)
    ensures
        lines_view(r@) == seq![
            "=== Openterface KVM Status ==="@,
            "Video:  "@ + status_value(
                if devices@.len() > 0 {
                    opt_chars(devices@[0].video_path)
                } else {
                    None
                },
            ),
            "Serial: "@ + status_value(
                if devices@.len() > 0 {
                    opt_chars(devices@[0].serial_path)
                } else {
                    None
                },
            ),
        ],
{
    let none: Option<String> = None;
    let (video, serial) = if devices.len() > 0 {
        (&devices[0].video_path, &devices[0].serial_path)
    } else {
        (&none, &none)
    };
    let mut out: Vec<String> = Vec::new();
    push_line(&mut out, "=== Openterface KVM Status ===".to_owned());
    push_line(&mut out, concat_str("Video:  ", status_value_exec(video).as_str()));
    push_line(&mut out, concat_str("Serial: ", status_value_exec(serial).as_str()));
    out
}

} // verus!

verus! {

/// Which kind of session `connect` runs.
#[derive(Clone, Copy, PartialEq, Eq, Structural, Debug)]
pub enum SessionKind {
    /// No devices: a test pattern and no input forwarding.
    Dummy,
    /// Input forwarding only, no video capture.
    InputOnly,
    /// Video capture and input forwarding.
    Video,
}

/// How `connect` gets a serial link.
#[derive(Clone, PartialEq, Eq, Debug)]
pub enum SerialChoice {
    /// `--no-serial`: input forwarding is off.
    Disabled,
    /// No serial node was named or found.
    Missing,
    /// Open this node.
    Open(String),
}

/// What `connect` does: the kind of session, the capture node (video
/// sessions; `None` when none was named or found),
/// the serial link and the window title.
#[derive(Clone, PartialEq, Eq, Debug)]
pub struct ConnectPlan {
    /// The kind of session.
    pub kind: SessionKind,
    /// The capture node to open (video sessions only).
    pub video_path: Option<String>,
    /// The serial link.
    pub serial: SerialChoice,
    /// The window title.
    pub title: String,
}

/// A node named on the command line, else the discovered one.
pub open spec fn chosen_path(flag: Option<Seq<char>>, found: Option<Seq<char>>) -> Option<Seq<char>> {
    match flag {
        Some(p) => Some(p),
        None => found,
    }
}

/// The characters of an optional string slice.
pub open spec fn opt_str_view(v: Option<&str>) -> Option<Seq<char>> {
    match v {
        Some(s) => Some(s@),
        None => None,
    }
}

/// The plan of `connect`: dummy mode needs no device; otherwise each node is
/// the one named on the command line or else the first discovered one, the
/// serial link is skipped with `--no-serial`, and a video session names its
/// capture node, or none when there is none (the session then cannot start,
/// once the serial link has been tried).
pub open spec fn spec_connect_plan(
    dummy: bool,
    no_video: bool,
    no_serial: bool,
    video_flag: Option<Seq<char>>,
    serial_flag: Option<Seq<char>>,
    found_video: Option<Seq<char>>,
    found_serial: Option<Seq<char>>,
) -> (SessionKind, Option<Seq<char>>, Option<Option<Seq<char>>>, Seq<char>) {
    let serial = if no_serial {
        None
    } else {
        Some(chosen_path(serial_flag, found_serial))
    };
    if dummy {
        (SessionKind::Dummy, None, None, "Openterface KVM (dummy)"@)
    } else if no_video {
        (SessionKind::InputOnly, None, serial, "Openterface KVM (no video)"@)
    } else {
        (SessionKind::Video, chosen_path(video_flag, found_video), serial, "Openterface KVM"@)
    }
}

/// The view of a serial choice: `None` when disabled, else the node if any.
pub open spec fn serial_choice_view(c: SerialChoice) -> Option<Option<Seq<char>>> {
    match c {
        SerialChoice::Disabled => None,
        SerialChoice::Missing => Some(None),
        SerialChoice::Open(p) => Some(Some(p@)),
    }
}

fn pick_path(flag: Option<&str>, found: &Option<String>) -> (r: Option<String>)
    ensures
        opt_chars(r) == chosen_path(opt_str_view(flag), opt_chars(*found)),
{
    match flag {
        Some(p) => Some(p.to_owned()),
        None => match found {
            Some(p) => Some(p.clone()),
            None => None,
        },
    }
}

/// Plans `connect` from its flags and the first discovered device (if any).
pub fn plan_connect(
    dummy: bool,
    no_video: bool,
    no_serial: bool,
    video_flag: Option<&str>,
    serial_flag: Option<&str>,
    discovered: Option<&DeviceInfo>,
) -> (r: ConnectPlan)
    ensures
        match spec_connect_plan(
                dummy,
                no_video,
                no_serial,
                opt_str_view(video_flag),
                opt_str_view(serial_flag),
                match discovered {
                    Some(d) => opt_chars(d.video_path),
                    None => None,
                },
                match discovered {
                    Some(d) => opt_chars(d.serial_path),
                    None => None,
                },
            ) {
            (kind, video, serial, title) => r.kind == kind && opt_chars(r.video_path) == video
                && serial_choice_view(r.serial) == serial && r.title@ == title,
        },
{
    if dummy {
        return ConnectPlan {
            kind: SessionKind::Dummy,
            video_path: None,
            serial: SerialChoice::Disabled,
            title: "Openterface KVM (dummy)".to_owned(),
        };
    }
    let none: Option<String> = None;
    let (found_video, found_serial) = match discovered {
        Some(d) => (&d.video_path, &d.serial_path),
        None => (&none, &none),
    };
    let serial = if no_serial {
        SerialChoice::Disabled
    } else {
        match pick_path(serial_flag, found_serial) {
            Some(p) => SerialChoice::Open(p),
            None => SerialChoice::Missing,
        }
    };
    if no_video {
        return ConnectPlan {
            kind: SessionKind::InputOnly,
            video_path: None,
            serial,
            title: "Openterface KVM (no video)".to_owned(),
        };
    }
    ConnectPlan {
        kind: SessionKind::Video,
        video_path: pick_path(video_flag, found_video),
        serial,
        title: "Openterface KVM".to_owned(),
    }
}

} // verus!

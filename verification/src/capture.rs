//! The rules a V4L2 capture backend applies to what the driver reports:
//! FourCC codes, colorimetry and quantization, whether an applied format is
//! the requested candidate, the frame rates a mode offers, and how much of a
//! dequeued buffer holds the frame.

use vstd::prelude::*;

use crate::video::{
    integer_fps_from_interval, spec_fps_from_interval, CaptureFormatCandidate, ColorRange,
    ColorSpace, PixelFormat,
};

verus! {

/// The FourCC of a pixel format (`MJPG` or `YUYV`).
pub open spec fn spec_fourcc(format: PixelFormat) -> Seq<u8> {
    match format {
        PixelFormat::Mjpeg => seq![0x4Du8, 0x4Au8, 0x50u8, 0x47u8],
        PixelFormat::Yuyv => seq![0x59u8, 0x55u8, 0x59u8, 0x56u8],
    }
}

/// The FourCC code of a pixel format.
pub fn fourcc(format: PixelFormat) -> (r: [u8; 4])
    ensures
        r@ == spec_fourcc(format),
{
    let r: [u8; 4] = match format {
        PixelFormat::Mjpeg => [0x4D, 0x4A, 0x50, 0x47],
        PixelFormat::Yuyv => [0x59, 0x55, 0x59, 0x56],
    };
    assert(r@ =~= spec_fourcc(format));
    r
}

/// The pixel format a FourCC names, if it is one the pipeline decodes.
pub open spec fn spec_pixel_format(repr: Seq<u8>) -> Option<PixelFormat> {
    if repr == spec_fourcc(PixelFormat::Mjpeg) {
        Some(PixelFormat::Mjpeg)
    } else if repr == spec_fourcc(PixelFormat::Yuyv) {
        Some(PixelFormat::Yuyv)
    } else {
        None
    }
}

/// The pixel format a FourCC code names.
pub fn pixel_format(repr: [u8; 4]) -> (r: Option<PixelFormat>)
    ensures
        r == spec_pixel_format(repr@),
{
    if repr[0] == 0x4D && repr[1] == 0x4A && repr[2] == 0x50 && repr[3] == 0x47 {
        assert(repr@ =~= spec_fourcc(PixelFormat::Mjpeg));
        Some(PixelFormat::Mjpeg)
    } else if repr[0] == 0x59 && repr[1] == 0x55 && repr[2] == 0x59 && repr[3] == 0x56 {
        assert(repr@ =~= spec_fourcc(PixelFormat::Yuyv));
        assert(repr@ != spec_fourcc(PixelFormat::Mjpeg)) by {
            assert(repr@[0] != spec_fourcc(PixelFormat::Mjpeg)[0]);
        }
        Some(PixelFormat::Yuyv)
    } else {
        assert(repr@ != spec_fourcc(PixelFormat::Mjpeg)) by {
            if repr@ == spec_fourcc(PixelFormat::Mjpeg) {
                assert(repr@[0] == 0x4D && repr@[1] == 0x4A && repr@[2] == 0x50 && repr@[3] == 0x47);
            }
        }
        assert(repr@ != spec_fourcc(PixelFormat::Yuyv)) by {
            if repr@ == spec_fourcc(PixelFormat::Yuyv) {
                assert(repr@[0] == 0x59 && repr@[1] == 0x55 && repr@[2] == 0x59 && repr@[3] == 0x56);
            }
        }
        None
    }
}

/// The colorimetry a V4L2 driver reports for a format.
#[derive(Clone, Copy, PartialEq, Eq, Structural, Debug)]
pub enum Colorimetry {
    /// ITU-R BT.709.
    Rec709,
    /// SMPTE 170M (BT.601).
    Smpte170m,
    /// NTSC.
    Ntsc,
    /// SMPTE 240M.
    Smpte240m,
    /// JPEG (full-range BT.601).
    Jpeg,
    /// sRGB.
    Srgb,
    /// Anything else, or unspecified.
    Other,
}

/// Maps a reported colorimetry to the conversion matrix: BT.709 for Rec.709,
/// BT.601 for the SD broadcast standards and for JPEG/sRGB (full-range
/// BT.601 primaries in practice), unknown otherwise.
pub fn color_space_of(cs: Colorimetry) -> (r: ColorSpace)
    ensures
        r == match cs {
            Colorimetry::Rec709 => ColorSpace::Bt709,
            Colorimetry::Other => ColorSpace::Unknown,
            _ => ColorSpace::Bt601,
        },
{
    match cs {
        Colorimetry::Rec709 => ColorSpace::Bt709,
        Colorimetry::Smpte170m | Colorimetry::Ntsc | Colorimetry::Smpte240m => ColorSpace::Bt601,
        Colorimetry::Jpeg | Colorimetry::Srgb => ColorSpace::Bt601,
        Colorimetry::Other => ColorSpace::Unknown,
    }
}

/// The quantization a V4L2 driver reports for a format.
#[derive(Clone, Copy, PartialEq, Eq, Structural, Debug)]
pub enum Quantization {
    /// The format's default range.
    Default,
    /// Full range.
    FullRange,
    /// Limited (studio) range.
    LimitedRange,
}

/// Maps a reported quantization to the range selector; the default is full
/// range for encoded (JPEG) data and limited range for packed YUYV.
pub fn color_range_of(q: Quantization, format: PixelFormat) -> (r: ColorRange)
    ensures
        r == match q {
            Quantization::FullRange => ColorRange::Full,
            Quantization::LimitedRange => ColorRange::Limited,
            Quantization::Default => match format {
                PixelFormat::Mjpeg => ColorRange::Full,
                PixelFormat::Yuyv => ColorRange::Limited,
            },
        },
{
    match q {
        Quantization::FullRange => ColorRange::Full,
        Quantization::LimitedRange => ColorRange::Limited,
        Quantization::Default => match format {
            PixelFormat::Mjpeg => ColorRange::Full,
            PixelFormat::Yuyv => ColorRange::Limited,
        },
    }
}

/// Whether the format a driver applied is the candidate that was requested
/// (drivers may silently adjust size or format).
pub fn format_matches_candidate(
    width: u32,
    height: u32,
    repr: [u8; 4],
    candidate: CaptureFormatCandidate,
) -> (r: bool)
    ensures
        r == (width == candidate.width && height == candidate.height && spec_pixel_format(repr@)
            == Some(candidate.format)),
{
    width == candidate.width && height == candidate.height && match pixel_format(repr) {
        Some(f) => f == candidate.format,
        None => false,
    }
}

/// A frame interval a mode advertises, as `numerator/denominator` seconds.
#[derive(Clone, Copy, PartialEq, Eq, Structural, Debug)]
pub enum FrameIntervalSpec {
    /// One interval.
    Discrete(u32, u32),
    /// A range of intervals, by its two ends.
    Stepwise {
        /// Numerator of the shortest interval.
        min_num: u32,
        /// Denominator of the shortest interval.
        min_den: u32,
        /// Numerator of the longest interval.
        max_num: u32,
        /// Denominator of the longest interval.
        max_den: u32,
    },
}

/// `rates` with the rate of interval `n/d` appended, unless it is not a whole
/// rate or is listed already.
pub open spec fn add_rate(rates: Seq<u32>, n: u32, d: u32) -> Seq<u32> {
    match spec_fps_from_interval(n, d) {
        Some(fps) => if rates.contains(fps) {
            rates
        } else {
            rates.push(fps)
        },
        None => rates,
    }
}

/// The rates that a list of advertised intervals yields, in order of first
/// appearance and without repeats.
pub open spec fn rates_of_intervals(intervals: Seq<FrameIntervalSpec>) -> Seq<u32>
    decreases intervals.len(),
{
    if intervals.len() == 0 {
        Seq::empty()
    } else {
        let before = rates_of_intervals(intervals.drop_last());
        match intervals.last() {
            FrameIntervalSpec::Discrete(n, d) => add_rate(before, n, d),
            FrameIntervalSpec::Stepwise { min_num, min_den, max_num, max_den } => add_rate(
                add_rate(before, min_num, min_den),
                max_num,
                max_den,
            ),
        }
    }
}

/// No rate is listed twice.
pub open spec fn no_repeats(s: Seq<u32>) -> bool {
    forall|i: int, j: int| 0 <= i < j < s.len() ==> s[i] != s[j]
}

fn push_frame_rate(rates: &mut Vec<u32>, numerator: u32, denominator: u32)
    ensures
        final(rates)@ == add_rate(old(rates)@, numerator, denominator),
{
    match integer_fps_from_interval(numerator, denominator) {
        Some(fps) => {
            if !crate::video::contains_u32(rates, fps) {
                rates.push(fps);
            }
        },
        None => {},
    }
}

/// The whole frame rates a mode offers, from its advertised intervals, in
/// order of first appearance and without repeats.
pub fn frame_rates_from_intervals(intervals: &Vec<FrameIntervalSpec>) -> (r: Vec<u32>)
    ensures
        r@ == rates_of_intervals(intervals@),
        no_repeats(r@),
{
    let mut rates: Vec<u32> = Vec::new();
    let mut i: usize = 0;
    while i < intervals.len()
        invariant
            i <= intervals@.len(),
            rates@ == rates_of_intervals(intervals@.take(i as int)),
            no_repeats(rates@),
        decreases intervals@.len() - i,
    {
        assert(intervals@.take(i + 1).drop_last() =~= intervals@.take(i as int));
        assert(intervals@.take(i + 1).last() == intervals@[i as int]);
        match intervals[i] {
            FrameIntervalSpec::Discrete(n, d) => {
                push_frame_rate(&mut rates, n, d);
            },
            FrameIntervalSpec::Stepwise { min_num, min_den, max_num, max_den } => {
                push_frame_rate(&mut rates, min_num, min_den);
                push_frame_rate(&mut rates, max_num, max_den);
            },
        }
        i = i + 1;
    }
    assert(intervals@.take(intervals@.len() as int) =~= intervals@);
    rates
}

/// How many bytes of a dequeued buffer hold the frame: what the driver says
/// it used, but never more than the buffer.
pub fn captured_len(bytes_used: u32, buffer_len: usize) -> (r: usize)
    ensures
        r == if (bytes_used as nat) <= buffer_len {
            bytes_used as nat
        } else {
            buffer_len as nat
        },
{
    if (bytes_used as u64) <= (buffer_len as u64) {
        bytes_used as usize
    } else {
        buffer_len
    }
}

} // verus!

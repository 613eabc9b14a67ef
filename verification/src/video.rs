//! Video capture contract, the frame model, and capture-mode selection.
//!
//! The [`VideoSource`] trait abstracts a V4L2 capture device so the pipeline
//! can run against a simulator with no hardware. A [`Frame`] carries encoded
//! (MJPEG) or packed (YUYV) bytes; decoding to RGBA happens in
//! [`crate::decode`].

use vstd::prelude::*;

use crate::error::Result;
use crate::time::Duration;

verus! {

/// Pixel/encoding format of a captured frame.
#[derive(Clone, Copy, PartialEq, Eq, Structural, Debug)]
pub enum PixelFormat {
    /// Motion-JPEG (hardware-compressed; needs decode).
    Mjpeg,
    /// Packed YUYV 4:2:2 (uncompressed).
    Yuyv,
}

/// Color quantization range — required for correct YUYV→RGB conversion.
#[derive(Clone, Copy, PartialEq, Eq, Structural, Debug)]
pub enum ColorRange {
    /// Studio/limited range (luma 16..=235) — the usual capture default.
    Limited,
    /// Full range (0..=255).
    Full,
}

impl Default for ColorRange {
    fn default() -> (r: ColorRange)
        ensures
            r == ColorRange::Limited,
    {
        ColorRange::Limited
    }
}

/// Color space / conversion matrix — required for correct YUYV→RGB conversion.
#[derive(Clone, Copy, PartialEq, Eq, Structural, Debug)]
pub enum ColorSpace {
    /// Unknown / unspecified (decoded as BT.601).
    Unknown,
    /// ITU-R BT.601 (standard definition).
    Bt601,
    /// ITU-R BT.709 (high definition).
    Bt709,
}

impl Default for ColorSpace {
    fn default() -> (r: ColorSpace)
        ensures
            r == ColorSpace::Unknown,
    {
        ColorSpace::Unknown
    }
}

/// A requested capture configuration.
#[derive(Clone, Copy, PartialEq, Eq, Structural, Debug)]
pub struct CaptureConfig {
    /// Frame width in pixels.
    pub width: u32,
    /// Frame height in pixels.
    pub height: u32,
    /// Frames per second.
    pub fps: u32,
    /// Desired pixel format.
    pub format: PixelFormat,
}

impl Default for CaptureConfig {
    fn default() -> (r: CaptureConfig)
        ensures
            r == (CaptureConfig { width: 1920, height: 1080, fps: 30, format: PixelFormat::Mjpeg }),
    {
        CaptureConfig { width: 1920, height: 1080, fps: 30, format: PixelFormat::Mjpeg }
    }
}

/// A capability descriptor advertised by a [`VideoSource`].
#[derive(Clone, PartialEq, Eq, Debug)]
pub struct FormatDesc {
    /// The format this descriptor applies to.
    pub format: PixelFormat,
    /// Width in pixels.
    pub width: u32,
    /// Height in pixels.
    pub height: u32,
    /// Frame rates (Hz) supported at this resolution/format.
    pub frame_rates: Vec<u32>,
}

/// A single captured frame: encoded (MJPEG) or packed (YUYV) bytes plus the
/// stride and color information needed to decode them.
#[derive(Clone, PartialEq, Eq, Debug)]
pub struct Frame {
    /// The format of [`Frame::data`].
    pub format: PixelFormat,
    /// Frame width in pixels.
    pub width: u32,
    /// Frame height in pixels.
    pub height: u32,
    /// Row stride in bytes for packed formats; `0` for encoded formats.
    pub bytes_per_line: u32,
    /// Color quantization range (packed formats).
    pub color_range: ColorRange,
    /// Color space / matrix (packed formats).
    pub color_space: ColorSpace,
    /// Monotonic capture timestamp.
    pub timestamp: Duration,
    /// Encoded (MJPEG) or packed (YUYV) bytes.
    pub data: Vec<u8>,
}

/// A source of video frames.
pub trait VideoSource: Send {
    /// Returns the formats/resolutions/frame-rates the device advertises.
    fn supported_formats(&self) -> Result<Vec<FormatDesc>>;

    /// Negotiates the given configuration (the closest supported match).
    fn configure(&mut self, config: CaptureConfig) -> Result<()>;

    /// Returns the currently negotiated configuration, if configured.
    fn active_config(&self) -> Option<CaptureConfig>;

    /// Begins streaming.
    fn start(&mut self) -> Result<()>;

    /// Stops streaming.
    fn stop(&mut self) -> Result<()>;

    /// Blocks for the next frame, up to `timeout`.
    fn next_frame(&mut self, timeout: std::time::Duration) -> Result<Frame>;
}

/// The frame rate chosen for a mode: the preferred rate if the mode lists it
/// (or lists none); else the fastest listed rate not above it; else the
/// slowest listed rate.
pub open spec fn fps_choice_ok(rates: Seq<u32>, preferred: u32, r: u32) -> bool {
    if rates.len() == 0 || rates.contains(preferred) {
        r == preferred
    } else if exists|i: int| 0 <= i < rates.len() && rates[i] <= preferred {
        &&& rates.contains(r)
        &&& r <= preferred
        &&& forall|i: int| 0 <= i < rates.len() && rates[i] <= preferred ==> rates[i] <= r
    } else {
        &&& rates.contains(r)
        &&& forall|i: int| 0 <= i < rates.len() ==> r <= rates[i]
    }
}

/// Whether `v` holds `x`.
pub fn contains_u32(v: &Vec<u32>, x: u32) -> (r: bool)
    ensures
        r == v@.contains(x),
{
    let mut i: usize = 0;
    while i < v.len()
        invariant
            i <= v@.len(),
            forall|j: int| 0 <= j < i ==> v@[j] != x,
        decreases v@.len() - i,
    {
        if v[i] == x {
            return true;
        }
        i = i + 1;
    }
    false
}

/// Picks the frame rate to use for `desc` given the preferred rate.
pub fn fps_for_candidate(desc: &FormatDesc, preferred_fps: u32) -> (r: u32)
    ensures
        fps_choice_ok(desc.frame_rates@, preferred_fps, r),
{
    let rates = &desc.frame_rates;
    if rates.len() == 0 || contains_u32(rates, preferred_fps) {
        return preferred_fps;
    }
    let mut best_below: Option<u32> = None;
    let mut lowest: u32 = rates[0];
    let mut i: usize = 0;
    while i < rates.len()
        invariant
            i <= rates@.len(),
            rates@.len() > 0,
            rates@.contains(lowest),
            forall|j: int| 0 <= j < i ==> lowest <= rates@[j],
            match best_below {
                Some(b) => {
                    &&& rates@.contains(b)
                    &&& b <= preferred_fps
                    &&& forall|j: int| 0 <= j < i && rates@[j] <= preferred_fps ==> rates@[j] <= b
                },
                None => forall|j: int| 0 <= j < i ==> rates@[j] > preferred_fps,
            },
        decreases rates@.len() - i,
    {
        let f = rates[i];
        if f < lowest {
            lowest = f;
        }
        if f <= preferred_fps {
            match best_below {
                Some(b) => {
                    if f > b {
                        best_below = Some(f);
                    }
                },
                None => {
                    best_below = Some(f);
                },
            }
        }
        i = i + 1;
    }
    match best_below {
        Some(b) => b,
        None => lowest,
    }
}

/// The `w × h` rectangle that a `frame_w × frame_h` image occupies when
/// fitted (aspect preserved) into a `viewport_w × viewport_h` viewport.
pub open spec fn spec_fitted_rect(frame_w: u32, frame_h: u32, viewport_w: u32, viewport_h: u32) -> (u32, u32) {
    if frame_w == 0 || frame_h == 0 || viewport_w == 0 || viewport_h == 0 {
        (viewport_w, viewport_h)
    } else {
        let by_width_h = (viewport_w as nat * frame_h as nat) / (frame_w as nat);
        if by_width_h <= viewport_h {
            (viewport_w, (if by_width_h >= 1 { by_width_h } else { 1 }) as u32)
        } else {
            let by_height_w = (viewport_h as nat * frame_w as nat) / (frame_h as nat);
            ((if by_height_w >= 1 { by_height_w } else { 1 }) as u32, viewport_h)
        }
    }
}

fn fitted_rect(frame_w: u32, frame_h: u32, viewport_w: u32, viewport_h: u32) -> (r: (u32, u32))
    ensures
        r == spec_fitted_rect(frame_w, frame_h, viewport_w, viewport_h),
{
    if frame_w == 0 || frame_h == 0 || viewport_w == 0 || viewport_h == 0 {
        return (viewport_w, viewport_h);
    }
    proof {
        lemma_mul_u32(viewport_w, frame_h);
        lemma_mul_u32(viewport_h, frame_w);
    }
    let prod1: u64 = viewport_w as u64 * frame_h as u64;
    let by_width_h: u64 = prod1 / frame_w as u64;
    if by_width_h <= viewport_h as u64 {
        (viewport_w, (if by_width_h >= 1 { by_width_h } else { 1 }) as u32)
    } else {
        let prod2: u64 = viewport_h as u64 * frame_w as u64;
        let by_height_w: u64 = prod2 / frame_h as u64;
        (#[verifier::truncate] ((if by_height_w >= 1 { by_height_w } else { 1 }) as u32), viewport_h)
    }
}

/// `max(v, 1)`.
pub open spec fn at_least_one(v: u32) -> nat {
    if v >= 1 { v as nat } else { 1 }
}

/// A mode's aspect ratio is within 2% of the preferred configuration's.
pub open spec fn spec_aspect_close(w: u32, h: u32, preferred: CaptureConfig) -> bool {
    let lhs = w as int * at_least_one(preferred.height);
    let rhs = h as int * at_least_one(preferred.width);
    let diff = if lhs >= rhs { lhs - rhs } else { rhs - lhs };
    diff <= (at_least_one(preferred.width) * at_least_one(preferred.height)) / 50
}

proof fn lemma_mul_u32(a: u32, b: u32)
    ensures
        (a as nat) * (b as nat) <= 0xFFFF_FFFE_0000_0001,
{
    assert((a as nat) * (b as nat) <= (u32::MAX as nat) * (u32::MAX as nat)) by (nonlinear_arith)
        requires a <= u32::MAX, b <= u32::MAX;
}

fn aspect_close(desc: &FormatDesc, preferred: CaptureConfig) -> (r: bool)
    ensures
        r == spec_aspect_close(desc.width, desc.height, preferred),
{
    proof {
        lemma_mul_u32(desc.width, if preferred.height >= 1 { preferred.height } else { 1 });
        lemma_mul_u32(desc.height, if preferred.width >= 1 { preferred.width } else { 1 });
        lemma_mul_u32(if preferred.width >= 1 { preferred.width } else { 1 }, if preferred.height >= 1 { preferred.height } else { 1 });
    }
    let ph: u64 = if preferred.height >= 1 { preferred.height as u64 } else { 1 };
    let pw: u64 = if preferred.width >= 1 { preferred.width as u64 } else { 1 };
    let lhs: u64 = desc.width as u64 * ph;
    let rhs: u64 = desc.height as u64 * pw;
    let diff: u64 = if lhs >= rhs { lhs - rhs } else { rhs - lhs };
    diff <= (pw * ph) / 50
}

/// A mode fits inside `fit_w × fit_h` with a 10% downscale tolerance.
pub open spec fn spec_fits_with_tolerance(w: u32, h: u32, fit_w: u32, fit_h: u32) -> bool {
    w as nat <= (fit_w as nat * 110) / 100 && h as nat <= (fit_h as nat * 110) / 100
}

fn fits_with_tolerance(desc: &FormatDesc, fit_w: u32, fit_h: u32) -> (r: bool)
    ensures
        r == spec_fits_with_tolerance(desc.width, desc.height, fit_w, fit_h),
{
    let max_w: u64 = fit_w as u64 * 110 / 100;
    let max_h: u64 = fit_h as u64 * 110 / 100;
    (desc.width as u64) <= max_w && (desc.height as u64) <= max_h
}

/// The ranking of a fitting mode: larger area first, then MJPEG over YUYV,
/// then modes that list the preferred frame rate.
pub open spec fn fit_rank(d: FormatDesc, preferred_fps: u32) -> int {
    (d.width as int * d.height as int) * 4 + (if d.format == PixelFormat::Mjpeg { 2int } else { 0 }) + (
    if d.frame_rates@.contains(preferred_fps) { 1int } else { 0 })
}

/// The ranking used when no mode fits: smaller area first, then MJPEG.
pub open spec fn fallback_rank(d: FormatDesc) -> int {
    (d.width as int * d.height as int) * 2 + (if d.format == PixelFormat::Mjpeg { 0int } else { 1 })
}

/// The modes under consideration: those within 2% of the preferred aspect
/// ratio if there are any, else all modes.
pub open spec fn in_pool(formats: Seq<FormatDesc>, preferred: CaptureConfig, i: int) -> bool {
    if exists|j: int| 0 <= j < formats.len() && spec_aspect_close(formats[j].width, formats[j].height, preferred) {
        spec_aspect_close(formats[i].width, formats[i].height, preferred)
    } else {
        true
    }
}

/// The fit rectangle for a viewport, from the preferred frame shape.
pub open spec fn fit_target(preferred: CaptureConfig, viewport_w: u32, viewport_h: u32) -> (u32, u32) {
    spec_fitted_rect(
        at_least_one(preferred.width) as u32,
        at_least_one(preferred.height) as u32,
        viewport_w,
        viewport_h,
    )
}

/// Mode `i` fits the viewport's target rectangle and is in the pool.
pub open spec fn fitting(formats: Seq<FormatDesc>, preferred: CaptureConfig, vw: u32, vh: u32, i: int) -> bool {
    let (fw, fh) = fit_target(preferred, vw, vh);
    in_pool(formats, preferred, i) && spec_fits_with_tolerance(formats[i].width, formats[i].height, fw, fh)
}

/// Mode `k` is the one selected for the viewport: the best-ranked fitting
/// mode in the pool (the last of equals), or if none fits, the lowest-ranked
/// mode in the pool (the first of equals).
pub open spec fn is_selected(formats: Seq<FormatDesc>, preferred: CaptureConfig, vw: u32, vh: u32, k: int) -> bool {
    &&& 0 <= k < formats.len()
    &&& in_pool(formats, preferred, k)
    &&& if exists|i: int| 0 <= i < formats.len() && fitting(formats, preferred, vw, vh, i) {
        &&& fitting(formats, preferred, vw, vh, k)
        &&& forall|i: int|
            0 <= i < formats.len() && fitting(formats, preferred, vw, vh, i) ==> fit_rank(formats[i], preferred.fps)
                <= fit_rank(formats[k], preferred.fps)
        &&& forall|i: int|
            k < i < formats.len() && fitting(formats, preferred, vw, vh, i) ==> fit_rank(formats[i], preferred.fps)
                < fit_rank(formats[k], preferred.fps)
    } else {
        &&& forall|i: int|
            0 <= i < formats.len() && in_pool(formats, preferred, i) ==> fallback_rank(formats[k]) <= fallback_rank(
                formats[i],
            )
        &&& forall|i: int|
            0 <= i < k && in_pool(formats, preferred, i) ==> fallback_rank(formats[k]) < fallback_rank(formats[i])
    }
}

/// The configuration that runs mode `d` at the frame rate chosen for it.
pub open spec fn config_for_mode(d: FormatDesc, preferred_fps: u32, fps: u32) -> bool {
    fps_choice_ok(d.frame_rates@, preferred_fps, fps)
}

fn rank_fit(d: &FormatDesc, preferred_fps: u32) -> (r: u128)
    ensures
        r == fit_rank(*d, preferred_fps),
{
    proof {
        lemma_mul_u32(d.width, d.height);
    }
    let area: u128 = d.width as u128 * d.height as u128;
    let m: u128 = match d.format {
        PixelFormat::Mjpeg => 2,
        PixelFormat::Yuyv => 0,
    };
    let f: u128 = if contains_u32(&d.frame_rates, preferred_fps) { 1 } else { 0 };
    area * 4 + m + f
}

fn rank_fallback(d: &FormatDesc) -> (r: u128)
    ensures
        r == fallback_rank(*d),
{
    proof {
        lemma_mul_u32(d.width, d.height);
    }
    let area: u128 = d.width as u128 * d.height as u128;
    let m: u128 = match d.format {
        PixelFormat::Mjpeg => 0,
        PixelFormat::Yuyv => 1,
    };
    area * 2 + m
}

/// Selects a capture mode for a physical display viewport.
///
/// Prefers the largest supported mode that fits, with a 10% downscale
/// tolerance, inside the image rectangle that would be displayed in
/// `viewport_w × viewport_h` physical pixels, among modes of (nearly) the
/// preferred aspect ratio. If the viewport is smaller than every such mode,
/// the smallest one is chosen. With no modes or an empty viewport, the
/// preferred configuration is returned unchanged.
pub fn select_capture_config_for_viewport(
    formats: &[FormatDesc],
    viewport_w: u32,
    viewport_h: u32,
    preferred: CaptureConfig,
) -> (r: CaptureConfig)
    ensures
        formats@.len() == 0 || viewport_w == 0 || viewport_h == 0 ==> r == preferred,
        !(formats@.len() == 0 || viewport_w == 0 || viewport_h == 0) ==> exists|k: int|
            is_selected(formats@, preferred, viewport_w, viewport_h, k) && r.width == formats@[k].width && r.height
                == formats@[k].height && r.format == formats@[k].format && config_for_mode(
                formats@[k],
                preferred.fps,
                r.fps,
            ),
{
    if formats.len() == 0 || viewport_w == 0 || viewport_h == 0 {
        return preferred;
    }
    let pw: u32 = if preferred.width >= 1 { preferred.width } else { 1 };
    let ph: u32 = if preferred.height >= 1 { preferred.height } else { 1 };
    let (fit_w, fit_h) = fitted_rect(pw, ph, viewport_w, viewport_h);
    let ghost fs = formats@;

    // Is any mode within 2% of the preferred aspect ratio?
    let mut any_aspect = false;
    let mut i: usize = 0;
    while i < formats.len()
        invariant
            i <= fs.len(),
            fs == formats@,
            any_aspect == exists|j: int| 0 <= j < i && spec_aspect_close(fs[j].width, fs[j].height, preferred),
        decreases fs.len() - i,
    {
        if aspect_close(&formats[i], preferred) {
            any_aspect = true;
        }
        i = i + 1;
    }

    // One pass: the best fitting mode (last of equals) and the lowest-ranked
    // mode (first of equals), both within the pool.
    let mut best_fit: Option<usize> = None;
    let mut best_fit_rank: u128 = 0;
    let mut lowest: Option<usize> = None;
    let mut lowest_rank: u128 = 0;
    let mut i: usize = 0;
    while i < formats.len()
        invariant
            i <= fs.len(),
            fs == formats@,
            fs.len() > 0,
            (fit_w, fit_h) == fit_target(preferred, viewport_w, viewport_h),
            any_aspect == exists|j: int| 0 <= j < fs.len() && spec_aspect_close(fs[j].width, fs[j].height, preferred),
            match best_fit {
                Some(k) => {
                    &&& k < i
                    &&& fitting(fs, preferred, viewport_w, viewport_h, k as int)
                    &&& best_fit_rank == fit_rank(fs[k as int], preferred.fps)
                    &&& forall|j: int|
                        0 <= j < i && fitting(fs, preferred, viewport_w, viewport_h, j) ==> fit_rank(fs[j], preferred.fps)
                            <= best_fit_rank
                    &&& forall|j: int|
                        k < j < i && fitting(fs, preferred, viewport_w, viewport_h, j) ==> fit_rank(fs[j], preferred.fps)
                            < best_fit_rank
                },
                None => forall|j: int| 0 <= j < i ==> !fitting(fs, preferred, viewport_w, viewport_h, j),
            },
            match lowest {
                Some(k) => {
                    &&& k < i
                    &&& in_pool(fs, preferred, k as int)
                    &&& lowest_rank == fallback_rank(fs[k as int])
                    &&& forall|j: int| 0 <= j < i && in_pool(fs, preferred, j) ==> lowest_rank <= fallback_rank(fs[j])
                    &&& forall|j: int| 0 <= j < k && in_pool(fs, preferred, j) ==> lowest_rank < fallback_rank(fs[j])
                },
                None => forall|j: int| 0 <= j < i ==> !in_pool(fs, preferred, j),
            },
        decreases fs.len() - i,
    {
        let d = &formats[i];
        let pooled = !any_aspect || aspect_close(d, preferred);
        assert(pooled == in_pool(fs, preferred, i as int));
        if pooled {
            if fits_with_tolerance(d, fit_w, fit_h) {
                let rk = rank_fit(d, preferred.fps);
                match best_fit {
                    Some(_) => {
                        if rk >= best_fit_rank {
                            best_fit = Some(i);
                            best_fit_rank = rk;
                        }
                    },
                    None => {
                        best_fit = Some(i);
                        best_fit_rank = rk;
                    },
                }
            }
            let lr = rank_fallback(d);
            match lowest {
                Some(_) => {
                    if lr < lowest_rank {
                        lowest = Some(i);
                        lowest_rank = lr;
                    }
                },
                None => {
                    lowest = Some(i);
                    lowest_rank = lr;
                },
            }
        }
        i = i + 1;
    }
    let k: usize = match best_fit {
        Some(k) => k,
        None => match lowest {
            Some(k) => k,
            None => 0,
        },
    };
    proof {
        match best_fit {
            Some(b) => {
                assert(fitting(fs, preferred, viewport_w, viewport_h, b as int));
                assert(is_selected(fs, preferred, viewport_w, viewport_h, k as int));
            },
            None => {
                assert(!exists|j: int| 0 <= j < fs.len() && fitting(fs, preferred, viewport_w, viewport_h, j));
                if lowest is None {
                    if !any_aspect {
                        assert(in_pool(fs, preferred, 0));
                    } else {
                        let j = choose|j: int| 0 <= j < fs.len() && spec_aspect_close(fs[j].width, fs[j].height, preferred);
                        assert(in_pool(fs, preferred, j));
                    }
                }
                assert(is_selected(fs, preferred, viewport_w, viewport_h, k as int));
            },
        }
    }
    let best = &formats[k];
    let fps = fps_for_candidate(best, preferred.fps);
    CaptureConfig { width: best.width, height: best.height, fps, format: best.format }
}

/// A V4L2 format/resolution candidate without frame-rate policy.
#[derive(Clone, Copy, PartialEq, Eq, Structural, Debug)]
pub struct CaptureFormatCandidate {
    /// Frame width in pixels.
    pub width: u32,
    /// Frame height in pixels.
    pub height: u32,
    /// Desired pixel format.
    pub format: PixelFormat,
}

impl CaptureFormatCandidate {
    /// Creates a candidate from its V4L2 format fields.
    pub fn new(width: u32, height: u32, format: PixelFormat) -> (r: CaptureFormatCandidate)
        ensures
            r == (CaptureFormatCandidate { width, height, format }),
    {
        CaptureFormatCandidate { width, height, format }
    }

    /// The candidate for a capture configuration (its frame rate dropped).
    pub fn from_config(config: CaptureConfig) -> (r: CaptureFormatCandidate)
        ensures
            r == (CaptureFormatCandidate { width: config.width, height: config.height, format: config.format }),
    {
        CaptureFormatCandidate::new(config.width, config.height, config.format)
    }
}

/// The documented V4L2 fallback chain for Openterface capture devices.
pub open spec fn spec_v4l2_fallbacks() -> Seq<CaptureFormatCandidate> {
    seq![
        CaptureFormatCandidate { width: 1920, height: 1080, format: PixelFormat::Mjpeg },
        CaptureFormatCandidate { width: 1280, height: 720, format: PixelFormat::Mjpeg },
        CaptureFormatCandidate { width: 1280, height: 720, format: PixelFormat::Yuyv },
    ]
}

/// The documented V4L2 fallback chain: 1920x1080 MJPEG, 1280x720 MJPEG,
/// 1280x720 YUYV.
pub fn v4l2_fallback_formats() -> (r: Vec<CaptureFormatCandidate>)
    ensures
        r@ == spec_v4l2_fallbacks(),
{
    let mut v: Vec<CaptureFormatCandidate> = Vec::new();
    v.push(CaptureFormatCandidate::new(1920, 1080, PixelFormat::Mjpeg));
    v.push(CaptureFormatCandidate::new(1280, 720, PixelFormat::Mjpeg));
    v.push(CaptureFormatCandidate::new(1280, 720, PixelFormat::Yuyv));
    assert(v@ =~= spec_v4l2_fallbacks());
    v
}

/// The requested format followed by the fallbacks other than it.
pub open spec fn spec_v4l2_candidates(requested: CaptureConfig) -> Seq<CaptureFormatCandidate> {
    let req = CaptureFormatCandidate { width: requested.width, height: requested.height, format: requested.format };
    seq![req] + spec_v4l2_fallbacks().filter(|c: CaptureFormatCandidate| c != req)
}

/// Returns the requested format followed by the documented V4L2 fallbacks
/// (without repeating the request).
pub fn v4l2_format_candidates(requested: CaptureConfig) -> (r: Vec<CaptureFormatCandidate>)
    ensures
        r@ == spec_v4l2_candidates(requested),
{
    let req = CaptureFormatCandidate::from_config(requested);
    let fallbacks = v4l2_fallback_formats();
    let mut out: Vec<CaptureFormatCandidate> = Vec::new();
    out.push(req);
    let mut i: usize = 0;
    while i < fallbacks.len()
        invariant
            i <= fallbacks@.len(),
            fallbacks@ == spec_v4l2_fallbacks(),
            out@ == seq![req] + fallbacks@.take(i as int).filter(|c: CaptureFormatCandidate| c != req),
        decreases fallbacks@.len() - i,
    {
        let c = fallbacks[i];
        proof {
            let f = |c: CaptureFormatCandidate| c != req;
            assert(fallbacks@.take(i + 1) =~= fallbacks@.take(i as int).push(fallbacks@[i as int]));
            fallbacks@.take(i as int).lemma_filter_push(fallbacks@[i as int], f);
        }
        if c != req {
            out.push(c);
        }
        i = i + 1;
        proof {
            let f = |c: CaptureFormatCandidate| c != req;
            assert(out@ =~= seq![req] + fallbacks@.take(i as int).filter(f));
        }
    }
    assert(fallbacks@.take(i as int) =~= fallbacks@);
    out
}

/// The integer frame rate (Hz, rounded to nearest) of a V4L2 frame interval
/// `numerator/denominator` seconds per frame; `None` for a zero part or a
/// rate that rounds to zero or exceeds `u32`.
pub open spec fn spec_fps_from_interval(numerator: u32, denominator: u32) -> Option<u32> {
    if numerator == 0 || denominator == 0 {
        None
    } else {
        let rounded = (denominator as nat + numerator as nat / 2) / (numerator as nat);
        if rounded > 0 && rounded <= u32::MAX {
            Some(rounded as u32)
        } else {
            None
        }
    }
}

/// Converts a V4L2 frame interval fraction (seconds per frame) to integer Hz.
pub fn integer_fps_from_interval(numerator: u32, denominator: u32) -> (r: Option<u32>)
    ensures
        r == spec_fps_from_interval(numerator, denominator),
{
    if numerator == 0 || denominator == 0 {
        return None;
    }
    let rounded: u64 = (denominator as u64 + numerator as u64 / 2) / numerator as u64;
    if rounded > 0 && rounded <= u32::MAX as u64 {
        Some(rounded as u32)
    } else {
        None
    }
}

} // verus!

//! Frame decoding to RGBA.
//!
//! Decodes a captured [`Frame`] (MJPEG via `zune-jpeg`, or packed YUYV) into a
//! tightly-packed [`RgbaImage`]. YUYV→RGB honors the frame's stride,
//! [`ColorRange`] and [`ColorSpace`].

use vstd::prelude::*;

use crate::error::{Error, Result};
use crate::text::{concat_str, spec_decimal};
use crate::text::decimal;
use crate::video::{ColorRange, ColorSpace, Frame, PixelFormat};

verus! {

/// A decoded, tightly-packed RGBA8888 image (`pixels.len() == width*height*4`).
#[derive(Clone, PartialEq, Eq, Debug)]
pub struct RgbaImage {
    /// Image width in pixels.
    pub width: u32,
    /// Image height in pixels.
    pub height: u32,
    /// Row-major RGBA bytes.
    pub pixels: Vec<u8>,
}

impl RgbaImage {
    /// Returns the number of bytes a fully-decoded image of this size occupies.
    pub fn byte_len(width: u32, height: u32) -> (r: usize)
        requires
            width as nat * height as nat * 4 <= usize::MAX,
        ensures
            r == width as nat * height as nat * 4,
    {
        width as usize * height as usize * 4
    }
}

/// The zune-jpeg decoder's error type.
#[verifier::external_type_specification]
#[verifier::external_body]
pub struct ExDecodeErrors(zune_jpeg::errors::DecodeErrors);

/// What zune-jpeg makes of `data` when asked for RGBA output: the pixel bytes
/// and the image dimensions it reports, or `None` when decoding fails.
pub uninterp spec fn jpeg_rgba(data: Seq<u8>) -> Option<(Seq<u8>, Option<(usize, usize)>)>;

/// Decodes a JPEG with zune-jpeg (`JpegDecoder::decode` with RGBA output),
/// returning the pixels and `JpegDecoder::dimensions`. The result is the
/// named decode result of `data`.
#[verifier::external_body]
fn jpeg_decode_rgba(data: &[u8]) -> (r: core::result::Result<(Vec<u8>, Option<(usize, usize)>), zune_jpeg::errors::DecodeErrors>)
    ensures
        match r {
            Ok((px, dims)) => jpeg_rgba(data@) == Some((px@, dims)),
            Err(_) => jpeg_rgba(data@) is None,
        },
{
    let options = zune_jpeg::zune_core::options::DecoderOptions::default()
        .jpeg_set_out_colorspace(zune_jpeg::zune_core::colorspace::ColorSpace::RGBA);
    let mut decoder = zune_jpeg::JpegDecoder::new_with_options(data, options);
    match decoder.decode() {
        Ok(pixels) => Ok((pixels, decoder.dimensions())),
        Err(e) => Err(e),
    }
}

/// The text of a zune-jpeg decode error (its `Display`).
#[verifier::external_body]
fn jpeg_error_text(e: &zune_jpeg::errors::DecodeErrors) -> String {
    e.to_string()
}

/// The image that decoded JPEG pixels and reported dimensions describe, if
/// they are consistent: dimensions present and exactly four bytes per pixel.
pub open spec fn jpeg_image_ok(pixels: Seq<u8>, dims: Option<(usize, usize)>) -> bool {
    match dims {
        Some((w, h)) => pixels.len() == (w as u32) as nat * (h as u32) as nat * 4,
        None => false,
    }
}

/// Turns the output of a JPEG decode into an [`RgbaImage`]: fails unless the
/// decoder reported dimensions and the pixel count matches them.
pub fn rgba_from_jpeg_output(pixels: Vec<u8>, dims: Option<(usize, usize)>) -> (r: Result<RgbaImage>)
    ensures
        jpeg_image_ok(pixels@, dims) ==> (r matches Ok(img) && img.pixels@ == pixels@ && img.width == (dims->0).0 as u32
            && img.height == (dims->0).1 as u32),
        !jpeg_image_ok(pixels@, dims) ==> r matches Err(Error::Decode(_)),
{
    match dims {
        None => Err(Error::Decode("mjpeg: no dimensions after decode".to_owned())),
        Some((w, h)) => {
            let width = #[verifier::truncate] (w as u32);
            let height = #[verifier::truncate] (h as u32);
            proof {
                assert(width as u128 * height as u128 <= 0xFFFF_FFFE_0000_0001u128) by (nonlinear_arith)
                    requires width <= u32::MAX, height <= u32::MAX;
            }
            let expected: u128 = width as u128 * height as u128 * 4;
            if pixels.len() as u128 != expected {
                let mut msg = "mjpeg: decoded ".to_owned();
                msg.append(decimal(pixels.len() as u64).as_str());
                msg.append(" bytes, expected ");
                msg.append(decimal(#[verifier::truncate] (expected as u64)).as_str());
                msg.append(" for ");
                msg.append(decimal(width as u64).as_str());
                msg.append("x");
                msg.append(decimal(height as u64).as_str());
                return Err(Error::Decode(msg));
            }
            Ok(RgbaImage { width, height, pixels })
        },
    }
}

/// Decodes an MJPEG/JPEG payload to RGBA using zune-jpeg.
pub fn decode_mjpeg(data: &[u8]) -> (r: Result<RgbaImage>)
    ensures
        match jpeg_rgba(data@) {
            Some((px, dims)) => if jpeg_image_ok(px, dims) {
                r matches Ok(img) && img.pixels@ == px && img.width == (dims->0).0 as u32 && img.height == (
                dims->0).1 as u32
            } else {
                r matches Err(Error::Decode(_))
            },
            None => r matches Err(Error::Decode(_)),
        },
{
    match jpeg_decode_rgba(data) {
        Ok((pixels, dims)) => rgba_from_jpeg_output(pixels, dims),
        Err(e) => Err(Error::Decode(concat_str("mjpeg: ", jpeg_error_text(&e).as_str()))),
    }
}

/// BT.601 / BT.709 chroma coefficients (fixed-point 16.16).
#[derive(Clone, Copy, PartialEq, Eq, Structural, Debug)]
pub struct YuvCoeffs {
    /// V contribution to red.
    pub r_v: i32,
    /// U contribution to green.
    pub g_u: i32,
    /// V contribution to green.
    pub g_v: i32,
    /// U contribution to blue.
    pub b_u: i32,
}

/// The coefficients of a color space (unknown decodes as BT.601).
pub open spec fn spec_coeffs(space: ColorSpace) -> YuvCoeffs {
    match space {
        ColorSpace::Bt709 => YuvCoeffs { r_v: 103_206i32, g_u: -12_276i32, g_v: -30_679i32, b_u: 121_609i32 },
        _ => YuvCoeffs { r_v: 91_881i32, g_u: -22_554i32, g_v: -46_802i32, b_u: 116_129i32 },
    }
}

impl YuvCoeffs {
    /// The coefficients of a color space (BT.601 for unknown spaces).
    pub fn for_space(space: ColorSpace) -> (r: YuvCoeffs)
        ensures
            r == spec_coeffs(space),
    {
        match space {
            ColorSpace::Bt709 => YuvCoeffs { r_v: 103_206, g_u: -12_276, g_v: -30_679, b_u: 121_609 },
            ColorSpace::Bt601 | ColorSpace::Unknown => YuvCoeffs {
                r_v: 91_881,
                g_u: -22_554,
                g_v: -46_802,
                b_u: 116_129,
            },
        }
    }
}

/// Frames at least this many rows tall are high definition.
pub const HD_MIN_HEIGHT: u32 = 720;

/// The conversion matrix a frame is decoded with: its own color space when
/// known, else picked by resolution (BT.709 for high definition, BT.601
/// below it).
pub open spec fn spec_matrix(space: ColorSpace, height: u32) -> ColorSpace {
    match space {
        ColorSpace::Unknown => if height >= HD_MIN_HEIGHT {
            ColorSpace::Bt709
        } else {
            ColorSpace::Bt601
        },
        known => known,
    }
}

/// Resolves a frame's color space to the matrix used to decode it.
pub fn matrix_for(space: ColorSpace, height: u32) -> (r: ColorSpace)
    ensures
        r == spec_matrix(space, height),
{
    match space {
        ColorSpace::Unknown => if height >= HD_MIN_HEIGHT {
            ColorSpace::Bt709
        } else {
            ColorSpace::Bt601
        },
        known => known,
    }
}

/// A 16.16 fixed-point channel value rounded down to an integer and clamped
/// to `0..=255`.
pub open spec fn channel(x: int) -> u8 {
    let q = x / 65536;
    if q < 0 {
        0
    } else if q > 255 {
        255
    } else {
        q as u8
    }
}

/// Scaled luma: limited range maps 16..235 to 0..255; full range is 1:1.
pub open spec fn luma(y: u8, full_range: bool) -> int {
    if full_range {
        y as int * 65536
    } else {
        (y as int - 16) * 76_309
    }
}

/// The RGBA bytes of one pixel with luma `y` and chroma `u`, `v` (rounding to
/// nearest, opaque alpha).
pub open spec fn yuv_pixel(y: u8, u: u8, v: u8, full_range: bool, c: YuvCoeffs) -> Seq<u8> {
    let yf = luma(y, full_range);
    let uf = u as int - 128;
    let vf = v as int - 128;
    seq![
        channel(yf + c.r_v * vf + 32768),
        channel(yf + c.g_u * uf + c.g_v * vf + 32768),
        channel(yf + c.b_u * uf + 32768),
        255u8,
    ]
}

/// Colourless input decodes to grey: with neutral chroma every channel is
/// equal; a full-range luma keeps its value; limited-range black (16) and
/// white (235) map to 0 and 255, with levels outside clamped; brighter luma
/// is never darker.
pub proof fn lemma_neutral_chroma_is_grey(y: u8, y2: u8, full_range: bool, c: YuvCoeffs)
    ensures
        yuv_pixel(y, 128, 128, full_range, c)[0] == yuv_pixel(y, 128, 128, full_range, c)[1],
        yuv_pixel(y, 128, 128, full_range, c)[1] == yuv_pixel(y, 128, 128, full_range, c)[2],
        yuv_pixel(y, 128, 128, full_range, c)[3] == 255,
        full_range ==> yuv_pixel(y, 128, 128, true, c)[0] == y,
        !full_range && y <= 16 ==> yuv_pixel(y, 128, 128, false, c)[0] == 0,
        !full_range && y >= 235 ==> yuv_pixel(y, 128, 128, false, c)[0] == 255,
        y <= y2 ==> yuv_pixel(y, 128, 128, full_range, c)[0] <= yuv_pixel(y2, 128, 128, full_range, c)[0],
{
    assert(c.r_v * 0 == 0 && c.g_u * 0 == 0 && c.g_v * 0 == 0 && c.b_u * 0 == 0);
    if !full_range {
        assert((y as int - 16) * 76_309 <= (y2 as int - 16) * 76_309 || y > y2) by (nonlinear_arith);
        if y >= 235 {
            assert((y as int - 16) * 76_309 >= 219 * 76_309) by (nonlinear_arith)
                requires y >= 235;
        }
        if y < 16 {
            assert((y as int - 16) * 76_309 < 0) by (nonlinear_arith)
                requires y < 16;
        }
    }
}

fn to_channel(x: i32) -> (r: u8)
    ensures
        r == channel(x as int),
{
    if x < 0 {
        0
    } else {
        let q = x / 65536;
        if q > 255 {
            255
        } else {
            q as u8
        }
    }
}

/// Converts one YUV sample to RGBA and appends it to `out`.
fn yuv_to_rgba(y: u8, u: u8, v: u8, full_range: bool, c: YuvCoeffs, out: &mut Vec<u8>)
    requires
        c == spec_coeffs(ColorSpace::Bt709) || c == spec_coeffs(ColorSpace::Bt601),
    ensures
        final(out)@ == old(out)@ + yuv_pixel(y, u, v, full_range, c),
{
    let yf: i32 = if full_range { (y as i32) * 65536 } else { (y as i32 - 16) * 76_309 };
    let uf: i32 = u as i32 - 128;
    let vf: i32 = v as i32 - 128;
    proof {
        assert(-128 <= uf <= 127 && -128 <= vf <= 127);
        if full_range {
            assert(0 <= (y as i32) * 65536 <= 16_711_680) by (nonlinear_arith)
                requires 0 <= y <= 255;
        } else {
            assert(-1_300_000 <= (y as i32 - 16) * 76_309 <= 18_300_000) by (nonlinear_arith)
                requires 0 <= y <= 255;
        }
        assert(-1_300_000 <= yf <= 18_300_000);
        assert(-16_000_000 <= c.r_v * vf <= 16_000_000) by (nonlinear_arith)
            requires -128 <= vf <= 127, 0 <= c.r_v <= 121_609;
        assert(-16_000_000 <= c.b_u * uf <= 16_000_000) by (nonlinear_arith)
            requires -128 <= uf <= 127, 0 <= c.b_u <= 121_609;
        assert(-6_000_000 <= c.g_u * uf <= 6_000_000) by (nonlinear_arith)
            requires -128 <= uf <= 127, -22_554 <= c.g_u <= 0;
        assert(-6_000_000 <= c.g_v * vf <= 6_000_000) by (nonlinear_arith)
            requires -128 <= vf <= 127, -46_802 <= c.g_v <= 0;
    }
    let half: i32 = 32768;
    let r = to_channel(yf + c.r_v * vf + half);
    let g = to_channel(yf + c.g_u * uf + c.g_v * vf + half);
    let b = to_channel(yf + c.b_u * uf + half);
    let ghost before = out@;
    out.push(r);
    out.push(g);
    out.push(b);
    out.push(255);
    assert(out@ =~= before + yuv_pixel(y, u, v, full_range, c));
}

/// The RGBA bytes of the first `n` pixel pairs of a YUYV row starting at
/// byte `base` (each 4 bytes `Y0 U Y1 V` yield two pixels).
pub open spec fn yuyv_pairs(data: Seq<u8>, base: int, n: nat, full: bool, c: YuvCoeffs) -> Seq<u8>
    decreases n,
{
    if n == 0 {
        Seq::empty()
    } else {
        let o = base + 4 * (n - 1);
        yuyv_pairs(data, base, (n - 1) as nat, full, c) + yuv_pixel(data[o], data[o + 1], data[o + 3], full, c)
            + yuv_pixel(data[o + 2], data[o + 1], data[o + 3], full, c)
    }
}

/// The RGBA bytes of the first `rows` rows of a YUYV image.
pub open spec fn yuyv_rows(data: Seq<u8>, stride: nat, width: nat, rows: nat, full: bool, c: YuvCoeffs) -> Seq<u8>
    decreases rows,
{
    if rows == 0 {
        Seq::empty()
    } else {
        yuyv_rows(data, stride, width, (rows - 1) as nat, full, c) + yuyv_pairs(
            data,
            (rows - 1) * stride,
            width / 2,
            full,
            c,
        )
    }
}

/// The row stride of a YUYV frame: its `bytes_per_line`, or two bytes per
/// pixel when that is zero.
pub open spec fn yuyv_stride(frame: Frame) -> nat {
    if frame.bytes_per_line == 0 {
        frame.width as nat * 2
    } else {
        frame.bytes_per_line as nat
    }
}

/// A YUYV frame is decodable: non-zero even width, non-zero height, and at
/// least `stride × height` bytes of data.
pub open spec fn yuyv_decodable(frame: Frame) -> bool {
    &&& frame.width > 0 && frame.height > 0 && frame.width % 2 == 0
    &&& frame.data@.len() >= yuyv_stride(frame) * frame.height as nat
}

/// Every row of a frame that passes the size checks lies within its data
/// (which can fail only when `bytes_per_line` is below two bytes per pixel).
pub open spec fn yuyv_rows_in_bounds(frame: Frame) -> bool {
    yuyv_decodable(frame) ==> (frame.height as nat - 1) * yuyv_stride(frame) + frame.width as nat * 2
        <= frame.data@.len()
}

/// Whether every row of a YUYV frame that passes the size checks lies inside
/// its data: the condition under which [`decode_yuyv`] may be called.
pub fn yuyv_rows_fit(frame: &Frame) -> (r: bool)
    ensures
        r == yuyv_rows_in_bounds(*frame),
{
    let width = frame.width as u128;
    let rows = frame.height as u128;
    let stride: u128 = if frame.bytes_per_line == 0 { width * 2 } else { frame.bytes_per_line as u128 };
    let data = frame.data.len() as u128;
    proof {
        assert(stride * rows <= 0x1_FFFF_FFFE_0000_0002u128) by (nonlinear_arith)
            requires stride <= 0x1_FFFF_FFFE, rows <= u32::MAX;
    }
    let needed: u128 = stride * rows;
    if frame.width == 0 || frame.height == 0 || frame.width % 2 != 0 || data < needed {
        return true;
    }
    proof {
        assert((rows - 1) * stride <= stride * rows) by (nonlinear_arith)
            requires rows >= 1;
    }
    (rows - 1) * stride + width * 2 <= data
}

/// The RGBA image of a decodable YUYV frame.
pub open spec fn yuyv_image(frame: Frame) -> Seq<u8> {
    yuyv_rows(
        frame.data@,
        yuyv_stride(frame),
        frame.width as nat,
        frame.height as nat,
        frame.color_range == ColorRange::Full,
        spec_coeffs(spec_matrix(frame.color_space, frame.height)),
    )
}

proof fn lemma_pairs_len(data: Seq<u8>, base: int, n: nat, full: bool, c: YuvCoeffs)
    ensures
        yuyv_pairs(data, base, n, full, c).len() == 8 * n,
    decreases n,
{
    if n > 0 {
        lemma_pairs_len(data, base, (n - 1) as nat, full, c);
    }
}

proof fn lemma_rows_len(data: Seq<u8>, stride: nat, width: nat, rows: nat, full: bool, c: YuvCoeffs)
    requires
        width % 2 == 0,
    ensures
        yuyv_rows(data, stride, width, rows, full, c).len() == rows * width * 4,
    decreases rows,
{
    if rows > 0 {
        lemma_rows_len(data, stride, width, (rows - 1) as nat, full, c);
        lemma_pairs_len(data, (rows - 1) * stride, width / 2, full, c);
        assert(8 * (width / 2) == width * 4);
        assert(rows * width * 4 == (rows - 1) * width * 4 + width * 4) by (nonlinear_arith);
    } else {
        assert(rows * width * 4 == 0) by (nonlinear_arith)
            requires rows == 0;
    }
}

/// Every fourth byte of a decoded YUYV image (the alpha channel) is 255.
pub proof fn lemma_yuyv_alpha_opaque(frame: Frame, k: int)
    requires
        yuyv_decodable(frame),
        0 <= k < yuyv_image(frame).len(),
        k % 4 == 3,
    ensures
        yuyv_image(frame)[k] == 255,
{
    lemma_rows_alpha(
        frame.data@,
        yuyv_stride(frame),
        frame.width as nat,
        frame.height as nat,
        frame.color_range == ColorRange::Full,
        spec_coeffs(spec_matrix(frame.color_space, frame.height)),
        k,
    );
}

proof fn lemma_pairs_alpha(data: Seq<u8>, base: int, n: nat, full: bool, c: YuvCoeffs, k: int)
    requires
        0 <= k < yuyv_pairs(data, base, n, full, c).len(),
        k % 4 == 3,
    ensures
        yuyv_pairs(data, base, n, full, c)[k] == 255,
    decreases n,
{
    lemma_pairs_len(data, base, n, full, c);
    if n > 0 {
        lemma_pairs_len(data, base, (n - 1) as nat, full, c);
        let prev = yuyv_pairs(data, base, (n - 1) as nat, full, c);
        if k < prev.len() {
            lemma_pairs_alpha(data, base, (n - 1) as nat, full, c, k);
        }
    }
}

proof fn lemma_rows_alpha(data: Seq<u8>, stride: nat, width: nat, rows: nat, full: bool, c: YuvCoeffs, k: int)
    requires
        0 <= k < yuyv_rows(data, stride, width, rows, full, c).len(),
        k % 4 == 3,
    ensures
        yuyv_rows(data, stride, width, rows, full, c)[k] == 255,
    decreases rows,
{
    if rows > 0 {
        let prev = yuyv_rows(data, stride, width, (rows - 1) as nat, full, c);
        let row = yuyv_pairs(data, (rows - 1) * stride, width / 2, full, c);
        lemma_pairs_len(data, (rows - 1) * stride, width / 2, full, c);
        if k < prev.len() {
            lemma_rows_alpha(data, stride, width, (rows - 1) as nat, full, c, k);
        } else {
            assert((k - prev.len()) % 4 == 3) by {
                assert(prev.len() % 8 == 0) by {
                    lemma_rows_len_mod8(data, stride, width, (rows - 1) as nat, full, c);
                }
            }
            lemma_pairs_alpha(data, (rows - 1) * stride, width / 2, full, c, k - prev.len());
        }
    }
}

proof fn lemma_rows_len_mod8(data: Seq<u8>, stride: nat, width: nat, rows: nat, full: bool, c: YuvCoeffs)
    ensures
        yuyv_rows(data, stride, width, rows, full, c).len() % 8 == 0,
    decreases rows,
{
    if rows > 0 {
        lemma_rows_len_mod8(data, stride, width, (rows - 1) as nat, full, c);
        lemma_pairs_len(data, (rows - 1) * stride, width / 2, full, c);
    }
}

fn dims_message(prefix: &str, width: u32, height: u32, suffix: &str) -> (r: String)
    ensures
        r@ == prefix@ + spec_decimal(width as nat) + "x"@ + spec_decimal(height as nat) + suffix@,
{
    let mut msg = prefix.to_owned();
    msg.append(decimal(width as u64).as_str());
    msg.append("x");
    msg.append(decimal(height as u64).as_str());
    msg.append(suffix);
    msg
}

/// Appends the two RGBA pixels of the YUYV group at `off`.
fn decode_pair(data: &Vec<u8>, off: usize, full_range: bool, coeffs: YuvCoeffs, out: &mut Vec<u8>)
    requires
        off + 3 < data@.len(),
        coeffs == spec_coeffs(ColorSpace::Bt709) || coeffs == spec_coeffs(ColorSpace::Bt601),
    ensures
        final(out)@ == old(out)@ + yuv_pixel(data@[off as int], data@[off + 1], data@[off + 3], full_range, coeffs)
            + yuv_pixel(data@[off + 2], data@[off + 1], data@[off + 3], full_range, coeffs),
{
    let _n = data.len();
    let y0 = data[off];
    let u = data[off + 1];
    let y1 = data[off + 2];
    let v = data[off + 3];
    yuv_to_rgba(y0, u, v, full_range, coeffs, out);
    yuv_to_rgba(y1, u, v, full_range, coeffs, out);
}

/// Converts packed YUYV 4:2:2 to RGBA, honoring stride/range/colorspace.
pub fn decode_yuyv(frame: &Frame) -> (r: Result<RgbaImage>)
    requires
        yuyv_rows_in_bounds(*frame),
    ensures
        yuyv_decodable(*frame) ==> (r matches Ok(img) && img.width == frame.width && img.height == frame.height
            && img.pixels@ == yuyv_image(*frame) && img.pixels@.len() == frame.width as nat * frame.height as nat * 4),
        !yuyv_decodable(*frame) ==> r matches Err(Error::Decode(_)),
{
    let width = frame.width;
    let height = frame.height;
    if width == 0 || height == 0 || width % 2 != 0 {
        return Err(
            Error::Decode(
                dims_message("yuyv: invalid dimensions ", width, height, " (width must be non-zero and even)"),
            ),
        );
    }
    let stride: u64 = if frame.bytes_per_line == 0 { width as u64 * 2 } else { frame.bytes_per_line as u64 };
    proof {
        assert(stride * height <= 0x1_FFFF_FFFE_0000_0002u128) by (nonlinear_arith)
            requires stride <= 0x1_FFFF_FFFE, height <= u32::MAX;
    }
    let needed: u128 = stride as u128 * height as u128;
    if (frame.data.len() as u128) < needed {
        let mut msg = "yuyv: ".to_owned();
        msg.append(decimal(frame.data.len() as u64).as_str());
        msg.append(" bytes < ");
        msg.append(decimal(#[verifier::truncate] (needed as u64)).as_str());
        msg.append(" needed (");
        msg.append(decimal(stride).as_str());
        msg.append(" stride x ");
        msg.append(decimal(height as u64).as_str());
        msg.append(" rows)");
        return Err(Error::Decode(msg));
    }
    let coeffs = YuvCoeffs::for_space(matrix_for(frame.color_space, frame.height));
    let full_range = match frame.color_range {
        ColorRange::Full => true,
        ColorRange::Limited => false,
    };
    let ghost data = frame.data@;
    let ghost st = yuyv_stride(*frame);
    let ghost h = height as nat;
    let pairs: usize = (width / 2) as usize;
    let mut pixels: Vec<u8> = Vec::new();
    let mut row: usize = 0;
    let mut row_base: usize = 0;
    proof {
        assert(stride as nat == st);
        assert(st <= st * h) by (nonlinear_arith)
            requires h >= 1;
    }
    let step: usize = stride as usize;
    let dlen: usize = frame.data.len();
    while row < height as usize
        invariant
            data == frame.data@,
            dlen as nat == data.len(),
            st == yuyv_stride(*frame),
            step as nat == st,
            width > 0 && width % 2 == 0,
            pairs == width / 2,
            h == height as nat,
            h >= 1,
            row <= h,
            st * h <= data.len(),
            (h - 1) * st + width as nat * 2 <= data.len(),
            row_base as nat == row * st,
            coeffs == spec_coeffs(spec_matrix(frame.color_space, frame.height)),
            full_range == (frame.color_range == ColorRange::Full),
            pixels@ == yuyv_rows(data, st, width as nat, row as nat, full_range, coeffs),
        decreases h - row,
    {
        proof {
            assert((row + 1) * st <= h * st) by (nonlinear_arith)
                requires row + 1 <= h;
            assert(row * st + st == (row + 1) * st) by (nonlinear_arith);
            assert(row * st <= (h - 1) * st) by (nonlinear_arith)
                requires row + 1 <= h;
        }
        let mut i: usize = 0;
        let mut off: usize = row_base;
        let ghost before = pixels@;
        while i < pairs
            invariant
                data == frame.data@,
                dlen as nat == data.len(),
                i <= pairs,
                pairs == width / 2,
                off == row_base + 4 * i,
                row_base + width as nat * 2 <= data.len(),
                coeffs == spec_coeffs(spec_matrix(frame.color_space, frame.height)),
                pixels@ == before + yuyv_pairs(data, row_base as int, i as nat, full_range, coeffs),
            decreases pairs - i,
        {
            assert(4 * i + 4 <= width as nat * 2);
            decode_pair(&frame.data, off, full_range, coeffs, &mut pixels);
            i = i + 1;
            off = off + 4;
            proof {
                assert(pixels@ =~= before + yuyv_pairs(data, row_base as int, i as nat, full_range, coeffs));
            }
        }
        assert(row_base + step <= data.len());
        row_base = row_base + step;
        row = row + 1;
        assert(pixels@ =~= yuyv_rows(data, st, width as nat, row as nat, full_range, coeffs));
    }
    proof {
        lemma_rows_len(data, st, width as nat, height as nat, full_range, coeffs);
    }
    Ok(RgbaImage { width, height, pixels })
}

/// Decodes a captured [`Frame`] to an [`RgbaImage`].
pub fn decode_frame(frame: &Frame) -> (r: Result<RgbaImage>)
    requires
        frame.format == PixelFormat::Yuyv ==> yuyv_rows_in_bounds(*frame),
    ensures
        frame.format == PixelFormat::Yuyv ==> (yuyv_decodable(*frame) ==> (r matches Ok(img) && img.width == frame.width
            && img.height == frame.height && img.pixels@ == yuyv_image(*frame))) && (!yuyv_decodable(*frame)
            ==> r matches Err(Error::Decode(_))),
        frame.format == PixelFormat::Mjpeg ==> match jpeg_rgba(frame.data@) {
            Some((px, dims)) => if jpeg_image_ok(px, dims) {
                r matches Ok(img) && img.pixels@ == px && img.width == (dims->0).0 as u32 && img.height == (
                dims->0).1 as u32
            } else {
                r matches Err(Error::Decode(_))
            },
            None => r matches Err(Error::Decode(_)),
        },
        r matches Ok(img) ==> img.pixels@.len() == img.width as nat * img.height as nat * 4,
        frame.format == PixelFormat::Yuyv ==> (r matches Ok(img) ==> forall|k: int|
            0 <= k < img.pixels@.len() && k % 4 == 3 ==> #[trigger] img.pixels@[k] == 255),
{
    match frame.format {
        PixelFormat::Mjpeg => decode_mjpeg(frame.data.as_slice()),
        PixelFormat::Yuyv => {
            let r = decode_yuyv(frame);
            proof {
                if yuyv_decodable(*frame) {
                    assert forall|k: int| 0 <= k < yuyv_image(*frame).len() && k % 4 == 3 implies #[trigger]
                        yuyv_image(*frame)[k] == 255 by {
                        lemma_yuyv_alpha_opaque(*frame, k);
                    }
                }
            }
            r
        },
    }
}

} // verus!

use openterface::decode::{decode_frame, matrix_for, yuyv_rows_fit, RgbaImage};
use openterface::support::gray16_jpeg;
use openterface::time::Duration;
use openterface::video::{ColorRange, ColorSpace, Frame, PixelFormat};

fn yuyv_frame(width: u32, height: u32, data: Vec<u8>) -> Frame {
    Frame {
        format: PixelFormat::Yuyv,
        width,
        height,
        bytes_per_line: 0,
        color_range: ColorRange::Limited,
        color_space: ColorSpace::Bt601,
        timestamp: Duration::zero(),
        data,
    }
}

#[test]
fn yuyv_black_is_black() {
    let frame = yuyv_frame(2, 1, vec![16, 128, 16, 128]);
    let img = decode_frame(&frame).unwrap();
    assert_eq!(img.width, 2);
    assert_eq!(img.height, 1);
    assert_eq!(&img.pixels[0..4], &[0, 0, 0, 255]);
    assert_eq!(&img.pixels[4..8], &[0, 0, 0, 255]);
}

#[test]
fn yuyv_white_is_white() {
    let frame = yuyv_frame(2, 1, vec![235, 128, 235, 128]);
    let img = decode_frame(&frame).unwrap();
    assert_eq!(&img.pixels[0..4], &[255, 255, 255, 255]);
}

#[test]
fn yuyv_alpha_is_opaque() {
    let frame = yuyv_frame(2, 1, vec![100, 128, 150, 128]);
    let img = decode_frame(&frame).unwrap();
    assert_eq!(img.pixels[3], 255);
    assert_eq!(img.pixels[7], 255);
}

#[test]
fn yuyv_rejects_short_buffer() {
    let frame = yuyv_frame(4, 1, vec![16, 128, 16, 128]);
    assert!(decode_frame(&frame).is_err());
}

#[test]
fn yuyv_rejects_odd_width() {
    let frame = yuyv_frame(3, 1, vec![16, 128, 16, 128, 16, 128]);
    assert!(decode_frame(&frame).is_err());
}

#[test]
fn yuyv_honors_stride_padding() {
    let mut frame = yuyv_frame(2, 2, vec![0u8; 16]);
    frame.bytes_per_line = 8;
    frame.data[0..4].copy_from_slice(&[235, 128, 235, 128]);
    frame.data[8..12].copy_from_slice(&[16, 128, 16, 128]);
    let img = decode_frame(&frame).unwrap();
    assert_eq!(&img.pixels[0..4], &[255, 255, 255, 255]);
    assert_eq!(&img.pixels[8..12], &[0, 0, 0, 255]);
}

#[test]
fn yuyv_full_range_and_bt709_white() {
    let mut frame = yuyv_frame(2, 1, vec![255, 128, 255, 128]);
    frame.color_range = ColorRange::Full;
    frame.color_space = ColorSpace::Bt709;
    let img = decode_frame(&frame).unwrap();
    assert_eq!(&img.pixels[0..8], &[255, 255, 255, 255, 255, 255, 255, 255]);
}

#[test]
fn mjpeg_decodes_real_jpeg_fixture() {
    let frame = Frame {
        format: PixelFormat::Mjpeg,
        width: 16,
        height: 16,
        bytes_per_line: 0,
        color_range: ColorRange::Limited,
        color_space: ColorSpace::Unknown,
        timestamp: Duration::zero(),
        data: gray16_jpeg(),
    };
    let img = decode_frame(&frame).unwrap();
    assert_eq!(img.width, 16);
    assert_eq!(img.height, 16);
    assert_eq!(img.pixels.len(), RgbaImage::byte_len(16, 16));
    assert!(img.pixels.chunks_exact(4).all(|p| p[3] == 255));
    assert!(img.pixels.chunks_exact(4).all(|p| p[0] == p[1] && p[1] == p[2]));
}

#[test]
fn mjpeg_rejects_garbage() {
    let frame = Frame {
        format: PixelFormat::Mjpeg,
        width: 2,
        height: 2,
        bytes_per_line: 0,
        color_range: ColorRange::Limited,
        color_space: ColorSpace::Unknown,
        timestamp: Duration::zero(),
        data: vec![0xFF, 0xD8, 0x00, 0x01, 0x02],
    };
    let err = decode_frame(&frame).unwrap_err();
    assert!(matches!(err, openterface::error::Error::Decode(_)));
    assert!(err.message().starts_with("decode error: "));
}

#[test]
fn byte_len_is_four_bytes_per_pixel() {
    assert_eq!(RgbaImage::byte_len(1920, 1080), 1920 * 1080 * 4);
    assert_eq!(RgbaImage::byte_len(0, 7), 0);
}

#[test]
fn unknown_color_space_picks_matrix_by_resolution() {
    // A saturated chroma sample decodes differently under the two matrices.
    let hd = |space: ColorSpace| Frame {
        color_space: space,
        ..yuyv_frame(2, 720, [0x80u8, 0x20, 0x80, 0xE0].repeat(720))
    };
    let unknown_hd = decode_frame(&hd(ColorSpace::Unknown)).unwrap();
    assert_eq!(unknown_hd.pixels, decode_frame(&hd(ColorSpace::Bt709)).unwrap().pixels);
    assert_ne!(unknown_hd.pixels, decode_frame(&hd(ColorSpace::Bt601)).unwrap().pixels);
    let sd = |space: ColorSpace| Frame {
        color_space: space,
        ..yuyv_frame(2, 719, [0x80u8, 0x20, 0x80, 0xE0].repeat(719))
    };
    let unknown_sd = decode_frame(&sd(ColorSpace::Unknown)).unwrap();
    assert_eq!(unknown_sd.pixels, decode_frame(&sd(ColorSpace::Bt601)).unwrap().pixels);
    assert_eq!(matrix_for(ColorSpace::Unknown, 1080), ColorSpace::Bt709);
    assert_eq!(matrix_for(ColorSpace::Unknown, 480), ColorSpace::Bt601);
    assert_eq!(matrix_for(ColorSpace::Bt601, 1080), ColorSpace::Bt601);
}

#[test]
fn yuyv_rows_fit_flags_a_short_stride() {
    let mut f = yuyv_frame(4, 2, vec![0u8; 16]);
    assert!(yuyv_rows_fit(&f));
    f.bytes_per_line = 2;
    f.data = vec![0u8; 4];
    // 2 rows at stride 2: the second row starts at byte 2 and needs 8 bytes.
    assert!(!yuyv_rows_fit(&f));
    f.width = 3;
    assert!(yuyv_rows_fit(&f));
}

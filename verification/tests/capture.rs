use openterface::capture::{
    captured_len, color_range_of, color_space_of, format_matches_candidate, fourcc,
    frame_rates_from_intervals, pixel_format, Colorimetry, FrameIntervalSpec, Quantization,
};
use openterface::video::{CaptureFormatCandidate, ColorRange, ColorSpace, PixelFormat};

#[test]
fn fourcc_round_trips() {
    assert_eq!(&fourcc(PixelFormat::Mjpeg), b"MJPG");
    assert_eq!(&fourcc(PixelFormat::Yuyv), b"YUYV");
    assert_eq!(pixel_format(*b"MJPG"), Some(PixelFormat::Mjpeg));
    assert_eq!(pixel_format(*b"YUYV"), Some(PixelFormat::Yuyv));
    assert_eq!(pixel_format(*b"NV12"), None);
}

#[test]
fn colorimetry_and_range_map() {
    assert_eq!(color_space_of(Colorimetry::Rec709), ColorSpace::Bt709);
    assert_eq!(color_space_of(Colorimetry::Srgb), ColorSpace::Bt601);
    assert_eq!(color_space_of(Colorimetry::Other), ColorSpace::Unknown);
    assert_eq!(color_range_of(Quantization::Default, PixelFormat::Mjpeg), ColorRange::Full);
    assert_eq!(color_range_of(Quantization::Default, PixelFormat::Yuyv), ColorRange::Limited);
    assert_eq!(color_range_of(Quantization::LimitedRange, PixelFormat::Mjpeg), ColorRange::Limited);
}

#[test]
fn applied_format_must_match_candidate() {
    let c = CaptureFormatCandidate::new(1280, 720, PixelFormat::Mjpeg);
    assert!(format_matches_candidate(1280, 720, *b"MJPG", c));
    assert!(!format_matches_candidate(1280, 720, *b"YUYV", c));
    assert!(!format_matches_candidate(1920, 1080, *b"MJPG", c));
}

#[test]
fn frame_rates_are_deduplicated_in_order() {
    let rates = frame_rates_from_intervals(&vec![
        FrameIntervalSpec::Discrete(1, 60),
        FrameIntervalSpec::Discrete(1001, 30000),
        FrameIntervalSpec::Discrete(1, 30),
        FrameIntervalSpec::Stepwise { min_num: 1, min_den: 60, max_num: 1, max_den: 5 },
        FrameIntervalSpec::Discrete(0, 30),
    ]);
    assert_eq!(rates, vec![60, 30, 5]);
}

#[test]
fn captured_len_never_exceeds_the_buffer() {
    assert_eq!(captured_len(100, 4096), 100);
    assert_eq!(captured_len(9000, 4096), 4096);
}

use openterface::video::{
    integer_fps_from_interval, select_capture_config_for_viewport, v4l2_fallback_formats,
    v4l2_format_candidates, CaptureConfig, CaptureFormatCandidate, FormatDesc, PixelFormat,
};

#[test]
fn v4l2_candidates_try_request_before_documented_fallbacks() {
    let requested = CaptureConfig { width: 640, height: 480, fps: 15, format: PixelFormat::Yuyv };
    assert_eq!(
        v4l2_format_candidates(requested),
        vec![
            CaptureFormatCandidate::new(640, 480, PixelFormat::Yuyv),
            CaptureFormatCandidate::new(1920, 1080, PixelFormat::Mjpeg),
            CaptureFormatCandidate::new(1280, 720, PixelFormat::Mjpeg),
            CaptureFormatCandidate::new(1280, 720, PixelFormat::Yuyv),
        ]
    );
}

#[test]
fn v4l2_candidates_do_not_repeat_request_when_it_is_a_fallback() {
    assert_eq!(v4l2_format_candidates(CaptureConfig::default()), v4l2_fallback_formats());
}

fn desc(format: PixelFormat, width: u32, height: u32, rates: &[u32]) -> FormatDesc {
    FormatDesc { format, width, height, frame_rates: rates.to_vec() }
}

fn openterface_formats() -> Vec<FormatDesc> {
    vec![
        desc(PixelFormat::Mjpeg, 1920, 1080, &[60, 50, 30]),
        desc(PixelFormat::Mjpeg, 1360, 768, &[60, 50, 30]),
        desc(PixelFormat::Mjpeg, 1280, 720, &[60, 50, 30]),
        desc(PixelFormat::Mjpeg, 800, 600, &[60, 30]),
        desc(PixelFormat::Yuyv, 1920, 1080, &[10, 5]),
    ]
}

#[test]
fn adaptive_selects_max_when_scaled_viewport_exceeds_capture() {
    assert_eq!(
        select_capture_config_for_viewport(&openterface_formats(), 2880, 1620, CaptureConfig::default()),
        CaptureConfig::default()
    );
}

#[test]
fn adaptive_selects_display_sized_mode_on_scaled_small_window() {
    assert_eq!(
        select_capture_config_for_viewport(&openterface_formats(), 1440, 810, CaptureConfig::default()),
        CaptureConfig { width: 1360, height: 768, fps: 30, format: PixelFormat::Mjpeg }
    );
}

#[test]
fn adaptive_uses_smallest_mode_when_viewport_is_tiny() {
    assert_eq!(
        select_capture_config_for_viewport(&openterface_formats(), 640, 360, CaptureConfig::default()),
        CaptureConfig { width: 1280, height: 720, fps: 30, format: PixelFormat::Mjpeg }
    );
}

#[test]
fn adaptive_allows_small_downscale_to_preserve_quality() {
    assert_eq!(
        select_capture_config_for_viewport(&openterface_formats(), 1920, 1000, CaptureConfig::default()),
        CaptureConfig::default()
    );
}

#[test]
fn adaptive_keeps_preference_without_modes_or_viewport() {
    let pref = CaptureConfig { width: 1024, height: 768, fps: 25, format: PixelFormat::Yuyv };
    assert_eq!(select_capture_config_for_viewport(&[], 1920, 1080, pref), pref);
    assert_eq!(select_capture_config_for_viewport(&openterface_formats(), 0, 1080, pref), pref);
}

#[test]
fn integer_fps_from_interval_rounds_ntsc_rates() {
    assert_eq!(integer_fps_from_interval(1, 30), Some(30));
    assert_eq!(integer_fps_from_interval(1001, 30_000), Some(30));
    assert_eq!(integer_fps_from_interval(0, 30), None);
    assert_eq!(integer_fps_from_interval(1, 0), None);
}

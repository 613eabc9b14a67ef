use openterface::cli::{
    format_hex4, parse_window_size, plan_connect, scan_report, status_report, ExitCode, SerialChoice, SessionKind,
    WindowSize,
};
use openterface::discovery::DeviceInfo;

#[test]
fn connect_window_max_size_accepts_uppercase_separator() {
    assert_eq!(parse_window_size("1920X1080"), Ok(WindowSize::new(1920, 1080)));
}

#[test]
fn connect_window_max_size_trims_whitespace() {
    assert_eq!(parse_window_size(" 1920 x 1080 "), Ok(WindowSize::new(1920, 1080)));
}

#[test]
fn connect_window_max_size_rejects_invalid_sizes() {
    for invalid in ["640", "640x", "x480", "0x480", "640x0", "1x2x3", "32768x480", "640x32768"] {
        assert!(parse_window_size(invalid).is_err(), "{invalid:?}");
    }
}

#[test]
fn window_size_errors_explain_the_problem() {
    assert_eq!(parse_window_size("640").unwrap_err(), "expected WIDTHxHEIGHT, for example 1920x1080");
    assert_eq!(
        parse_window_size("1x2x3").unwrap_err(),
        "expected exactly one 'x' separator in WIDTHxHEIGHT"
    );
    assert_eq!(parse_window_size("x480").unwrap_err(), "window width must be a positive integer");
    assert_eq!(parse_window_size("640x").unwrap_err(), "window height must be a positive integer");
    assert_eq!(
        parse_window_size("0x480").unwrap_err(),
        "window width and height must be greater than zero"
    );
    assert_eq!(parse_window_size("640x32768").unwrap_err(), "window width and height must be at most 32767");
    assert_eq!(parse_window_size("+640x480"), Ok(WindowSize::new(640, 480)));
    assert_eq!(parse_window_size("32767x1"), Ok(WindowSize::new(32767, 1)));
    assert_eq!(
        parse_window_size("99999999999x1").unwrap_err(),
        "window width must be a positive integer"
    );
}

#[test]
fn exit_codes_are_zero_and_one() {
    assert_eq!(ExitCode::Success.code(), 0);
    assert_eq!(ExitCode::Failure.code(), 1);
}

#[test]
fn scan_report_lists_nodes_and_recommends_a_command() {
    let lines = scan_report(
        &vec!["/dev/video2".to_owned()],
        &vec![("/dev/ttyACM0".to_owned(), (0x1A86, 0xFE0C))],
    );
    assert_eq!(
        lines,
        vec![
            "Scanning for Openterface USB KVM devices...",
            "\n=== Video Devices ===",
            "Found: /dev/video2",
            "\n=== Serial Devices ===",
            "Found: /dev/ttyACM0 (VID:PID 1a86:fe0c)",
            "\nRecommended: openterface-rs connect --video=/dev/video2 --serial=/dev/ttyACM0",
        ]
    );
    let none = scan_report(&Vec::new(), &Vec::new());
    assert_eq!(none.len(), 8);
    assert_eq!(none[2], "(none found)");
    assert_eq!(none[7], "Or use: openterface-rs connect --dummy");
    let video_only = scan_report(&vec!["/dev/video0".to_owned()], &Vec::new());
    assert_eq!(
        video_only.last().unwrap(),
        "\nRecommended (no serial found): openterface-rs connect --video=/dev/video0 --no-serial"
    );
}

#[test]
fn status_report_shows_each_endpoint() {
    let d = DeviceInfo {
        serial_path: None,
        video_path: Some("/dev/video2".to_owned()),
        serial_vendor_id: None,
        serial_product_id: None,
        description: String::new(),
    };
    assert_eq!(
        status_report(&vec![d]),
        vec!["=== Openterface KVM Status ===", "Video:  DETECTED (/dev/video2)", "Serial: NOT DETECTED"]
    );
    assert_eq!(status_report(&Vec::new())[1], "Video:  NOT DETECTED");
    assert_eq!(format_hex4(0x00AF), "00af");
}

#[test]
fn connect_plan_prefers_flags_over_discovery() {
    let found = DeviceInfo {
        serial_path: Some("/dev/ttyACM0".to_owned()),
        video_path: Some("/dev/video2".to_owned()),
        serial_vendor_id: Some(0x1A86),
        serial_product_id: Some(0x7523),
        description: String::new(),
    };
    let p = plan_connect(false, false, false, Some("/dev/video9"), None, Some(&found));
    assert_eq!(p.kind, SessionKind::Video);
    assert_eq!(p.video_path.as_deref(), Some("/dev/video9"));
    assert_eq!(p.serial, SerialChoice::Open("/dev/ttyACM0".to_owned()));
    assert_eq!(p.title, "Openterface KVM");
    let q = plan_connect(false, true, true, None, None, Some(&found));
    assert_eq!(q.kind, SessionKind::InputOnly);
    assert_eq!(q.serial, SerialChoice::Disabled);
    assert_eq!(q.title, "Openterface KVM (no video)");
    let d = plan_connect(true, false, false, None, None, None);
    assert_eq!(d.kind, SessionKind::Dummy);
    assert_eq!(d.title, "Openterface KVM (dummy)");
    let none = plan_connect(false, false, false, None, None, None);
    assert_eq!(none.kind, SessionKind::Video);
    assert_eq!(none.video_path, None);
    assert_eq!(none.serial, SerialChoice::Missing);
    assert_eq!(plan_connect(false, true, false, None, None, None).serial, SerialChoice::Missing);
}

#[test]
fn verbose_logging_follows_the_flag_or_connect_debug() {
    assert!(openterface::cli::wants_verbose_logging(true, None));
    assert!(openterface::cli::wants_verbose_logging(false, Some(true)));
    assert!(!openterface::cli::wants_verbose_logging(false, Some(false)));
    assert!(!openterface::cli::wants_verbose_logging(false, None));
}

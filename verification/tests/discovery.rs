use openterface::device::{is_serial_device, is_video_device};
use openterface::discovery::{
    parse_usb_modalias, DeviceInfo, SysfsScanner, TtyNodeFacts, VideoNodeFacts,
};

#[test]
fn matches_known_serial_ids() {
    assert!(is_serial_device(0x1A86, 0x7523));
    assert!(is_serial_device(0x1A86, 0xFE0C));
    assert!(!is_serial_device(0x1A86, 0x0001));
    assert!(!is_serial_device(0x0000, 0x7523));
}

#[test]
fn matches_known_video_ids() {
    assert!(is_video_device(0x345F, 0x2109));
    assert!(is_video_device(0x534D, 0x2109));
    assert!(!is_video_device(0x345F, 0x0000));
}

#[test]
fn parses_modalias() {
    assert_eq!(parse_usb_modalias("usb:v1A86p7523d0263dc02"), Some((0x1A86, 0x7523)));
    assert_eq!(parse_usb_modalias("usb:v345Fp2109d0100"), Some((0x345F, 0x2109)));
    assert_eq!(parse_usb_modalias("pci:v00008086d"), None);
    assert_eq!(parse_usb_modalias("usb:v1A86"), None);
    assert_eq!(parse_usb_modalias("usb:v1A86p75€3"), None);
    assert_eq!(parse_usb_modalias("usb:v€€€€p7523d"), None);
}

#[test]
fn modalias_hex_accepts_either_case_and_refuses_a_sign() {
    assert_eq!(parse_usb_modalias("usb:v1a86pfe0c"), Some((0x1A86, 0xFE0C)));
    assert_eq!(parse_usb_modalias("usb:v+A86p7523"), None);
    assert_eq!(parse_usb_modalias("usb:v+1A8p7523"), None);
    assert_eq!(parse_usb_modalias("usb:v1A86q7523"), None);
    assert_eq!(parse_usb_modalias("usb:v1G86p7523"), None);
}

fn video(name: &str, card: &str, driver: &str, modalias: &str, formats: Option<&str>) -> VideoNodeFacts {
    VideoNodeFacts {
        name: name.to_owned(),
        driver: Some(driver.to_owned()),
        modaliases: vec![modalias.to_owned()],
        card: card.to_owned(),
        formats: formats.map(|f| f.to_owned()),
    }
}

fn tty(name: &str, modalias: &str) -> TtyNodeFacts {
    TtyNodeFacts { name: name.to_owned(), modaliases: vec![modalias.to_owned()] }
}

fn openterface_fixture() -> (Vec<VideoNodeFacts>, Vec<TtyNodeFacts>) {
    let videos = vec![
        video("video0", "Openterface virtio decoy", "virtio-video", "virtio:d00000021v00001AF4", Some("MJPG")),
        video("video2", "Openterface", "uvcvideo", "usb:v345Fp2109d0100dc00", Some("MJPG\nYUYV")),
        video("video3", "Openterface metadata", "uvcvideo", "usb:v345Fp2109d0100dc00", Some("META")),
        video("video4", "Openterface alternate capture", "uvcvideo", "usb:v345Fp2109d0100dc00", Some("MJPG")),
    ];
    let ttys = vec![tty("ttyACM0", "usb:v1A86p7523d0263dc02"), tty("ttyUSB0", "usb:v0403p6001d0600")];
    (videos, ttys)
}

#[test]
fn finds_openterface_and_skips_video_decoys() {
    let (videos, ttys) = openterface_fixture();
    let scanner = SysfsScanner::new();
    let devices = scanner.devices(&videos, &ttys);
    assert_eq!(devices.len(), 1);
    let d = &devices[0];
    assert_eq!(d.video_path.as_deref(), Some("/dev/video2"));
    assert_eq!(d.serial_path.as_deref(), Some("/dev/ttyACM0"));
    assert_eq!(d.serial_vendor_id, Some(0x1A86));
    assert_eq!(d.serial_product_id, Some(0x7523));
    assert!(d.is_complete());
    assert_eq!(d.description, "Openterface Mini-KVM (video + serial)");
    assert_eq!(scanner.video_nodes(&videos), vec!["/dev/video2".to_owned(), "/dev/video4".to_owned()]);
    assert_eq!(scanner.serial_nodes(&ttys), vec![("/dev/ttyACM0".to_owned(), (0x1A86, 0x7523))]);
}

#[test]
fn prefers_lowest_numeric_video_index() {
    let videos = vec![
        video("video10", "Openterface high index", "uvcvideo", "usb:v345Fp2109d0100dc00", Some("MJPG")),
        video("video2", "Openterface low index", "uvcvideo", "usb:v345Fp2109d0100dc00", Some("MJPG")),
    ];
    let scanner = SysfsScanner::with_root("/tmp/fixture");
    assert_eq!(scanner.root(), "/tmp/fixture");
    let devices = scanner.devices(&videos, &Vec::new());
    assert_eq!(devices.len(), 1);
    assert_eq!(devices[0].video_path.as_deref(), Some("/dev/video2"));
    assert_eq!(devices[0].serial_path, None);
    assert_eq!(devices[0].description, "Openterface video only (no serial control found)");
}

#[test]
fn empty_tree_yields_nothing() {
    let scanner = SysfsScanner::new();
    assert!(scanner.devices(&Vec::new(), &Vec::new()).is_empty());
    assert!(scanner.video_nodes(&Vec::new()).is_empty());
}

#[test]
fn serial_only_and_driver_rules() {
    let scanner = SysfsScanner::default();
    let (_, ttys) = openterface_fixture();
    let devices = scanner.devices(&Vec::new(), &ttys);
    assert_eq!(devices[0].description, "Openterface serial only (no capture found)");
    assert!(!devices[0].is_complete());
    let upper = vec![video("video1", "capture", "UVCVideo", "usb:v534Dp2109", None)];
    assert_eq!(scanner.video_nodes(&upper), vec!["/dev/video1".to_owned()]);
    let no_driver = vec![VideoNodeFacts {
        name: "video1".to_owned(),
        driver: None,
        modaliases: Vec::new(),
        card: "Openterface".to_owned(),
        formats: None,
    }];
    assert!(scanner.video_nodes(&no_driver).is_empty());
    let not_video = vec![video("vbi0", "Openterface", "uvcvideo", "usb:v345Fp2109", None)];
    assert!(scanner.video_nodes(&not_video).is_empty());
    let other_tty = vec![tty("ttyS0", "usb:v1A86p7523")];
    assert!(scanner.serial_nodes(&other_tty).is_empty());
    let mjpeg_word = vec![video("video5", "x", "uvcvideo", "usb:v345Fp2109", Some("mjpeg"))];
    assert_eq!(scanner.video_nodes(&mjpeg_word).len(), 1);
}

#[test]
fn default_device_info_is_empty() {
    let d = DeviceInfo::default();
    assert!(!d.is_complete());
    assert!(d.description.is_empty());
}

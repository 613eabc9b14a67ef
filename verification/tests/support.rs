use openterface::decode::decode_frame;
use openterface::discovery::{DeviceInfo, DeviceScanner};
use openterface::error::Error;
use openterface::serial::SerialTransport;
use openterface::support::{FixtureScanner, MockSerial, SimulatedVideoSource, VideoFault};
use openterface::video::{CaptureConfig, ColorSpace, PixelFormat, VideoSource};
use std::time::Duration;

#[test]
fn mock_serial_records_and_replays() {
    let mut s = MockSerial::new();
    s.write_all(&[0x57, 0xAB]).unwrap();
    s.push_readable(&[0x01, 0x02]);
    let mut buf = [0u8; 4];
    let n = s.read(&mut buf, Duration::from_millis(0)).unwrap();
    assert_eq!(n, 2);
    assert_eq!(&buf[..2], &[0x01, 0x02]);
    assert_eq!(s.written(), &[0x57, 0xAB]);
}

#[test]
fn mock_serial_reads_no_more_than_the_buffer() {
    let mut s = MockSerial::default();
    assert_eq!(s.baud(), 0);
    s.set_baud_rate(9600).unwrap();
    assert_eq!(s.baud(), 9600);
    s.push_readable(&[1, 2, 3]);
    let mut buf = [9u8; 2];
    assert_eq!(s.read(&mut buf, Duration::from_millis(0)).unwrap(), 2);
    assert_eq!(buf, [1, 2]);
    let mut rest = [0u8; 4];
    assert_eq!(s.read(&mut rest, Duration::from_millis(0)).unwrap(), 1);
    assert_eq!(rest, [3, 0, 0, 0]);
}

#[test]
fn simulated_video_needs_start() {
    let mut v = SimulatedVideoSource::new();
    assert!(v.next_frame(Duration::from_millis(0)).is_err());
    v.start().unwrap();
    let f = v.next_frame(Duration::from_millis(0)).unwrap();
    assert_eq!(f.format, PixelFormat::Mjpeg);
}

#[test]
fn simulated_video_injects_faults_in_order() {
    let mut v = SimulatedVideoSource::new();
    v.start().unwrap();
    v.inject(VideoFault::Timeout);
    v.inject(VideoFault::CorruptFrame);
    assert!(matches!(v.next_frame(Duration::from_millis(0)), Err(Error::Timeout)));
    let corrupt = v.next_frame(Duration::from_millis(0)).unwrap();
    assert!(decode_frame(&corrupt).is_err());
    let ok = v.next_frame(Duration::from_millis(0)).unwrap();
    assert!(decode_frame(&ok).is_ok());
}

#[test]
fn healthy_simulated_frames_decode() {
    let mut v = SimulatedVideoSource::new();
    v.start().unwrap();
    let mjpeg = v.next_frame(Duration::from_millis(0)).unwrap();
    assert!(decode_frame(&mjpeg).is_ok());
    let mut y = SimulatedVideoSource::with_config(CaptureConfig {
        width: 8,
        height: 4,
        fps: 30,
        format: PixelFormat::Yuyv,
    });
    y.start().unwrap();
    let yuyv = y.next_frame(Duration::from_millis(0)).unwrap();
    let img = decode_frame(&yuyv).unwrap();
    assert_eq!((img.width, img.height), (8, 4));
}

#[test]
fn simulated_video_disconnect_is_sticky() {
    let mut v = SimulatedVideoSource::new();
    v.start().unwrap();
    v.inject(VideoFault::Disconnect);
    assert!(v.next_frame(Duration::from_millis(0)).is_err());
    assert!(v.next_frame(Duration::from_millis(0)).is_err());
}

#[test]
fn simulated_frames_carry_size_color_and_time() {
    let mut v = SimulatedVideoSource::new();
    assert_eq!(v.supported_formats().unwrap().len(), 1);
    v.configure(CaptureConfig { width: 1280, height: 720, fps: 30, format: PixelFormat::Yuyv }).unwrap();
    assert_eq!(v.active_config().unwrap().width, 1280);
    v.start().unwrap();
    let f1 = v.next_frame(Duration::from_millis(0)).unwrap();
    let f2 = v.next_frame(Duration::from_millis(0)).unwrap();
    assert_eq!(f1.bytes_per_line, 2560);
    assert_eq!(f1.data.len(), 1280 * 2 * 720);
    assert_eq!(f1.color_space, ColorSpace::Bt709);
    assert_eq!(f1.timestamp.as_millis(), 33);
    assert_eq!(f2.timestamp.as_millis(), 66);
    v.stop().unwrap();
    assert!(matches!(v.next_frame(Duration::from_millis(0)), Err(Error::Video(_))));
}

#[test]
fn fixture_scanner_returns_devices() {
    let scanner = FixtureScanner::new(vec![DeviceInfo { description: "test".to_string(), ..Default::default() }]);
    assert_eq!(scanner.scan().unwrap().len(), 1);
}

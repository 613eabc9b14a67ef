use openterface::error::Error;

#[test]
fn error_messages_name_their_kind() {
    assert_eq!(Error::Transport("write".to_owned()).message(), "serial transport error: write");
    assert_eq!(Error::Video("gone".to_owned()).message(), "video error: gone");
    assert_eq!(Error::Discovery("x".to_owned()).message(), "device discovery error: x");
    assert_eq!(Error::Protocol("p".to_owned()).message(), "protocol error: p");
    assert_eq!(Error::Decode("d".to_owned()).message(), "decode error: d");
    assert_eq!(Error::Config("c".to_owned()).message(), "configuration error: c");
    assert_eq!(Error::Timeout.message(), "operation timed out");
}

#[test]
fn io_errors_are_carried_transparently() {
    let io = std::io::Error::new(std::io::ErrorKind::Other, "disk on fire");
    let e: Error = Error::from(io);
    assert!(matches!(e, Error::Io(_)));
    assert_eq!(e.message(), "disk on fire");
}

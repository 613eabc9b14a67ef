//! The crate-wide error type.

use vstd::prelude::*;

use crate::text::concat_str;

verus! {

/// The standard I/O error, carried through unchanged.
#[verifier::external_type_specification]
#[verifier::external_body]
pub struct ExIoError(std::io::Error);

/// Errors produced anywhere in the library.
#[derive(Debug)]
#[non_exhaustive]
pub enum Error {
    /// A serial transport (open/read/write/baud) operation failed.
    Transport(String),
    /// A video capture operation failed.
    Video(String),
    /// Device discovery/enumeration failed.
    Discovery(String),
    /// A CH9329/HID protocol framing or decoding error.
    Protocol(String),
    /// A frame could not be decoded to RGBA.
    Decode(String),
    /// Invalid or unsupported configuration.
    Config(String),
    /// A blocking operation exceeded its deadline.
    Timeout,
    /// An underlying I/O error.
    Io(std::io::Error),
}

/// Convenience alias used throughout the crate.
pub type Result<T> = std::result::Result<T, Error>;

impl Error {
    /// The human-readable description of the error.
    pub fn message(&self) -> (r: String)
        ensures
            match self {
                Error::Transport(m) => r@ == "serial transport error: "@ + m@,
                Error::Video(m) => r@ == "video error: "@ + m@,
                Error::Discovery(m) => r@ == "device discovery error: "@ + m@,
                Error::Protocol(m) => r@ == "protocol error: "@ + m@,
                Error::Decode(m) => r@ == "decode error: "@ + m@,
                Error::Config(m) => r@ == "configuration error: "@ + m@,
                Error::Timeout => r@ == "operation timed out"@,
                Error::Io(_) => true,
            },
    {
        match self {
            Error::Transport(m) => concat_str("serial transport error: ", m.as_str()),
            Error::Video(m) => concat_str("video error: ", m.as_str()),
            Error::Discovery(m) => concat_str("device discovery error: ", m.as_str()),
            Error::Protocol(m) => concat_str("protocol error: ", m.as_str()),
            Error::Decode(m) => concat_str("decode error: ", m.as_str()),
            Error::Config(m) => concat_str("configuration error: ", m.as_str()),
            Error::Timeout => "operation timed out".to_owned(),
            Error::Io(e) => io_error_message(e),
        }
    }
}

impl From<std::io::Error> for Error {
    /// An I/O error, carried unchanged.
    fn from(e: std::io::Error) -> (r: Error) {
        Error::Io(e)
    }
}

impl vstd::std_specs::convert::FromSpecImpl<std::io::Error> for Error {
    open spec fn obeys_from_spec() -> bool {
        true
    }

    open spec fn from_spec(e: std::io::Error) -> Error {
        Error::Io(e)
    }
}

/// The text of an I/O error (`std::io::Error`'s `Display`).
#[verifier::external_body]
fn io_error_message(e: &std::io::Error) -> String {
    e.to_string()
}

} // verus!

//! `openterface` — the device-agnostic core of the Openterface Mini-KVM host:
//! CH9329 wire framing, HID usage tables, the input-event model, the paced
//! command scheduler, frame decoding, device discovery rules, capture-mode
//! selection and the display-side decision machines.
//!
//! Everything that touches hardware is expressed as a trait
//! ([`serial::SerialTransport`], [`video::VideoSource`],
//! [`discovery::DeviceScanner`]) or as a pure function over plain values.

pub mod capture;
pub mod cli;
pub mod decode;
pub mod device;
pub mod display;
pub mod discovery;
pub mod error;
pub mod event;
pub mod hotkeys;
pub mod pacing;
pub mod paste;
pub mod protocol;
pub mod router;
pub mod serial;
pub mod session;
pub mod support;
pub mod text;
pub mod throttle;
pub mod time;
pub mod video;

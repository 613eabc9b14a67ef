//! In-memory doubles for the hardware-facing traits, so the whole pipeline
//! runs with no hardware: a recording/replaying serial link, a simulated
//! capture device with scripted faults, and a fixed-list device scanner.

use std::collections::VecDeque;
use vstd::prelude::*;

use crate::discovery::{DeviceInfo, DeviceScanner};
use crate::error::{Error, Result};
use crate::serial::{LineCall, SerialTransport, BAUD_PRIMARY};
use crate::time::Duration;
use crate::video::{
    CaptureConfig, ColorRange, ColorSpace, FormatDesc, Frame, PixelFormat, VideoSource,
};

verus! {

/// The bytes of a 16×16 mid-gray baseline JPEG (YCbCr, 4:4:4).
pub open spec fn gray16_jpeg_bytes() -> Seq<u8> {
    seq![
        0xFFu8, 0xD8u8, 0xFFu8, 0xDBu8, 0x00u8, 0x43u8, 0x00u8, 0x01u8, 0x01u8, 0x01u8, 0x01u8, 0x01u8, 0x01u8, 0x01u8, 0x01u8, 0x01u8,
        0x01u8, 0x01u8, 0x01u8, 0x01u8, 0x01u8, 0x01u8, 0x01u8, 0x01u8, 0x01u8, 0x01u8, 0x01u8, 0x01u8, 0x01u8, 0x01u8, 0x01u8, 0x01u8,
        0x01u8, 0x01u8, 0x01u8, 0x01u8, 0x01u8, 0x01u8, 0x01u8, 0x01u8, 0x01u8, 0x01u8, 0x01u8, 0x01u8, 0x01u8, 0x01u8, 0x01u8, 0x01u8,
        0x01u8, 0x01u8, 0x01u8, 0x01u8, 0x01u8, 0x01u8, 0x01u8, 0x01u8, 0x01u8, 0x01u8, 0x01u8, 0x01u8, 0x01u8, 0x01u8, 0x01u8, 0x01u8,
        0x01u8, 0x01u8, 0x01u8, 0x01u8, 0x01u8, 0x01u8, 0x01u8, 0xFFu8, 0xC0u8, 0x00u8, 0x11u8, 0x08u8, 0x00u8, 0x10u8, 0x00u8, 0x10u8,
        0x03u8, 0x01u8, 0x11u8, 0x00u8, 0x02u8, 0x11u8, 0x00u8, 0x03u8, 0x11u8, 0x00u8, 0xFFu8, 0xC4u8, 0x00u8, 0x1Fu8, 0x00u8, 0x00u8,
        0x01u8, 0x05u8, 0x01u8, 0x01u8, 0x01u8, 0x01u8, 0x01u8, 0x01u8, 0x00u8, 0x00u8, 0x00u8, 0x00u8, 0x00u8, 0x00u8, 0x00u8, 0x00u8,
        0x01u8, 0x02u8, 0x03u8, 0x04u8, 0x05u8, 0x06u8, 0x07u8, 0x08u8, 0x09u8, 0x0Au8, 0x0Bu8, 0xFFu8, 0xC4u8, 0x00u8, 0xB5u8, 0x10u8,
        0x00u8, 0x02u8, 0x01u8, 0x03u8, 0x03u8, 0x02u8, 0x04u8, 0x03u8, 0x05u8, 0x05u8, 0x04u8, 0x04u8, 0x00u8, 0x00u8, 0x01u8, 0x7Du8,
        0x01u8, 0x02u8, 0x03u8, 0x00u8, 0x04u8, 0x11u8, 0x05u8, 0x12u8, 0x21u8, 0x31u8, 0x41u8, 0x06u8, 0x13u8, 0x51u8, 0x61u8, 0x07u8,
        0x22u8, 0x71u8, 0x14u8, 0x32u8, 0x81u8, 0x91u8, 0xA1u8, 0x08u8, 0x23u8, 0x42u8, 0xB1u8, 0xC1u8, 0x15u8, 0x52u8, 0xD1u8, 0xF0u8,
        0x24u8, 0x33u8, 0x62u8, 0x72u8, 0x82u8, 0x09u8, 0x0Au8, 0x16u8, 0x17u8, 0x18u8, 0x19u8, 0x1Au8, 0x25u8, 0x26u8, 0x27u8, 0x28u8,
        0x29u8, 0x2Au8, 0x34u8, 0x35u8, 0x36u8, 0x37u8, 0x38u8, 0x39u8, 0x3Au8, 0x43u8, 0x44u8, 0x45u8, 0x46u8, 0x47u8, 0x48u8, 0x49u8,
        0x4Au8, 0x53u8, 0x54u8, 0x55u8, 0x56u8, 0x57u8, 0x58u8, 0x59u8, 0x5Au8, 0x63u8, 0x64u8, 0x65u8, 0x66u8, 0x67u8, 0x68u8, 0x69u8,
        0x6Au8, 0x73u8, 0x74u8, 0x75u8, 0x76u8, 0x77u8, 0x78u8, 0x79u8, 0x7Au8, 0x83u8, 0x84u8, 0x85u8, 0x86u8, 0x87u8, 0x88u8, 0x89u8,
        0x8Au8, 0x92u8, 0x93u8, 0x94u8, 0x95u8, 0x96u8, 0x97u8, 0x98u8, 0x99u8, 0x9Au8, 0xA2u8, 0xA3u8, 0xA4u8, 0xA5u8, 0xA6u8, 0xA7u8,
        0xA8u8, 0xA9u8, 0xAAu8, 0xB2u8, 0xB3u8, 0xB4u8, 0xB5u8, 0xB6u8, 0xB7u8, 0xB8u8, 0xB9u8, 0xBAu8, 0xC2u8, 0xC3u8, 0xC4u8, 0xC5u8,
        0xC6u8, 0xC7u8, 0xC8u8, 0xC9u8, 0xCAu8, 0xD2u8, 0xD3u8, 0xD4u8, 0xD5u8, 0xD6u8, 0xD7u8, 0xD8u8, 0xD9u8, 0xDAu8, 0xE1u8, 0xE2u8,
        0xE3u8, 0xE4u8, 0xE5u8, 0xE6u8, 0xE7u8, 0xE8u8, 0xE9u8, 0xEAu8, 0xF1u8, 0xF2u8, 0xF3u8, 0xF4u8, 0xF5u8, 0xF6u8, 0xF7u8, 0xF8u8,
        0xF9u8, 0xFAu8, 0xFFu8, 0xDAu8, 0x00u8, 0x0Cu8, 0x03u8, 0x01u8, 0x00u8, 0x02u8, 0x00u8, 0x03u8, 0x00u8, 0x00u8, 0x3Fu8, 0x00u8,
        0x28u8, 0xA2u8, 0x8Au8, 0x28u8, 0xA2u8, 0x8Au8, 0x28u8, 0xA2u8, 0x8Au8, 0xFFu8, 0xD9u8,
    ]
}

/// A decode-valid 16×16 mid-gray baseline JPEG (YCbCr 4:4:4, standard
/// Huffman tables, unit quantization, every block DC-only).
pub fn gray16_jpeg() -> (r: Vec<u8>)
    ensures
        r@ == gray16_jpeg_bytes(),
{
    let r: Vec<u8> = vec![
        0xFF, 0xD8, 0xFF, 0xDB, 0x00, 0x43, 0x00, 0x01, 0x01, 0x01, 0x01, 0x01, 0x01, 0x01, 0x01, 0x01,
        0x01, 0x01, 0x01, 0x01, 0x01, 0x01, 0x01, 0x01, 0x01, 0x01, 0x01, 0x01, 0x01, 0x01, 0x01, 0x01,
        0x01, 0x01, 0x01, 0x01, 0x01, 0x01, 0x01, 0x01, 0x01, 0x01, 0x01, 0x01, 0x01, 0x01, 0x01, 0x01,
        0x01, 0x01, 0x01, 0x01, 0x01, 0x01, 0x01, 0x01, 0x01, 0x01, 0x01, 0x01, 0x01, 0x01, 0x01, 0x01,
        0x01, 0x01, 0x01, 0x01, 0x01, 0x01, 0x01, 0xFF, 0xC0, 0x00, 0x11, 0x08, 0x00, 0x10, 0x00, 0x10,
        0x03, 0x01, 0x11, 0x00, 0x02, 0x11, 0x00, 0x03, 0x11, 0x00, 0xFF, 0xC4, 0x00, 0x1F, 0x00, 0x00,
        0x01, 0x05, 0x01, 0x01, 0x01, 0x01, 0x01, 0x01, 0x00, 0x00, 0x00, 0x00, 0x00, 0x00, 0x00, 0x00,
        0x01, 0x02, 0x03, 0x04, 0x05, 0x06, 0x07, 0x08, 0x09, 0x0A, 0x0B, 0xFF, 0xC4, 0x00, 0xB5, 0x10,
        0x00, 0x02, 0x01, 0x03, 0x03, 0x02, 0x04, 0x03, 0x05, 0x05, 0x04, 0x04, 0x00, 0x00, 0x01, 0x7D,
        0x01, 0x02, 0x03, 0x00, 0x04, 0x11, 0x05, 0x12, 0x21, 0x31, 0x41, 0x06, 0x13, 0x51, 0x61, 0x07,
        0x22, 0x71, 0x14, 0x32, 0x81, 0x91, 0xA1, 0x08, 0x23, 0x42, 0xB1, 0xC1, 0x15, 0x52, 0xD1, 0xF0,
        0x24, 0x33, 0x62, 0x72, 0x82, 0x09, 0x0A, 0x16, 0x17, 0x18, 0x19, 0x1A, 0x25, 0x26, 0x27, 0x28,
        0x29, 0x2A, 0x34, 0x35, 0x36, 0x37, 0x38, 0x39, 0x3A, 0x43, 0x44, 0x45, 0x46, 0x47, 0x48, 0x49,
        0x4A, 0x53, 0x54, 0x55, 0x56, 0x57, 0x58, 0x59, 0x5A, 0x63, 0x64, 0x65, 0x66, 0x67, 0x68, 0x69,
        0x6A, 0x73, 0x74, 0x75, 0x76, 0x77, 0x78, 0x79, 0x7A, 0x83, 0x84, 0x85, 0x86, 0x87, 0x88, 0x89,
        0x8A, 0x92, 0x93, 0x94, 0x95, 0x96, 0x97, 0x98, 0x99, 0x9A, 0xA2, 0xA3, 0xA4, 0xA5, 0xA6, 0xA7,
        0xA8, 0xA9, 0xAA, 0xB2, 0xB3, 0xB4, 0xB5, 0xB6, 0xB7, 0xB8, 0xB9, 0xBA, 0xC2, 0xC3, 0xC4, 0xC5,
        0xC6, 0xC7, 0xC8, 0xC9, 0xCA, 0xD2, 0xD3, 0xD4, 0xD5, 0xD6, 0xD7, 0xD8, 0xD9, 0xDA, 0xE1, 0xE2,
        0xE3, 0xE4, 0xE5, 0xE6, 0xE7, 0xE8, 0xE9, 0xEA, 0xF1, 0xF2, 0xF3, 0xF4, 0xF5, 0xF6, 0xF7, 0xF8,
        0xF9, 0xFA, 0xFF, 0xDA, 0x00, 0x0C, 0x03, 0x01, 0x00, 0x02, 0x00, 0x03, 0x00, 0x00, 0x3F, 0x00,
        0x28, 0xA2, 0x8A, 0x28, 0xA2, 0x8A, 0x28, 0xA2, 0x8A, 0xFF, 0xD9,
    ];
    assert(r@ =~= gray16_jpeg_bytes());
    r
}

} // verus!

verus! {

/// An in-memory serial link: records everything written and replays
/// scripted reads. The recorded bytes are the basis for protocol-level
/// assertions.
pub struct MockSerial {
    written: Vec<u8>,
    to_read: VecDeque<u8>,
    baud: u32,
    calls: Ghost<Seq<LineCall>>,
}

/// What a [`MockSerial`] holds: the bytes written so far, the bytes still to
/// be read, and the last baud rate set.
pub struct MockSerialView {
    /// All bytes written, in order.
    pub written: Seq<u8>,
    /// Bytes to hand back from `read`, in order.
    pub to_read: Seq<u8>,
    /// Last baud rate set.
    pub baud: u32,
    /// Every transport call made on the mock, oldest first.
    pub calls: Seq<LineCall>,
}

impl View for MockSerial {
    type V = MockSerialView;

    closed spec fn view(&self) -> MockSerialView {
        MockSerialView { written: self.written@, to_read: self.to_read@, baud: self.baud, calls: self.calls@ }
    }
}

impl Default for MockSerial {
    /// An empty mock with no baud rate set.
    fn default() -> (r: MockSerial)
        ensures
            r@.written == Seq::<u8>::empty(),
            r@.to_read == Seq::<u8>::empty(),
            r@.baud == 0,
            r@.calls == Seq::<LineCall>::empty(),
    {
        MockSerial { written: Vec::new(), to_read: VecDeque::new(), baud: 0, calls: Ghost(Seq::empty()) }
    }
}

impl MockSerial {
    /// Creates an empty mock at the primary baud rate.
    pub fn new() -> (r: MockSerial)
        ensures
            r@.written == Seq::<u8>::empty(),
            r@.to_read == Seq::<u8>::empty(),
            r@.baud == BAUD_PRIMARY,
            r@.calls == Seq::<LineCall>::empty(),
    {
        MockSerial { written: Vec::new(), to_read: VecDeque::new(), baud: BAUD_PRIMARY, calls: Ghost(Seq::empty()) }
    }

    /// Queues bytes to be returned by future `read` calls.
    pub fn push_readable(&mut self, bytes: &[u8])
        ensures
            final(self)@.to_read == old(self)@.to_read + bytes@,
            final(self)@.written == old(self)@.written,
            final(self)@.baud == old(self)@.baud,
            final(self)@.calls == old(self)@.calls,
    {
        let mut i: usize = 0;
        while i < bytes.len()
            invariant
                i <= bytes@.len(),
                self.to_read@ == old(self).to_read@ + bytes@.take(i as int),
                self.written@ == old(self).written@,
                self.baud == old(self).baud,
                self.calls@ == old(self).calls@,
            decreases bytes@.len() - i,
        {
            self.to_read.push_back(bytes[i]);
            i = i + 1;
            assert(self.to_read@ =~= old(self).to_read@ + bytes@.take(i as int));
        }
        assert(bytes@.take(bytes@.len() as int) =~= bytes@);
    }

    /// Returns everything written so far.
    pub fn written(&self) -> (r: &[u8])
        ensures
            r@ == self@.written,
    {
        self.written.as_slice()
    }

    /// Returns the last baud rate set.
    pub fn baud(&self) -> (r: u32)
        ensures
            r == self@.baud,
    {
        self.baud
    }
}

impl SerialTransport for MockSerial {
    closed spec fn line_baud(&self) -> u32 {
        self.baud
    }

    closed spec fn call_log(&self) -> Option<Seq<LineCall>> {
        Some(self.calls@)
    }

    /// Records the bytes.
    fn write_all(&mut self, bytes: &[u8]) -> (r: Result<()>)
        ensures
            r is Ok,
            final(self)@.written == old(self)@.written + bytes@,
            final(self)@.to_read == old(self)@.to_read,
            final(self)@.baud == old(self)@.baud,
            final(self)@.calls == old(self)@.calls.push(
                (LineCall::Write { baud: old(self)@.baud, bytes: bytes@, err: None }),
            ),
    {
        let mut i: usize = 0;
        while i < bytes.len()
            invariant
                i <= bytes@.len(),
                self.written@ == old(self).written@ + bytes@.take(i as int),
                self.to_read@ == old(self).to_read@,
                self.baud == old(self).baud,
                self.calls@ == old(self).calls@,
            decreases bytes@.len() - i,
        {
            self.written.push(bytes[i]);
            i = i + 1;
            assert(self.written@ =~= old(self).written@ + bytes@.take(i as int));
        }
        assert(bytes@.take(bytes@.len() as int) =~= bytes@);
        self.calls = Ghost(
            self.calls@.push(LineCall::Write { baud: self.baud, bytes: bytes@, err: None }),
        );
        Ok(())
    }

    /// Hands back as many queued bytes as fit in `buf`.
    fn read(&mut self, buf: &mut [u8], timeout: std::time::Duration) -> (r: Result<usize>)
        ensures
            r matches Ok(n) && n == (if old(buf)@.len() <= old(self)@.to_read.len() {
                old(buf)@.len()
            } else {
                old(self)@.to_read.len()
            }) && final(buf)@ == old(self)@.to_read.take(n as int) + old(buf)@.skip(n as int)
                && final(self)@.to_read == old(self)@.to_read.skip(n as int)
                && final(self)@.calls == old(self)@.calls.push(
                (LineCall::Read {
                    baud: old(self)@.baud,
                    asked: old(buf)@.len() as usize,
                    bytes: old(self)@.to_read.take(n as int),
                    err: None,
                }),
            ),
            final(self)@.written == old(self)@.written,
            final(self)@.baud == old(self)@.baud,
    {
        let avail = self.to_read.len();
        let n: usize = if buf.len() <= avail {
            buf.len()
        } else {
            avail
        };
        let mut i: usize = 0;
        while i < n
            invariant
                i <= n <= old(buf)@.len(),
                n <= old(self).to_read@.len(),
                buf@.len() == old(buf)@.len(),
                buf@ == old(self).to_read@.take(i as int) + old(buf)@.skip(i as int),
                self.to_read@ == old(self).to_read@.skip(i as int),
                self.written@ == old(self).written@,
                self.baud == old(self).baud,
                self.calls@ == old(self).calls@,
            decreases n - i,
        {
            let b = match self.to_read.pop_front() {
                Some(b) => b,
                None => 0,
            };
            buf[i] = b;
            i = i + 1;
            assert(buf@ =~= old(self).to_read@.take(i as int) + old(buf)@.skip(i as int));
            assert(self.to_read@ =~= old(self).to_read@.skip(i as int));
        }
        self.calls = Ghost(
            self.calls@.push(
                LineCall::Read {
                    baud: self.baud,
                    asked: buf@.len() as usize,
                    bytes: old(self).to_read@.take(n as int),
                    err: None,
                },
            ),
        );
        proof {
            assert(buf@.take(n as int) =~= old(self).to_read@.take(n as int));
        }
        Ok(n)
    }

    fn set_baud_rate(&mut self, baud: u32) -> (r: Result<()>)
        ensures
            r is Ok,
            final(self)@.baud == baud,
            final(self)@.written == old(self)@.written,
            final(self)@.to_read == old(self)@.to_read,
            final(self)@.calls == old(self)@.calls.push((LineCall::SetBaud { baud, err: None })),
    {
        self.baud = baud;
        self.calls = Ghost(self.calls@.push(LineCall::SetBaud { baud, err: None }));
        Ok(())
    }
}

} // verus!

verus! {

/// A scripted fault the [`SimulatedVideoSource`] can inject, to exercise the
/// failure modes a real capture device exhibits.
#[derive(Clone, Copy, PartialEq, Eq, Structural, Debug)]
pub enum VideoFault {
    /// The next `next_frame` returns a timeout (no data within the deadline).
    Timeout,
    /// The next frame's payload is corrupt (e.g. truncated MJPEG).
    CorruptFrame,
    /// The device disappears mid-session: this and all later calls error.
    Disconnect,
}

/// A video source that emits synthetic frames on demand, with optional
/// scripted faults consumed in order, one per `next_frame` call.
pub struct SimulatedVideoSource {
    config: CaptureConfig,
    started: bool,
    frames: u64,
    faults: VecDeque<VideoFault>,
    disconnected: bool,
}

/// What a [`SimulatedVideoSource`] holds.
pub struct SimulatedVideoView {
    /// The active configuration.
    pub config: CaptureConfig,
    /// Streaming has been started (and not stopped).
    pub started: bool,
    /// Frames produced so far.
    pub frames: u64,
    /// Faults still to be applied, in order.
    pub faults: Seq<VideoFault>,
    /// The device has disappeared.
    pub disconnected: bool,
}

impl View for SimulatedVideoSource {
    type V = SimulatedVideoView;

    closed spec fn view(&self) -> SimulatedVideoView {
        SimulatedVideoView {
            config: self.config,
            started: self.started,
            frames: self.frames,
            faults: self.faults@,
            disconnected: self.disconnected,
        }
    }
}

/// The payload of a synthetic frame: the gray JPEG, a truncated JPEG, a
/// mid-gray YUYV buffer of the configured size, or a one-byte YUYV buffer.
pub open spec fn synthetic_data(config: CaptureConfig, corrupt: bool) -> Seq<u8> {
    match (config.format, corrupt) {
        (PixelFormat::Mjpeg, false) => gray16_jpeg_bytes(),
        (PixelFormat::Mjpeg, true) => seq![0xFFu8, 0xD8u8],
        (PixelFormat::Yuyv, false) => Seq::new(
            (config.width as nat * 2 * config.height as nat),
            |i: int|
                if i % 2 == 0 {
                    0x7Fu8
                } else {
                    0x80u8
                },
        ),
        (PixelFormat::Yuyv, true) => seq![0x00u8],
    }
}

/// A synthetic frame `f` is the one produced as frame number `n` under
/// `config`: MJPEG frames report the JPEG's own 16×16 size when healthy,
/// YUYV frames are tightly packed at the configured size.
pub open spec fn is_synthetic_frame(f: Frame, config: CaptureConfig, n: u64, corrupt: bool) -> bool {
    let healthy_mjpeg = config.format == PixelFormat::Mjpeg && !corrupt;
    &&& f.format == config.format
    &&& f.width == if healthy_mjpeg {
        16
    } else {
        config.width
    }
    &&& f.height == if healthy_mjpeg {
        16
    } else {
        config.height
    }
    &&& f.bytes_per_line == if config.format == PixelFormat::Mjpeg {
        0
    } else {
        ((config.width as nat * 2) % 0x1_0000_0000) as u32
    }
    &&& f.color_range == ColorRange::Limited
    &&& f.color_space == if f.height >= 720 {
        ColorSpace::Bt709
    } else {
        ColorSpace::Bt601
    }
    &&& f.timestamp@ == (if n * 33 <= u64::MAX {
        n * 33
    } else {
        u64::MAX as int
    }) * 1_000_000
    &&& (config.width as nat * 2 * config.height as nat <= usize::MAX ==> f.data@ == synthetic_data(config, corrupt))
}

impl Default for SimulatedVideoSource {
    fn default() -> (r: SimulatedVideoSource)
        ensures
            r@.config == (CaptureConfig {
                width: 1920,
                height: 1080,
                fps: 30,
                format: PixelFormat::Mjpeg,
            }),
            !r@.started,
            r@.frames == 0,
            r@.faults == Seq::<VideoFault>::empty(),
            !r@.disconnected,
    {
        SimulatedVideoSource::with_config(CaptureConfig::default())
    }
}

/// A mid-gray packed YUYV buffer of `len` bytes.
fn gray_yuyv(len: usize) -> (r: Vec<u8>)
    ensures
        r@ == Seq::new(len as nat, |i: int| if i % 2 == 0 { 0x7Fu8 } else { 0x80u8 }),
{
    let mut v: Vec<u8> = Vec::new();
    let mut i: usize = 0;
    while i < len
        invariant
            i <= len,
            v@ == Seq::new(i as nat, |k: int| if k % 2 == 0 { 0x7Fu8 } else { 0x80u8 }),
        decreases len - i,
    {
        v.push(if i % 2 == 0 { 0x7F } else { 0x80 });
        i = i + 1;
        assert(v@ =~= Seq::new(i as nat, |k: int| if k % 2 == 0 { 0x7Fu8 } else { 0x80u8 }));
    }
    v
}

impl SimulatedVideoSource {
    /// Creates a simulated source with the default capture configuration.
    pub fn new() -> (r: SimulatedVideoSource)
        ensures
            r@.config == (CaptureConfig {
                width: 1920,
                height: 1080,
                fps: 30,
                format: PixelFormat::Mjpeg,
            }),
            !r@.started,
            r@.frames == 0,
            r@.faults == Seq::<VideoFault>::empty(),
            !r@.disconnected,
    {
        SimulatedVideoSource::default()
    }

    /// Creates a simulated source with a specific configuration.
    pub fn with_config(config: CaptureConfig) -> (r: SimulatedVideoSource)
        ensures
            r@.config == config,
            !r@.started,
            r@.frames == 0,
            r@.faults == Seq::<VideoFault>::empty(),
            !r@.disconnected,
    {
        SimulatedVideoSource {
            config,
            started: false,
            frames: 0,
            faults: VecDeque::new(),
            disconnected: false,
        }
    }

    /// Queues a fault to be applied on an upcoming `next_frame` call.
    pub fn inject(&mut self, fault: VideoFault)
        ensures
            final(self)@.faults == old(self)@.faults.push(fault),
            final(self)@.config == old(self)@.config,
            final(self)@.started == old(self)@.started,
            final(self)@.frames == old(self)@.frames,
            final(self)@.disconnected == old(self)@.disconnected,
    {
        self.faults.push_back(fault);
    }

    /// The synthetic frame for the current frame count. A configuration too
    /// large to address gives an empty YUYV buffer.
    fn synth_frame(&self, corrupt: bool) -> (r: Frame)
        ensures
            is_synthetic_frame(r, self.config, self.frames, corrupt),
    {
        let config = self.config;
        let (data, bytes_per_line) = match (config.format, corrupt) {
            (PixelFormat::Mjpeg, false) => (gray16_jpeg(), 0u32),
            (PixelFormat::Mjpeg, true) => (vec![0xFFu8, 0xD8u8], 0u32),
            (PixelFormat::Yuyv, false) => {
                let len = match (config.width as usize).checked_mul(2) {
                    Some(row) => match row.checked_mul(config.height as usize) {
                        Some(len) => len,
                        None => 0,
                    },
                    None => 0,
                };
                proof {
                    let (w, h) = (config.width as nat, config.height as nat);
                    if w * 2 * h <= usize::MAX {
                        if h > 0 {
                            assert(w * 2 <= w * 2 * h) by (nonlinear_arith)
                                requires
                                    h > 0,
                            ;
                        } else {
                            assert(w * 2 * h == 0) by (nonlinear_arith)
                                requires
                                    h == 0,
                            ;
                        }
                        assert(len == w * 2 * h);
                    }
                }
                (gray_yuyv(len), config.width.wrapping_mul(2))
            },
            (PixelFormat::Yuyv, true) => (vec![0x00u8], config.width.wrapping_mul(2)),
        };
        proof {
            if config.format == PixelFormat::Mjpeg && corrupt {
                assert(data@ =~= seq![0xFFu8, 0xD8u8]);
            }
            if config.format == PixelFormat::Yuyv && corrupt {
                assert(data@ =~= seq![0x00u8]);
            }
        }
        let (width, height) = if config.format == PixelFormat::Mjpeg && !corrupt {
            (16u32, 16u32)
        } else {
            (config.width, config.height)
        };
        let millis = match self.frames.checked_mul(33) {
            Some(m) => m,
            None => u64::MAX,
        };
        let f = Frame {
            format: config.format,
            width,
            height,
            bytes_per_line,
            color_range: ColorRange::Limited,
            color_space: if height >= 720 {
                ColorSpace::Bt709
            } else {
                ColorSpace::Bt601
            },
            timestamp: Duration::from_millis(millis),
            data,
        };
        f
    }
}

/// The error every call reports once the device is gone.
pub open spec fn disconnected_error(e: Error) -> bool {
    e matches Error::Video(m) && m@ == "device disconnected"@
}

impl VideoSource for SimulatedVideoSource {
    /// A single 1920×1080 MJPEG mode at 30 Hz.
    fn supported_formats(&self) -> (r: Result<Vec<FormatDesc>>)
        ensures
            r matches Ok(v) && v@.len() == 1 && v@[0].format == PixelFormat::Mjpeg && v@[0].width
                == 1920 && v@[0].height == 1080 && v@[0].frame_rates@ == seq![30u32],
    {
        let mut rates: Vec<u32> = Vec::new();
        rates.push(30);
        let mut out: Vec<FormatDesc> = Vec::new();
        out.push(FormatDesc { format: PixelFormat::Mjpeg, width: 1920, height: 1080, frame_rates: rates });
        Ok(out)
    }

    fn configure(&mut self, config: CaptureConfig) -> (r: Result<()>)
        ensures
            r is Ok,
            final(self)@.config == config,
            final(self)@.started == old(self)@.started,
            final(self)@.frames == old(self)@.frames,
            final(self)@.faults == old(self)@.faults,
            final(self)@.disconnected == old(self)@.disconnected,
    {
        self.config = config;
        Ok(())
    }

    fn active_config(&self) -> (r: Option<CaptureConfig>)
        ensures
            r == Some(self@.config),
    {
        Some(self.config)
    }

    fn start(&mut self) -> (r: Result<()>)
        ensures
            r is Ok,
            final(self)@.started,
            final(self)@.config == old(self)@.config,
            final(self)@.frames == old(self)@.frames,
            final(self)@.faults == old(self)@.faults,
            final(self)@.disconnected == old(self)@.disconnected,
    {
        self.started = true;
        Ok(())
    }

    fn stop(&mut self) -> (r: Result<()>)
        ensures
            r is Ok,
            !final(self)@.started,
            final(self)@.config == old(self)@.config,
            final(self)@.frames == old(self)@.frames,
            final(self)@.faults == old(self)@.faults,
            final(self)@.disconnected == old(self)@.disconnected,
    {
        self.started = false;
        Ok(())
    }

    /// A disconnected or unstarted source errors; otherwise the next queued
    /// fault applies (a timeout, a disconnection that sticks, or a corrupt
    /// frame), or a healthy frame is produced.
    fn next_frame(&mut self, timeout: std::time::Duration) -> (r: Result<Frame>)
        ensures
            final(self)@.config == old(self)@.config,
            final(self)@.started == old(self)@.started,
            old(self)@.disconnected ==> (r matches Err(e) && disconnected_error(e))
                && final(self)@ == old(self)@,
            !old(self)@.disconnected && !old(self)@.started ==> (r matches Err(Error::Video(m))
                && m@ == "capture not started"@) && final(self)@ == old(self)@,
            !old(self)@.disconnected && old(self)@.started ==> {
                let faults = old(self)@.faults;
                let rest = if faults.len() > 0 {
                    faults.drop_first()
                } else {
                    faults
                };
                let next = if old(self)@.frames < u64::MAX {
                    (old(self)@.frames + 1) as u64
                } else {
                    u64::MAX
                };
                &&& final(self)@.faults == rest
                &&& (faults.len() > 0 && faults[0] == VideoFault::Timeout) ==> (r matches Err(
                    Error::Timeout,
                )) && final(self)@.frames == old(self)@.frames && !final(self)@.disconnected
                &&& (faults.len() > 0 && faults[0] == VideoFault::Disconnect) ==> (r matches Err(e)
                    && disconnected_error(e)) && final(self)@.frames == old(self)@.frames
                    && final(self)@.disconnected
                &&& (faults.len() > 0 && faults[0] == VideoFault::CorruptFrame) ==> (r matches Ok(f)
                    && is_synthetic_frame(f, old(self)@.config, next, true)) && final(self)@.frames
                    == next && !final(self)@.disconnected
                &&& faults.len() == 0 ==> (r matches Ok(f) && is_synthetic_frame(
                    f,
                    old(self)@.config,
                    next,
                    false,
                )) && final(self)@.frames == next && !final(self)@.disconnected
            },
    {
        if self.disconnected {
            return Err(Error::Video("device disconnected".to_owned()));
        }
        if !self.started {
            return Err(Error::Video("capture not started".to_owned()));
        }
        match self.faults.pop_front() {
            Some(VideoFault::Timeout) => Err(Error::Timeout),
            Some(VideoFault::Disconnect) => {
                self.disconnected = true;
                Err(Error::Video("device disconnected".to_owned()))
            },
            Some(VideoFault::CorruptFrame) => {
                if self.frames < u64::MAX {
                    self.frames = self.frames + 1;
                }
                Ok(self.synth_frame(true))
            },
            None => {
                if self.frames < u64::MAX {
                    self.frames = self.frames + 1;
                }
                Ok(self.synth_frame(false))
            },
        }
    }
}

/// A scanner that reports a fixed list of devices.
pub struct FixtureScanner {
    /// Devices this scanner reports.
    pub devices: Vec<DeviceInfo>,
}

impl Default for FixtureScanner {
    fn default() -> (r: FixtureScanner)
        ensures
            r.devices@.len() == 0,
    {
        FixtureScanner { devices: Vec::new() }
    }
}

impl FixtureScanner {
    /// Creates a scanner reporting the given devices.
    pub fn new(devices: Vec<DeviceInfo>) -> (r: FixtureScanner)
        ensures
            r.devices == devices,
    {
        FixtureScanner { devices }
    }
}

impl DeviceScanner for FixtureScanner {
    /// A copy of the fixed list.
    fn scan(&self) -> (r: Result<Vec<DeviceInfo>>)
        ensures
            r matches Ok(v) && v@.len() == self.devices@.len(),
    {
        Ok(self.devices.clone())
    }
}

} // verus!

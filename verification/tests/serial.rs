use openterface::error::Result;
use openterface::protocol::ch9329::{frame, get_info};
use openterface::serial::{connect_with_fallback, is_probe_answer, SerialTransport, BAUD_FALLBACK, BAUD_PRIMARY};
use std::collections::VecDeque;
use std::time::Duration;

struct ScriptedSerial {
    baud: u32,
    responsive_bauds: Vec<u32>,
    pending: VecDeque<u8>,
    writes: usize,
}

impl ScriptedSerial {
    fn new(responsive_bauds: Vec<u32>) -> Self {
        Self { baud: 0, responsive_bauds, pending: VecDeque::new(), writes: 0 }
    }
}

impl SerialTransport for ScriptedSerial {
    fn line_baud(&self) -> u32 {
        self.baud
    }

    fn write_all(&mut self, bytes: &[u8]) -> Result<()> {
        self.writes += 1;
        if self.responsive_bauds.contains(&self.baud) && bytes == get_info().as_slice() {
            let resp = frame(0x81, &[0x01]);
            self.pending.extend(resp);
        }
        Ok(())
    }

    fn read(&mut self, buf: &mut [u8], _timeout: Duration) -> Result<usize> {
        let n = buf.len().min(self.pending.len());
        for slot in buf.iter_mut().take(n) {
            *slot = self.pending.pop_front().unwrap();
        }
        Ok(n)
    }

    fn set_baud_rate(&mut self, baud: u32) -> Result<()> {
        self.baud = baud;
        Ok(())
    }
}

#[test]
fn connects_at_primary_when_responsive() {
    let mut s = ScriptedSerial::new(vec![BAUD_PRIMARY]);
    let c = connect_with_fallback(&mut s, Duration::from_millis(10)).unwrap();
    assert_eq!(c.baud, BAUD_PRIMARY);
    assert!(c.target_responsive);
    assert_eq!(s.baud, BAUD_PRIMARY);
    assert_eq!(s.writes, 1);
}

#[test]
fn falls_back_to_9600() {
    let mut s = ScriptedSerial::new(vec![BAUD_FALLBACK]);
    let c = connect_with_fallback(&mut s, Duration::from_millis(10)).unwrap();
    assert_eq!(c.baud, BAUD_FALLBACK);
    assert!(c.target_responsive);
    assert_eq!(s.baud, BAUD_FALLBACK);
}

#[test]
fn silent_chip_defaults_to_primary_unverified() {
    let mut s = ScriptedSerial::new(vec![]);
    let c = connect_with_fallback(&mut s, Duration::from_millis(10)).unwrap();
    assert_eq!(c.baud, BAUD_PRIMARY);
    assert!(!c.target_responsive);
    assert_eq!(s.baud, BAUD_PRIMARY);
    assert_eq!(s.writes, 2);
}

#[test]
fn probe_answer_needs_a_valid_frame() {
    assert!(is_probe_answer(&frame(0x81, &[0x01])));
    assert!(!is_probe_answer(&[]));
    assert!(!is_probe_answer(&[0x57, 0xAB, 0x00, 0x81, 0x01, 0x01, 0x00]));
}

#[test]
fn silent_mock_is_probed_at_both_rates_then_left_at_primary() {
    let mut m = openterface::support::MockSerial::new();
    let c = connect_with_fallback(&mut m, Duration::from_millis(1)).unwrap();
    assert_eq!(c.baud, BAUD_PRIMARY);
    assert!(!c.target_responsive);
    let mut twice = get_info();
    twice.extend(get_info());
    assert_eq!(m.written(), twice.as_slice());
    assert_eq!(m.baud(), BAUD_PRIMARY);
}

#[test]
fn answering_mock_is_probed_once() {
    let mut m = openterface::support::MockSerial::new();
    m.push_readable(&frame(0x81, &[0x01]));
    let c = connect_with_fallback(&mut m, Duration::from_millis(1)).unwrap();
    assert_eq!(c.baud, BAUD_PRIMARY);
    assert!(c.target_responsive);
    assert_eq!(m.written(), get_info().as_slice());
}

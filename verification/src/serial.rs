//! Byte-level serial transport contract for the CH9329 link, plus the
//! connection / baud-fallback negotiation.
//!
//! [`SerialTransport`] only moves bytes: CH9329 framing lives in
//! [`crate::protocol::ch9329`] and write pacing in [`crate::pacing`].
//!
//! [`connect_with_fallback`] probes at 115200, falls back to 9600, and —
//! because some firmware silently ignores `GET_INFO` — treats a
//! non-responsive chip at the primary rate as a successful (if unverified)
//! connection rather than an error.

use std::time::Duration;
use vstd::prelude::*;

use crate::error::{Error, Result};
use crate::protocol::ch9329::{cmd, get_info, parse_response, spec_frame, spec_parse_response};

verus! {

/// Primary baud rate the CH9329 is opened at.
pub const BAUD_PRIMARY: u32 = 115_200;

/// Fallback baud rate used when the chip doesn't respond at [`BAUD_PRIMARY`].
pub const BAUD_FALLBACK: u32 = 9_600;

/// How many bytes one probe read asks for.
pub const PROBE_READ_LEN: usize = 64;

/// One call made on a [`SerialTransport`], as its record keeps it.
pub enum LineCall {
    /// `set_baud_rate(baud)`, and the error it returned, if any.
    SetBaud { baud: u32, err: Option<Error> },
    /// `write_all(bytes)` made while the line ran at `baud`, and its error.
    Write { baud: u32, bytes: Seq<u8>, err: Option<Error> },
    /// `read` into a buffer of `asked` bytes made while the line ran at
    /// `baud`: the bytes it handed out (none on error), and its error.
    Read { baud: u32, asked: usize, bytes: Seq<u8>, err: Option<Error> },
}

/// The error a call returned, if any.
pub open spec fn err_of<T>(r: Result<T>) -> Option<Error> {
    match r {
        Ok(_) => None,
        Err(e) => Some(e),
    }
}

/// The error recorded for a call, if any.
pub open spec fn call_err(c: LineCall) -> Option<Error> {
    match c {
        LineCall::SetBaud { err, .. } => err,
        LineCall::Write { err, .. } => err,
        LineCall::Read { err, .. } => err,
    }
}

/// The bytes a recorded read handed out (nothing for other calls).
pub open spec fn reply_of(c: LineCall) -> Seq<u8> {
    match c {
        LineCall::Read { bytes, .. } => bytes,
        _ => Seq::empty(),
    }
}

/// A raw, byte-oriented serial link.
///
/// `Send` is required so the transport can be owned by a dedicated writer
/// thread.
pub trait SerialTransport: Send {
    /// The baud rate the line is configured at.
    spec fn line_baud(&self) -> u32;

    /// The calls made on this transport so far, oldest first, for a
    /// transport that keeps such a record. A transport that keeps none
    /// reports `None`, and then the contracts below say nothing about it.
    closed spec fn call_log(&self) -> Option<Seq<LineCall>> {
        None
    }

    /// Writes the entire buffer, returning only once all bytes are flushed to
    /// the OS.
    fn write_all(&mut self, bytes: &[u8]) -> (r: Result<()>)
        ensures
            final(self).line_baud() == old(self).line_baud(),
            old(self).call_log() is Some ==> final(self).call_log() == Some(
                old(self).call_log()->0.push(
                    (LineCall::Write { baud: old(self).line_baud(), bytes: bytes@, err: err_of(r) }),
                ),
            ),
    ;

    /// Reads up to `buf.len()` bytes, blocking at most `timeout`. Returns the
    /// number of bytes read (`0` on timeout with no data).
    fn read(&mut self, buf: &mut [u8], timeout: Duration) -> (r: Result<usize>)
        ensures
            final(self).line_baud() == old(self).line_baud(),
            final(buf)@.len() == old(buf)@.len(),
            r matches Ok(n) ==> n <= old(buf)@.len(),
            old(self).call_log() is Some ==> final(self).call_log() == Some(
                old(self).call_log()->0.push(
                    (LineCall::Read {
                        baud: old(self).line_baud(),
                        asked: old(buf)@.len() as usize,
                        bytes: match r {
                            Ok(n) => final(buf)@.take(n as int),
                            Err(_) => Seq::empty(),
                        },
                        err: err_of(r),
                    }),
                ),
            ),
    ;

    /// Reconfigures the line baud rate (used by the open-time fallback).
    fn set_baud_rate(&mut self, baud: u32) -> (r: Result<()>)
        ensures
            r is Ok ==> final(self).line_baud() == baud,
            old(self).call_log() is Some ==> final(self).call_log() == Some(
                old(self).call_log()->0.push((LineCall::SetBaud { baud, err: err_of(r) })),
            ),
    ;
}

/// Outcome of [`connect_with_fallback`].
#[derive(Clone, Copy, PartialEq, Eq, Structural, Debug)]
pub struct Connection {
    /// The baud rate the link settled on.
    pub baud: u32,
    /// `true` if the chip answered `GET_INFO` (target verified responsive).
    /// `false` means the link is open but the chip did not answer — harmless
    /// on firmware that ignores `GET_INFO`.
    pub target_responsive: bool,
}

/// Whether bytes read after a `GET_INFO` request start with a valid CH9329
/// response frame.
pub fn is_probe_answer(bytes: &[u8]) -> (r: bool)
    ensures
        r == spec_parse_response(bytes@) is Some,
{
    parse_response(bytes).is_some()
}

/// The `GET_INFO` request that a probe writes.
pub open spec fn get_info_request() -> Seq<u8> {
    spec_frame(cmd::GET_INFO, Seq::empty())
}

/// Whether a reply read after a `GET_INFO` request starts with a valid CH9329
/// response frame.
pub open spec fn answers(reply: Seq<u8>) -> bool {
    spec_parse_response(reply) is Some
}

/// `after` is `before` with more calls appended.
pub open spec fn log_extends(before: Seq<LineCall>, after: Option<Seq<LineCall>>) -> bool {
    &&& after is Some
    &&& before.len() <= after->0.len()
    &&& after->0.take(before.len() as int) == before
}

/// The calls that `after` holds beyond `before`.
pub open spec fn log_added(before: Seq<LineCall>, after: Option<Seq<LineCall>>) -> Seq<LineCall> {
    after->0.skip(before.len() as int)
}

/// The calls one probe makes with the line at `baud`, and what it returns:
/// the `GET_INFO` request is written; if that succeeds, one read into a
/// [`PROBE_READ_LEN`]-byte buffer follows; the first error is returned at
/// once, else whether the bytes read are a valid response.
pub open spec fn probe_made(calls: Seq<LineCall>, baud: u32, r: Result<bool>) -> bool {
    &&& calls.len() >= 1
    &&& calls[0] == (LineCall::Write { baud, bytes: get_info_request(), err: call_err(calls[0]) })
    &&& match call_err(calls[0]) {
        Some(e) => calls.len() == 1 && r == Err::<bool, Error>(e),
        None => {
            &&& calls.len() == 2
            &&& calls[1] == (LineCall::Read {
                baud,
                asked: PROBE_READ_LEN,
                bytes: reply_of(calls[1]),
                err: call_err(calls[1]),
            })
            &&& reply_of(calls[1]).len() <= PROBE_READ_LEN
            &&& match call_err(calls[1]) {
                Some(e) => r == Err::<bool, Error>(e),
                None => r == Ok::<bool, Error>(
                    answers(reply_of(calls[1])),
                ),
            }
        },
    }
}

/// Sends `GET_INFO` and returns `true` if a valid CH9329 response arrives
/// within `timeout`.
fn probe_get_info<T: SerialTransport>(transport: &mut T, timeout: Duration) -> (r: Result<bool>)
    ensures
        final(transport).line_baud() == old(transport).line_baud(),
        old(transport).call_log() is Some ==> {
            &&& log_extends(old(transport).call_log()->0, final(transport).call_log())
            &&& probe_made(
                log_added(old(transport).call_log()->0, final(transport).call_log()),
                old(transport).line_baud(),
                r,
            )
        },
{
    let ghost log0 = transport.call_log();
    let request = get_info();
    let w = transport.write_all(request.as_slice());
    match w {
        Ok(()) => {},
        Err(e) => {
            proof {
                if log0 is Some {
                    let l = log0->0;
                    let after = transport.call_log()->0;
                    assert(after.take(l.len() as int) =~= l);
                    assert(after.skip(l.len() as int) =~= seq![after[l.len() as int]]);
                }
            }
            return Err(e);
        },
    }
    let ghost log1 = transport.call_log();
    let mut buf: Vec<u8> = vec![0u8; PROBE_READ_LEN];
    let rd = transport.read(buf.as_mut_slice(), timeout);
    let n = match rd {
        Ok(n) => n,
        Err(e) => {
            proof {
                if log0 is Some {
                    let l = log0->0;
                    let after = transport.call_log()->0;
                    assert(after.take(l.len() as int) =~= l);
                    assert(after.skip(l.len() as int) =~= seq![after[l.len() as int], after[l.len() + 1int]]);
                }
            }
            return Err(e);
        },
    };
    let reply = vstd::slice::slice_subrange(buf.as_slice(), 0, n);
    let answered = is_probe_answer(reply);
    proof {
        assert(reply@ =~= buf@.take(n as int));
        if log0 is Some {
            let l = log0->0;
            let after = transport.call_log()->0;
            assert(after.take(l.len() as int) =~= l);
            assert(after.skip(l.len() as int) =~= seq![after[l.len() as int], after[l.len() + 1int]]);
        }
    }
    Ok(answered)
}

/// The baud rate each call of the connect sequence is planned at: the
/// primary rate for the first probe and the final restore, the fallback
/// rate for the second probe.
pub open spec fn planned_baud(i: int) -> u32 {
    if i <= 2 || i == 6 {
        BAUD_PRIMARY
    } else {
        BAUD_FALLBACK
    }
}

/// Call `i` of the connect sequence is the one planned there: set the rate,
/// write `GET_INFO`, read the reply (once at the primary rate, once at the
/// fallback rate), then restore the primary rate.
pub open spec fn planned_call(c: LineCall, i: int) -> bool {
    match c {
        LineCall::SetBaud { baud, .. } => (i == 0 || i == 3 || i == 6) && baud == planned_baud(i),
        LineCall::Write { baud, bytes, .. } => (i == 1 || i == 4) && baud == planned_baud(i) && bytes
            == get_info_request(),
        LineCall::Read { baud, asked, bytes, .. } => (i == 2 || i == 5) && baud == planned_baud(i) && asked
            == PROBE_READ_LEN && bytes.len() <= PROBE_READ_LEN,
    }
}

/// The calls [`connect_with_fallback`] makes and what it returns: the planned
/// sequence, cut short at the first error, which is returned as it is; the
/// first probe's reply decides whether the fallback rate is tried, and the
/// result is the rate whose probe was answered, else the primary rate with
/// an unresponsive target.
pub open spec fn connect_trace(calls: Seq<LineCall>, r: Result<Connection>) -> bool {
    let n = calls.len() as int;
    &&& 1 <= n <= 7
    &&& forall|i: int| 0 <= i < n ==> planned_call(#[trigger] calls[i], i)
    &&& forall|i: int| 0 <= i < n - 1 ==> (#[trigger] call_err(calls[i])) is None
    &&& n > 3 ==> !answers(reply_of(calls[2]))
    &&& n > 6 ==> !answers(reply_of(calls[5]))
    &&& match call_err(calls[n - 1]) {
        Some(e) => r == Err::<Connection, Error>(e),
        None => if n == 3 {
            answers(reply_of(calls[2])) && r == Ok::<Connection, Error>(
                Connection { baud: BAUD_PRIMARY, target_responsive: true },
            )
        } else if n == 6 {
            answers(reply_of(calls[5])) && r == Ok::<Connection, Error>(
                Connection { baud: BAUD_FALLBACK, target_responsive: true },
            )
        } else {
            n == 7 && r == Ok::<Connection, Error>(Connection { baud: BAUD_PRIMARY, target_responsive: false })
        },
    }
}

proof fn lemma_one_call(before: Seq<LineCall>, after: Seq<LineCall>, c: LineCall)
    requires
        after == before.push(c),
    ensures
        log_extends(before, Some(after)),
        log_added(before, Some(after)) == seq![c],
{
    assert(after.take(before.len() as int) =~= before);
    assert(after.skip(before.len() as int) =~= seq![c]);
}

proof fn lemma_log_chain(a: Seq<LineCall>, b: Option<Seq<LineCall>>, c: Option<Seq<LineCall>>)
    requires
        log_extends(a, b),
        log_extends(b->0, c),
    ensures
        log_extends(a, c),
        log_added(a, c) == log_added(a, b) + log_added(b->0, c),
{
    let bb = b->0;
    let cc = c->0;
    assert(cc.take(a.len() as int) =~= bb.take(a.len() as int)) by {
        assert forall|i: int| 0 <= i < a.len() implies cc[i] == bb[i] by {
            assert(cc.take(bb.len() as int)[i] == bb[i]);
        }
    }
    assert forall|i: int| 0 <= i < cc.len() - a.len() implies cc.skip(a.len() as int)[i] == (
    bb.skip(a.len() as int) + cc.skip(bb.len() as int))[i] by {
        if i < bb.len() - a.len() {
            assert(cc.take(bb.len() as int)[a.len() + i] == bb[a.len() + i]);
        }
    }
    assert(log_added(a, c) =~= log_added(a, b) + log_added(b->0, c));
}

/// The two calls of a probe that returned `Ok`.
proof fn lemma_probe_ok(pr: Seq<LineCall>, baud: u32, a: bool)
    requires
        probe_made(pr, baud, Ok(a)),
    ensures
        pr == seq![
            LineCall::Write { baud, bytes: get_info_request(), err: None },
            LineCall::Read { baud, asked: PROBE_READ_LEN, bytes: reply_of(pr[1]), err: None },
        ],
        reply_of(pr[1]).len() <= PROBE_READ_LEN,
        a == answers(reply_of(pr[1])),
{
    assert(pr =~= seq![pr[0], pr[1]]);
}

/// The calls of a probe that returned an error.
proof fn lemma_probe_err(pr: Seq<LineCall>, baud: u32, e: Error)
    requires
        probe_made(pr, baud, Err(e)),
    ensures
        pr == seq![LineCall::Write { baud, bytes: get_info_request(), err: Some(e) }] || (pr == seq![
            LineCall::Write { baud, bytes: get_info_request(), err: None },
            LineCall::Read { baud, asked: PROBE_READ_LEN, bytes: reply_of(pr[1]), err: Some(e) },
        ] && reply_of(pr[1]).len() <= PROBE_READ_LEN),
{
    if call_err(pr[0]) is Some {
        assert(pr =~= seq![pr[0]]);
    } else {
        assert(pr =~= seq![pr[0], pr[1]]);
    }
}

/// Negotiates the CH9329 link: probe `GET_INFO` at 115200, then 9600.
///
/// - If the chip answers at either rate, returns that rate with
///   `target_responsive = true`.
/// - If neither answers, returns the **primary** rate with
///   `target_responsive = false` (the chip likely ignores `GET_INFO`; the
///   link is still usable for input).
///
/// Whatever is returned, the transport is left configured at the returned
/// rate. `probe_timeout` bounds each read attempt.
pub fn connect_with_fallback<T: SerialTransport>(transport: &mut T, probe_timeout: Duration) -> (r:
    Result<Connection>)
    ensures
        r matches Ok(c) ==> {
            &&& c.baud == BAUD_PRIMARY || c.baud == BAUD_FALLBACK
            &&& !c.target_responsive ==> c.baud == BAUD_PRIMARY
            &&& final(transport).line_baud() == c.baud
        },
        old(transport).call_log() is Some ==> {
            &&& log_extends(old(transport).call_log()->0, final(transport).call_log())
            &&& connect_trace(log_added(old(transport).call_log()->0, final(transport).call_log()), r)
        },
{
    let ghost log0 = transport.call_log();
    let ghost l0 = log0->0;
    let s1 = transport.set_baud_rate(BAUD_PRIMARY);
    let ghost log1 = transport.call_log();
    let ghost c1 = LineCall::SetBaud { baud: BAUD_PRIMARY, err: err_of(s1) };
    proof {
        if log0 is Some {
            lemma_one_call(l0, log1->0, c1);
        }
    }
    if let Err(e) = s1 {
        proof {
            if log0 is Some {
                assert(connect_trace(seq![c1], Err(e)));
            }
        }
        return Err(e);
    }
    let p1 = probe_get_info(transport, probe_timeout);
    let ghost log2 = transport.call_log();
    proof {
        if log0 is Some {
            lemma_log_chain(l0, log1, log2);
        }
    }
    let a1 = match p1 {
        Ok(a) => a,
        Err(e) => {
            proof {
                if log0 is Some {
                    let pr = log_added(log1->0, log2);
                    let t = seq![c1] + pr;
                    lemma_probe_err(pr, BAUD_PRIMARY, e);
                    if pr.len() == 1 {
                        assert(t =~= seq![c1, pr[0]]);
                    } else {
                        assert(t =~= seq![c1, pr[0], pr[1]]);
                    }
                    assert(connect_trace(t, Err(e)));
                }
            }
            return Err(e);
        },
    };
    let ghost pr1 = log_added(log1->0, log2);
    proof {
        if log0 is Some {
            lemma_probe_ok(pr1, BAUD_PRIMARY, a1);
        }
    }
    if a1 {
        proof {
            if log0 is Some {
                let t = seq![c1] + pr1;
                assert(t =~= seq![c1, pr1[0], pr1[1]]);
                assert(connect_trace(t, Ok(Connection { baud: BAUD_PRIMARY, target_responsive: true })));
            }
        }
        return Ok(Connection { baud: BAUD_PRIMARY, target_responsive: true });
    }
    let s2 = transport.set_baud_rate(BAUD_FALLBACK);
    let ghost log3 = transport.call_log();
    let ghost c2 = LineCall::SetBaud { baud: BAUD_FALLBACK, err: err_of(s2) };
    proof {
        if log0 is Some {
            lemma_one_call(log2->0, log3->0, c2);
            lemma_log_chain(l0, log2, log3);
        }
    }
    if let Err(e) = s2 {
        proof {
            if log0 is Some {
                let t = seq![c1] + pr1 + seq![c2];
                assert(t =~= seq![c1, pr1[0], pr1[1], c2]);
                assert(connect_trace(t, Err(e)));
            }
        }
        return Err(e);
    }
    let p2 = probe_get_info(transport, probe_timeout);
    let ghost log4 = transport.call_log();
    proof {
        if log0 is Some {
            lemma_log_chain(l0, log3, log4);
        }
    }
    let a2 = match p2 {
        Ok(a) => a,
        Err(e) => {
            proof {
                if log0 is Some {
                    let pr = log_added(log3->0, log4);
                    let t = seq![c1] + pr1 + seq![c2] + pr;
                    lemma_probe_err(pr, BAUD_FALLBACK, e);
                    if pr.len() == 1 {
                        assert(t =~= seq![c1, pr1[0], pr1[1], c2, pr[0]]);
                    } else {
                        assert(t =~= seq![c1, pr1[0], pr1[1], c2, pr[0], pr[1]]);
                    }
                    assert(connect_trace(t, Err(e)));
                }
            }
            return Err(e);
        },
    };
    let ghost pr2 = log_added(log3->0, log4);
    proof {
        if log0 is Some {
            lemma_probe_ok(pr2, BAUD_FALLBACK, a2);
        }
    }
    if a2 {
        proof {
            if log0 is Some {
                let t = seq![c1] + pr1 + seq![c2] + pr2;
                assert(t =~= seq![c1, pr1[0], pr1[1], c2, pr2[0], pr2[1]]);
                assert(connect_trace(t, Ok(Connection { baud: BAUD_FALLBACK, target_responsive: true })));
            }
        }
        return Ok(Connection { baud: BAUD_FALLBACK, target_responsive: true });
    }
    // No response at either rate: default to the primary rate and proceed.
    let s3 = transport.set_baud_rate(BAUD_PRIMARY);
    let ghost log5 = transport.call_log();
    let ghost c3 = LineCall::SetBaud { baud: BAUD_PRIMARY, err: err_of(s3) };
    let r = match s3 {
        Ok(()) => Ok(Connection { baud: BAUD_PRIMARY, target_responsive: false }),
        Err(e) => Err(e),
    };
    proof {
        if log0 is Some {
            lemma_one_call(log4->0, log5->0, c3);
            lemma_log_chain(l0, log4, log5);
            let t = seq![c1] + pr1 + seq![c2] + pr2 + seq![c3];
            assert(t =~= seq![c1, pr1[0], pr1[1], c2, pr2[0], pr2[1], c3]);
            assert(connect_trace(t, r));
        }
    }
    r
}

} // verus!

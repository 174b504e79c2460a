//! The interception layer itself.
//!
//! `RpcMiddleware` wraps the downstream dispatch of an RPC engine. Every
//! inbound request increments the transport's counter and is forwarded
//! untouched. Every individual call may, when diagnostic levels ask for it,
//! be given a sequence number and a rendered start line; its eventual
//! outcome may be given a rendered completion line, and is always handed
//! back exactly as the downstream stage produced it.
//!
//! The middleware never awaits: a call's start is observed before the
//! downstream stage runs, and its completion by whatever drives the
//! downstream future to its end. Those two moments are the two functions
//! here; the code that installs them into an engine's pipeline lives
//! outside this crate.

use crate::call::{spec_call_id, spec_call_method, spec_severity, CallInfo, OutputInfo, Severity};
use crate::metrics::RpcMetrics;
use crate::text::{request_line, response_line, spec_request_line, spec_response_line};
use vstd::prelude::*;
use vstd::string::StringExecFns;

verus! {

/// An RPC call as the engine hands it over; opaque here, read only by the
/// trusted serializer below.
#[verifier::external_type_specification]
#[verifier::external_body]
pub struct ExCall(jsonrpc_core::Call);

/// A call's outcome as the downstream stage produced it; opaque here,
/// passed through untouched and read only by the trusted serializer below.
#[verifier::external_type_specification]
#[verifier::external_body]
pub struct ExOutput(jsonrpc_core::Output);

/// The byte length of the JSON text `serde_json::to_string` gives a call —
/// a function of the call's value alone; absent where serialization fails.
pub uninterp spec fn spec_call_json_len(call: jsonrpc_core::Call) -> Option<usize>;

/// The byte length of the JSON text `serde_json::to_string` gives an
/// outcome — a function of the outcome's value alone; absent where
/// serialization fails.
pub uninterp spec fn spec_output_json_len(output: jsonrpc_core::Output) -> Option<usize>;

/// Relies on `serde_json::to_string`: measures the byte length of the
/// call's JSON text, a deterministic function of the call's value. A call
/// was deserialized from JSON upstream, so a refusal to serialize it back
/// is an invariant violation; it is reported as `None` rather than trusted
/// to be impossible.
#[verifier::external_body]
fn call_json_len(call: &jsonrpc_core::Call) -> (r: Option<usize>)
    ensures
        r == spec_call_json_len(*call),
{
    match serde_json::to_string(call) {
        Ok(text) => Some(text.len()),
        Err(_) => None,
    }
}

/// Relies on `serde_json::to_string`: measures the byte length of the
/// outcome's JSON text, a deterministic function of the outcome's value;
/// `None` where the outcome refuses to serialize.
#[verifier::external_body]
fn output_json_len(output: &jsonrpc_core::Output) -> (r: Option<usize>)
    ensures
        r == spec_output_json_len(*output),
{
    match serde_json::to_string(output) {
        Ok(text) => Some(text.len()),
        Err(_) => None,
    }
}

/// The counter value that follows `n`: one up, around to zero at the top,
/// as an atomic fetch-and-add would wrap.
pub open spec fn spec_wrapping_inc(n: usize) -> usize {
    if n == usize::MAX {
        0
    } else {
        (n + 1) as usize
    }
}

/// What observing a call's start produced.
pub struct StartReport {
    /// The call, exactly as it was handed in, to be forwarded downstream.
    pub call: jsonrpc_core::Call,
    /// The sequence number allocated to correlate this call's lines; absent
    /// when diagnostics were off and nothing is to be correlated.
    pub seq: Option<usize>,
    /// The start line to emit, if any.
    pub line: StartLine,
}

/// The start line of a call, or the reason there is none.
#[derive(Debug, PartialEq, Eq)]
pub enum StartLine {
    /// No line is to be emitted: diagnostics were off, or not fine enough
    /// to ask for payload sizes.
    Skipped,
    /// The line to emit, and the measured byte length it reports.
    Rendered {
        /// Byte length of the call's serialized form.
        len: usize,
        /// The rendered line.
        line: String,
    },
    /// The call refused to serialize: an invariant violation upstream code
    /// must treat as fatal to the diagnostic path.
    Unserializable,
}

/// The completion line of a call, or the reason there is none.
#[derive(Debug, PartialEq, Eq)]
pub enum FinishLine {
    /// No line is to be emitted: diagnostics were off, or the call was a
    /// notification and produced no outcome to report.
    Skipped,
    /// The line to emit, the severity to emit it at, and the measured byte
    /// length it reports.
    Rendered {
        /// `Debug` for a success, `Error` for a failure.
        severity: Severity,
        /// Byte length of the outcome's serialized form.
        len: usize,
        /// The rendered line.
        line: String,
    },
    /// The outcome refused to serialize: an invariant violation upstream
    /// code must treat as fatal to the diagnostic path.
    Unserializable,
}

/// Middleware for RPC calls.
pub struct RpcMiddleware {
    metrics: RpcMetrics,
    transport_label: String,
    counter: usize,
}

impl RpcMiddleware {
    /// The metrics this middleware reports to.
    pub closed spec fn spec_metrics(&self) -> RpcMetrics {
        self.metrics
    }

    /// The label under which this middleware counts requests.
    pub closed spec fn spec_transport_label(&self) -> Seq<char> {
        self.transport_label@
    }

    /// The sequence number the next observed call will take.
    pub closed spec fn spec_counter(&self) -> usize {
        self.counter
    }

    /// Create an instance of middleware.
    ///
    /// - `metrics`: Will be used to report statistics.
    /// - `transport_label`: The label that is used when reporting the statistics.
    pub fn new(metrics: RpcMetrics, transport_label: &str) -> (r: Self)
        ensures
            r.spec_metrics() == metrics,
            r.spec_transport_label() == transport_label@,
            r.spec_counter() == 0,
    {
        RpcMiddleware {
            metrics,
            transport_label: String::from_str(transport_label),
            counter: 0,
        }
    }

    /// Observes one inbound request, however many calls it batches.
    ///
    /// Hands back the request exactly as it came, for the caller to forward
    /// unconditionally — no transformation, no short-circuiting, no error
    /// introduced — together with the counting decision: the transport
    /// label to add one under, exactly when a counter was registered. The
    /// caller applies the decision through [`RpcMetrics::inc`]; without a
    /// counter there is nothing to apply.
    pub fn on_request<R>(&self, request: R) -> (r: (R, Option<String>))
        ensures
            r.0 == request,
            r.1 is Some <==> self.spec_metrics().has_counter(),
            r.1 matches Some(label) ==> label@ == self.spec_transport_label(),
    {
        let count_under = if self.metrics.counter_present() {
            Some(self.transport_label.clone())
        } else {
            None
        };
        (request, count_under)
    }

    /// Observes one call before it is forwarded downstream.
    ///
    /// With `debug` off (the coarse diagnostic level is inactive) this is a
    /// pure pass: no sequence number, no line, no counter movement, and
    /// `info` is never read — a caller on the disabled path need not build
    /// one. With `debug` on, the call takes the next sequence number. With
    /// `trace` also on (the fine diagnostic level), the call's serialized
    /// length is measured and the start line rendered from `info`, which
    /// must describe `call`; the call itself only the trusted serializer
    /// reads.
    ///
    /// Whatever is observed, the call comes back exactly as it went in, for
    /// the caller to forward downstream untouched.
    pub fn on_call_start(
        &mut self,
        call: jsonrpc_core::Call,
        info: Option<&CallInfo>,
        debug: bool,
        trace: bool,
    ) -> (r: StartReport)
        requires
            debug && trace ==> info is Some,
        ensures
            r.call == call,
            final(self).spec_metrics() == old(self).spec_metrics(),
            final(self).spec_transport_label() == old(self).spec_transport_label(),
            !debug ==> (final(self).spec_counter() == old(self).spec_counter() && r.seq is None
                && r.line is Skipped),
            debug ==> (r.seq == Some(old(self).spec_counter()) && final(self).spec_counter()
                == spec_wrapping_inc(old(self).spec_counter())),
            debug && !trace ==> r.line is Skipped,
            debug && trace ==> !(r.line is Skipped),
            debug && trace ==> (r.line is Unserializable <==> spec_call_json_len(call) is None),
            r.line matches StartLine::Rendered { len, line } ==> (info matches Some(ci) && Some(
                len,
            ) == spec_call_json_len(call) && line@ == spec_request_line(
                spec_call_id(*ci),
                old(self).spec_counter() as nat,
                spec_call_method(*ci),
                len as nat,
            )),
    {
        if !debug {
            return StartReport { call, seq: None, line: StartLine::Skipped };
        }
        let seq_no = self.counter;
        self.counter = if self.counter == usize::MAX {
            0
        } else {
            self.counter + 1
        };
        if !trace {
            return StartReport { call, seq: Some(seq_no), line: StartLine::Skipped };
        }
        match info {
            Some(ci) => {
                let req_id = ci.req_id();
                let method = ci.method_name();
                match call_json_len(&call) {
                    Some(len) => {
                        let line = request_line(&req_id, seq_no, method, len);
                        StartReport {
                            call,
                            seq: Some(seq_no),
                            line: StartLine::Rendered { len, line },
                        }
                    },
                    None => StartReport { call, seq: Some(seq_no), line: StartLine::Unserializable },
                }
            },
            None => {
                proof {
                    assert(false);
                }
                StartReport { call, seq: Some(seq_no), line: StartLine::Skipped }
            },
        }
    }
}

/// Observes one call's outcome and hands it back untouched.
///
/// The first component of the result is always exactly `output`: whatever
/// line is or is not rendered, the outcome the caller resolves to is the
/// one the downstream stage produced. A line is rendered only when `debug`
/// (the coarse diagnostic level) is on and an outcome exists at all — a
/// notification resolves to none and gets no completion line — and then it
/// exists unless the outcome refuses to serialize, reporting the measured
/// byte length of the outcome's JSON text. `info` must describe `output`,
/// which only the trusted serializer reads; `seq_no` and `method` are the
/// ones the call's start observed, and `elapsed_ms` the wall-clock
/// milliseconds since then.
pub fn on_call_finish(
    output: Option<jsonrpc_core::Output>,
    info: Option<&OutputInfo>,
    seq_no: usize,
    method: &str,
    elapsed_ms: u128,
    debug: bool,
) -> (r: (Option<jsonrpc_core::Output>, FinishLine))
    requires
        output is Some <==> info is Some,
    ensures
        r.0 == output,
        !debug ==> r.1 is Skipped,
        output is None ==> r.1 is Skipped,
        debug && output is Some ==> !(r.1 is Skipped),
        debug ==> (output matches Some(o) ==> (r.1 is Unserializable <==> spec_output_json_len(o)
            is None)),
        r.1 matches FinishLine::Rendered { severity, len, line } ==> (output matches Some(o)
            && (info matches Some(oi) && Some(len) == spec_output_json_len(o) && severity
            == spec_severity(*oi) && line@ == spec_response_line(
            *oi,
            seq_no as nat,
            method@,
            len as nat,
            elapsed_ms as nat,
        ))),
{
    match output {
        None => (None, FinishLine::Skipped),
        Some(o) => {
            if !debug {
                (Some(o), FinishLine::Skipped)
            } else {
                match info {
                    Some(oi) => {
                        match output_json_len(&o) {
                            Some(len) => {
                                let line = response_line(oi, seq_no, method, len, elapsed_ms);
                                let severity = oi.severity();
                                (Some(o), FinishLine::Rendered { severity, len, line })
                            },
                            None => (Some(o), FinishLine::Unserializable),
                        }
                    },
                    None => {
                        proof {
                            assert(false);
                        }
                        (Some(o), FinishLine::Skipped)
                    },
                }
            }
        },
    }
}

/// Sequence numbers issued during a burst of calls are pairwise distinct.
///
/// Each observed call takes the counter's current value and moves the
/// counter one up, so a burst of calls that does not wrap the counter
/// around observes the run `first, first + 1, ...` — and no two calls in
/// it observe the same number.
pub proof fn lemma_burst_sequence_numbers_distinct(issued: Seq<usize>, first: usize)
    requires
        forall|i: int| 0 <= i < issued.len() ==> issued[i] == first + i,
    ensures
        forall|i: int, j: int| 0 <= i < j < issued.len() ==> issued[i] != issued[j],
{
}

} // verus!

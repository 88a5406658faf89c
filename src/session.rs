//! The connection state machine: one TCP exchange driven tick by tick.
//!
//! The caller owns the network stack. On every tick it polls the stack,
//! reports what the endpoint can do now (`Status`), performs the `Action`
//! that comes back and reports its `Outcome`. All decisions (phase
//! transitions, timeouts, accumulation of the response) are made here.
//!
//! The timeout is the only bound on an exchange: it is checked on every
//! tick, and there is no cap on the number of ticks.
use vstd::prelude::*;
use vstd::string::*;
use vstd::utf8::*;

use crate::request::{request_text, HttpRequest};

verus! {

/// Why an exchange ended without a response.
#[derive(Clone, Copy, Debug, PartialEq, Eq, Structural)]
pub enum HttpError {
    DeviceUnavailable,
    ConnectError,
    SendError,
    RecvError,
    ConnectTimeout,
    RequestTimeout,
    ResponseTimeout,
}

impl HttpError {
    /// A short human-readable description.
    pub fn message(&self) -> (r: &'static str)
        ensures
            r@ == error_text(*self),
    {
        match self {
            HttpError::DeviceUnavailable => "Failed to create TUN/TAP interface after 3 attempts",
            HttpError::ConnectError => "Failed to connect",
            HttpError::SendError => "Failed to send HTTP request",
            HttpError::RecvError => "Failed to receive data",
            HttpError::ConnectTimeout => "Connection Timeout",
            HttpError::RequestTimeout => "Request Timeout",
            HttpError::ResponseTimeout => "Response Timeout",
        }
    }
}

/// The description that `HttpError::message` gives.
pub open spec fn error_text(e: HttpError) -> Seq<char> {
    match e {
        HttpError::DeviceUnavailable => "Failed to create TUN/TAP interface after 3 attempts"@,
        HttpError::ConnectError => "Failed to connect"@,
        HttpError::SendError => "Failed to send HTTP request"@,
        HttpError::RecvError => "Failed to receive data"@,
        HttpError::ConnectTimeout => "Connection Timeout"@,
        HttpError::RequestTimeout => "Request Timeout"@,
        HttpError::ResponseTimeout => "Response Timeout"@,
    }
}

/// The phase of an exchange.
#[derive(Clone, Copy, Debug, PartialEq, Eq, Structural)]
pub enum Phase {
    Connect,
    Request,
    Response,
    Done,
    Failed(HttpError),
}

/// What the endpoint reports on one tick, after the stack was polled.
#[derive(Clone, Copy, Debug, PartialEq, Eq, Structural)]
pub struct Status {
    pub active: bool,
    pub may_send: bool,
    pub can_recv: bool,
    pub may_recv: bool,
}

/// What the caller is to do on the endpoint during this tick.
#[derive(Clone, Copy, Debug, PartialEq, Eq, Structural)]
pub enum Action {
    /// Open the endpoint toward the server.
    Open,
    /// Write the bytes of `Session::pending` and report how many were taken.
    Transmit,
    /// Drain the receivable data and report it.
    Receive,
    /// Nothing this tick.
    Wait,
    /// The exchange is over.
    Stop,
}

/// The result of performing an action.
#[derive(Debug)]
pub enum Outcome {
    OpenFailed,
    Sent(usize),
    SendFailed,
    Received(Vec<u8>),
    ReceiveFailed,
}

/// Whether a phase is terminal.
pub open spec fn is_terminal(p: Phase) -> bool {
    p is Done || p is Failed
}

/// The phase that normally follows `p`.
pub open spec fn successor(p: Phase) -> Phase {
    match p {
        Phase::Connect => Phase::Request,
        Phase::Request => Phase::Response,
        _ => Phase::Done,
    }
}

/// A single legal move: stay, go one phase forward, or fail from a live
/// phase. Terminal phases never change.
pub open spec fn moves_forward(a: Phase, b: Phase) -> bool {
    if is_terminal(a) {
        b == a
    } else {
        b == a || b == successor(a) || b is Failed
    }
}

/// The timeout error of a live phase.
pub open spec fn timeout_error(p: Phase) -> HttpError {
    match p {
        Phase::Connect => HttpError::ConnectTimeout,
        Phase::Request => HttpError::RequestTimeout,
        _ => HttpError::ResponseTimeout,
    }
}

/// The decision of one tick: the next phase and the action to perform.
/// Completion is checked first, then the timeout, then progress.
pub open spec fn step_spec(p: Phase, st: Status, elapsed: int, timeout: u64) -> (Phase, Action) {
    if is_terminal(p) {
        (p, Action::Stop)
    } else if p is Response && !st.may_recv {
        (Phase::Done, Action::Stop)
    } else if elapsed > timeout {
        (Phase::Failed(timeout_error(p)), Action::Stop)
    } else {
        match p {
            Phase::Connect => if st.active && st.may_send {
                (Phase::Request, Action::Wait)
            } else if !st.active {
                (Phase::Connect, Action::Open)
            } else {
                (Phase::Connect, Action::Wait)
            },
            Phase::Request => if st.may_send {
                (Phase::Request, Action::Transmit)
            } else {
                (Phase::Request, Action::Wait)
            },
            _ => if st.can_recv {
                (Phase::Response, Action::Receive)
            } else {
                (Phase::Response, Action::Wait)
            },
        }
    }
}

/// Decides one tick, given the time elapsed since the exchange started.
pub fn step(phase: Phase, status: Status, elapsed: u64, timeout: u64) -> (r: (Phase, Action))
    ensures
        r == step_spec(phase, status, elapsed as int, timeout),
        moves_forward(phase, r.0),
{
    match phase {
        Phase::Done | Phase::Failed(_) => (phase, Action::Stop),
        _ => {
            if matches!(phase, Phase::Response) && !status.may_recv {
                (Phase::Done, Action::Stop)
            } else if elapsed > timeout {
                let e = match phase {
                    Phase::Connect => HttpError::ConnectTimeout,
                    Phase::Request => HttpError::RequestTimeout,
                    _ => HttpError::ResponseTimeout,
                };
                (Phase::Failed(e), Action::Stop)
            } else {
                match phase {
                    Phase::Connect => if status.active && status.may_send {
                        (Phase::Request, Action::Wait)
                    } else if !status.active {
                        (Phase::Connect, Action::Open)
                    } else {
                        (Phase::Connect, Action::Wait)
                    },
                    Phase::Request => if status.may_send {
                        (Phase::Request, Action::Transmit)
                    } else {
                        (Phase::Request, Action::Wait)
                    },
                    _ => if status.can_recv {
                        (Phase::Response, Action::Receive)
                    } else {
                        (Phase::Response, Action::Wait)
                    },
                }
            }
        }
    }
}


/// The text that stands for a received chunk that is not UTF-8.
pub open spec fn invalid_chunk_text() -> Seq<char> {
    "(invalid utf8)"@
}

/// The text that a received chunk adds to the response.
pub open spec fn chunk_text(bytes: Seq<u8>) -> Seq<char> {
    if valid_utf8(bytes) {
        decode_utf8(bytes)
    } else {
        invalid_chunk_text()
    }
}

/// The line recorded in the response once the endpoint is connected.
pub open spec fn connected_text() -> Seq<char> {
    "Connected to server.\n"@
}

/// Time between two clock readings, in milliseconds.
pub open spec fn elapsed_between(start: i64, now: i64) -> int {
    if now >= start {
        now - start
    } else {
        start - now
    }
}

/// Declares the standard library's UTF-8 error type.
#[verifier::external_type_specification]
#[verifier::external_body]
pub struct ExUtf8Error(core::str::Utf8Error);

/// Relies on `core::str::from_utf8`: it succeeds exactly on valid UTF-8,
/// and then views the same bytes as text.
pub assume_specification<'a>[ core::str::from_utf8 ](v: &'a [u8]) -> (r: Result<
    &'a str,
    core::str::Utf8Error,
>)
    ensures
        r is Ok <==> valid_utf8(v@),
        r is Ok ==> r->Ok_0.spec_bytes() == v@,
;

/// The abstract state of a `Session`.
pub struct SessionView {
    pub phase: Phase,
    pub request: Seq<u8>,
    pub sent: nat,
    pub response: Seq<char>,
    pub start: i64,
    pub timeout: u64,
}

/// One request/response exchange over a single endpoint.
pub struct Session {
    phase: Phase,
    request: Vec<u8>,
    sent: usize,
    response: String,
    start: i64,
    timeout: u64,
}

impl View for Session {
    type V = SessionView;

    closed spec fn view(&self) -> SessionView {
        SessionView {
            phase: self.phase,
            request: self.request@,
            sent: self.sent as nat,
            response: self.response@,
            start: self.start,
            timeout: self.timeout,
        }
    }
}

impl Session {
    /// Well-formedness: no more bytes sent than the request holds.
    pub open spec fn wf(&self) -> bool {
        self@.sent <= self@.request.len()
    }

    /// Starts the exchange of `request`, serialized once here, with the
    /// clock reading `start` (milliseconds).
    pub fn new(request: &HttpRequest, start: i64) -> (r: Session)
        ensures
            r.wf(),
            r@.phase == Phase::Connect,
            r@.request == encode_utf8(request_text(request@)),
            r@.sent == 0,
            r@.response == Seq::<char>::empty(),
            r@.start == start,
            r@.timeout == request@.timeout,
    {
        let text = request.construct_http_request();
        Session {
            phase: Phase::Connect,
            request: text.as_str().as_bytes_vec(),
            sent: 0,
            response: String::new(),
            start,
            timeout: request.timeout_millis(),
        }
    }

    /// The current phase.
    pub fn phase(&self) -> (r: Phase)
        ensures
            r == self@.phase,
    {
        self.phase
    }

    /// Whether the exchange is over.
    pub fn is_finished(&self) -> (r: bool)
        ensures
            r == is_terminal(self@.phase),
    {
        matches!(self.phase, Phase::Done | Phase::Failed(_))
    }

    /// The response accumulated so far.
    pub fn response(&self) -> (r: &String)
        ensures
            r@ == self@.response,
    {
        &self.response
    }

    /// The request bytes that the endpoint has not taken yet.
    pub fn pending(&self) -> (r: Vec<u8>)
        requires
            self.wf(),
        ensures
            r@ == self@.request.subrange(self@.sent as int, self@.request.len() as int),
    {
        let mut out: Vec<u8> = Vec::new();
        let mut i: usize = self.sent;
        while i < self.request.len()
            invariant
                self.sent <= i <= self.request.len(),
                out@ == self.request@.subrange(self.sent as int, i as int),
            decreases self.request.len() - i,
        {
            out.push(self.request[i]);
            i += 1;
            assert(out@ =~= self.request@.subrange(self.sent as int, i as int));
        }
        out
    }

    /// Decides one tick from the endpoint's status and the clock reading
    /// `now`. Entering the request phase records that the endpoint is
    /// connected.
    pub fn advance(&mut self, status: Status, now: i64) -> (r: Action)
        requires
            old(self).wf(),
        ensures
            final(self).wf(),
            (final(self)@.phase, r) == step_spec(
                old(self)@.phase,
                status,
                elapsed_between(old(self)@.start, now),
                old(self)@.timeout,
            ),
            moves_forward(old(self)@.phase, final(self)@.phase),
            final(self)@.response == if old(self)@.phase is Connect && final(self)@.phase is Request {
                old(self)@.response + connected_text()
            } else {
                old(self)@.response
            },
            final(self)@.request == old(self)@.request,
            final(self)@.sent == old(self)@.sent,
            final(self)@.start == old(self)@.start,
            final(self)@.timeout == old(self)@.timeout,
    {
        let diff: i128 = now as i128 - self.start as i128;
        let elapsed: u64 = if diff >= 0 {
            diff as u64
        } else {
            (-diff) as u64
        };
        let was_connecting = matches!(self.phase, Phase::Connect);
        let (next, action) = step(self.phase, status, elapsed, self.timeout);
        if was_connecting && matches!(next, Phase::Request) {
            self.response.append("Connected to server.\n");
        }
        self.phase = next;
        action
    }

    /// Records the outcome of the action of this tick. An outcome that
    /// does not belong to the current phase changes nothing.
    pub fn report(&mut self, outcome: Outcome)
        requires
            old(self).wf(),
        ensures
            final(self).wf(),
            moves_forward(old(self)@.phase, final(self)@.phase),
            final(self)@ == report_spec(old(self)@, outcome),
    {
        match outcome {
            Outcome::OpenFailed => {
                if matches!(self.phase, Phase::Connect) {
                    self.phase = Phase::Failed(HttpError::ConnectError);
                }
            },
            Outcome::Sent(n) => {
                if matches!(self.phase, Phase::Request) {
                    let remaining = self.request.len() - self.sent;
                    if n >= remaining {
                        self.sent = self.request.len();
                        self.phase = Phase::Response;
                    } else {
                        self.sent = self.sent + n;
                    }
                }
            },
            Outcome::SendFailed => {
                if matches!(self.phase, Phase::Request) {
                    self.phase = Phase::Failed(HttpError::SendError);
                }
            },
            Outcome::Received(bytes) => {
                if matches!(self.phase, Phase::Response) {
                    match core::str::from_utf8(bytes.as_slice()) {
                        Ok(text) => {
                            proof {
                                encode_utf8_decode_utf8(text@);
                            }
                            self.response.append(text);
                        },
                        Err(_) => {
                            self.response.append("(invalid utf8)");
                        },
                    }
                }
            },
            Outcome::ReceiveFailed => {
                if matches!(self.phase, Phase::Response) {
                    self.phase = Phase::Failed(HttpError::RecvError);
                }
            },
        }
    }

    /// The result of a finished exchange: the whole response, or the
    /// reason it failed.
    pub fn into_result(self) -> (r: Result<String, HttpError>)
        requires
            is_terminal(self@.phase),
        ensures
            self@.phase is Done ==> r is Ok && r->Ok_0@ == self@.response,
            self@.phase is Failed ==> r == Err::<String, HttpError>(self@.phase->Failed_0),
    {
        match self.phase {
            Phase::Failed(e) => Err(e),
            _ => Ok(self.response),
        }
    }
}

/// The state after reporting `outcome` in state `s`.
pub open spec fn report_spec(s: SessionView, outcome: Outcome) -> SessionView {
    match outcome {
        Outcome::OpenFailed => if s.phase is Connect {
            SessionView { phase: Phase::Failed(HttpError::ConnectError), ..s }
        } else {
            s
        },
        Outcome::Sent(n) => if s.phase is Request {
            if s.sent + n >= s.request.len() {
                SessionView { phase: Phase::Response, sent: s.request.len(), ..s }
            } else {
                SessionView { sent: (s.sent + n) as nat, ..s }
            }
        } else {
            s
        },
        Outcome::SendFailed => if s.phase is Request {
            SessionView { phase: Phase::Failed(HttpError::SendError), ..s }
        } else {
            s
        },
        Outcome::Received(bytes) => if s.phase is Response {
            SessionView { response: s.response + chunk_text(bytes@), ..s }
        } else {
            s
        },
        Outcome::ReceiveFailed => if s.phase is Response {
            SessionView { phase: Phase::Failed(HttpError::RecvError), ..s }
        } else {
            s
        },
    }
}


/// Position of a phase in an exchange; a failure ranks after everything.
pub open spec fn phase_rank(p: Phase) -> nat {
    match p {
        Phase::Connect => 0,
        Phase::Request => 1,
        Phase::Response => 2,
        Phase::Done => 3,
        Phase::Failed(_) => 4,
    }
}

/// A sequence of phases in which each one is a legal move from the previous.
pub open spec fn legal_trace(trace: Seq<Phase>) -> bool {
    forall|t: int| 0 <= t < trace.len() - 1 ==> moves_forward(#[trigger] trace[t], trace[t + 1])
}

proof fn lemma_move_rank(a: Phase, b: Phase)
    requires
        moves_forward(a, b),
    ensures
        phase_rank(a) <= phase_rank(b),
        phase_rank(a) == phase_rank(b) ==> a == b,
        !(b is Failed) ==> phase_rank(b) <= phase_rank(a) + 1,
{
}

proof fn lemma_rank_monotone(trace: Seq<Phase>, a: int, b: int)
    requires
        legal_trace(trace),
        0 <= a <= b < trace.len(),
    ensures
        phase_rank(trace[a]) <= phase_rank(trace[b]),
        phase_rank(trace[a]) == phase_rank(trace[b]) ==> trace[a] == trace[b],
    decreases b - a,
{
    if a < b {
        lemma_rank_monotone(trace, a, b - 1);
        lemma_move_rank(trace[b - 1], trace[b]);
    }
}

/// Along any sequence of legal moves no phase is left and later entered
/// again: every phase between two equal ones equals them.
pub proof fn lemma_no_phase_revisited(trace: Seq<Phase>, i: int, j: int, k: int)
    requires
        legal_trace(trace),
        0 <= i <= j <= k < trace.len(),
        trace[i] == trace[k],
    ensures
        trace[j] == trace[i],
{
    lemma_rank_monotone(trace, i, j);
    lemma_rank_monotone(trace, j, k);
}

proof fn lemma_reaches_rank(trace: Seq<Phase>, a: int, r: nat)
    requires
        legal_trace(trace),
        0 <= a < trace.len(),
        trace.last() is Done,
        phase_rank(trace[a]) <= r <= 3,
    ensures
        exists|t: int| a <= t < trace.len() && phase_rank(#[trigger] trace[t]) == r,
    decreases trace.len() - a,
{
    if phase_rank(trace[a]) < r {
        let n = trace.len() - 1;
        assert(a < n);
        lemma_move_rank(trace[a], trace[a + 1]);
        lemma_rank_monotone(trace, a + 1, n);
        lemma_reaches_rank(trace, a + 1, r);
    }
}

/// An exchange that starts connecting and ends done went through the
/// request phase and the response phase, in that order.
pub proof fn lemma_completed_exchange_is_linear(trace: Seq<Phase>)
    requires
        legal_trace(trace),
        trace.len() > 0,
        trace[0] is Connect,
        trace.last() is Done,
    ensures
        exists|i: int, j: int|
            0 < i < j < trace.len() - 1 && #[trigger] trace[i] is Request && #[trigger] trace[j] is Response,
{
    lemma_reaches_rank(trace, 0, 1);
    let i = choose|t: int| 0 <= t < trace.len() && phase_rank(#[trigger] trace[t]) == 1;
    lemma_reaches_rank(trace, i, 2);
    let j = choose|t: int| i <= t < trace.len() && phase_rank(#[trigger] trace[t]) == 2;
    let n = trace.len() - 1;
    lemma_rank_monotone(trace, j, n);
    assert(trace[i] is Request && trace[j] is Response);
}

/// While the endpoint is not active, the connect phase fails with
/// `ConnectTimeout` exactly when the elapsed time exceeds the timeout, and
/// before that it keeps trying to open the endpoint.
pub proof fn lemma_connect_timeout(status: Status, elapsed: int, timeout: u64)
    requires
        !status.active,
    ensures
        step_spec(Phase::Connect, status, elapsed, timeout).0 == Phase::Failed(HttpError::ConnectTimeout)
            <==> elapsed > timeout,
        elapsed <= timeout ==> step_spec(Phase::Connect, status, elapsed, timeout) == (
            Phase::Connect,
            Action::Open,
        ),
{
}

} // verus!

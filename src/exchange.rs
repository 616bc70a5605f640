//! One request/response exchange over a UDP socket, as a state machine.
//!
//! The exchange runs bind, connect, encode, transmit, receive and decode in
//! that order. At each stage it hands out the next [`Action`]; the caller
//! performs it and reports what happened as an [`Event`]. The first failure
//! ends the exchange with that error, and no later step is asked for.
use vstd::prelude::*;

use crate::udp::{destination_for, destination_of, Destination};

verus! {

/// The size of the receive buffer: the largest reply that can be decoded.
pub const RECV_BUFFER_LEN: usize = 4096;

/// The socket operation that failed.
#[derive(Debug, Clone, Copy, PartialEq, Eq)]
pub enum IoStep {
    Bind,
    Connect,
    Transmit,
    Receive,
}

/// Why an exchange failed.
#[derive(Debug, PartialEq, Eq)]
pub enum Error {
    /// A socket operation failed, with the system's message.
    Io(IoStep, String),
    /// Fewer bytes went out than the encoded request holds.
    ShortWrite { sent: usize, expected: usize },
    /// The request could not be encoded.
    Encode(String),
    /// The reply is not a well-formed response.
    Decode(String),
}

/// Where an exchange stands: the step whose outcome it waits for.
#[derive(Debug, Clone, Copy, PartialEq, Eq, Structural)]
pub enum Stage {
    Binding,
    Connecting,
    Encoding,
    /// Waiting for the transmission of a request of this many bytes.
    Transmitting(usize),
    Receiving,
    Decoding,
    Done,
}

/// What the caller reports after performing an action.
#[derive(Debug)]
pub enum Event<R> {
    /// A fresh socket is bound to the wildcard address on an ephemeral port.
    Bound,
    /// The socket is connected to the destination.
    Connected,
    /// The request was encoded to these bytes.
    Encoded(Vec<u8>),
    /// The request could not be encoded.
    EncodeFailed(String),
    /// This many bytes went out in one datagram.
    Sent(usize),
    /// One datagram arrived: the receive buffer and the length reported.
    Received(Vec<u8>, usize),
    /// The reply was decoded to this response.
    Decoded(R),
    /// The reply could not be decoded.
    DecodeFailed(String),
    /// The socket operation failed, with the system's message.
    IoFailed(String),
}

/// What the exchange asks the caller to do next.
#[derive(Debug)]
pub enum Action<R> {
    /// Open a fresh UDP socket bound to the IPv4 wildcard address, port 0.
    Bind,
    /// Connect the socket to this destination.
    Connect(Destination),
    /// Encode the request.
    Encode,
    /// Send these bytes as one datagram.
    Transmit(Vec<u8>),
    /// Block for one datagram, into a buffer of this many bytes.
    Receive(usize),
    /// Decode these bytes as a response.
    Decode(Vec<u8>),
    /// The exchange is over, with this outcome; the socket is dropped.
    Finish(Result<R, Error>),
}

/// Whether an exchange at `stage` takes `event`: the outcome of the step it
/// waits for, or the failure of that step. A finished exchange takes none.
pub open spec fn accepts<R>(stage: Stage, event: Event<R>) -> bool {
    match stage {
        Stage::Binding => event is Bound || event is IoFailed,
        Stage::Connecting => event is Connected || event is IoFailed,
        Stage::Encoding => event is Encoded || event is EncodeFailed,
        Stage::Transmitting(_) => event is Sent || event is IoFailed,
        Stage::Receiving => event is Received || event is IoFailed,
        Stage::Decoding => event is Decoded || event is DecodeFailed,
        Stage::Done => false,
    }
}

/// How many bytes of a reply are decoded: those reported received, within
/// the buffer and never past the receive buffer size.
pub open spec fn payload_len(buf_len: nat, received: nat) -> nat {
    let n = if received <= buf_len { received } else { buf_len };
    if n <= RECV_BUFFER_LEN { n } else { RECV_BUFFER_LEN as nat }
}

/// Whether an exchange with destination string `addr` at `stage` may go to
/// `next` and ask for `action` on `event`.
pub open spec fn transition<R>(
    addr: Seq<char>,
    stage: Stage,
    event: Event<R>,
    next: Stage,
    action: Action<R>,
) -> bool {
    match (stage, event) {
        (Stage::Binding, Event::Bound) => next == Stage::Connecting && (
        action matches Action::Connect(d) && destination_of(addr, d)),
        (Stage::Binding, Event::IoFailed(m)) => next == Stage::Done && (
        action matches Action::Finish(Err(Error::Io(IoStep::Bind, e))) && e@ == m@),
        (Stage::Connecting, Event::Connected) => next == Stage::Encoding && action is Encode,
        (Stage::Connecting, Event::IoFailed(m)) => next == Stage::Done && (
        action matches Action::Finish(Err(Error::Io(IoStep::Connect, e))) && e@ == m@),
        (Stage::Encoding, Event::Encoded(b)) => next == Stage::Transmitting(b.len()) && (
        action matches Action::Transmit(t) && t@ == b@),
        (Stage::Encoding, Event::EncodeFailed(m)) => next == Stage::Done && (
        action matches Action::Finish(Err(Error::Encode(e))) && e@ == m@),
        (Stage::Transmitting(k), Event::Sent(n)) => if n == k {
            next == Stage::Receiving && action == Action::<R>::Receive(RECV_BUFFER_LEN)
        } else {
            next == Stage::Done && action == Action::<R>::Finish(
                Err(Error::ShortWrite { sent: n, expected: k }),
            )
        },
        (Stage::Transmitting(_), Event::IoFailed(m)) => next == Stage::Done && (
        action matches Action::Finish(Err(Error::Io(IoStep::Transmit, e))) && e@ == m@),
        (Stage::Receiving, Event::Received(buf, n)) => next == Stage::Decoding && (
        action matches Action::Decode(p) && p@ == buf@.take(
            payload_len(buf@.len(), n as nat) as int,
        )),
        (Stage::Receiving, Event::IoFailed(m)) => next == Stage::Done && (
        action matches Action::Finish(Err(Error::Io(IoStep::Receive, e))) && e@ == m@),
        (Stage::Decoding, Event::Decoded(r)) => next == Stage::Done && action == Action::Finish(
            Ok::<R, Error>(r),
        ),
        (Stage::Decoding, Event::DecodeFailed(m)) => next == Stage::Done && (
        action matches Action::Finish(Err(Error::Decode(e))) && e@ == m@),
        _ => false,
    }
}

/// A failed bind ends the exchange with an I/O error of the bind step: the
/// exchange is done, takes no further event, and so never transmits.
pub proof fn lemma_bind_failure_transmits_nothing<R>(
    addr: Seq<char>,
    m: String,
    next: Stage,
    action: Action<R>,
)
    requires
        transition(addr, Stage::Binding, Event::<R>::IoFailed(m), next, action),
    ensures
        next == Stage::Done,
        action matches Action::Finish(Err(Error::Io(IoStep::Bind, e))) && e@ == m@,
        forall|e: Event<R>| !#[trigger] accepts(next, e),
{
}

/// Whatever length a receive reports, the bytes handed to the decoder are a
/// prefix of the receive buffer and never more than the buffer size.
pub proof fn lemma_decoded_bytes_fit_buffer<R>(
    addr: Seq<char>,
    buf: Vec<u8>,
    n: usize,
    next: Stage,
    action: Action<R>,
)
    requires
        transition(addr, Stage::Receiving, Event::<R>::Received(buf, n), next, action),
    ensures
        action matches Action::Decode(p) && p@.len() <= RECV_BUFFER_LEN && p@.len() <= n && p@
            =~= buf@.take(p@.len() as int),
{
}

/// A reply that fits the buffer reaches the decoder exactly as the peer sent
/// it: the first `n` bytes of the buffer, when `n` bytes were received.
pub proof fn lemma_reply_decoded_verbatim<R>(
    addr: Seq<char>,
    buf: Vec<u8>,
    n: usize,
    next: Stage,
    action: Action<R>,
)
    requires
        transition(addr, Stage::Receiving, Event::<R>::Received(buf, n), next, action),
        n <= buf@.len(),
        n <= RECV_BUFFER_LEN,
    ensures
        next == Stage::Decoding,
        action matches Action::Decode(p) && p@ == buf@.take(n as int),
{
}

/// The decoded reply is what the exchange returns, unchanged.
pub proof fn lemma_decoded_response_returned<R>(
    addr: Seq<char>,
    r: R,
    next: Stage,
    action: Action<R>,
)
    requires
        transition(addr, Stage::Decoding, Event::Decoded(r), next, action),
    ensures
        next == Stage::Done,
        action == Action::Finish(Ok::<R, Error>(r)),
{
}

/// One exchange of a UDP transport: its destination string and its stage.
pub struct Exchange {
    addr: String,
    stage: Stage,
}

impl Exchange {
    /// The destination string of the transport that began this exchange.
    pub closed spec fn addr_spec(&self) -> Seq<char> {
        self.addr@
    }

    /// The stage of this exchange.
    pub closed spec fn stage_spec(&self) -> Stage {
        self.stage
    }

    /// A new exchange towards `addr`, about to bind its socket.
    pub(crate) fn new(addr: String) -> (r: Self)
        ensures
            r.addr_spec() == addr@,
            r.stage_spec() == Stage::Binding,
    {
        Exchange { addr, stage: Stage::Binding }
    }

    /// The stage of this exchange.
    pub fn stage(&self) -> (s: Stage)
        ensures
            s == self.stage_spec(),
    {
        self.stage
    }

    /// Whether this exchange takes `event` now.
    pub fn accepts<R>(&self, event: &Event<R>) -> (r: bool)
        ensures
            r == accepts(self.stage_spec(), *event),
    {
        match self.stage {
            Stage::Binding => matches!(event, Event::Bound | Event::IoFailed(_)),
            Stage::Connecting => matches!(event, Event::Connected | Event::IoFailed(_)),
            Stage::Encoding => matches!(event, Event::Encoded(_) | Event::EncodeFailed(_)),
            Stage::Transmitting(_) => matches!(event, Event::Sent(_) | Event::IoFailed(_)),
            Stage::Receiving => matches!(event, Event::Received(..) | Event::IoFailed(_)),
            Stage::Decoding => matches!(event, Event::Decoded(_) | Event::DecodeFailed(_)),
            Stage::Done => false,
        }
    }

    /// Takes the outcome of the last action and says what to do next.
    pub fn step<R>(&mut self, event: Event<R>) -> (a: Action<R>)
        requires
            accepts(old(self).stage_spec(), event),
        ensures
            final(self).addr_spec() == old(self).addr_spec(),
            transition(old(self).addr_spec(), old(self).stage_spec(), event, final(self).stage_spec(), a),
    {
        match event {
            Event::Bound => {
                self.stage = Stage::Connecting;
                Action::Connect(destination_for(&self.addr))
            },
            Event::Connected => {
                self.stage = Stage::Encoding;
                Action::Encode
            },
            Event::Encoded(bytes) => {
                self.stage = Stage::Transmitting(bytes.len());
                Action::Transmit(bytes)
            },
            Event::EncodeFailed(m) => {
                self.stage = Stage::Done;
                Action::Finish(Err(Error::Encode(m)))
            },
            Event::Sent(n) => {
                let expected = match self.stage {
                    Stage::Transmitting(k) => k,
                    _ => 0,
                };
                if n == expected {
                    self.stage = Stage::Receiving;
                    Action::Receive(RECV_BUFFER_LEN)
                } else {
                    self.stage = Stage::Done;
                    Action::Finish(Err(Error::ShortWrite { sent: n, expected }))
                }
            },
            Event::Received(mut buf, n) => {
                let mut len = if n <= buf.len() { n } else { buf.len() };
                if len > RECV_BUFFER_LEN {
                    len = RECV_BUFFER_LEN;
                }
                buf.truncate(len);
                self.stage = Stage::Decoding;
                Action::Decode(buf)
            },
            Event::Decoded(r) => {
                self.stage = Stage::Done;
                Action::Finish(Ok(r))
            },
            Event::DecodeFailed(m) => {
                self.stage = Stage::Done;
                Action::Finish(Err(Error::Decode(m)))
            },
            Event::IoFailed(m) => {
                let step = match self.stage {
                    Stage::Binding => IoStep::Bind,
                    Stage::Connecting => IoStep::Connect,
                    Stage::Transmitting(_) => IoStep::Transmit,
                    _ => IoStep::Receive,
                };
                self.stage = Stage::Done;
                Action::Finish(Err(Error::Io(step, m)))
            },
        }
    }
}

} // verus!

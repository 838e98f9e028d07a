//! One client connection through the relay, as a state machine.
//!
//! The caller performs the I/O and reports what happened as an event; the
//! session answers with the next thing to do. A session reads the upstream
//! URL once, when the request is accepted, and keeps it to the end.
use vstd::prelude::*;
use crate::cell::{opt_view, StreamCell};
use crate::flv::{chunk_lacks_signature, header_prefix, lacks_signature, repair_first_chunk, repaired};
use crate::http::{
    is_live_request, is_live_request_bytes, not_found_bytes, not_found_response,
    stream_header_bytes, stream_response_header, unavailable_bytes, unavailable_response,
};

verus! {

/// Bytes in a mebibyte; throughput is reported each time the running total
/// crosses a multiple of it.
pub const RATE_REPORT_BYTES: u64 = 1048576;

/// Where a session stands.
#[derive(Clone, Copy, PartialEq, Eq, Debug, Structural)]
pub enum Phase {
    /// Waiting for the client's request.
    AwaitingRequest,
    /// The request was accepted; the upstream request is on its way.
    FetchingUpstream,
    /// The response header went out; the first upstream chunk is awaited.
    AwaitingFirstChunk,
    /// Relaying upstream chunks.
    Streaming,
    /// Done: nothing more is written.
    Closed,
}

/// Why a session ended without a response of its own.
#[derive(Clone, Copy, PartialEq, Eq, Debug, Structural)]
pub enum Ending {
    /// The outbound request failed.
    ConnectFailed,
    /// Reading the upstream body failed.
    UpstreamFailed,
    /// The upstream body ended.
    UpstreamEnded,
    /// The client went away (a broken pipe).
    ClientLeft,
    /// Writing to the client failed otherwise.
    ClientWriteFailed,
    /// An event that the session's phase does not expect.
    OutOfOrder,
}

/// What happened since the session's last step.
pub enum SessionEvent {
    /// Reading the client's request failed.
    RequestFailed,
    /// The upstream answered with a response whose body can be read.
    Connected,
    /// The upstream request failed.
    ConnectFailed,
    /// The next chunk of the upstream body.
    Chunk(Vec<u8>),
    /// Reading the upstream body failed.
    UpstreamFailed,
    /// The upstream body ended.
    UpstreamEnded,
    /// A write to the client failed with a broken pipe.
    ClientLeft,
    /// A write to the client failed otherwise.
    ClientWriteFailed,
}

/// What the caller does next.
pub enum SessionAction {
    /// Write these bytes to the client, then close the connection.
    Reply(Vec<u8>),
    /// Send a GET request to this URL with the upstream headers.
    Fetch(String),
    /// Write these bytes to the client and flush, then read the next
    /// upstream chunk; the flag asks for a throughput report.
    Write(Vec<u8>, bool),
    /// Close the connection.
    Close(Ending),
}

/// The mathematical form of an event.
pub ghost enum EventView {
    RequestFailed,
    Connected,
    ConnectFailed,
    Chunk(Seq<u8>),
    UpstreamFailed,
    UpstreamEnded,
    ClientLeft,
    ClientWriteFailed,
}

/// The mathematical form of an action.
pub ghost enum ActionView {
    Reply(Seq<u8>),
    Fetch(Seq<char>),
    Write(Seq<u8>, bool),
    Close(Ending),
}

impl View for SessionEvent {
    type V = EventView;

    open spec fn view(&self) -> EventView {
        match self {
            SessionEvent::RequestFailed => EventView::RequestFailed,
            SessionEvent::Connected => EventView::Connected,
            SessionEvent::ConnectFailed => EventView::ConnectFailed,
            SessionEvent::Chunk(c) => EventView::Chunk(c@),
            SessionEvent::UpstreamFailed => EventView::UpstreamFailed,
            SessionEvent::UpstreamEnded => EventView::UpstreamEnded,
            SessionEvent::ClientLeft => EventView::ClientLeft,
            SessionEvent::ClientWriteFailed => EventView::ClientWriteFailed,
        }
    }
}

impl View for SessionAction {
    type V = ActionView;

    open spec fn view(&self) -> ActionView {
        match self {
            SessionAction::Reply(b) => ActionView::Reply(b@),
            SessionAction::Fetch(u) => ActionView::Fetch(u@),
            SessionAction::Write(b, report) => ActionView::Write(b@, *report),
            SessionAction::Close(e) => ActionView::Close(*e),
        }
    }
}

/// The mathematical form of a session.
pub ghost struct SessionView {
    pub phase: Phase,
    /// The upstream URL read when the request was accepted.
    pub url: Option<Seq<char>>,
    /// Upstream body bytes counted so far (saturating).
    pub total: u64,
    /// Whether a header was put in front of the first chunk.
    pub injected: bool,
    /// The upstream body bytes taken in, in order.
    pub received: Seq<u8>,
    /// The body bytes handed out for the client, in order.
    pub forwarded: Seq<u8>,
}

/// A session that has not read its request yet.
pub open spec fn fresh() -> SessionView {
    SessionView {
        phase: Phase::AwaitingRequest,
        url: None,
        total: 0,
        injected: false,
        received: Seq::empty(),
        forwarded: Seq::empty(),
    }
}

pub open spec fn closed(v: SessionView) -> SessionView {
    SessionView { phase: Phase::Closed, ..v }
}

/// Whether going from `before` to `after` bytes crosses a mebibyte boundary.
pub open spec fn crosses_report_boundary(before: u64, after: u64) -> bool {
    before / RATE_REPORT_BYTES != after / RATE_REPORT_BYTES
}

/// `total + n`, held at `u64::MAX`.
pub open spec fn saturating_total(total: u64, n: nat) -> u64 {
    if total + n > u64::MAX {
        u64::MAX
    } else {
        (total + n) as u64
    }
}

/// Whether the phase is one in which upstream body bytes are relayed.
pub open spec fn relaying(p: Phase) -> bool {
    p == Phase::AwaitingFirstChunk || p == Phase::Streaming
}

/// The step taken on the client's request, given the cell's contents.
pub open spec fn accept_request(
    v: SessionView,
    request: Seq<u8>,
    cell: Option<Seq<char>>,
) -> (SessionView, ActionView) {
    if v.phase != Phase::AwaitingRequest {
        (closed(v), ActionView::Close(Ending::OutOfOrder))
    } else if !is_live_request(request) {
        (closed(v), ActionView::Reply(not_found_response()))
    } else {
        match cell {
            None => (closed(v), ActionView::Reply(unavailable_response())),
            Some(u) => (
                SessionView { phase: Phase::FetchingUpstream, url: Some(u), ..v },
                ActionView::Fetch(u),
            ),
        }
    }
}

/// The step taken on every other event.
pub open spec fn transition(v: SessionView, e: EventView) -> (SessionView, ActionView) {
    match e {
        EventView::RequestFailed => if v.phase == Phase::AwaitingRequest {
            (closed(v), ActionView::Reply(not_found_response()))
        } else {
            (closed(v), ActionView::Close(Ending::OutOfOrder))
        },
        EventView::Connected => if v.phase == Phase::FetchingUpstream {
            (
                SessionView { phase: Phase::AwaitingFirstChunk, ..v },
                ActionView::Write(stream_response_header(), false),
            )
        } else {
            (closed(v), ActionView::Close(Ending::OutOfOrder))
        },
        EventView::ConnectFailed => if v.phase == Phase::FetchingUpstream {
            (closed(v), ActionView::Close(Ending::ConnectFailed))
        } else {
            (closed(v), ActionView::Close(Ending::OutOfOrder))
        },
        EventView::Chunk(c) => if v.phase == Phase::AwaitingFirstChunk {
            (
                SessionView {
                    phase: Phase::Streaming,
                    total: saturating_total(v.total, c.len()),
                    injected: lacks_signature(c),
                    received: v.received + c,
                    forwarded: v.forwarded + repaired(c),
                    ..v
                },
                ActionView::Write(
                    repaired(c),
                    crosses_report_boundary(v.total, saturating_total(v.total, c.len())),
                ),
            )
        } else if v.phase == Phase::Streaming {
            let t = saturating_total(v.total, c.len());
            (
                SessionView {
                    total: t,
                    received: v.received + c,
                    forwarded: v.forwarded + c,
                    ..v
                },
                ActionView::Write(c, crosses_report_boundary(v.total, t)),
            )
        } else {
            (closed(v), ActionView::Close(Ending::OutOfOrder))
        },
        EventView::UpstreamFailed => if relaying(v.phase) {
            (closed(v), ActionView::Close(Ending::UpstreamFailed))
        } else {
            (closed(v), ActionView::Close(Ending::OutOfOrder))
        },
        EventView::UpstreamEnded => if relaying(v.phase) {
            (closed(v), ActionView::Close(Ending::UpstreamEnded))
        } else {
            (closed(v), ActionView::Close(Ending::OutOfOrder))
        },
        EventView::ClientLeft => if relaying(v.phase) {
            (closed(v), ActionView::Close(Ending::ClientLeft))
        } else {
            (closed(v), ActionView::Close(Ending::OutOfOrder))
        },
        EventView::ClientWriteFailed => if relaying(v.phase) {
            (closed(v), ActionView::Close(Ending::ClientWriteFailed))
        } else {
            (closed(v), ActionView::Close(Ending::OutOfOrder))
        },
    }
}

/// The relayed body is the upstream body, behind the header if one was put
/// in front; before the first chunk, nothing has been relayed.
pub open spec fn well_formed(v: SessionView) -> bool {
    &&& v.forwarded == header_prefix(v.injected) + v.received
    &&& (v.phase == Phase::AwaitingRequest || v.phase == Phase::FetchingUpstream
        || v.phase == Phase::AwaitingFirstChunk) ==> v.received.len() == 0 && !v.injected
    &&& v.phase != Phase::AwaitingRequest && v.phase != Phase::Closed ==> v.url is Some
}

/// What a session has relayed so far.
struct Progress {
    total: u64,
    injected: bool,
    received: Ghost<Seq<u8>>,
    forwarded: Ghost<Seq<u8>>,
}

/// One client connection through the relay.
pub struct RelaySession {
    phase: Phase,
    url: Option<String>,
    progress: Progress,
}

impl View for RelaySession {
    type V = SessionView;

    closed spec fn view(&self) -> SessionView {
        SessionView {
            phase: self.phase,
            url: opt_view(self.url),
            total: self.progress.total,
            injected: self.progress.injected,
            received: self.progress.received@,
            forwarded: self.progress.forwarded@,
        }
    }
}

impl RelaySession {
    #[verifier::type_invariant]
    spec fn inv(&self) -> bool {
        well_formed(self@)
    }

    /// A session for a connection that was just accepted.
    pub fn new() -> (r: Self)
        ensures
            r@ == fresh(),
            well_formed(r@),
    {
        let r = RelaySession {
            phase: Phase::AwaitingRequest,
            url: None,
            progress: Progress {
                total: 0,
                injected: false,
                received: Ghost(Seq::empty()),
                forwarded: Ghost(Seq::empty()),
            },
        };
        assert(r@.forwarded =~= header_prefix(false) + r@.received);
        r
    }

    pub fn phase(&self) -> (r: Phase)
        ensures
            r == self@.phase,
    {
        self.phase
    }

    /// The upstream URL this session relays, once its request was accepted.
    pub fn url(&self) -> (r: Option<String>)
        ensures
            opt_view(r) == self@.url,
    {
        match &self.url {
            Some(u) => Some(u.clone()),
            None => None,
        }
    }

    /// Upstream body bytes counted so far.
    pub fn total(&self) -> (r: u64)
        ensures
            r == self@.total,
    {
        self.progress.total
    }

    /// Whether the FLV header was put in front of the first chunk.
    pub fn injected_header(&self) -> (r: bool)
        ensures
            r == self@.injected,
    {
        self.progress.injected
    }

    fn close(&mut self)
        ensures
            final(self)@ == closed(old(self)@),
    {
        proof {
            use_type_invariant(&*self);
        }
        self.phase = Phase::Closed;
    }

    /// Takes the bytes read from the client. A request for the live stream
    /// reads the cell: with a URL there, the session keeps a copy and asks
    /// for it to be fetched; without one it answers 503. Any other request
    /// is answered with 404 and the cell is not consulted.
    pub fn on_request(&mut self, request: &[u8], cell: &StreamCell) -> (r: SessionAction)
        ensures
            (final(self)@, r@) == accept_request(old(self)@, request@, cell@),
            well_formed(final(self)@),
    {
        proof {
            use_type_invariant(&*self);
        }
        if self.phase != Phase::AwaitingRequest {
            self.close();
            return SessionAction::Close(Ending::OutOfOrder);
        }
        if !is_live_request_bytes(request) {
            self.close();
            return SessionAction::Reply(not_found_bytes());
        }
        match cell.snapshot() {
            None => {
                self.close();
                SessionAction::Reply(unavailable_bytes())
            },
            Some(u) => {
                let fetch = u.clone();
                self.url = Some(u);
                self.phase = Phase::FetchingUpstream;
                SessionAction::Fetch(fetch)
            },
        }
    }

    /// Takes any other event and answers with what to do next.
    pub fn step(&mut self, event: SessionEvent) -> (r: SessionAction)
        ensures
            (final(self)@, r@) == transition(old(self)@, event@),
            well_formed(final(self)@),
    {
        proof {
            use_type_invariant(&*self);
        }
        let phase = self.phase;
        match event {
            SessionEvent::RequestFailed => {
                self.close();
                if phase == Phase::AwaitingRequest {
                    SessionAction::Reply(not_found_bytes())
                } else {
                    SessionAction::Close(Ending::OutOfOrder)
                }
            },
            SessionEvent::Connected => {
                if phase == Phase::FetchingUpstream {
                    self.phase = Phase::AwaitingFirstChunk;
                    SessionAction::Write(stream_header_bytes(), false)
                } else {
                    self.close();
                    SessionAction::Close(Ending::OutOfOrder)
                }
            },
            SessionEvent::ConnectFailed => {
                self.close();
                if phase == Phase::FetchingUpstream {
                    SessionAction::Close(Ending::ConnectFailed)
                } else {
                    SessionAction::Close(Ending::OutOfOrder)
                }
            },
            SessionEvent::Chunk(c) => {
                if phase == Phase::AwaitingFirstChunk {
                    let lacks = chunk_lacks_signature(c.as_slice());
                    let out = repair_first_chunk(c.as_slice());
                    let before = self.progress.total;
                    let t = add_saturating(before, c.len());
                    let next = Progress {
                        total: t,
                        injected: lacks,
                        received: Ghost(self.progress.received@ + c@),
                        forwarded: Ghost(self.progress.forwarded@ + out@),
                    };
                    proof {
                        assert(next.forwarded@ =~= header_prefix(next.injected) + next.received@);
                    }
                    self.phase = Phase::Streaming;
                    self.progress = next;
                    SessionAction::Write(out, before / RATE_REPORT_BYTES != t / RATE_REPORT_BYTES)
                } else if phase == Phase::Streaming {
                    let before = self.progress.total;
                    let t = add_saturating(before, c.len());
                    let next = Progress {
                        total: t,
                        injected: self.progress.injected,
                        received: Ghost(self.progress.received@ + c@),
                        forwarded: Ghost(self.progress.forwarded@ + c@),
                    };
                    proof {
                        assert(next.forwarded@ =~= header_prefix(next.injected) + next.received@);
                    }
                    self.progress = next;
                    SessionAction::Write(c, before / RATE_REPORT_BYTES != t / RATE_REPORT_BYTES)
                } else {
                    self.close();
                    SessionAction::Close(Ending::OutOfOrder)
                }
            },
            SessionEvent::UpstreamFailed => {
                self.close();
                if phase == Phase::AwaitingFirstChunk || phase == Phase::Streaming {
                    SessionAction::Close(Ending::UpstreamFailed)
                } else {
                    SessionAction::Close(Ending::OutOfOrder)
                }
            },
            SessionEvent::UpstreamEnded => {
                self.close();
                if phase == Phase::AwaitingFirstChunk || phase == Phase::Streaming {
                    SessionAction::Close(Ending::UpstreamEnded)
                } else {
                    SessionAction::Close(Ending::OutOfOrder)
                }
            },
            SessionEvent::ClientLeft => {
                self.close();
                if phase == Phase::AwaitingFirstChunk || phase == Phase::Streaming {
                    SessionAction::Close(Ending::ClientLeft)
                } else {
                    SessionAction::Close(Ending::OutOfOrder)
                }
            },
            SessionEvent::ClientWriteFailed => {
                self.close();
                if phase == Phase::AwaitingFirstChunk || phase == Phase::Streaming {
                    SessionAction::Close(Ending::ClientWriteFailed)
                } else {
                    SessionAction::Close(Ending::OutOfOrder)
                }
            },
        }
    }
}

/// `total + n`, held at `u64::MAX`.
fn add_saturating(total: u64, n: usize) -> (r: u64)
    ensures
        r == saturating_total(total, n as nat),
{
    let n64 = n as u64;
    if total > u64::MAX - n64 {
        u64::MAX
    } else {
        total + n64
    }
}

} // verus!

//! What holds of a session over any run of events.
use vstd::prelude::*;
use crate::flv::{flv_header, header_prefix, lacks_signature, repaired};
use crate::http::{is_live_request, not_found_response, unavailable_response};
use crate::session::{
    accept_request, closed, fresh, relaying, transition, well_formed, ActionView, Ending,
    EventView, Phase, SessionView,
};

verus! {

/// The session after each event of `es` in turn.
pub open spec fn run(v: SessionView, es: Seq<EventView>) -> SessionView
    decreases es.len(),
{
    if es.len() == 0 {
        v
    } else {
        transition(run(v, es.drop_last()), es.last()).0
    }
}

/// The body bytes a step hands out: what it writes while relaying.
pub open spec fn written_by(v: SessionView, e: EventView) -> Seq<u8> {
    if relaying(v.phase) {
        match transition(v, e).1 {
            ActionView::Write(b, _) => b,
            _ => Seq::empty(),
        }
    } else {
        Seq::empty()
    }
}

/// The upstream bytes a step takes in: the chunk that arrives while relaying.
pub open spec fn read_by(v: SessionView, e: EventView) -> Seq<u8> {
    if relaying(v.phase) {
        match e {
            EventView::Chunk(c) => c,
            _ => Seq::empty(),
        }
    } else {
        Seq::empty()
    }
}

/// All body bytes written to the client over `es`, in order.
pub open spec fn body_written(v: SessionView, es: Seq<EventView>) -> Seq<u8>
    decreases es.len(),
{
    if es.len() == 0 {
        Seq::empty()
    } else {
        body_written(v, es.drop_last()) + written_by(run(v, es.drop_last()), es.last())
    }
}

/// All upstream bytes read over `es`, in order.
pub open spec fn body_read(v: SessionView, es: Seq<EventView>) -> Seq<u8>
    decreases es.len(),
{
    if es.len() == 0 {
        Seq::empty()
    } else {
        body_read(v, es.drop_last()) + read_by(run(v, es.drop_last()), es.last())
    }
}

/// A session whose request was accepted with `url` in the cell.
pub open spec fn accepted(url: Seq<char>) -> SessionView {
    SessionView { phase: Phase::FetchingUpstream, url: Some(url), ..fresh() }
}

/// One step keeps a session well formed, adds what it writes to the relayed
/// bytes, adds what it reads to the upstream bytes, and keeps the URL.
pub proof fn lemma_step(v: SessionView, e: EventView)
    requires
        well_formed(v),
    ensures
        well_formed(transition(v, e).0),
        transition(v, e).0.forwarded == v.forwarded + written_by(v, e),
        transition(v, e).0.received == v.received + read_by(v, e),
        transition(v, e).0.url == v.url,
{
    let n = transition(v, e).0;
    match e {
        EventView::Chunk(c) => {
            if v.phase == Phase::AwaitingFirstChunk {
                assert(v.forwarded =~= Seq::<u8>::empty());
                assert(v.received =~= Seq::<u8>::empty());
                assert(n.received =~= c);
                assert(n.forwarded =~= header_prefix(lacks_signature(c)) + c);
            } else if v.phase == Phase::Streaming {
                assert(n.forwarded =~= header_prefix(v.injected) + n.received);
            } else {
                assert(v.forwarded + written_by(v, e) =~= v.forwarded);
                assert(v.received + read_by(v, e) =~= v.received);
            }
        },
        _ => {
            assert(v.forwarded + written_by(v, e) =~= v.forwarded);
            assert(v.received + read_by(v, e) =~= v.received);
        },
    }
}

/// Over any run of events, the relayed bytes grow by exactly what is
/// written and the upstream bytes by exactly what is read.
pub proof fn lemma_run(v: SessionView, es: Seq<EventView>)
    requires
        well_formed(v),
    ensures
        well_formed(run(v, es)),
        run(v, es).forwarded == v.forwarded + body_written(v, es),
        run(v, es).received == v.received + body_read(v, es),
        run(v, es).url == v.url,
    decreases es.len(),
{
    if es.len() == 0 {
        assert(v.forwarded + body_written(v, es) =~= v.forwarded);
        assert(v.received + body_read(v, es) =~= v.received);
    } else {
        let prev = es.drop_last();
        lemma_run(v, prev);
        lemma_step(run(v, prev), es.last());
        assert(run(v, es).forwarded =~= v.forwarded + body_written(v, es));
        assert(run(v, es).received =~= v.received + body_read(v, es));
    }
}

/// Ordering: for any run of a session that is fetching its upstream, the
/// bytes written to the client after the response header are the upstream
/// bytes read, in the order read, with nothing dropped or repeated, behind
/// at most the one synthesized FLV header.
pub proof fn lemma_relay_order(url: Seq<char>, es: Seq<EventView>)
    ensures
        body_written(accepted(url), es) == header_prefix(run(accepted(url), es).injected) + body_read(
            accepted(url),
            es,
        ),
{
    let v = accepted(url);
    assert(v.forwarded =~= header_prefix(v.injected) + v.received);
    lemma_run(v, es);
    assert(v.forwarded + body_written(v, es) =~= body_written(v, es));
    assert(v.received + body_read(v, es) =~= body_read(v, es));
}

/// Signature repair through a session: when the first chunk starts with
/// `FLV`, it reaches the client unchanged; when it holds at least three other
/// bytes, it reaches the client behind exactly the minimal FLV header.
pub proof fn lemma_first_chunk(v: SessionView, c: Seq<u8>)
    requires
        v.phase == Phase::AwaitingFirstChunk,
    ensures
        transition(v, EventView::Chunk(c)).1 is Write,
        transition(v, EventView::Chunk(c)).1->Write_0 == repaired(c),
        c.len() >= 3 && !lacks_signature(c) ==> repaired(c) == c,
        lacks_signature(c) ==> repaired(c) == flv_header() + c,
{
}

/// A closed session stays closed: every event is answered with a plain
/// close, nothing is fetched and nothing more is written.
pub proof fn lemma_closed_stays_closed(v: SessionView, es: Seq<EventView>)
    requires
        v.phase == Phase::Closed,
    ensures
        run(v, es).phase == Phase::Closed,
        body_written(v, es) == Seq::<u8>::empty(),
        forall|e: EventView| #[trigger] transition(run(v, es), e).1 == ActionView::Close(Ending::OutOfOrder),
    decreases es.len(),
{
    if es.len() > 0 {
        lemma_closed_stays_closed(v, es.drop_last());
        assert(body_written(v, es) =~= Seq::<u8>::empty());
    }
}

/// Unconfigured: a request for the live stream that finds the cell empty is
/// answered with 503 and the session is closed; it never streams.
pub proof fn lemma_unconfigured(request: Seq<u8>, es: Seq<EventView>)
    requires
        is_live_request(request),
    ensures
        accept_request(fresh(), request, None) == (
            closed(fresh()),
            ActionView::Reply(unavailable_response()),
        ),
        run(closed(fresh()), es).phase == Phase::Closed,
        body_written(closed(fresh()), es) == Seq::<u8>::empty(),
{
    lemma_closed_stays_closed(closed(fresh()), es);
}

/// Wrong path: any request that does not ask for the live stream is
/// answered with 404 whatever the cell holds; no URL is taken, so no
/// upstream is contacted, and nothing is streamed afterwards.
pub proof fn lemma_wrong_path(request: Seq<u8>, cell: Option<Seq<char>>, es: Seq<EventView>)
    requires
        !is_live_request(request),
    ensures
        accept_request(fresh(), request, cell) == (
            closed(fresh()),
            ActionView::Reply(not_found_response()),
        ),
        run(closed(fresh()), es).url is None,
        run(closed(fresh()), es).phase == Phase::Closed,
        body_written(closed(fresh()), es) == Seq::<u8>::empty(),
{
    lemma_closed_stays_closed(closed(fresh()), es);
    lemma_run(closed(fresh()), es);
}

/// Snapshot: a session that accepted its request while the cell held `a`
/// fetches `a` and keeps `a` through any later events, whatever the cell is
/// set to meanwhile; a session that starts after the cell was set to `b`
/// fetches `b`.
pub proof fn lemma_snapshot(request: Seq<u8>, a: Seq<char>, b: Seq<char>, es: Seq<EventView>)
    requires
        is_live_request(request),
    ensures
        accept_request(fresh(), request, Some(a)) == (accepted(a), ActionView::Fetch(a)),
        run(accepted(a), es).url == Some(a),
        accept_request(fresh(), request, Some(b)).1 == ActionView::Fetch(b),
{
    assert(well_formed(accepted(a)));
    lemma_run(accepted(a), es);
}

/// Containment: a failure (a failed upstream request or read, the end of
/// the upstream body, a failed or broken write to the client) closes the
/// session it happens in and asks for nothing but closing that connection;
/// the step reads no other session and cannot change the URL cell.
pub proof fn lemma_failure_contained(v: SessionView, e: EventView)
    requires
        e == EventView::ConnectFailed || e == EventView::UpstreamFailed || e
            == EventView::UpstreamEnded || e == EventView::ClientLeft || e
            == EventView::ClientWriteFailed,
    ensures
        transition(v, e).0 == closed(v),
        transition(v, e).1 is Close,
{
}

} // verus!

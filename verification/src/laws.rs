use vstd::prelude::*;
use crate::frame::FrameModel;
use crate::session::{Event, Session, emit, step};

verus! {

/// The session reached from `s` by processing `evs` in order.
pub open spec fn run(s: Session, evs: Seq<Event>) -> Session
    decreases evs.len(),
{
    if evs.len() == 0 {
        s
    } else {
        run(step(s, evs[0]), evs.drop_first())
    }
}

/// The events' timestamps respect the monotone clock that produces them: no
/// inbound frame is stamped earlier than the liveness signal already recorded
/// when it arrives.
pub open spec fn clock_ok(s: Session, evs: Seq<Event>) -> bool
    decreases evs.len(),
{
    evs.len() == 0 || {
        let ok = match evs[0] {
            Event::Message(_, now) => now >= s.last_liveness,
            Event::Tick(_) => true,
            Event::TransportError => true,
        };
        ok && clock_ok(step(s, evs[0]), evs.drop_first())
    }
}

/// No event in `evs` sends a frame out.
pub open spec fn silent(s: Session, evs: Seq<Event>) -> bool
    decreases evs.len(),
{
    evs.len() == 0 || (emit(s, evs[0]) is None && silent(step(s, evs[0]), evs.drop_first()))
}

/// Law (liveness monotonicity): under a monotone clock, `last_liveness`
/// never decreases across any sequence of events.
pub proof fn lemma_liveness_monotone(s: Session, evs: Seq<Event>)
    requires
        clock_ok(s, evs),
    ensures
        run(s, evs).last_liveness >= s.last_liveness,
    decreases evs.len(),
{
    if evs.len() > 0 {
        lemma_liveness_monotone(step(s, evs[0]), evs.drop_first());
    }
}

/// Law (closure is final): a closed session is unchanged by any single event
/// and sends nothing in response to it.
pub proof fn lemma_closed_no_effect(s: Session, ev: Event)
    requires
        s.state is Closed,
    ensures
        step(s, ev) == s,
        emit(s, ev) is None,
{
}

/// Law (no activity after closure): once closed, a session stays closed and
/// sends nothing, whatever sequence of events arrives.
pub proof fn lemma_closed_stays_silent(s: Session, evs: Seq<Event>)
    requires
        s.state is Closed,
    ensures
        run(s, evs) == s,
        silent(s, evs),
    decreases evs.len(),
{
    if evs.len() > 0 {
        lemma_closed_no_effect(s, evs[0]);
        lemma_closed_stays_silent(step(s, evs[0]), evs.drop_first());
    }
}

/// Law (timeout closure): when the peer has been silent for longer than the
/// silence timeout, the next monitor tick closes the session and sends no
/// probe, and no frame is ever sent afterwards.
pub proof fn lemma_timeout_closes(s: Session, now: u64, evs: Seq<Event>)
    requires
        s.state is Active,
        now - s.last_liveness > s.silence_timeout,
    ensures
        step(s, Event::Tick(now)).state is Closed,
        emit(s, Event::Tick(now)) is None,
        run(step(s, Event::Tick(now)), evs) == step(s, Event::Tick(now)),
        silent(step(s, Event::Tick(now)), evs),
{
    lemma_closed_stays_silent(step(s, Event::Tick(now)), evs);
}

/// Law (idempotent close): an explicit close request or a transport error
/// arriving after the session is already closed changes nothing and sends
/// nothing.
pub proof fn lemma_close_idempotent(s: Session, reason: Option<Seq<char>>, now: u64)
    requires
        s.state is Closed,
    ensures
        step(s, Event::Message(FrameModel::Close(reason), now)) == s,
        emit(s, Event::Message(FrameModel::Close(reason), now)) is None,
        step(s, Event::TransportError) == s,
        emit(s, Event::TransportError) is None,
{
}

/// Law (echo fidelity): an active session answers a text or binary frame with
/// exactly one outbound frame of the same kind carrying the identical
/// payload, and the frame changes no session state.
pub proof fn lemma_echo_fidelity(s: Session, t: Seq<char>, b: Seq<u8>, now: u64)
    requires
        s.state is Active,
    ensures
        emit(s, Event::Message(FrameModel::Text(t), now)) == Some(FrameModel::Text(t)),
        step(s, Event::Message(FrameModel::Text(t), now)) == s,
        emit(s, Event::Message(FrameModel::Binary(b), now)) == Some(FrameModel::Binary(b)),
        step(s, Event::Message(FrameModel::Binary(b), now)) == s,
{
}

/// Law (probe acknowledgment symmetry): an active session answers a probe
/// request carrying `p` with exactly one acknowledgment carrying the same
/// `p`, records the request's arrival time as its liveness signal, and stays
/// active.
pub proof fn lemma_probe_ack_symmetry(s: Session, p: Seq<u8>, now: u64)
    requires
        s.state is Active,
    ensures
        emit(s, Event::Message(FrameModel::ProbeRequest(p), now))
            == Some(FrameModel::ProbeAck(p)),
        step(s, Event::Message(FrameModel::ProbeRequest(p), now)) == (Session {
            last_liveness: now,
            ..s
        }),
{
}

/// Every monitor tick in `evs` happens no later than one probe interval after
/// the liveness signal current at that point — the peer's acknowledgments
/// keep arriving at least once per probe interval — and the peer neither
/// closes the session nor fails the transport.
pub open spec fn probes_answered(s: Session, evs: Seq<Event>) -> bool
    decreases evs.len(),
{
    evs.len() == 0 || {
        let ok = match evs[0] {
            Event::Message(f, _) => !(f is Close),
            Event::Tick(now) => now - s.last_liveness <= s.probe_interval,
            Event::TransportError => false,
        };
        ok && probes_answered(step(s, evs[0]), evs.drop_first())
    }
}

/// Law (no false positive): on a session whose probe interval does not exceed
/// its silence timeout, the monitor never closes the session while
/// acknowledgments keep arriving at least once per probe interval.
pub proof fn lemma_no_false_positive(s: Session, evs: Seq<Event>)
    requires
        s.state is Active,
        s.probe_interval <= s.silence_timeout,
        probes_answered(s, evs),
    ensures
        run(s, evs).state is Active,
    decreases evs.len(),
{
    if evs.len() > 0 {
        lemma_no_false_positive(step(s, evs[0]), evs.drop_first());
    }
}

} // verus!

use vstd::prelude::*;
use crate::frame::{Frame, FrameModel, reply_model};

verus! {

/// Default cadence, in time-units, at which outbound liveness probes are sent.
pub const DEFAULT_PROBE_INTERVAL: u64 = 5;

/// Default maximum tolerated gap, in time-units, since the last liveness
/// signal before the peer is declared dead: twice the probe cadence, so one
/// missed probe is tolerated but not two.
pub const DEFAULT_SILENCE_TIMEOUT: u64 = 10;

/// Lifecycle of a session. The transition into `Closed` happens exactly once;
/// a closed session never handles or sends anything again.
#[derive(Clone, Copy, Debug, PartialEq, Eq, Structural)]
pub enum SessionState {
    /// Constructed at connection-accept time; the monitor is not running yet.
    Created,
    /// Activated: frames are handled and the monitor ticks.
    Active,
    /// Terminal: the connection handle is to be released, nothing further is sent.
    Closed,
}

/// The per-connection state machine: echoes application frames, answers
/// liveness probes, and decides on each monitor tick whether the peer has
/// been silent for too long.
///
/// The session itself performs no I/O: the caller owns the connection, hands
/// each inbound frame or timer tick to the session together with the current
/// time from a monotonic clock, and writes out the frame the session returns.
#[derive(Clone, Copy, Debug, PartialEq, Eq, Structural)]
pub struct Session {
    pub state: SessionState,
    /// Time of the last liveness signal (probe request or acknowledgment)
    /// observed from the peer; initially the time of session creation.
    pub last_liveness: u64,
    /// Cadence, in time-units, at which outbound probes are sent.
    pub probe_interval: u64,
    /// Maximum allowed gap since `last_liveness` before the session is
    /// considered dead.
    pub silence_timeout: u64,
}

/// One occurrence an activated session reacts to: an inbound frame stamped
/// with its arrival time, a monitor tick stamped with its time, or a failure
/// of the underlying transport.
pub enum Event {
    Message(FrameModel, u64),
    Tick(u64),
    TransportError,
}

/// State after an inbound frame `f` arriving at time `now`: liveness frames
/// record `now`, a close request ends the session, application data and
/// anything on a non-active session leave it unchanged.
pub open spec fn message_step(s: Session, f: FrameModel, now: u64) -> Session {
    if s.state is Active {
        match f {
            FrameModel::ProbeRequest(_) => Session { last_liveness: now, ..s },
            FrameModel::ProbeAck(_) => Session { last_liveness: now, ..s },
            FrameModel::Text(_) => s,
            FrameModel::Binary(_) => s,
            FrameModel::Close(_) => Session { state: SessionState::Closed, ..s },
        }
    } else {
        s
    }
}

/// The frame sent back for an inbound frame `f`: application data is echoed
/// unchanged, a probe request is acknowledged with the same payload, nothing
/// else answers, and a non-active session sends nothing.
pub open spec fn message_reply(s: Session, f: FrameModel) -> Option<FrameModel> {
    if s.state is Active {
        match f {
            FrameModel::ProbeRequest(p) => Some(FrameModel::ProbeAck(p)),
            FrameModel::ProbeAck(_) => None,
            FrameModel::Text(t) => Some(FrameModel::Text(t)),
            FrameModel::Binary(b) => Some(FrameModel::Binary(b)),
            FrameModel::Close(_) => None,
        }
    } else {
        None
    }
}

/// Whether, at time `now`, the peer has been silent for longer than the
/// session tolerates.
pub open spec fn silence_exceeded(s: Session, now: u64) -> bool {
    now - s.last_liveness > s.silence_timeout
}

/// State after a monitor tick at time `now`: an active session whose peer
/// exceeded the silence timeout closes; every other session is unchanged.
pub open spec fn tick_step(s: Session, now: u64) -> Session {
    if s.state is Active && silence_exceeded(s, now) {
        Session { state: SessionState::Closed, ..s }
    } else {
        s
    }
}

/// The probe sent on a monitor tick at time `now`: an active session within
/// the silence timeout sends one probe request with an empty payload; a
/// session that closes on this tick, or is not active, sends nothing.
pub open spec fn tick_probe(s: Session, now: u64) -> Option<FrameModel> {
    if s.state is Active && !silence_exceeded(s, now) {
        Some(FrameModel::ProbeRequest(Seq::empty()))
    } else {
        None
    }
}

/// State after a transport failure: closed, everything else kept.
pub open spec fn error_step(s: Session) -> Session {
    Session { state: SessionState::Closed, ..s }
}

/// The session after one event.
pub open spec fn step(s: Session, ev: Event) -> Session {
    match ev {
        Event::Message(f, now) => message_step(s, f, now),
        Event::Tick(now) => tick_step(s, now),
        Event::TransportError => error_step(s),
    }
}

/// The frame, if any, that one event sends out.
pub open spec fn emit(s: Session, ev: Event) -> Option<FrameModel> {
    match ev {
        Event::Message(f, _) => message_reply(s, f),
        Event::Tick(now) => tick_probe(s, now),
        Event::TransportError => None,
    }
}

impl Session {
    /// Creates the session for a just-accepted connection at time `now`.
    pub fn new(now: u64, probe_interval: u64, silence_timeout: u64) -> (s: Session)
        ensures
            s == (Session {
                state: SessionState::Created,
                last_liveness: now,
                probe_interval,
                silence_timeout,
            }),
    {
        Session {
            state: SessionState::Created,
            last_liveness: now,
            probe_interval,
            silence_timeout,
        }
    }

    /// Creates a session with the default probe cadence and silence timeout.
    pub fn with_defaults(now: u64) -> (s: Session)
        ensures
            s == (Session {
                state: SessionState::Created,
                last_liveness: now,
                probe_interval: DEFAULT_PROBE_INTERVAL,
                silence_timeout: DEFAULT_SILENCE_TIMEOUT,
            }),
    {
        Session::new(now, DEFAULT_PROBE_INTERVAL, DEFAULT_SILENCE_TIMEOUT)
    }

    /// Activation, once per session, when the transport is ready: records
    /// liveness at `now`. The caller then starts the recurring monitor that
    /// feeds [`Session::on_tick`].
    pub fn on_activate(&mut self, now: u64)
        requires
            old(self).state is Created,
        ensures
            *final(self) == (Session {
                state: SessionState::Active,
                last_liveness: now,
                ..*old(self)
            }),
    {
        self.state = SessionState::Active;
        self.last_liveness = now;
    }

    /// Handles one inbound frame arriving at time `now` and returns the frame
    /// to send back, if any: text and binary payloads are echoed unchanged, a
    /// probe request is acknowledged with its own payload and records
    /// liveness, an acknowledgment records liveness silently, and a close
    /// request ends the session. A session that is not active ignores the
    /// frame entirely.
    pub fn on_message(&mut self, frame: Frame, now: u64) -> (reply: Option<Frame>)
        ensures
            *final(self) == step(*old(self), Event::Message(frame@, now)),
            reply_model(reply) == emit(*old(self), Event::Message(frame@, now)),
    {
        match self.state {
            SessionState::Active => {}
            _ => {
                return None;
            }
        }
        match frame {
            Frame::ProbeRequest(p) => {
                self.last_liveness = now;
                Some(Frame::ProbeAck(p))
            }
            Frame::ProbeAck(_) => {
                self.last_liveness = now;
                None
            }
            Frame::Text(t) => Some(Frame::Text(t)),
            Frame::Binary(b) => Some(Frame::Binary(b)),
            Frame::Close(_) => {
                self.state = SessionState::Closed;
                None
            }
        }
    }

    /// One monitor tick at time `now`: if the peer has been silent for longer
    /// than `silence_timeout`, the session closes and no probe goes out —
    /// neither on this tick nor ever after; otherwise one probe request with
    /// an empty payload is returned for sending. A session that is not active
    /// does nothing, so a stray tick after closure never writes.
    pub fn on_tick(&mut self, now: u64) -> (probe: Option<Frame>)
        ensures
            *final(self) == step(*old(self), Event::Tick(now)),
            reply_model(probe) == emit(*old(self), Event::Tick(now)),
    {
        match self.state {
            SessionState::Active => {}
            _ => {
                return None;
            }
        }
        if now >= self.last_liveness && now - self.last_liveness > self.silence_timeout {
            self.state = SessionState::Closed;
            None
        } else {
            let empty: Vec<u8> = Vec::new();
            proof {
                assert(empty@ =~= Seq::<u8>::empty());
            }
            Some(Frame::ProbeRequest(empty))
        }
    }

    /// A failure of the underlying transport (reset, failed write): the
    /// session closes, exactly as on an explicit close request. Idempotent on
    /// an already closed session.
    pub fn on_transport_error(&mut self)
        ensures
            *final(self) == step(*old(self), Event::TransportError),
    {
        self.state = SessionState::Closed;
    }
}

} // verus!

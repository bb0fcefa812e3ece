//! Life cycle of a streaming session.
//!
//! A session is the span during which the audio streams of one start request
//! are open. The host performs the work on the devices; this module decides.
//! It hands out one serial number per start request, tells the host when a
//! session has to play, pause or release its streams, and never lets two
//! sessions hold the devices.

use vstd::prelude::*;

verus! {

/// Where the current session stands.
#[derive(Debug, Clone, Copy, PartialEq, Eq, Structural)]
pub enum SessionState {
    /// No session; the devices are free.
    Idle,
    /// A session was asked for; its streams are being opened.
    Starting,
    /// The streams are open and playing.
    Streaming,
    /// The session was told to stop and has not yet let go of its streams.
    Stopping,
}

/// What the host reports of a session.
#[derive(Debug, Clone, Copy, PartialEq, Eq, Structural)]
pub enum SessionEvent {
    /// The session's streams were opened.
    StreamsOpened,
    /// A device was not found or a stream could not be opened.
    StreamsFailed,
    /// The stop signal reached the session.
    StopSignal,
    /// The session's streams were paused.
    StreamsPaused,
}

/// What the host has to do for a session after an event.
#[derive(Debug, Clone, Copy, PartialEq, Eq, Structural)]
pub enum SessionAction {
    Nothing,
    /// Start the streams.
    Play,
    /// Pause the streams, then report `StreamsPaused`.
    Pause,
    /// Pause the streams if they play, close them and end the session.
    Release,
}

/// What a start request leads to.
#[derive(Debug, Clone, Copy, PartialEq, Eq, Structural)]
pub struct StartDecision {
    /// The session that has to be sent the stop signal first, if any.
    pub stop_previous: Option<u64>,
    /// The serial number of the session to open.
    pub session: u64,
}

/// The session control of an engine: the current session and its state.
#[derive(Debug, Clone, Copy, PartialEq, Eq, Structural)]
pub struct SessionControl {
    pub state: SessionState,
    /// Serial number of the current session, or of the last one when idle.
    pub serial: u64,
}

/// The serial number after `serial`.
pub open spec fn next_serial(serial: u64) -> u64 {
    if serial == u64::MAX {
        0
    } else {
        (serial + 1) as u64
    }
}

impl SessionControl {
    /// Whether a session is under way.
    pub open spec fn is_active(self) -> bool {
        self.state != SessionState::Idle
    }

    /// Whether the session with this serial number may hold the devices.
    pub open spec fn holds_devices(self, session: u64) -> bool {
        session == self.serial && (self.state == SessionState::Streaming || self.state
            == SessionState::Stopping)
    }

    /// The control after a start request.
    pub open spec fn spec_request_start(self) -> (SessionControl, StartDecision) {
        let session = next_serial(self.serial);
        (
            SessionControl { state: SessionState::Starting, serial: session },
            StartDecision {
                stop_previous: if self.is_active() {
                    Some(self.serial)
                } else {
                    None
                },
                session,
            },
        )
    }

    /// The control after the host reported `event` of `session`, and what the
    /// host has to do.
    pub open spec fn spec_on_event(self, session: u64, event: SessionEvent) -> (
        SessionControl,
        SessionAction,
    ) {
        if session != self.serial {
            // A session that was replaced lets go of whatever it holds.
            (self, SessionAction::Release)
        } else {
            match (self.state, event) {
                (SessionState::Starting, SessionEvent::StreamsOpened) => (
                    SessionControl { state: SessionState::Streaming, serial: self.serial },
                    SessionAction::Play,
                ),
                (SessionState::Starting, SessionEvent::StreamsFailed) => (
                    SessionControl { state: SessionState::Idle, serial: self.serial },
                    SessionAction::Nothing,
                ),
                (SessionState::Starting, SessionEvent::StopSignal) => (
                    SessionControl { state: SessionState::Stopping, serial: self.serial },
                    SessionAction::Nothing,
                ),
                (SessionState::Streaming, SessionEvent::StopSignal) => (
                    SessionControl { state: SessionState::Stopping, serial: self.serial },
                    SessionAction::Pause,
                ),
                (SessionState::Stopping, SessionEvent::StreamsOpened) => (
                    SessionControl { state: SessionState::Idle, serial: self.serial },
                    SessionAction::Release,
                ),
                (SessionState::Stopping, SessionEvent::StreamsFailed) => (
                    SessionControl { state: SessionState::Idle, serial: self.serial },
                    SessionAction::Nothing,
                ),
                (SessionState::Stopping, SessionEvent::StreamsPaused) => (
                    SessionControl { state: SessionState::Idle, serial: self.serial },
                    SessionAction::Nothing,
                ),
                _ => (self, SessionAction::Nothing),
            }
        }
    }

    /// A control with no session.
    pub fn new() -> (c: SessionControl)
        ensures
            c == (SessionControl { state: SessionState::Idle, serial: 0 }),
    {
        SessionControl { state: SessionState::Idle, serial: 0 }
    }

    /// The state of the current session.
    pub fn state(&self) -> (s: SessionState)
        ensures
            s == self.state,
    {
        self.state
    }

    /// The serial number of the current session.
    pub fn current(&self) -> (s: u64)
        ensures
            s == self.serial,
    {
        self.serial
    }

    /// Takes a start request. A session that is under way is replaced: the
    /// decision names it, the host sends it the stop signal, and from now on
    /// every event of it is answered with `Release`.
    pub fn request_start(&mut self) -> (d: StartDecision)
        ensures
            (*final(self), d) == old(self).spec_request_start(),
    {
        let stop_previous = match self.state {
            SessionState::Idle => None,
            _ => Some(self.serial),
        };
        let session: u64 = if self.serial == u64::MAX {
            0
        } else {
            self.serial + 1
        };
        self.state = SessionState::Starting;
        self.serial = session;
        StartDecision { stop_previous, session }
    }

    /// Takes an event that the host reports of `session`.
    pub fn on_event(&mut self, session: u64, event: SessionEvent) -> (a: SessionAction)
        ensures
            (*final(self), a) == old(self).spec_on_event(session, event),
    {
        if session != self.serial {
            return SessionAction::Release;
        }
        match (self.state, event) {
            (SessionState::Starting, SessionEvent::StreamsOpened) => {
                self.state = SessionState::Streaming;
                SessionAction::Play
            },
            (SessionState::Starting, SessionEvent::StreamsFailed) => {
                self.state = SessionState::Idle;
                SessionAction::Nothing
            },
            (SessionState::Starting, SessionEvent::StopSignal) => {
                self.state = SessionState::Stopping;
                SessionAction::Nothing
            },
            (SessionState::Streaming, SessionEvent::StopSignal) => {
                self.state = SessionState::Stopping;
                SessionAction::Pause
            },
            (SessionState::Stopping, SessionEvent::StreamsOpened) => {
                self.state = SessionState::Idle;
                SessionAction::Release
            },
            (SessionState::Stopping, SessionEvent::StreamsFailed) => {
                self.state = SessionState::Idle;
                SessionAction::Nothing
            },
            (SessionState::Stopping, SessionEvent::StreamsPaused) => {
                self.state = SessionState::Idle;
                SessionAction::Nothing
            },
            _ => SessionAction::Nothing,
        }
    }
}

/// At any time at most one session may hold the devices.
pub proof fn lemma_one_session_holds_devices(c: SessionControl, a: u64, b: u64)
    requires
        c.holds_devices(a),
        c.holds_devices(b),
    ensures
        a == b,
{
}

/// A start request while a session is under way stops that session: the
/// decision names it, the new session has another serial number, the old one
/// no longer holds the devices, and whatever it reports from then on is
/// answered with `Release`.
pub proof fn lemma_start_stops_previous(c: SessionControl)
    requires
        c.is_active(),
    ensures
        c.spec_request_start().1.stop_previous == Some(c.serial),
        c.spec_request_start().1.session != c.serial,
        c.spec_request_start().0.state == SessionState::Starting,
        !c.spec_request_start().0.holds_devices(c.serial),
        forall|e: SessionEvent| #[trigger]
            c.spec_request_start().0.spec_on_event(c.serial, e) == (
                c.spec_request_start().0,
                SessionAction::Release,
            ),
{
}

/// A start request while no session is under way stops nothing.
pub proof fn lemma_start_from_idle(c: SessionControl)
    requires
        !c.is_active(),
    ensures
        c.spec_request_start().1.stop_previous is None,
        c.spec_request_start().0.state == SessionState::Starting,
{
}

/// No event makes a second session hold the devices: only the current
/// session's own event can make it hold them, and an event never changes
/// which session is current.
pub proof fn lemma_events_keep_current(c: SessionControl, session: u64, e: SessionEvent)
    ensures
        c.spec_on_event(session, e).0.serial == c.serial,
        session != c.serial ==> c.spec_on_event(session, e).0 == c,
        c.spec_on_event(session, e).1 == SessionAction::Play ==> c.spec_on_event(
            session,
            e,
        ).0.holds_devices(session),
{
}

/// A session runs through its states in order: opened streams make a starting
/// session stream, the stop signal makes it stop, and paused streams end it.
pub proof fn lemma_session_life_cycle(c: SessionControl)
    requires
        c.state == SessionState::Starting,
    ensures
        ({
            let opened = c.spec_on_event(c.serial, SessionEvent::StreamsOpened);
            let stopped = opened.0.spec_on_event(c.serial, SessionEvent::StopSignal);
            let paused = stopped.0.spec_on_event(c.serial, SessionEvent::StreamsPaused);
            &&& opened.0.state == SessionState::Streaming
            &&& opened.1 == SessionAction::Play
            &&& stopped.0.state == SessionState::Stopping
            &&& stopped.1 == SessionAction::Pause
            &&& paused.0.state == SessionState::Idle
            &&& !paused.0.holds_devices(c.serial)
        }),
{
}

} // verus!

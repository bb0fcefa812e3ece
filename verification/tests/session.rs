use beatrice_lib::session::SessionAction;
use beatrice_lib::session::SessionControl;
use beatrice_lib::session::SessionEvent;
use beatrice_lib::session::SessionState;

#[test]
fn new_control_is_idle() {
    let c = SessionControl::new();
    assert_eq!(c.state(), SessionState::Idle);
    assert_eq!(c.current(), 0);
}

#[test]
fn session_runs_through_its_states() {
    let mut c = SessionControl::new();
    let d = c.request_start();
    assert_eq!(d.stop_previous, None);
    assert_eq!(d.session, 1);
    assert_eq!(c.state(), SessionState::Starting);
    assert_eq!(c.on_event(1, SessionEvent::StreamsOpened), SessionAction::Play);
    assert_eq!(c.state(), SessionState::Streaming);
    assert_eq!(c.on_event(1, SessionEvent::StopSignal), SessionAction::Pause);
    assert_eq!(c.state(), SessionState::Stopping);
    assert_eq!(c.on_event(1, SessionEvent::StreamsPaused), SessionAction::Nothing);
    assert_eq!(c.state(), SessionState::Idle);
}

#[test]
fn start_while_streaming_stops_previous_session() {
    let mut c = SessionControl::new();
    let first = c.request_start();
    c.on_event(first.session, SessionEvent::StreamsOpened);
    let second = c.request_start();
    assert_eq!(second.stop_previous, Some(first.session));
    assert_ne!(second.session, first.session);
    assert_eq!(c.state(), SessionState::Starting);
    assert_eq!(c.current(), second.session);
    // whatever the replaced session reports, it is told to let go
    for e in [
        SessionEvent::StreamsOpened,
        SessionEvent::StreamsFailed,
        SessionEvent::StopSignal,
        SessionEvent::StreamsPaused,
    ] {
        assert_eq!(c.on_event(first.session, e), SessionAction::Release);
        assert_eq!(c.state(), SessionState::Starting);
        assert_eq!(c.current(), second.session);
    }
}

#[test]
fn start_while_starting_stops_previous_session() {
    let mut c = SessionControl::new();
    let first = c.request_start();
    let second = c.request_start();
    assert_eq!(second.stop_previous, Some(first.session));
}

#[test]
fn failed_streams_end_the_session() {
    let mut c = SessionControl::new();
    let d = c.request_start();
    assert_eq!(c.on_event(d.session, SessionEvent::StreamsFailed), SessionAction::Nothing);
    assert_eq!(c.state(), SessionState::Idle);
    let again = c.request_start();
    assert_eq!(again.stop_previous, None);
}

#[test]
fn stop_before_streams_open_releases_them_when_they_open() {
    let mut c = SessionControl::new();
    let d = c.request_start();
    assert_eq!(c.on_event(d.session, SessionEvent::StopSignal), SessionAction::Nothing);
    assert_eq!(c.state(), SessionState::Stopping);
    assert_eq!(c.on_event(d.session, SessionEvent::StreamsOpened), SessionAction::Release);
    assert_eq!(c.state(), SessionState::Idle);
}

#[test]
fn events_out_of_place_change_nothing() {
    let mut c = SessionControl::new();
    assert_eq!(c.on_event(0, SessionEvent::StreamsOpened), SessionAction::Nothing);
    assert_eq!(c.on_event(0, SessionEvent::StopSignal), SessionAction::Nothing);
    assert_eq!(c.state(), SessionState::Idle);
    let d = c.request_start();
    assert_eq!(c.on_event(d.session, SessionEvent::StreamsPaused), SessionAction::Nothing);
    assert_eq!(c.state(), SessionState::Starting);
}

#[test]
fn serial_wraps_around() {
    let mut c = SessionControl { state: SessionState::Streaming, serial: u64::MAX };
    let d = c.request_start();
    assert_eq!(d.stop_previous, Some(u64::MAX));
    assert_eq!(d.session, 0);
}

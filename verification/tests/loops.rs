use hooker::network::sniffer::{
    capture_filter, capture_step, CaptureAction, CaptureEvent, CaptureState, CAPTURE_SNAPLEN,
    CAPTURE_TIMEOUT_MS,
};
use hooker::ts3_server_query::updater::{
    query_step, QueryAction, QueryEvent, QueryState, RECONCILE_INTERVAL_MS,
};

const CAPTURE_EVENTS: [CaptureEvent; 5] = [
    CaptureEvent::FilterInstalled,
    CaptureEvent::FilterRefused,
    CaptureEvent::Frame,
    CaptureEvent::Timeout,
    CaptureEvent::Failure,
];

#[test]
fn capture_settings() {
    assert_eq!(capture_filter(), "udp port 9987");
    assert_eq!(CAPTURE_SNAPLEN, 5000);
    assert_eq!(CAPTURE_TIMEOUT_MS, 1);
}

#[test]
fn capturing_starts_when_the_filter_is_installed() {
    assert_eq!(
        capture_step(CaptureState::Opened, CaptureEvent::FilterInstalled),
        (CaptureState::Capturing, CaptureAction::Poll)
    );
}

#[test]
fn an_interface_that_refuses_the_filter_is_given_up() {
    assert_eq!(
        capture_step(CaptureState::Opened, CaptureEvent::FilterRefused),
        (CaptureState::Stopped, CaptureAction::Stop)
    );
}

#[test]
fn a_frame_is_handled_and_a_timeout_is_no_error() {
    assert_eq!(
        capture_step(CaptureState::Capturing, CaptureEvent::Frame),
        (CaptureState::Capturing, CaptureAction::HandleFrame)
    );
    assert_eq!(
        capture_step(CaptureState::Capturing, CaptureEvent::Timeout),
        (CaptureState::Capturing, CaptureAction::Poll)
    );
}

#[test]
fn a_failure_ends_the_capture() {
    assert_eq!(
        capture_step(CaptureState::Capturing, CaptureEvent::Failure),
        (CaptureState::Stopped, CaptureAction::Stop)
    );
}

#[test]
fn a_capture_that_has_ended_stays_ended() {
    for event in CAPTURE_EVENTS {
        assert_eq!(
            capture_step(CaptureState::Stopped, event),
            (CaptureState::Stopped, CaptureAction::Stop)
        );
    }
}

#[test]
fn events_out_of_place_end_the_capture() {
    for event in [CaptureEvent::Frame, CaptureEvent::Timeout, CaptureEvent::Failure] {
        assert_eq!(
            capture_step(CaptureState::Opened, event),
            (CaptureState::Stopped, CaptureAction::Stop)
        );
    }
    for event in [CaptureEvent::FilterInstalled, CaptureEvent::FilterRefused] {
        assert_eq!(
            capture_step(CaptureState::Capturing, event),
            (CaptureState::Stopped, CaptureAction::Stop)
        );
    }
}

#[test]
fn the_interval_of_reconciliation() {
    assert_eq!(RECONCILE_INTERVAL_MS, 100);
}

#[test]
fn the_loop_connects_and_then_updates() {
    assert_eq!(
        query_step(QueryState::Disconnected, QueryEvent::Tick),
        (QueryState::Disconnected, QueryAction::Connect)
    );
    assert_eq!(
        query_step(QueryState::Disconnected, QueryEvent::ConnectSucceeded),
        (QueryState::Connected, QueryAction::Update)
    );
    assert_eq!(
        query_step(QueryState::Connected, QueryEvent::UpdateSucceeded),
        (QueryState::Connected, QueryAction::Sleep)
    );
    assert_eq!(
        query_step(QueryState::Connected, QueryEvent::Tick),
        (QueryState::Connected, QueryAction::Update)
    );
}

#[test]
fn a_failed_connection_is_tried_again_after_the_interval() {
    assert_eq!(
        query_step(QueryState::Disconnected, QueryEvent::ConnectFailed),
        (QueryState::Disconnected, QueryAction::Sleep)
    );
    assert_eq!(
        query_step(QueryState::Disconnected, QueryEvent::Tick),
        (QueryState::Disconnected, QueryAction::Connect)
    );
}

#[test]
fn a_failed_cycle_is_tried_again_after_the_interval() {
    assert_eq!(
        query_step(QueryState::Connected, QueryEvent::UpdateFailed),
        (QueryState::Connected, QueryAction::Sleep)
    );
    assert_eq!(
        query_step(QueryState::Connected, QueryEvent::Tick),
        (QueryState::Connected, QueryAction::Update)
    );
}

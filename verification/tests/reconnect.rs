use rumqtt::client::reconnect::{Supervisor, Verdict};
use rumqtt::client::ConnectCount;
use rumqtt::error::ConnectError;
use rumqtt::options::ReconnectOptions;
use rumqtt::packet::ConnectReturnCode;

const FAILURES: [ConnectError; 4] = [
    ConnectError::ConnectionRefused(ConnectReturnCode::NotAuthorized),
    ConnectError::HandshakeTimeout,
    ConnectError::Transport,
    ConnectError::PingTimeout,
];

#[test]
fn a_new_supervisor_waits_ten_seconds_by_default() {
    let s = Supervisor::new(ReconnectOptions::Always(3));
    assert_eq!(s.sleep_duration, 10);
    assert_eq!(s.reconnect, ReconnectOptions::Always(3));
    assert_eq!(s.connect_count, ConnectCount::InitialConnect);
}

#[test]
fn never_stops_after_any_failure() {
    for e in FAILURES {
        for count in [ConnectCount::InitialConnect, ConnectCount::ConnectedBefore(4)] {
            let mut s = Supervisor::new(ReconnectOptions::Never);
            assert_eq!(s.session_ended(Err((e, count))), Verdict::Stop);
            assert_eq!(s.sleep_duration, 10);
            assert_eq!(s.connect_count, count);
        }
    }
}

#[test]
fn after_first_success_stops_when_the_first_attempt_fails() {
    for e in FAILURES {
        let mut s = Supervisor::new(ReconnectOptions::AfterFirstSuccess(7));
        assert_eq!(s.session_ended(Err((e, ConnectCount::InitialConnect))), Verdict::Stop);
        assert_eq!(s.sleep_duration, 10);
    }
}

#[test]
fn after_first_success_retries_once_a_connection_has_succeeded() {
    for e in FAILURES {
        let mut s = Supervisor::new(ReconnectOptions::AfterFirstSuccess(7));
        assert_eq!(s.session_ended(Err((e, ConnectCount::ConnectedBefore(1)))), Verdict::Retry(7));
        assert_eq!(s.sleep_duration, 7);
        assert_eq!(s.connect_count, ConnectCount::ConnectedBefore(1));
    }
}

#[test]
fn always_retries_after_every_failure() {
    let mut s = Supervisor::new(ReconnectOptions::Always(2));
    for e in FAILURES {
        assert_eq!(s.session_ended(Err((e, ConnectCount::InitialConnect))), Verdict::Retry(2));
        assert_eq!(s.session_ended(Err((e, ConnectCount::ConnectedBefore(3)))), Verdict::Retry(2));
        assert_eq!(s.sleep_duration, 2);
    }
}

#[test]
fn a_halt_stops_under_every_policy() {
    for policy in [
        ReconnectOptions::Never,
        ReconnectOptions::AfterFirstSuccess(1),
        ReconnectOptions::Always(1),
    ] {
        for count in [ConnectCount::InitialConnect, ConnectCount::ConnectedBefore(9)] {
            let mut s = Supervisor::new(policy);
            assert_eq!(s.session_ended(Err((ConnectError::Halt, count))), Verdict::Stop);
            assert_eq!(s.sleep_duration, 10);
        }
    }
}

#[test]
fn a_session_that_returns_without_error_is_retried_after_the_delay_in_force() {
    let mut s = Supervisor::new(ReconnectOptions::Never);
    assert_eq!(s.session_ended(Ok(())), Verdict::Retry(10));
    assert_eq!(s.connect_count, ConnectCount::InitialConnect);

    let mut s = Supervisor::new(ReconnectOptions::Always(4));
    assert_eq!(
        s.session_ended(Err((ConnectError::Transport, ConnectCount::ConnectedBefore(2)))),
        Verdict::Retry(4)
    );
    assert_eq!(s.session_ended(Ok(())), Verdict::Retry(4));
    assert_eq!(s.sleep_duration, 4);
    assert_eq!(s.connect_count, ConnectCount::ConnectedBefore(2));
}

#[test]
fn the_largest_delay_is_taken_as_it_is() {
    let mut s = Supervisor::new(ReconnectOptions::Always(65535));
    assert_eq!(
        s.session_ended(Err((ConnectError::PingTimeout, ConnectCount::InitialConnect))),
        Verdict::Retry(65535)
    );
    let mut s = Supervisor::new(ReconnectOptions::Always(0));
    assert_eq!(
        s.session_ended(Err((ConnectError::PingTimeout, ConnectCount::InitialConnect))),
        Verdict::Retry(0)
    );
    assert_eq!(s.sleep_duration, 0);
}

use ecosystem::config::{resolve_config, Config};
use ecosystem::listener::{AcceptDecision, AcceptPolicy, Listener, ListenerPhase, ServerError};
use ecosystem::relay::{ConnAction, ConnPhase};
use ecosystem::transport::{TransportError, TransportKind};

fn emfile() -> TransportError {
    TransportError::new(TransportKind::Other, "too many open files".to_string())
}

fn listening(policy: AcceptPolicy) -> Listener {
    let mut l = Listener::new(policy);
    assert_eq!(l.phase(), ListenerPhase::Binding);
    assert!(l.on_bound(Ok(())).is_ok());
    assert_eq!(l.phase(), ListenerPhase::Listening);
    l
}

#[test]
fn bind_failure_ends_the_server() {
    let mut l = Listener::new(AcceptPolicy::KeepAccepting);
    let r = l.on_bound(Err(TransportError::new(
        TransportKind::Other,
        "address in use".to_string(),
    )));
    assert!(matches!(r, Err(ServerError::Bind(ref e)) if e.detail == "address in use"));
    assert_eq!(l.phase(), ListenerPhase::Stopped);
}

#[test]
fn accepted_connection_is_dispatched_fresh() {
    let mut l = listening(AcceptPolicy::StopServer);
    match l.on_accept(Ok(())) {
        AcceptDecision::Dispatch(mut conn) => {
            assert_eq!(conn.phase(), ConnPhase::Accepted);
            assert_eq!(conn.begin(), ConnAction::ConnectUpstream);
        }
        _ => panic!("an accepted connection is dispatched"),
    }
    assert_eq!(l.phase(), ListenerPhase::Listening);
}

#[test]
fn accept_failure_is_skipped_when_keeping_on() {
    let mut l = listening(AcceptPolicy::KeepAccepting);
    for _ in 0..3 {
        assert!(matches!(l.on_accept(Err(emfile())), AcceptDecision::Skip(ref e) if e.detail == "too many open files"));
        assert_eq!(l.phase(), ListenerPhase::Listening);
    }
    assert!(matches!(l.on_accept(Ok(())), AcceptDecision::Dispatch(_)));
}

#[test]
fn accept_failure_stops_the_server_under_stop_policy() {
    let mut l = listening(AcceptPolicy::StopServer);
    assert!(matches!(l.on_accept(Ok(())), AcceptDecision::Dispatch(_)));
    assert!(matches!(
        l.on_accept(Err(emfile())),
        AcceptDecision::Halt(ServerError::Accept(_))
    ));
    assert_eq!(l.phase(), ListenerPhase::Stopped);
}

#[test]
fn failed_relay_does_not_stop_the_listener() {
    let mut l = listening(AcceptPolicy::StopServer);
    let mut first = match l.on_accept(Ok(())) {
        AcceptDecision::Dispatch(c) => c,
        _ => panic!("dispatch expected"),
    };
    first.begin();
    first.on_connected(Err(TransportError::new(TransportKind::Refused, "refused".to_string())));
    assert!(first.finish().is_err());
    assert_eq!(l.phase(), ListenerPhase::Listening);
    assert!(matches!(l.on_accept(Ok(())), AcceptDecision::Dispatch(_)));
}

#[test]
fn default_policy_keeps_accepting() {
    assert_eq!(AcceptPolicy::default(), AcceptPolicy::KeepAccepting);
    assert_eq!(listening(AcceptPolicy::default()).policy(), AcceptPolicy::KeepAccepting);
}

#[test]
fn standard_config_addresses() {
    let c = resolve_config();
    assert_eq!(c.listen_addr, "0.0.0.0:8081");
    assert_eq!(c.upstream_addr, "0.0.0.0:8080");
    let d = Config::new("127.0.0.1:1".to_string(), "127.0.0.1:2".to_string());
    assert_eq!(d.listen_addr, "127.0.0.1:1");
    assert_eq!(d.upstream_addr, "127.0.0.1:2");
}

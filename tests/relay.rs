use ecosystem::pump::{Direction, Pump, PumpAction, PumpEvent, PumpPhase};
use ecosystem::relay::{ConnAction, ConnPhase, Connection, RelayError, RelayResult};
use ecosystem::transport::{TransportError, TransportKind};

const C2U: Direction = Direction::ClientToUpstream;
const U2C: Direction = Direction::UpstreamToClient;

fn error(kind: TransportKind) -> TransportError {
    TransportError::new(kind, format!("{:?}", kind))
}

fn started() -> Connection {
    let mut conn = Connection::new();
    assert_eq!(conn.phase(), ConnPhase::Accepted);
    assert_eq!(conn.begin(), ConnAction::ConnectUpstream);
    assert_eq!(conn.phase(), ConnPhase::Connecting);
    assert_eq!(conn.on_connected(Ok(())), ConnAction::StartRelaying);
    assert_eq!(conn.phase(), ConnPhase::Relaying);
    conn
}

fn step(conn: &mut Connection, dir: Direction, event: PumpEvent) -> PumpAction {
    assert!(conn.accepts(dir, &event));
    conn.on_event(dir, event)
}

/// Sends one chunk through a direction and returns what was handed out to write.
fn carry(conn: &mut Connection, dir: Direction, chunk: &[u8]) -> Vec<u8> {
    let written = match step(conn, dir, PumpEvent::Received(chunk.to_vec())) {
        PumpAction::Write(bytes) => bytes,
        _ => panic!("a non-empty read must be written out"),
    };
    assert!(matches!(step(conn, dir, PumpEvent::Sent), PumpAction::Read));
    written
}

fn end(conn: &mut Connection, dir: Direction) {
    assert!(matches!(step(conn, dir, PumpEvent::Received(Vec::new())), PumpAction::Shutdown));
    assert!(matches!(step(conn, dir, PumpEvent::Closed), PumpAction::Stop));
}

/// A small deterministic generator for payload bytes and chunk sizes.
fn next(seed: &mut u64) -> u64 {
    *seed = seed.wrapping_mul(6364136223846793005).wrapping_add(1442695040888963407);
    *seed >> 33
}

#[test]
fn ping_is_echoed_with_counts_of_four() {
    let mut conn = started();
    assert_eq!(carry(&mut conn, C2U, b"ping"), b"ping".to_vec());
    end(&mut conn, C2U);
    assert!(!conn.is_finished());
    assert_eq!(carry(&mut conn, U2C, b"ping"), b"ping".to_vec());
    end(&mut conn, U2C);
    assert!(conn.is_finished());
    assert_eq!(conn.phase(), ConnPhase::Completed);
    match conn.finish() {
        Ok(r) => assert_eq!(
            r,
            RelayResult { client_to_upstream_bytes: 4, upstream_to_client_bytes: 4 }
        ),
        Err(_) => panic!("the relay should complete"),
    }
}

#[test]
fn unreachable_upstream_fails_and_closes_client() {
    let mut conn = Connection::new();
    conn.begin();
    let action = conn.on_connected(Err(TransportError::new(
        TransportKind::Refused,
        "connection refused".to_string(),
    )));
    assert_eq!(action, ConnAction::CloseClient);
    assert!(conn.is_finished());
    assert_eq!(conn.phase(), ConnPhase::Failed);
    match conn.finish() {
        Err(RelayError::UpstreamUnreachable(e)) => {
            assert_eq!(e.kind, TransportKind::Refused);
            assert_eq!(e.detail, "connection refused");
        }
        _ => panic!("expected an unreachable upstream"),
    }
}

#[test]
fn counters_match_fixed_payload_of_4096_bytes() {
    let mut conn = started();
    let payload: Vec<u8> = (0..4096u32).map(|i| (i % 251) as u8).collect();
    let mut up = Vec::new();
    let mut down = Vec::new();
    for chunk in payload.chunks(1000) {
        up.extend(carry(&mut conn, C2U, chunk));
        down.extend(carry(&mut conn, U2C, chunk));
    }
    let mid = conn.counts();
    assert_eq!(mid.client_to_upstream_bytes, 4096);
    assert_eq!(mid.upstream_to_client_bytes, 4096);
    end(&mut conn, U2C);
    end(&mut conn, C2U);
    assert_eq!(up, payload);
    assert_eq!(down, payload);
    match conn.finish() {
        Ok(r) => {
            assert_eq!(r.client_to_upstream_bytes, 4096);
            assert_eq!(r.upstream_to_client_bytes, 4096);
        }
        Err(_) => panic!("the relay should complete"),
    }
}

#[test]
fn half_closed_client_still_receives_upstream_bytes() {
    let mut conn = started();
    carry(&mut conn, C2U, b"request");
    end(&mut conn, C2U);
    // The client has stopped sending; the upstream goes on answering.
    let mut received = Vec::new();
    for part in [&b"first "[..], &b"second "[..], &b"third"[..]] {
        assert_eq!(conn.phase(), ConnPhase::Relaying);
        assert!(!conn.is_finished());
        received.extend(carry(&mut conn, U2C, part));
    }
    assert!(!conn.is_finished());
    end(&mut conn, U2C);
    assert_eq!(received, b"first second third".to_vec());
    match conn.finish() {
        Ok(r) => {
            assert_eq!(r.client_to_upstream_bytes, 7);
            assert_eq!(r.upstream_to_client_bytes, 18);
        }
        Err(_) => panic!("the relay should complete"),
    }
}

#[test]
fn random_payloads_arrive_intact_in_both_directions() {
    let mut seed: u64 = 7;
    for _ in 0..20 {
        let mut conn = started();
        let len_up = (next(&mut seed) % 3000) as usize;
        let len_down = (next(&mut seed) % 3000) as usize;
        let up: Vec<u8> = (0..len_up).map(|_| next(&mut seed) as u8).collect();
        let down: Vec<u8> = (0..len_down).map(|_| next(&mut seed) as u8).collect();
        let (mut i, mut j) = (0usize, 0usize);
        let (mut got_up, mut got_down) = (Vec::new(), Vec::new());
        while i < up.len() || j < down.len() {
            if i < up.len() && (j >= down.len() || next(&mut seed) % 2 == 0) {
                let n = 1 + (next(&mut seed) as usize % 512).min(up.len() - i - 1);
                got_up.extend(carry(&mut conn, C2U, &up[i..i + n]));
                i += n;
            } else {
                let n = 1 + (next(&mut seed) as usize % 512).min(down.len() - j - 1);
                got_down.extend(carry(&mut conn, U2C, &down[j..j + n]));
                j += n;
            }
        }
        end(&mut conn, C2U);
        end(&mut conn, U2C);
        assert_eq!(got_up, up);
        assert_eq!(got_down, down);
        match conn.finish() {
            Ok(r) => {
                assert_eq!(r.client_to_upstream_bytes, len_up as u64);
                assert_eq!(r.upstream_to_client_bytes, len_down as u64);
            }
            Err(_) => panic!("the relay should complete"),
        }
    }
}

#[test]
fn fifty_interleaved_connections_do_not_mix_bytes() {
    let mut seed: u64 = 99;
    let mut conns: Vec<Connection> = (0..50).map(|_| started()).collect();
    let payloads: Vec<Vec<u8>> = (0..50u32)
        .map(|k| (0..(100 + k * 13)).map(|b| (b as u8) ^ (k as u8)).collect())
        .collect();
    let mut sent = vec![0usize; 50];
    let mut got: Vec<Vec<u8>> = vec![Vec::new(); 50];
    let mut echoed: Vec<Vec<u8>> = vec![Vec::new(); 50];
    loop {
        let open: Vec<usize> = (0..50).filter(|&k| sent[k] < payloads[k].len()).collect();
        if open.is_empty() {
            break;
        }
        let k = open[next(&mut seed) as usize % open.len()];
        let n = (1 + next(&mut seed) as usize % 40).min(payloads[k].len() - sent[k]);
        let chunk = payloads[k][sent[k]..sent[k] + n].to_vec();
        let up = carry(&mut conns[k], C2U, &chunk);
        got[k].extend(up.clone());
        echoed[k].extend(carry(&mut conns[k], U2C, &up));
        sent[k] += n;
    }
    for (k, mut conn) in conns.into_iter().enumerate() {
        end(&mut conn, C2U);
        end(&mut conn, U2C);
        assert_eq!(got[k], payloads[k]);
        assert_eq!(echoed[k], payloads[k]);
        match conn.finish() {
            Ok(r) => {
                assert_eq!(r.client_to_upstream_bytes, payloads[k].len() as u64);
                assert_eq!(r.upstream_to_client_bytes, payloads[k].len() as u64);
            }
            Err(_) => panic!("every relay should complete"),
        }
    }
}

#[test]
fn failure_of_one_connection_leaves_another_relaying() {
    let mut a = started();
    let mut b = started();
    carry(&mut a, C2U, b"a1");
    carry(&mut b, C2U, b"b1");
    assert!(matches!(
        step(&mut a, C2U, PumpEvent::Failed(error(TransportKind::Reset))),
        PumpAction::Stop
    ));
    assert!(matches!(
        step(&mut a, U2C, PumpEvent::Failed(error(TransportKind::BrokenPipe))),
        PumpAction::Stop
    ));
    assert!(a.is_finished());
    assert_eq!(carry(&mut b, C2U, b"b2"), b"b2".to_vec());
    end(&mut b, C2U);
    end(&mut b, U2C);
    assert!(matches!(b.finish(), Ok(RelayResult { client_to_upstream_bytes: 4, .. })));
    match a.finish() {
        Err(RelayError::ConnectionAborted { direction, cause }) => {
            assert_eq!(direction, C2U);
            assert_eq!(cause.kind, TransportKind::Reset);
        }
        _ => panic!("the first failure is the one reported"),
    }
}

#[test]
fn pump_failure_waits_for_the_other_direction() {
    let mut conn = started();
    step(&mut conn, U2C, PumpEvent::Failed(error(TransportKind::TimedOut)));
    assert!(!conn.is_finished());
    assert_eq!(conn.phase(), ConnPhase::Relaying);
    assert_eq!(carry(&mut conn, C2U, b"late"), b"late".to_vec());
    end(&mut conn, C2U);
    assert!(conn.is_finished());
    assert_eq!(conn.phase(), ConnPhase::Failed);
    match conn.finish() {
        Err(RelayError::PumpError { direction, cause }) => {
            assert_eq!(direction, U2C);
            assert_eq!(cause.kind, TransportKind::TimedOut);
        }
        _ => panic!("expected a pump error"),
    }
}

#[test]
fn aborted_connection_is_reported_as_aborted() {
    let mut conn = started();
    step(&mut conn, C2U, PumpEvent::Received(b"x".to_vec()));
    step(&mut conn, C2U, PumpEvent::Failed(error(TransportKind::Aborted)));
    step(&mut conn, U2C, PumpEvent::Failed(error(TransportKind::Other)));
    match conn.finish() {
        Err(RelayError::ConnectionAborted { direction, cause }) => {
            assert_eq!(direction, C2U);
            assert_eq!(cause.kind, TransportKind::Aborted);
        }
        _ => panic!("expected an aborted connection"),
    }
}

#[test]
fn events_out_of_turn_are_refused() {
    let mut conn = Connection::new();
    assert!(!conn.accepts(C2U, &PumpEvent::Received(b"early".to_vec())));
    conn.begin();
    assert!(!conn.accepts(C2U, &PumpEvent::Sent));
    conn.on_connected(Ok(()));
    assert!(!conn.accepts(C2U, &PumpEvent::Sent));
    assert!(!conn.accepts(U2C, &PumpEvent::Closed));
    assert!(conn.accepts(C2U, &PumpEvent::Received(b"ok".to_vec())));
    step(&mut conn, C2U, PumpEvent::Received(b"ok".to_vec()));
    assert!(!conn.accepts(C2U, &PumpEvent::Received(b"again".to_vec())));
    assert!(conn.accepts(C2U, &PumpEvent::Sent));
}

#[test]
fn pump_counts_and_half_closes() {
    let mut pump = Pump::new(U2C);
    assert_eq!(pump.direction(), U2C);
    assert_eq!(pump.phase(), PumpPhase::Reading);
    assert!(matches!(pump.step(PumpEvent::Received(vec![1, 2, 3])), PumpAction::Write(ref b) if b == &vec![1, 2, 3]));
    assert_eq!(pump.phase(), PumpPhase::Writing);
    assert_eq!(pump.transferred(), 0);
    assert!(matches!(pump.step(PumpEvent::Sent), PumpAction::Read));
    assert_eq!(pump.transferred(), 3);
    assert!(matches!(pump.step(PumpEvent::Received(Vec::new())), PumpAction::Shutdown));
    assert_eq!(pump.phase(), PumpPhase::Closing);
    assert!(!pump.phase().is_terminal());
    assert!(matches!(pump.step(PumpEvent::Closed), PumpAction::Stop));
    assert_eq!(pump.phase(), PumpPhase::Done);
    assert!(pump.phase().is_terminal());
    assert!(!pump.accepts(&PumpEvent::Failed(error(TransportKind::Other))));
}

#[test]
fn pump_stops_on_failure() {
    let mut pump = Pump::new(C2U);
    pump.step(PumpEvent::Received(vec![9; 10]));
    assert!(matches!(
        pump.step(PumpEvent::Failed(error(TransportKind::BrokenPipe))),
        PumpAction::Stop
    ));
    assert_eq!(pump.phase(), PumpPhase::Failed);
    assert_eq!(pump.transferred(), 0);
}

#[test]
fn empty_streams_complete_with_zero_counts() {
    let mut conn = started();
    end(&mut conn, U2C);
    end(&mut conn, C2U);
    assert!(matches!(
        conn.finish(),
        Ok(RelayResult { client_to_upstream_bytes: 0, upstream_to_client_bytes: 0 })
    ));
}

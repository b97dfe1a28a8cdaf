use hbbs_core::dispatch::{
    conn_step, sniff_protocol, ConnAction, ConnEvent, ConnFailure, ConnOutcome, ConnPhase,
    Protocol, FIRST_READ_SIZE,
};

fn run(events: Vec<ConnEvent>) -> (ConnPhase, Vec<ConnAction>) {
    let mut phase = ConnPhase::Accepted;
    let mut actions = Vec::new();
    for ev in events.iter() {
        let (next, act) = conn_step(phase, ev);
        phase = next;
        actions.push(act);
    }
    (phase, actions)
}

#[test]
fn http_request_line_is_routed_to_http() {
    assert_eq!(sniff_protocol(b"GET / HTTP/1.1\r\nHost: x\r\n\r\n"), Protocol::Http);
    assert_eq!(sniff_protocol(b"GET /"), Protocol::Http);
    assert_eq!(sniff_protocol(b"GET /status HTTP/1.0\r\n"), Protocol::Http);
}

#[test]
fn anything_else_is_routed_to_binary() {
    assert_eq!(sniff_protocol(b"\x00"), Protocol::Binary);
    assert_eq!(sniff_protocol(b"GET "), Protocol::Binary);
    assert_eq!(sniff_protocol(b"POST / HTTP/1.1\r\n"), Protocol::Binary);
    assert_eq!(sniff_protocol(b"get / HTTP/1.1\r\n"), Protocol::Binary);
    assert_eq!(sniff_protocol(b"\x12\x34\x56\x78\x9a\xbc"), Protocol::Binary);
}

#[test]
fn full_http_connection() {
    let (phase, acts) = run(vec![
        ConnEvent::PeerAddress { ok: true },
        ConnEvent::NoDelay { ok: true },
        ConnEvent::ReadChunk(b"GET / HTTP/1.1\r\n\r\n".to_vec()),
        ConnEvent::HandlerReturned { ok: true },
    ]);
    assert_eq!(
        acts,
        vec![
            ConnAction::SetNoDelay,
            ConnAction::ReadFirstChunk { max: 1024 },
            ConnAction::HandOff(Protocol::Http),
            ConnAction::Finish(ConnOutcome::Handled(Protocol::Http)),
        ]
    );
    assert_eq!(phase, ConnPhase::Done(ConnOutcome::Handled(Protocol::Http)));
    assert_eq!(FIRST_READ_SIZE, 1024);
}

#[test]
fn zero_byte_connection_ends_silently() {
    let (phase, acts) = run(vec![
        ConnEvent::PeerAddress { ok: true },
        ConnEvent::NoDelay { ok: true },
        ConnEvent::ReadChunk(Vec::new()),
    ]);
    assert_eq!(phase, ConnPhase::Done(ConnOutcome::PeerClosed));
    assert!(!acts.iter().any(|a| matches!(a, ConnAction::HandOff(_))));
    assert_eq!(acts.last(), Some(&ConnAction::Finish(ConnOutcome::PeerClosed)));
}

#[test]
fn transport_failures_end_the_connection() {
    let (p, _) = run(vec![ConnEvent::PeerAddress { ok: false }]);
    assert_eq!(p, ConnPhase::Done(ConnOutcome::Failed(ConnFailure::PeerAddress)));
    let (p, _) = run(vec![ConnEvent::PeerAddress { ok: true }, ConnEvent::NoDelay { ok: false }]);
    assert_eq!(p, ConnPhase::Done(ConnOutcome::Failed(ConnFailure::NoDelay)));
    let (p, _) = run(vec![
        ConnEvent::PeerAddress { ok: true },
        ConnEvent::NoDelay { ok: true },
        ConnEvent::ReadFailed,
    ]);
    assert_eq!(p, ConnPhase::Done(ConnOutcome::Failed(ConnFailure::Read)));
}

#[test]
fn failing_and_healthy_connections_resolve_independently() {
    let mut bad = ConnPhase::Accepted;
    let mut good = ConnPhase::Accepted;
    let bad_events = vec![
        ConnEvent::PeerAddress { ok: true },
        ConnEvent::NoDelay { ok: true },
        ConnEvent::ReadChunk(vec![0xff, 0x00, 0x13]),
        ConnEvent::HandlerReturned { ok: false },
    ];
    let good_events = vec![
        ConnEvent::PeerAddress { ok: true },
        ConnEvent::NoDelay { ok: true },
        ConnEvent::ReadChunk(b"GET / HTTP/1.1\r\n".to_vec()),
        ConnEvent::HandlerReturned { ok: true },
    ];
    let mut good_actions = Vec::new();
    for i in 0..4 {
        bad = conn_step(bad, &bad_events[i]).0;
        let (g, a) = conn_step(good, &good_events[i]);
        good = g;
        good_actions.push(a);
    }
    assert_eq!(bad, ConnPhase::Done(ConnOutcome::Handled(Protocol::Binary)));
    assert_eq!(good, ConnPhase::Done(ConnOutcome::Handled(Protocol::Http)));
    assert_eq!(good_actions[2], ConnAction::HandOff(Protocol::Http));
}

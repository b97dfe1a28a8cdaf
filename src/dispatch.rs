use vstd::prelude::*;

verus! {

/// Size of the buffer for the first read of a connection.
pub const FIRST_READ_SIZE: usize = 1024;

/// The handler that owns a connection.
#[derive(Clone, Copy, Debug, PartialEq, Eq, Structural)]
pub enum Protocol {
    Http,
    Binary,
}

/// `GET /`, the start of an HTTP request line.
pub open spec fn http_prefix() -> Seq<u8> {
    seq![71u8, 69u8, 84u8, 32u8, 47u8]
}

pub open spec fn starts_with_http(chunk: Seq<u8>) -> bool {
    chunk.len() >= 5 && chunk.subrange(0, 5) == http_prefix()
}

/// The protocol of a connection whose first chunk is `chunk` (not empty).
pub open spec fn sniff_spec(chunk: Seq<u8>) -> Protocol {
    if starts_with_http(chunk) {
        Protocol::Http
    } else {
        Protocol::Binary
    }
}

/// Tells the two wire protocols apart by the first bytes of a stream: a
/// chunk that begins with `GET /` is HTTP, anything else is the binary protocol.
pub fn sniff_protocol(chunk: &[u8]) -> (r: Protocol)
    ensures
        r == sniff_spec(chunk@),
{
    if chunk.len() >= 5 && chunk[0] == 71 && chunk[1] == 69 && chunk[2] == 84 && chunk[3] == 32
        && chunk[4] == 47 {
        assert(chunk@.subrange(0, 5) =~= http_prefix());
        Protocol::Http
    } else {
        assert(chunk@.len() >= 5 ==> chunk@.subrange(0, 5)[0] == chunk@[0]);
        assert(chunk@.len() >= 5 ==> chunk@.subrange(0, 5)[1] == chunk@[1]);
        assert(chunk@.len() >= 5 ==> chunk@.subrange(0, 5)[2] == chunk@[2]);
        assert(chunk@.len() >= 5 ==> chunk@.subrange(0, 5)[3] == chunk@[3]);
        assert(chunk@.len() >= 5 ==> chunk@.subrange(0, 5)[4] == chunk@[4]);
        Protocol::Binary
    }
}

/// Where a connection's handling failed before it was handed off.
#[derive(Clone, Copy, Debug, PartialEq, Eq, Structural)]
pub enum ConnFailure {
    PeerAddress,
    NoDelay,
    Read,
}

/// How the handling of one connection ended.
#[derive(Clone, Copy, Debug, PartialEq, Eq, Structural)]
pub enum ConnOutcome {
    /// The peer closed before sending anything; no handler was called.
    PeerClosed,
    /// A handler ran; what it returned is only logged.
    Handled(Protocol),
    /// A transport step failed; the failure is logged with the peer address.
    Failed(ConnFailure),
}

/// Where the handling of one accepted connection stands.
#[derive(Clone, Copy, Debug, PartialEq, Eq, Structural)]
pub enum ConnPhase {
    /// Waiting for the peer address to be known.
    Accepted,
    /// Waiting for send-coalescing to be switched off.
    SettingNoDelay,
    /// Waiting for the first chunk.
    Reading,
    /// The connection belongs to a handler until it returns.
    HandedOff(Protocol),
    Done(ConnOutcome),
}

/// What the connection's task reports back.
#[derive(Clone, Debug, PartialEq, Eq)]
pub enum ConnEvent {
    PeerAddress { ok: bool },
    NoDelay { ok: bool },
    /// The first read failed.
    ReadFailed,
    /// The first read returned these bytes (empty: the peer closed).
    ReadChunk(Vec<u8>),
    /// The handler returned, with success or not.
    HandlerReturned { ok: bool },
}

/// What the connection's task does next.
#[derive(Clone, Copy, Debug, PartialEq, Eq, Structural)]
pub enum ConnAction {
    SetNoDelay,
    /// Read one chunk of at most `max` bytes.
    ReadFirstChunk { max: usize },
    /// Hand the transport (and, for HTTP, the text of the chunk) with the
    /// shared key to the handler of `Protocol`.
    HandOff(Protocol),
    /// End the task, logging the outcome.
    Finish(ConnOutcome),
}

/// The events that a phase waits for.
pub open spec fn conn_event_fits(phase: ConnPhase, ev: ConnEvent) -> bool {
    match phase {
        ConnPhase::Accepted => ev is PeerAddress,
        ConnPhase::SettingNoDelay => ev is NoDelay,
        ConnPhase::Reading => ev is ReadFailed || ev is ReadChunk,
        ConnPhase::HandedOff(_) => ev is HandlerReturned,
        ConnPhase::Done(_) => false,
    }
}

/// One step of a connection's handling: the next phase and what to do.
pub open spec fn conn_step_spec(phase: ConnPhase, ev: ConnEvent) -> (ConnPhase, ConnAction) {
    match ev {
        ConnEvent::PeerAddress { ok } => if ok {
            (ConnPhase::SettingNoDelay, ConnAction::SetNoDelay)
        } else {
            let o = ConnOutcome::Failed(ConnFailure::PeerAddress);
            (ConnPhase::Done(o), ConnAction::Finish(o))
        },
        ConnEvent::NoDelay { ok } => if ok {
            (ConnPhase::Reading, ConnAction::ReadFirstChunk { max: FIRST_READ_SIZE })
        } else {
            let o = ConnOutcome::Failed(ConnFailure::NoDelay);
            (ConnPhase::Done(o), ConnAction::Finish(o))
        },
        ConnEvent::ReadFailed => {
            let o = ConnOutcome::Failed(ConnFailure::Read);
            (ConnPhase::Done(o), ConnAction::Finish(o))
        },
        ConnEvent::ReadChunk(c) => if c@.len() == 0 {
            (ConnPhase::Done(ConnOutcome::PeerClosed), ConnAction::Finish(ConnOutcome::PeerClosed))
        } else {
            (ConnPhase::HandedOff(sniff_spec(c@)), ConnAction::HandOff(sniff_spec(c@)))
        },
        ConnEvent::HandlerReturned { .. } => {
            let p = match phase {
                ConnPhase::HandedOff(p) => p,
                _ => Protocol::Binary,
            };
            (ConnPhase::Done(ConnOutcome::Handled(p)), ConnAction::Finish(ConnOutcome::Handled(p)))
        },
    }
}

/// Decides the next step of one accepted connection from its phase and the
/// result of the previous step. A connection is never affected by any other:
/// the decision reads nothing but its own phase and event.
pub fn conn_step(phase: ConnPhase, ev: &ConnEvent) -> (r: (ConnPhase, ConnAction))
    requires
        conn_event_fits(phase, *ev),
    ensures
        r == conn_step_spec(phase, *ev),
{
    match ev {
        ConnEvent::PeerAddress { ok } => if *ok {
            (ConnPhase::SettingNoDelay, ConnAction::SetNoDelay)
        } else {
            let o = ConnOutcome::Failed(ConnFailure::PeerAddress);
            (ConnPhase::Done(o), ConnAction::Finish(o))
        },
        ConnEvent::NoDelay { ok } => if *ok {
            (ConnPhase::Reading, ConnAction::ReadFirstChunk { max: FIRST_READ_SIZE })
        } else {
            let o = ConnOutcome::Failed(ConnFailure::NoDelay);
            (ConnPhase::Done(o), ConnAction::Finish(o))
        },
        ConnEvent::ReadFailed => {
            let o = ConnOutcome::Failed(ConnFailure::Read);
            (ConnPhase::Done(o), ConnAction::Finish(o))
        },
        ConnEvent::ReadChunk(c) => if c.len() == 0 {
            (ConnPhase::Done(ConnOutcome::PeerClosed), ConnAction::Finish(ConnOutcome::PeerClosed))
        } else {
            let p = sniff_protocol(c.as_slice());
            (ConnPhase::HandedOff(p), ConnAction::HandOff(p))
        },
        ConnEvent::HandlerReturned { .. } => {
            let p = match phase {
                ConnPhase::HandedOff(p) => p,
                _ => Protocol::Binary,
            };
            (ConnPhase::Done(ConnOutcome::Handled(p)), ConnAction::Finish(ConnOutcome::Handled(p)))
        },
    }
}

/// The actions taken by a connection in `phase` on the events `evs`, up to
/// the first event that its phase does not wait for, and the phase reached.
pub open spec fn conn_run(phase: ConnPhase, evs: Seq<ConnEvent>) -> (ConnPhase, Seq<ConnAction>)
    decreases evs.len(),
{
    if evs.len() == 0 || !conn_event_fits(phase, evs[0]) {
        (phase, Seq::empty())
    } else {
        let (next, act) = conn_step_spec(phase, evs[0]);
        let (end, rest) = conn_run(next, evs.drop_first());
        (end, seq![act] + rest)
    }
}

/// A connection whose first chunk is not empty is handed, once the transport is
/// set up, to the HTTP handler exactly when that chunk begins with `GET /`, and
/// to the binary handler otherwise.
pub proof fn lemma_routing(chunk: Vec<u8>)
    requires
        chunk@.len() > 0,
    ensures
        ({
            let evs = seq![
                ConnEvent::PeerAddress { ok: true },
                ConnEvent::NoDelay { ok: true },
                ConnEvent::ReadChunk(chunk),
            ];
            let p = if starts_with_http(chunk@) { Protocol::Http } else { Protocol::Binary };
            conn_run(ConnPhase::Accepted, evs) == (
                ConnPhase::HandedOff(p),
                seq![
                    ConnAction::SetNoDelay,
                    ConnAction::ReadFirstChunk { max: FIRST_READ_SIZE },
                    ConnAction::HandOff(p),
                ],
            )
        }),
{
    let evs = seq![
        ConnEvent::PeerAddress { ok: true },
        ConnEvent::NoDelay { ok: true },
        ConnEvent::ReadChunk(chunk),
    ];
    let p = sniff_spec(chunk@);
    assert(evs.drop_first().drop_first().drop_first() =~= Seq::<ConnEvent>::empty());
    assert(conn_run(ConnPhase::HandedOff(p), evs.drop_first().drop_first().drop_first()).1 =~= Seq::<ConnAction>::empty());
    assert(conn_run(ConnPhase::Reading, evs.drop_first().drop_first()).1 =~= seq![ConnAction::HandOff(p)]);
    assert(conn_run(ConnPhase::SettingNoDelay, evs.drop_first()).1 =~= seq![
        ConnAction::ReadFirstChunk { max: FIRST_READ_SIZE },
        ConnAction::HandOff(p),
    ]);
    assert(conn_run(ConnPhase::Accepted, evs).1 =~= seq![
        ConnAction::SetNoDelay,
        ConnAction::ReadFirstChunk { max: FIRST_READ_SIZE },
        ConnAction::HandOff(p),
    ]);
}

/// A connection whose first read returns no bytes ends cleanly with no handler
/// called, whatever is reported after it.
pub proof fn lemma_silent_close(evs: Seq<ConnEvent>)
    requires
        evs.len() > 0,
        evs[0] matches ConnEvent::ReadChunk(c) && c@.len() == 0,
    ensures
        conn_run(ConnPhase::Reading, evs) == (
            ConnPhase::Done(ConnOutcome::PeerClosed),
            seq![ConnAction::Finish(ConnOutcome::PeerClosed)],
        ),
{
    assert(conn_run(ConnPhase::Done(ConnOutcome::PeerClosed), evs.drop_first()).1 =~= Seq::<ConnAction>::empty());
    assert(conn_run(ConnPhase::Reading, evs).1 =~= seq![ConnAction::Finish(ConnOutcome::PeerClosed)]);
}

/// A handler that fails ends its own connection exactly as one that succeeds:
/// the failure is only logged and the connection's task finishes normally.
pub proof fn lemma_handler_failure_is_local(p: Protocol, ok: bool)
    ensures
        conn_step_spec(ConnPhase::HandedOff(p), ConnEvent::HandlerReturned { ok }) == (
            ConnPhase::Done(ConnOutcome::Handled(p)),
            ConnAction::Finish(ConnOutcome::Handled(p)),
        ),
{
}

} // verus!

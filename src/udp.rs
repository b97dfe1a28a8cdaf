use vstd::prelude::*;
use crate::address::Stack;

verus! {

/// Size of each receive loop's reusable datagram buffer.
pub const DATAGRAM_BUFFER_SIZE: usize = 65536;

/// The stack hint handed to the datagram handler with each datagram: none for
/// IPv4, `6` for IPv6.
pub open spec fn stack_hint_spec(stack: Stack) -> Option<u8> {
    match stack {
        Stack::V4 => None,
        Stack::V6 => Some(6u8),
    }
}

pub fn stack_hint(stack: Stack) -> (r: Option<u8>)
    ensures
        r == stack_hint_spec(stack),
{
    match stack {
        Stack::V4 => None,
        Stack::V6 => Some(6),
    }
}

/// What one receive call on a datagram socket returned.
#[derive(Clone, Copy, Debug, PartialEq, Eq, Structural)]
pub enum Receive {
    /// A datagram of `len` bytes arrived in the buffer.
    Datagram { len: usize },
    Failed,
}

/// What a receive loop does with what it received; it never stops.
#[derive(Clone, Copy, Debug, PartialEq, Eq, Structural)]
pub enum UdpAction {
    /// Hand the first `len` bytes of the buffer, the source address and `hint`
    /// to the datagram handler, then receive again.
    Dispatch { len: usize, hint: Option<u8> },
    /// Log the receive error, then receive again.
    LogAndReceive,
}

pub open spec fn udp_step_spec(stack: Stack, ev: Receive) -> UdpAction {
    match ev {
        Receive::Datagram { len } => UdpAction::Dispatch { len, hint: stack_hint_spec(stack) },
        Receive::Failed => UdpAction::LogAndReceive,
    }
}

/// Decides what the receive loop of `stack` does with one receive result.
pub fn udp_step(stack: Stack, ev: Receive) -> (r: UdpAction)
    requires
        ev matches Receive::Datagram { len } ==> len <= DATAGRAM_BUFFER_SIZE,
    ensures
        r == udp_step_spec(stack, ev),
{
    match ev {
        Receive::Datagram { len } => UdpAction::Dispatch { len, hint: stack_hint(stack) },
        Receive::Failed => UdpAction::LogAndReceive,
    }
}

/// The receive results of `stack` in a trace of both loops, in order.
pub open spec fn received_on(trace: Seq<(Stack, Receive)>, stack: Stack) -> Seq<Receive>
    decreases trace.len(),
{
    if trace.len() == 0 {
        Seq::empty()
    } else {
        let rest = received_on(trace.drop_last(), stack);
        if trace.last().0 == stack {
            rest.push(trace.last().1)
        } else {
            rest
        }
    }
}

/// The lengths of the datagrams that `stack`'s loop handed to the handler, when
/// the two loops run through `trace`.
pub open spec fn dispatched_on(trace: Seq<(Stack, Receive)>, stack: Stack) -> Seq<usize>
    decreases trace.len(),
{
    if trace.len() == 0 {
        Seq::empty()
    } else {
        let rest = dispatched_on(trace.drop_last(), stack);
        let (s, ev) = trace.last();
        if s == stack {
            match udp_step_spec(s, ev) {
                UdpAction::Dispatch { len, .. } => rest.push(len),
                UdpAction::LogAndReceive => rest,
            }
        } else {
            rest
        }
    }
}

/// The datagrams that arrived on `stack`, in order.
pub open spec fn datagrams(evs: Seq<Receive>) -> Seq<usize>
    decreases evs.len(),
{
    if evs.len() == 0 {
        Seq::empty()
    } else {
        let rest = datagrams(evs.drop_last());
        match evs.last() {
            Receive::Datagram { len } => rest.push(len),
            Receive::Failed => rest,
        }
    }
}

/// However the two loops' receive results interleave, and whatever errors
/// either stack reports, each loop hands on every datagram that arrived on its
/// own socket, in order: what one stack receives, or fails to receive, never
/// changes what the other dispatches.
pub proof fn lemma_loops_independent(trace: Seq<(Stack, Receive)>, stack: Stack)
    ensures
        dispatched_on(trace, stack) == datagrams(received_on(trace, stack)),
    decreases trace.len(),
{
    if trace.len() > 0 {
        lemma_loops_independent(trace.drop_last(), stack);
        if trace.last().0 == stack {
            let r = received_on(trace, stack);
            assert(r.drop_last() =~= received_on(trace.drop_last(), stack));
        }
    }
}

/// A receive-buffer override is applied only when it is positive.
pub fn applies_recv_buffer(rmem: usize) -> (r: bool)
    ensures
        r == (rmem > 0),
{
    rmem > 0
}

} // verus!

use vstd::prelude::*;
use crate::address::{any_v4_spec, any_v6_spec, BindAddress, Stack, RENDEZVOUS_PORT};

verus! {

/// A condition that stops startup before any traffic is served.
#[derive(Clone, Copy, Debug, PartialEq, Eq, Structural)]
pub enum StartupError {
    /// The configured key is not usable by the key primitive.
    KeyConstruction,
    /// A TCP listener could not be bound to `addr`.
    TcpBind { addr: BindAddress },
    /// The IPv4 datagram socket could not be bound to `addr`.
    UdpBind { addr: BindAddress },
}

/// The step of startup that is under way.
#[derive(Clone, Copy, Debug, PartialEq, Eq, Structural)]
pub enum StartPhase {
    BuildKey,
    BindTcp,
    StartAcceptFeed,
    SetRecvBuffer,
    BindUdp(Stack),
    StartUdpLoops,
    StartConfigSync,
    Running,
    Failed(StartupError),
}

/// The work that startup asks for next.
#[derive(Clone, Copy, Debug, PartialEq, Eq, Structural)]
pub enum StartAction {
    /// Build the shared key from the configured secret.
    BuildKey,
    /// Open a TCP listener on this address.
    BindTcp(BindAddress),
    /// Hand every listener to one task that merges their accepted connections.
    StartAcceptFeed,
    /// Apply this receive-buffer size to datagram sockets; failure is only logged.
    SetRecvBuffer(usize),
    /// Bind a datagram socket to this address.
    BindUdp(BindAddress),
    /// Start the IPv4 receive loop, and the IPv6 one where `v6` holds.
    StartUdpLoops { v6: bool },
    /// Start configuration sync with this serial; failure is only logged.
    StartConfigSync(i32),
    /// Startup is complete; the detached tasks serve from here on.
    Serve,
    /// Stop the process, closing whatever was opened.
    Abort(StartupError),
}

/// How far startup has come.
#[derive(Clone, Copy, Debug, PartialEq, Eq, Structural)]
pub struct Progress {
    pub phase: StartPhase,
    /// How many of the bind addresses have a listener.
    pub tcp_bound: usize,
    /// Whether the IPv6 datagram socket was bound.
    pub udp6: bool,
}

/// The startup of the rendezvous service: one key, one TCP listener per bind
/// address, the datagram sockets, then configuration sync. The owner performs
/// each action that `next_action` names and reports its result to `on_result`.
pub struct RendezvousServer {
    pub bind_addrs: Vec<BindAddress>,
    pub serial: i32,
    pub rmem: usize,
    pub udp_port: u16,
    pub progress: Progress,
}

impl RendezvousServer {
    pub open spec fn wf(&self) -> bool {
        let n = self.bind_addrs@.len();
        &&& self.progress.tcp_bound <= n
        &&& self.progress.phase == StartPhase::BindTcp ==> self.progress.tcp_bound < n
        &&& match self.progress.phase {
            StartPhase::BuildKey => self.progress.tcp_bound == 0,
            StartPhase::BindTcp => true,
            StartPhase::Failed(_) => true,
            _ => self.progress.tcp_bound == n,
        }
    }

    pub open spec fn next_action_spec(&self) -> StartAction {
        match self.progress.phase {
            StartPhase::BuildKey => StartAction::BuildKey,
            StartPhase::BindTcp => StartAction::BindTcp(
                self.bind_addrs@[self.progress.tcp_bound as int],
            ),
            StartPhase::StartAcceptFeed => StartAction::StartAcceptFeed,
            StartPhase::SetRecvBuffer => StartAction::SetRecvBuffer(self.rmem),
            StartPhase::BindUdp(Stack::V4) => StartAction::BindUdp(any_v4_spec(self.udp_port)),
            StartPhase::BindUdp(Stack::V6) => StartAction::BindUdp(any_v6_spec(self.udp_port)),
            StartPhase::StartUdpLoops => StartAction::StartUdpLoops { v6: self.progress.udp6 },
            StartPhase::StartConfigSync => StartAction::StartConfigSync(self.serial),
            StartPhase::Running => StartAction::Serve,
            StartPhase::Failed(e) => StartAction::Abort(e),
        }
    }

    /// The progress after the current action reported `ok`.
    pub open spec fn progress_after(&self, ok: bool) -> Progress {
        let p = self.progress;
        let n = self.bind_addrs@.len();
        match p.phase {
            StartPhase::BuildKey => if !ok {
                Progress { phase: StartPhase::Failed(StartupError::KeyConstruction), ..p }
            } else if n == 0 {
                Progress { phase: StartPhase::StartAcceptFeed, ..p }
            } else {
                Progress { phase: StartPhase::BindTcp, ..p }
            },
            StartPhase::BindTcp => if !ok {
                let e = StartupError::TcpBind { addr: self.bind_addrs@[p.tcp_bound as int] };
                Progress { phase: StartPhase::Failed(e), ..p }
            } else if p.tcp_bound + 1 == n {
                Progress { phase: StartPhase::StartAcceptFeed, tcp_bound: (p.tcp_bound + 1) as usize, ..p }
            } else {
                Progress { phase: StartPhase::BindTcp, tcp_bound: (p.tcp_bound + 1) as usize, ..p }
            },
            StartPhase::StartAcceptFeed => if self.rmem > 0 {
                Progress { phase: StartPhase::SetRecvBuffer, ..p }
            } else {
                Progress { phase: StartPhase::BindUdp(Stack::V4), ..p }
            },
            StartPhase::SetRecvBuffer => Progress { phase: StartPhase::BindUdp(Stack::V4), ..p },
            StartPhase::BindUdp(Stack::V4) => if ok {
                Progress { phase: StartPhase::BindUdp(Stack::V6), ..p }
            } else {
                let e = StartupError::UdpBind { addr: any_v4_spec(self.udp_port) };
                Progress { phase: StartPhase::Failed(e), ..p }
            },
            StartPhase::BindUdp(Stack::V6) => Progress { phase: StartPhase::StartUdpLoops, udp6: ok, ..p },
            StartPhase::StartUdpLoops => Progress { phase: StartPhase::StartConfigSync, ..p },
            StartPhase::StartConfigSync => Progress { phase: StartPhase::Running, ..p },
            StartPhase::Running => p,
            StartPhase::Failed(_) => p,
        }
    }

    /// A startup over `bind_addrs`, its datagram sockets on the well-known port.
    pub fn new(bind_addrs: Vec<BindAddress>, serial: i32, rmem: usize) -> (r: RendezvousServer)
        ensures
            r.wf(),
            r.bind_addrs@ == bind_addrs@,
            r.serial == serial,
            r.rmem == rmem,
            r.udp_port == RENDEZVOUS_PORT,
            r.progress == (Progress { phase: StartPhase::BuildKey, tcp_bound: 0, udp6: false }),
    {
        RendezvousServer {
            bind_addrs,
            serial,
            rmem,
            udp_port: RENDEZVOUS_PORT,
            progress: Progress { phase: StartPhase::BuildKey, tcp_bound: 0, udp6: false },
        }
    }

    /// The action that startup asks for now.
    pub fn next_action(&self) -> (r: StartAction)
        requires
            self.wf(),
        ensures
            r == self.next_action_spec(),
    {
        match self.progress.phase {
            StartPhase::BuildKey => StartAction::BuildKey,
            StartPhase::BindTcp => StartAction::BindTcp(self.bind_addrs[self.progress.tcp_bound]),
            StartPhase::StartAcceptFeed => StartAction::StartAcceptFeed,
            StartPhase::SetRecvBuffer => StartAction::SetRecvBuffer(self.rmem),
            StartPhase::BindUdp(Stack::V4) => StartAction::BindUdp(BindAddress::any_v4(self.udp_port)),
            StartPhase::BindUdp(Stack::V6) => StartAction::BindUdp(BindAddress::any_v6(self.udp_port)),
            StartPhase::StartUdpLoops => StartAction::StartUdpLoops { v6: self.progress.udp6 },
            StartPhase::StartConfigSync => StartAction::StartConfigSync(self.serial),
            StartPhase::Running => StartAction::Serve,
            StartPhase::Failed(e) => StartAction::Abort(e),
        }
    }

    /// Records whether the action that `next_action` named succeeded.
    pub fn on_result(&mut self, ok: bool)
        requires
            old(self).wf(),
        ensures
            final(self).wf(),
            final(self).bind_addrs@ == old(self).bind_addrs@,
            final(self).serial == old(self).serial,
            final(self).rmem == old(self).rmem,
            final(self).udp_port == old(self).udp_port,
            final(self).progress == old(self).progress_after(ok),
    {
        let p = self.progress;
        let n = self.bind_addrs.len();
        let next = match p.phase {
            StartPhase::BuildKey => if !ok {
                Progress { phase: StartPhase::Failed(StartupError::KeyConstruction), ..p }
            } else if n == 0 {
                Progress { phase: StartPhase::StartAcceptFeed, ..p }
            } else {
                Progress { phase: StartPhase::BindTcp, ..p }
            },
            StartPhase::BindTcp => if !ok {
                let e = StartupError::TcpBind { addr: self.bind_addrs[p.tcp_bound] };
                Progress { phase: StartPhase::Failed(e), ..p }
            } else if p.tcp_bound + 1 == n {
                Progress { phase: StartPhase::StartAcceptFeed, tcp_bound: p.tcp_bound + 1, ..p }
            } else {
                Progress { phase: StartPhase::BindTcp, tcp_bound: p.tcp_bound + 1, ..p }
            },
            StartPhase::StartAcceptFeed => if self.rmem > 0 {
                Progress { phase: StartPhase::SetRecvBuffer, ..p }
            } else {
                Progress { phase: StartPhase::BindUdp(Stack::V4), ..p }
            },
            StartPhase::SetRecvBuffer => Progress { phase: StartPhase::BindUdp(Stack::V4), ..p },
            StartPhase::BindUdp(Stack::V4) => if ok {
                Progress { phase: StartPhase::BindUdp(Stack::V6), ..p }
            } else {
                let e = StartupError::UdpBind { addr: BindAddress::any_v4(self.udp_port) };
                Progress { phase: StartPhase::Failed(e), ..p }
            },
            StartPhase::BindUdp(Stack::V6) => Progress { phase: StartPhase::StartUdpLoops, udp6: ok, ..p },
            StartPhase::StartUdpLoops => Progress { phase: StartPhase::StartConfigSync, ..p },
            StartPhase::StartConfigSync => Progress { phase: StartPhase::Running, ..p },
            StartPhase::Running => p,
            StartPhase::Failed(_) => p,
        };
        self.progress = next;
    }
}

/// The progress of startup `s` after the results `results`, one per action.
pub open spec fn progress_run(s: RendezvousServer, results: Seq<bool>) -> Progress
    decreases results.len(),
{
    if results.len() == 0 {
        s.progress
    } else {
        progress_run(
            RendezvousServer { progress: s.progress_after(results[0]), ..s },
            results.drop_first(),
        )
    }
}

/// A failed startup stays failed, with the same error, whatever is reported later.
pub proof fn lemma_failure_is_final(s: RendezvousServer, e: StartupError, results: Seq<bool>)
    requires
        s.progress.phase == StartPhase::Failed(e),
    ensures
        progress_run(s, results).phase == StartPhase::Failed(e),
    decreases results.len(),
{
    if results.len() > 0 {
        lemma_failure_is_final(
            RendezvousServer { progress: s.progress_after(results[0]), ..s },
            e,
            results.drop_first(),
        );
    }
}

/// A TCP listener that cannot be bound aborts startup with an error that names
/// its address, before the accept feed or any datagram socket is started.
pub proof fn lemma_tcp_bind_failure_aborts(s: RendezvousServer, results: Seq<bool>)
    requires
        s.wf(),
        s.progress.phase == StartPhase::BindTcp,
        results.len() > 0,
        results[0] == false,
    ensures
        progress_run(s, results).phase == StartPhase::Failed(
            StartupError::TcpBind { addr: s.bind_addrs@[s.progress.tcp_bound as int] },
        ),
{
    let e = StartupError::TcpBind { addr: s.bind_addrs@[s.progress.tcp_bound as int] };
    let t = RendezvousServer { progress: s.progress_after(results[0]), ..s };
    lemma_failure_is_final(t, e, results.drop_first());
}

/// The accept feed starts only once every bind address has its listener.
pub proof fn lemma_feed_after_all_bound(s: RendezvousServer)
    requires
        s.wf(),
        s.next_action_spec() == StartAction::StartAcceptFeed,
    ensures
        s.progress.tcp_bound == s.bind_addrs@.len(),
{
}

/// Where the IPv6 datagram socket cannot be bound, startup still completes and
/// the IPv4 receive loop is started alone.
pub proof fn lemma_ipv6_best_effort(s: RendezvousServer)
    requires
        s.wf(),
        s.progress.phase == StartPhase::BindUdp(Stack::V6),
    ensures
        (RendezvousServer { progress: s.progress_after(false), ..s }).next_action_spec()
            == (StartAction::StartUdpLoops { v6: false }),
        progress_run(s, seq![false, true, true]).phase == StartPhase::Running,
        progress_run(s, seq![false, false, false]).phase == StartPhase::Running,
{
    reveal_with_fuel(progress_run, 4);
    let a = seq![false, true, true];
    assert(a.drop_first() =~= seq![true, true]);
    assert(a.drop_first().drop_first() =~= seq![true]);
    assert(a.drop_first().drop_first().drop_first() =~= Seq::<bool>::empty());
    let b = seq![false, false, false];
    assert(b.drop_first() =~= seq![false, false]);
    assert(b.drop_first().drop_first() =~= seq![false]);
    assert(b.drop_first().drop_first().drop_first() =~= Seq::<bool>::empty());
}

} // verus!

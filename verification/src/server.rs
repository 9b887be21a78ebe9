//! The server's configuration and the decisions that its connection tasks take
//! on each event.
use vstd::prelude::*;
use crate::addr::{AddrTarget, SockAddr};
use crate::error::ErrorKind;
use crate::outside::num_cpus_get;

verus! {

/// A server: the addresses it listens on, how many workers handle packets, and
/// the service that it runs.
pub struct Server<S> {
    binds: Vec<SockAddr>,
    worker_count: usize,
    service: S,
}

impl<S> Server<S> {
    pub closed spec fn spec_binds(&self) -> Seq<SockAddr> {
        self.binds@
    }

    pub closed spec fn spec_worker_count(&self) -> usize {
        self.worker_count
    }

    pub closed spec fn spec_service(&self) -> S {
        self.service
    }

    /// A server that listens nowhere yet, with one worker per CPU.
    pub fn new(service: S) -> (s: Self)
        ensures
            s.spec_binds() == Seq::<SockAddr>::empty(),
            s.spec_worker_count() >= 1,
            s.spec_service() == service,
    {
        Self::with_worker_count(service, num_cpus_get())
    }

    /// A server that listens nowhere yet, with `worker_count` workers.
    pub fn with_worker_count(service: S, worker_count: usize) -> (s: Self)
        requires
            worker_count >= 1,
        ensures
            s.spec_binds() == Seq::<SockAddr>::empty(),
            s.spec_worker_count() == worker_count,
            s.spec_service() == service,
    {
        Self { binds: Vec::new(), worker_count, service }
    }

    /// The server, listening on `addr` too.
    pub fn bind(self, addr: SockAddr) -> (s: Self)
        ensures
            s.spec_binds() == self.spec_binds().push(addr),
            s.spec_worker_count() == self.spec_worker_count(),
            s.spec_service() == self.spec_service(),
    {
        let mut s = self;
        s.binds.push(addr);
        s
    }

    /// The addresses, the number of workers and the service.
    pub fn into_parts(self) -> (r: (Vec<SockAddr>, usize, S))
        ensures
            r.0@ == self.spec_binds(),
            r.1 == self.spec_worker_count(),
            r.2 == self.spec_service(),
    {
        (self.binds, self.worker_count, self.service)
    }
}

/// What a connection's task does next.
#[derive(Debug)]
pub enum ConnAction<P> {
    /// Leave the loop: the connection is closed.
    Stop,
    /// Nothing; wait for the next event.
    Skip,
    /// The reading task hands the packet to the workers; the writing task
    /// encodes it and sends it to the peer.
    Deliver(P),
    /// Log at debug level and go on.
    LogDebug,
    /// Log a warning and go on.
    LogWarn,
    /// Broadcast a disconnect signal for these targets and go on.
    Disconnect(AddrTarget),
    /// Stop the whole server.
    Abort,
}

/// What the task of the connection with peer `addr` does with a disconnect
/// signal: stop where the signal targets it; a signal that could not be
/// received is logged.
pub open spec fn on_signal_spec<P>(addr: SockAddr, signal: Option<AddrTarget>) -> ConnAction<P> {
    match signal {
        None => ConnAction::LogWarn,
        Some(t) => if t.spec_targets(addr) {
            ConnAction::Stop
        } else {
            ConnAction::Skip
        },
    }
}

/// What the task of the connection with peer `addr` does with an error that
/// its decoder or encoder reported.
pub open spec fn on_error_spec<P>(addr: SockAddr, kind: ErrorKind) -> ConnAction<P> {
    match kind {
        ErrorKind::Ignorable => ConnAction::LogDebug,
        ErrorKind::WarnOnly => ConnAction::LogWarn,
        ErrorKind::Disconnect => ConnAction::Disconnect(AddrTarget::Only(addr)),
        ErrorKind::Fatal => ConnAction::Abort,
    }
}

pub fn on_signal<P>(addr: SockAddr, signal: Option<AddrTarget>) -> (a: ConnAction<P>)
    ensures
        a == on_signal_spec::<P>(addr, signal),
{
    match signal {
        None => ConnAction::LogWarn,
        Some(t) => if t.targets(&addr) {
            ConnAction::Stop
        } else {
            ConnAction::Skip
        },
    }
}

pub fn on_error<P>(addr: SockAddr, kind: ErrorKind) -> (a: ConnAction<P>)
    ensures
        a == on_error_spec::<P>(addr, kind),
{
    match kind {
        ErrorKind::Ignorable => ConnAction::LogDebug,
        ErrorKind::WarnOnly => ConnAction::LogWarn,
        ErrorKind::Disconnect => ConnAction::Disconnect(AddrTarget::Only(addr)),
        ErrorKind::Fatal => ConnAction::Abort,
    }
}

/// What the writing task of the connection with peer `addr` does with a packet
/// broadcast to `target`: send it where the connection is a target, else skip
/// it.
pub fn on_outgoing<P>(addr: SockAddr, target: AddrTarget, packet: P) -> (a: ConnAction<P>)
    ensures
        target.spec_targets(addr) ==> a == ConnAction::Deliver(packet),
        !target.spec_targets(addr) ==> a is Skip,
        a == on_outgoing_spec(addr, target, packet),
{
    if target.targets(&addr) {
        ConnAction::Deliver(packet)
    } else {
        ConnAction::Skip
    }
}

/// What the writing task of the connection with peer `addr` does with a packet
/// broadcast to `target`.
pub open spec fn on_outgoing_spec<P>(addr: SockAddr, target: AddrTarget, packet: P) -> ConnAction<P> {
    if target.spec_targets(addr) {
        ConnAction::Deliver(packet)
    } else {
        ConnAction::Skip
    }
}

/// A broadcast never stops a writing task or asks for anything else: the
/// packet is sent where the connection is among its targets and skipped
/// everywhere else.
pub proof fn lemma_broadcast_delivers_or_skips<P>(addr: SockAddr, target: AddrTarget, packet: P)
    ensures
        target.spec_targets(addr) ==> on_outgoing_spec(addr, target, packet) == ConnAction::Deliver(packet),
        !target.spec_targets(addr) ==> on_outgoing_spec(addr, target, packet) is Skip,
{
}

/// The packets that the writing task of the connection with peer `addr` sends,
/// in order, when it is given the broadcasts `events` in order.
pub open spec fn sent_packets<P>(addr: SockAddr, events: Seq<(AddrTarget, P)>) -> Seq<P>
    decreases events.len(),
{
    if events.len() == 0 {
        Seq::empty()
    } else {
        let before = sent_packets(addr, events.drop_last());
        match on_outgoing_spec(addr, events.last().0, events.last().1) {
            ConnAction::Deliver(p) => before.push(p),
            _ => before,
        }
    }
}

/// Over a run of broadcasts, a connection sends exactly the packets whose
/// targets include it, each once, in the order they were broadcast.
pub proof fn lemma_sent_packets_in_order<P>(addr: SockAddr, events: Seq<(AddrTarget, P)>)
    ensures
        sent_packets(addr, events) == events.filter(
            |e: (AddrTarget, P)| e.0.spec_targets(addr),
        ).map_values(|e: (AddrTarget, P)| e.1),
    decreases events.len(),
{
    reveal_with_fuel(Seq::filter, 1);
    if events.len() > 0 {
        lemma_sent_packets_in_order(addr, events.drop_last());
        let pred = |e: (AddrTarget, P)| e.0.spec_targets(addr);
        let f = |e: (AddrTarget, P)| e.1;
        let sub = events.drop_last().filter(pred);
        assert(sub.push(events.last()).map_values(f) =~= sub.map_values(f).push(events.last().1));
    }
}

/// Whether a task of the connection with peer `addr`, given the disconnect
/// signals `signals` in order, stops at the `i`-th one: it stops there and at
/// none before.
pub open spec fn stops_at(addr: SockAddr, signals: Seq<Option<AddrTarget>>, i: int) -> bool {
    &&& 0 <= i < signals.len()
    &&& on_signal_spec::<()>(addr, signals[i]) is Stop
    &&& forall|j: int| 0 <= j < i ==> !(on_signal_spec::<()>(addr, #[trigger] signals[j]) is Stop)
}

/// Whether a signal targets the connection with peer `addr`.
pub open spec fn signal_targets(addr: SockAddr, signal: Option<AddrTarget>) -> bool {
    signal matches Some(t) && t.spec_targets(addr)
}

/// A connection's reading and writing tasks both stop at the first disconnect
/// signal that targets the connection, and at no other: signals that do not
/// target it, and signals that could not be received, leave them running.
pub proof fn lemma_stops_exactly_when_targeted(
    addr: SockAddr,
    signals: Seq<Option<AddrTarget>>,
    i: int,
)
    ensures
        stops_at(addr, signals, i) <==> (0 <= i < signals.len() && signal_targets(addr, signals[i])
            && forall|j: int| 0 <= j < i ==> !signal_targets(addr, #[trigger] signals[j])),
{
    assert forall|j: int| 0 <= j < signals.len() implies (on_signal_spec::<()>(
        addr,
        signals[j],
    ) is Stop <==> signal_targets(addr, #[trigger] signals[j])) by {}
}

/// What a worker does with the per-connection local data that the handler
/// gets: reuse the connection's data, create and file it, or drop it.
#[derive(Debug, Clone, Copy, PartialEq, Eq, Structural)]
pub enum LocalDataAction {
    Reuse(SockAddr),
    Create(SockAddr),
    Remove(SockAddr),
}

/// Whether the connection with peer `addr` has local data after `action`,
/// where `present` says whether it had.
pub open spec fn local_present_after(addr: SockAddr, present: bool, action: LocalDataAction) -> bool {
    match action {
        LocalDataAction::Reuse(_) => present,
        LocalDataAction::Create(a) => if a == addr { true } else { present },
        LocalDataAction::Remove(a) => if a == addr { false } else { present },
    }
}

/// A packet came on the connection with peer `addr`: reuse its local data where
/// it has some, else create it.
pub fn on_worker_packet(addr: SockAddr, has_local: bool) -> (a: LocalDataAction)
    ensures
        has_local ==> a == LocalDataAction::Reuse(addr),
        !has_local ==> a == LocalDataAction::Create(addr),
{
    if has_local {
        LocalDataAction::Reuse(addr)
    } else {
        LocalDataAction::Create(addr)
    }
}

/// The reading task of the connection with peer `addr` stopped: its local data
/// goes.
pub fn on_reader_stopped(addr: SockAddr) -> (a: LocalDataAction)
    ensures
        a == LocalDataAction::Remove(addr),
{
    LocalDataAction::Remove(addr)
}

/// The targets of the handle a handler gets for the connection with peer
/// `addr`: its disconnect and its sends both reach that connection only.
#[derive(Debug, Clone, Copy)]
pub struct ConnTargets {
    pub disconnect: AddrTarget,
    pub send: AddrTarget,
}

pub fn connection_targets(addr: SockAddr) -> (t: ConnTargets)
    ensures
        t.disconnect == AddrTarget::Only(addr),
        t.send == AddrTarget::Only(addr),
{
    ConnTargets { disconnect: AddrTarget::Only(addr), send: AddrTarget::Only(addr) }
}

/// A worker gives a handler local data for the connection a packet came on,
/// creating it once, and the data is gone once the connection's reading task
/// stopped; the other connections' data is untouched.
pub proof fn lemma_local_data_lifecycle(addr: SockAddr, other: SockAddr, present: bool, other_present: bool)
    requires
        other != addr,
    ensures
        local_present_after(addr, present, LocalDataAction::Reuse(addr)) == present,
        local_present_after(addr, present, LocalDataAction::Create(addr)),
        !local_present_after(addr, present, LocalDataAction::Remove(addr)),
        local_present_after(other, other_present, LocalDataAction::Create(addr)) == other_present,
        local_present_after(other, other_present, LocalDataAction::Remove(addr)) == other_present,
{
}

} // verus!

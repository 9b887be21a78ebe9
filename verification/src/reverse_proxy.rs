//! The reverse proxy service: each client gets its own connection to an
//! upstream server, and packets are passed on both ways.
use vstd::prelude::*;
use crate::addr::{AddrTarget, SockAddr};
use crate::error::ErrorKind;
use crate::proxy::HandleStep;

verus! {

/// The reverse proxy service and the upstream server it passes packets to.
pub struct ReverseProxy {
    target: SockAddr,
}

/// The reverse proxy's packet handler.
pub struct Handler {
    target: SockAddr,
}

/// The reverse proxy's decoder of network frames.
pub struct Decoder;

/// The reverse proxy's encoder of network frames.
pub struct Encoder;

impl ReverseProxy {
    pub closed spec fn spec_target(&self) -> SockAddr {
        self.target
    }

    pub fn new(target: SockAddr) -> (p: Self)
        ensures
            p.spec_target() == target,
    {
        Self { target }
    }

    pub fn target(&self) -> (a: SockAddr)
        ensures
            a == self.spec_target(),
    {
        self.target
    }

    /// A handler that passes packets to the same upstream server.
    pub fn create_handler(&self) -> (h: Handler)
        ensures
            h.spec_target() == self.spec_target(),
    {
        Handler::new(self.target)
    }
}

impl Handler {
    pub closed spec fn spec_target(&self) -> SockAddr {
        self.target
    }

    pub fn new(target: SockAddr) -> (h: Self)
        ensures
            h.spec_target() == target,
    {
        Self { target }
    }

    pub fn target(&self) -> (a: SockAddr)
        ensures
            a == self.spec_target(),
    {
        self.target
    }

    /// What the handler does with a client's packet: pass it on where the
    /// client's upstream connection is open, else open it first.
    pub fn handle<C>(&mut self, slot: &UpstreamSlot<C>) -> (s: HandleStep)
        ensures
            s == handle_spec(slot.spec_conn()),
    {
        if slot.is_open() {
            HandleStep::Forward
        } else {
            HandleStep::Connect
        }
    }

    /// What the handler does once it tried to open a client's upstream
    /// connection: keep it (where none is kept yet) and pass the packet on
    /// where it opened, else close the client's connection.
    pub fn connected<C>(&mut self, slot: &mut UpstreamSlot<C>, opened: Option<C>) -> (s: HandleStep)
        ensures
            (s, final(slot).spec_conn()) == connected_spec(old(slot).spec_conn(), opened),
    {
        match opened {
            Some(c) => {
                slot.set(c);
                HandleStep::Forward
            },
            None => HandleStep::Disconnect,
        }
    }
}

/// What the handler does with a packet, given the client's upstream
/// connection, where one is kept.
pub open spec fn handle_spec<C>(slot: Option<C>) -> HandleStep {
    if slot is Some {
        HandleStep::Forward
    } else {
        HandleStep::Connect
    }
}

/// What the handler does once it tried to open an upstream connection, and the
/// upstream connection kept afterwards: the first one opened is kept.
pub open spec fn connected_spec<C>(slot: Option<C>, opened: Option<C>) -> (HandleStep, Option<C>) {
    match opened {
        Some(c) => (HandleStep::Forward, if slot is Some { slot } else { Some(c) }),
        None => (HandleStep::Disconnect, slot),
    }
}

/// A client's upstream connection, once opened: it is set at most once.
pub struct UpstreamSlot<C> {
    conn: Option<C>,
}

impl<C> Default for UpstreamSlot<C> {
    fn default() -> (s: Self)
        ensures
            s.spec_conn() is None,
    {
        Self { conn: None }
    }
}

impl<C> UpstreamSlot<C> {
    pub closed spec fn spec_conn(&self) -> Option<C> {
        self.conn
    }

    /// Whether a connection is kept.
    pub fn is_open(&self) -> (b: bool)
        ensures
            b == self.spec_conn() is Some,
    {
        self.conn.is_some()
    }

    /// The connection kept, where there is one.
    pub fn get(&self) -> (r: Option<&C>)
        ensures
            match (r, self.spec_conn()) {
                (Some(a), Some(b)) => *a == b,
                (None, None) => true,
                _ => false,
            },
    {
        match &self.conn {
            Some(c) => Some(c),
            None => None,
        }
    }

    /// Keeps `c` where no connection is kept yet; returns whether it did.
    pub fn set(&mut self, c: C) -> (b: bool)
        ensures
            b == old(self).spec_conn() is None,
            final(self).spec_conn() == if old(self).spec_conn() is None {
                Some(c)
            } else {
                old(self).spec_conn()
            },
    {
        if self.conn.is_none() {
            self.conn = Some(c);
            true
        } else {
            false
        }
    }
}

/// The reverse proxy keeps the upstream connection that it opened for a client:
/// once a connection was opened for a client without one, later packets of
/// that client go to it, without opening another.
pub proof fn lemma_keeps_upstream<C>(c: C)
    ensures
        handle_spec::<C>(None) == HandleStep::Connect,
        connected_spec::<C>(None, Some(c)) == (HandleStep::Forward, Some(c)),
        handle_spec(Some(c)) == HandleStep::Forward,
        forall|d: Option<C>| connected_spec(Some(c), d).1 == Some(c),
{
}

impl Decoder {
    /// How a failed read is treated: the client left where the stream ended
    /// early, else a warning.
    pub fn error_kind(&self, unexpected_eof: bool) -> (k: ErrorKind)
        ensures
            unexpected_eof ==> k == ErrorKind::Disconnect,
            !unexpected_eof ==> k == ErrorKind::WarnOnly,
    {
        if unexpected_eof {
            ErrorKind::Disconnect
        } else {
            ErrorKind::WarnOnly
        }
    }
}

impl Encoder {
    /// How a failed write is treated: as a warning.
    pub fn error_kind(&self) -> (k: ErrorKind)
        ensures
            k == ErrorKind::WarnOnly,
    {
        ErrorKind::WarnOnly
    }
}

/// What the tasks that serve a client's upstream connection learn: the
/// connection could not be opened, the client's next packet (or `None` where
/// the client is gone), or the server's next packet (or `None` where the server
/// is gone).
pub enum UpstreamEvent<P> {
    ConnectFailed,
    FromClient(Option<P>),
    FromServer(Option<P>),
}

/// What those tasks do: write a packet to the server, send a packet to the
/// targeted clients, or disconnect the targeted clients and stop.
#[derive(Debug)]
pub enum UpstreamAction<P> {
    WriteToServer(P),
    SendToClients(AddrTarget, P),
    Disconnect(AddrTarget),
}

/// What the tasks serving the upstream connection of the client with peer
/// `client` do on `event`: a client's packet goes to the server, a server's
/// packet goes to that client only, and when either side is gone, or the
/// connection could not be opened, that client is disconnected.
pub open spec fn upstream_action_spec<P>(client: SockAddr, event: UpstreamEvent<P>) -> UpstreamAction<P> {
    match event {
        UpstreamEvent::ConnectFailed => UpstreamAction::Disconnect(AddrTarget::Only(client)),
        UpstreamEvent::FromClient(Some(p)) => UpstreamAction::WriteToServer(p),
        UpstreamEvent::FromClient(None) => UpstreamAction::Disconnect(AddrTarget::Only(client)),
        UpstreamEvent::FromServer(Some(p)) => UpstreamAction::SendToClients(AddrTarget::Only(client), p),
        UpstreamEvent::FromServer(None) => UpstreamAction::Disconnect(AddrTarget::Only(client)),
    }
}

pub fn upstream_action<P>(client: SockAddr, event: UpstreamEvent<P>) -> (a: UpstreamAction<P>)
    ensures
        a == upstream_action_spec(client, event),
{
    match event {
        UpstreamEvent::ConnectFailed => UpstreamAction::Disconnect(AddrTarget::Only(client)),
        UpstreamEvent::FromClient(Some(p)) => UpstreamAction::WriteToServer(p),
        UpstreamEvent::FromClient(None) => UpstreamAction::Disconnect(AddrTarget::Only(client)),
        UpstreamEvent::FromServer(Some(p)) => UpstreamAction::SendToClients(AddrTarget::Only(client), p),
        UpstreamEvent::FromServer(None) => UpstreamAction::Disconnect(AddrTarget::Only(client)),
    }
}

/// Whatever happens on a client's upstream connection, what is sent or
/// disconnected targets that client only.
pub proof fn lemma_upstream_targets_only_client<P>(client: SockAddr, event: UpstreamEvent<P>)
    ensures
        upstream_action_spec(client, event) matches UpstreamAction::SendToClients(t, _) ==> t
            == AddrTarget::Only(client),
        upstream_action_spec(client, event) matches UpstreamAction::Disconnect(t) ==> t
            == AddrTarget::Only(client),
{
}

} // verus!

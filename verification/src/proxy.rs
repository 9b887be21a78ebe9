//! The plain proxy service: it logs each packet's kind and closes the
//! connection.
use vstd::prelude::*;
use crate::addr::SockAddr;
use crate::error::ErrorKind;

verus! {

/// The address the plain proxy's global data points at: 127.0.0.1:5123.
pub open spec fn proxy_target() -> SockAddr {
    SockAddr::V4 { ip: 0x7f00_0001, port: 5123 }
}

/// The plain proxy service.
pub struct Proxy;

/// The plain proxy's data shared by all its connections.
pub struct Global {
    target: SockAddr,
}

impl Global {
    pub fn target(&self) -> (a: SockAddr)
        ensures
            a == self.spec_target(),
    {
        self.target
    }

    pub closed spec fn spec_target(&self) -> SockAddr {
        self.target
    }
}

impl Proxy {
    /// The data shared by all connections: the target 127.0.0.1:5123.
    pub fn init_global(&mut self) -> (g: Global)
        ensures
            g.spec_target() == proxy_target(),
    {
        Global { target: SockAddr::V4 { ip: 0x7f00_0001, port: 5123 } }
    }
}

/// What a handler does with the connection a packet came on.
#[derive(Debug, Clone, Copy, PartialEq, Eq, Structural)]
pub enum HandleStep {
    /// Close the client's connection.
    Disconnect,
    /// Pass the packet on to the connection to the upstream server.
    Forward,
    /// Open the connection to the upstream server, then pass the packet on.
    Connect,
}

/// The plain proxy's decoder of network frames.
pub struct Decoder;

/// The plain proxy's encoder of network frames.
pub struct Encoder;

/// The plain proxy's packet handler.
pub struct Handler;

impl Decoder {
    /// How a failed read is treated: as a warning, whatever failed.
    pub fn error_kind(&self, _unexpected_eof: bool) -> (k: ErrorKind)
        ensures
            k == ErrorKind::WarnOnly,
    {
        ErrorKind::WarnOnly
    }
}

impl Encoder {
    /// How a failed write is treated: as a warning.
    pub fn error_kind(&self) -> (k: ErrorKind)
        ensures
            k == ErrorKind::WarnOnly,
    {
        ErrorKind::WarnOnly
    }
}

impl Handler {
    /// What the plain proxy does with each packet: it closes the connection.
    pub fn handle(&mut self) -> (s: HandleStep)
        ensures
            s == HandleStep::Disconnect,
    {
        HandleStep::Disconnect
    }
}

} // verus!

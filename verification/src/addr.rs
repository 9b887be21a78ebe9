//! Socket addresses as plain values, and the set of connections that a signal
//! or an outgoing packet is meant for.
use vstd::prelude::*;

verus! {

/// A socket address: an IPv4 address and port, or an IPv6 address, port, flow
/// information and scope id. Two addresses are equal exactly when all their
/// parts are.
#[derive(Debug, Clone, Copy, PartialEq, Eq, Structural, Hash)]
pub enum SockAddr {
    V4 { ip: u32, port: u16 },
    V6 { ip6: u128, port: u16, flowinfo: u32, scope_id: u32 },
}

/// The connections that a disconnect signal or an outgoing packet is meant for.
#[derive(Debug, Clone, Copy, PartialEq, Eq, Structural)]
pub enum AddrTarget {
    /// Every connection.
    All,
    /// The connection with this peer address only.
    Only(SockAddr),
    /// Every connection but the one with this peer address.
    Without(SockAddr),
}

impl AddrTarget {
    /// Whether the connection with peer address `addr` is one of the targets.
    pub open spec fn spec_targets(self, addr: SockAddr) -> bool {
        match self {
            AddrTarget::All => true,
            AddrTarget::Only(a) => a == addr,
            AddrTarget::Without(a) => a != addr,
        }
    }

    /// Whether the connection with peer address `addr` is one of the targets.
    pub fn targets(&self, addr: &SockAddr) -> (b: bool)
        ensures
            b == self.spec_targets(*addr),
    {
        match self {
            AddrTarget::All => true,
            AddrTarget::Only(a) => *a == *addr,
            AddrTarget::Without(a) => *a != *addr,
        }
    }
}

/// `Only(a)` and `Without(a)` split the connections between them: each
/// connection is the target of exactly one of the two, and `All` targets every
/// connection.
pub proof fn lemma_targets_partition(a: SockAddr, addr: SockAddr)
    ensures
        AddrTarget::All.spec_targets(addr),
        AddrTarget::Only(a).spec_targets(addr) != AddrTarget::Without(a).spec_targets(addr),
        AddrTarget::Only(a).spec_targets(addr) <==> addr == a,
{
}

} // verus!

//! Network endpoints: the identity of a peer and the address a listener binds.

use vstd::prelude::*;

verus! {

/// The host part of an endpoint, its octets packed in network order.
#[derive(Clone, Copy, Debug, PartialEq, Eq, Hash, Structural)]
pub enum IpAddress {
    V4(u32),
    V6(u128),
}

/// A host and a port.
#[derive(Clone, Copy, Debug, PartialEq, Eq, Hash, Structural)]
pub struct SocketAddress {
    pub ip: IpAddress,
    pub port: u16,
}

impl SocketAddress {
    pub fn new(ip: IpAddress, port: u16) -> (r: SocketAddress)
        ensures
            r == (SocketAddress { ip, port }),
    {
        SocketAddress { ip, port }
    }

    /// Binding to port 0 asks the socket layer to pick a free port.
    pub open spec fn spec_requests_ephemeral_port(self) -> bool {
        self.port == 0
    }

    #[verifier::when_used_as_spec(spec_requests_ephemeral_port)]
    pub fn requests_ephemeral_port(self) -> (r: bool)
        ensures
            r == self.spec_requests_ephemeral_port(),
    {
        self.port == 0
    }
}

} // verus!

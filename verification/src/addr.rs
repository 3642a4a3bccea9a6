//! Plain-value model of a network endpoint.
//!
//! The transport itself lives outside the library; what the protocol logic
//! needs of an endpoint is only to carry it along with a discovered device
//! and to hand it back to the embedding program, so an address is held here
//! as raw octets and a port.

use vstd::prelude::*;

verus! {

/// An IP host address as raw octets.
#[derive(Clone, Copy, Debug, PartialEq, Eq, Hash)]
pub enum HostIp {
    V4([u8; 4]),
    V6([u8; 16]),
}

/// A network endpoint: host address and UDP port.
#[derive(Clone, Copy, Debug, PartialEq, Eq, Hash)]
pub struct PeerAddr {
    pub ip: HostIp,
    pub port: u16,
}

} // verus!

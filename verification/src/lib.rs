//! A session layer for BACnet/IP over unreliable datagrams.
//!
//! The crate binds the `embedded_bacnet` codec to a datagram transport and
//! adds what a bare codec cannot provide: timeout-bounded single-buffer
//! request/response transactions against one peer, and a broadcast discovery
//! protocol that collects an unordered stream of replies.
//!
//! Everything that decides or computes lives here, verified; binding sockets,
//! sending and receiving datagrams, and the result channel are left to the
//! embedding program, which drives the state machines in [`client`] and
//! [`discovery`] with the events it observes on the wire.

mod addr;
mod args;
mod codec;
mod error;
mod frame;

pub mod client;
pub mod discovery;

pub use addr::{HostIp, PeerAddr};
pub use args::{ApplicationDataValueArg, ArgObjectType, JsonKind};
pub use codec::{ObjectRef, BUF_SIZE, MAX_OBJECT_TYPE};
pub use error::{Error, TransportFault};
pub use frame::ReplyKind;

pub use client::{Client, IAmInfo, ReadAck, SessionState};
pub use discovery::{CollectAction, Device, DiscoveryEngine, DiscoveryState, RecvEvent};

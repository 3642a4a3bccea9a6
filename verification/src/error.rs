//! The error taxonomy of the session layer.
//!
//! Three kinds of failure reach a caller: a transport failure (a timeout, or
//! an I/O fault underneath the socket), a codec failure (bytes the decoder
//! refuses), and a protocol rejection (a well-formed reply that refuses the
//! request). None are retried or suppressed here; each surfaces as a tagged
//! value.

use vstd::prelude::*;

verus! {

/// What the transport reports when a send or receive does not complete.
///
/// The embedding program maps its socket errors onto this: an elapsed
/// timeout becomes [`TransportFault::Timeout`], everything else
/// [`TransportFault::Io`].
#[derive(Clone, Copy, Debug, PartialEq, Eq, Structural)]
pub enum TransportFault {
    /// No datagram was sent or received within the configured timeout.
    Timeout,
    /// The socket failed below the timeout layer.
    Io,
}

/// A failure surfaced to the caller of a transaction or of discovery.
///
/// An error carries its kind and nothing more: the contracts pin down
/// exactly which kind each input produces, and a plain tag is what they
/// can speak of. The underlying socket error value stays at the transport
/// boundary in the embedding program, which owns it and can log or attach
/// it when it maps the failure onto [`TransportFault`].
#[derive(Clone, Copy, Debug, PartialEq, Eq, Structural)]
pub enum Error {
    /// The configured timeout elapsed with no reply.
    Timeout,
    /// The socket failed.
    Io,
    /// The reply bytes could not be decoded as a BACnet frame.
    Codec,
    /// A syntactically valid reply refused the request.
    Rejected,
    /// A well-formed frame arrived that does not answer the pending request.
    UnexpectedReply,
}

impl Error {
    /// The error reported for a transport fault, kind for kind.
    pub open spec fn for_fault_spec(fault: TransportFault) -> Error {
        match fault {
            TransportFault::Timeout => Error::Timeout,
            TransportFault::Io => Error::Io,
        }
    }

    /// Tags a transport fault as the error the caller sees.
    pub fn for_fault(fault: TransportFault) -> (e: Error)
        ensures
            e == Error::for_fault_spec(fault),
    {
        match fault {
            TransportFault::Timeout => Error::Timeout,
            TransportFault::Io => Error::Io,
        }
    }
}

} // verus!

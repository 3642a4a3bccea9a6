//! The single-peer transaction client.
//!
//! A client runs one request/response exchange at a time against one peer:
//! it encodes a request frame, the embedding program sends it and brings
//! back the reply datagram, and the client decodes that reply from its one
//! reused decode buffer. The session state machine makes the sequencing a
//! precondition: a new request cannot start while a reply is still owed,
//! and every completion or failure returns the client to idle with the
//! buffer ready for reuse.

use vstd::prelude::*;

use embedded_bacnet::application_protocol::primitives::data_value::ApplicationDataValueWrite;

use crate::codec::{
    encode_read_multiple_request, encode_read_request, encode_who_is_unicast,
    encode_write_request, read_multiple_frame, read_request_frame, value_encodes_bounded,
    value_fits, who_is_unicast_frame, write_request_frame, ObjectRef, BUF_SIZE,
};
use crate::error::{Error, TransportFault};
use crate::frame::{classify_bytes, frame_class, ReplyKind};

verus! {

/// Where a client stands in its one-at-a-time request cycle.
#[derive(Clone, Copy, Debug, PartialEq, Eq, Structural)]
pub enum SessionState {
    /// No reply is owed; a new request may start.
    Idle,
    /// A single-property read is in flight under this invoke id.
    AwaitingRead { invoke_id: u8 },
    /// A multi-property read is in flight under this invoke id.
    AwaitingReadMultiple { invoke_id: u8 },
    /// A write is in flight under this invoke id.
    AwaitingWrite { invoke_id: u8 },
    /// A unicast WHO-IS probe is in flight.
    AwaitingIAm,
}

/// The abstract state of a client: the bytes its decode buffer holds, the
/// invoke id the next request will carry, and the session state.
pub struct ClientModel {
    pub reply: Seq<u8>,
    pub next_invoke_id: u8,
    pub state: SessionState,
}

/// The decoded acknowledgement of a single-property read, owned plain
/// values with no tie to the decode buffer.
#[derive(Clone, Copy, Debug, PartialEq, Eq, Structural)]
pub struct ReadAck {
    pub invoke_id: u8,
    pub instance: u32,
    pub property: u32,
}

/// A device's answer to a WHO-IS probe, as owned plain values.
#[derive(Clone, Copy, Debug, PartialEq, Eq, Structural)]
pub struct IAmInfo {
    pub device_instance: u32,
    pub vendor_id: u16,
}

/// The invoke id following `iv`, wrapping at the protocol's eight bits.
pub open spec fn next_invoke_after(iv: u8) -> u8 {
    if iv == 255 {
        0
    } else {
        (iv + 1) as u8
    }
}

/// What a single-property read makes of the reply bytes: the matching
/// acknowledgement's fields, or the error that classifies the reply.
pub open spec fn read_outcome(invoke_id: u8, reply: Seq<u8>) -> Result<ReadAck, Error> {
    match frame_class(reply) {
        ReplyKind::ReadAck { invoke_id: iv, instance, property } => {
            if iv == invoke_id {
                Ok(ReadAck { invoke_id: iv, instance, property })
            } else {
                Err(Error::UnexpectedReply)
            }
        },
        ReplyKind::Rejection { invoke_id: iv } => {
            if iv == invoke_id {
                Err(Error::Rejected)
            } else {
                Err(Error::UnexpectedReply)
            }
        },
        ReplyKind::Malformed => Err(Error::Codec),
        _ => Err(Error::UnexpectedReply),
    }
}

/// What a multi-property read makes of the reply bytes.
pub open spec fn read_multiple_outcome(invoke_id: u8, reply: Seq<u8>) -> Result<u8, Error> {
    match frame_class(reply) {
        ReplyKind::ReadMultipleAck { invoke_id: iv } => {
            if iv == invoke_id {
                Ok(iv)
            } else {
                Err(Error::UnexpectedReply)
            }
        },
        ReplyKind::Rejection { invoke_id: iv } => {
            if iv == invoke_id {
                Err(Error::Rejected)
            } else {
                Err(Error::UnexpectedReply)
            }
        },
        ReplyKind::Malformed => Err(Error::Codec),
        _ => Err(Error::UnexpectedReply),
    }
}

/// What a write makes of the reply bytes: success only on a simple
/// acknowledgement under the pending invoke id; a rejection is an error,
/// never a silent success.
pub open spec fn write_outcome(invoke_id: u8, reply: Seq<u8>) -> Result<(), Error> {
    match frame_class(reply) {
        ReplyKind::WriteAck { invoke_id: iv } => {
            if iv == invoke_id {
                Ok(())
            } else {
                Err(Error::UnexpectedReply)
            }
        },
        ReplyKind::Rejection { invoke_id: iv } => {
            if iv == invoke_id {
                Err(Error::Rejected)
            } else {
                Err(Error::UnexpectedReply)
            }
        },
        ReplyKind::Malformed => Err(Error::Codec),
        _ => Err(Error::UnexpectedReply),
    }
}

/// What a unicast WHO-IS makes of the reply bytes: the identifying reply,
/// none when a well-formed frame of another kind is filtered out, an error
/// only when the bytes do not decode.
pub open spec fn who_is_outcome(reply: Seq<u8>) -> Result<Option<IAmInfo>, Error> {
    match frame_class(reply) {
        ReplyKind::IAm { device_instance, vendor_id } => {
            Ok(Some(IAmInfo { device_instance, vendor_id }))
        },
        ReplyKind::Malformed => Err(Error::Codec),
        _ => Ok(None),
    }
}

/// Holds when `post` is `pre` with the decode buffer overwritten by
/// `data`, everything else untouched.
pub open spec fn stores_reply(pre: Client, post: Client, data: Seq<u8>) -> bool {
    &&& post.wf()
    &&& post@.reply == data
    &&& post@.next_invoke_id == pre@.next_invoke_id
    &&& post@.state == pre@.state
}

/// The transaction client: one reused decode buffer, one pending request
/// at a time.
pub struct Client {
    buf: Vec<u8>,
    next_invoke_id: u8,
    state: SessionState,
}

impl View for Client {
    type V = ClientModel;

    closed spec fn view(&self) -> ClientModel {
        ClientModel {
            reply: self.buf@,
            next_invoke_id: self.next_invoke_id,
            state: self.state,
        }
    }
}

impl Client {
    /// The decode buffer never outgrows one datagram.
    pub open spec fn wf(self) -> bool {
        self@.reply.len() <= BUF_SIZE
    }

    /// A fresh client: idle, empty decode buffer, invoke ids from zero.
    pub fn new() -> (c: Client)
        ensures
            c.wf(),
            c@.state == SessionState::Idle,
            c@.next_invoke_id == 0,
            c@.reply == Seq::<u8>::empty(),
    {
        Client { buf: Vec::new(), next_invoke_id: 0, state: SessionState::Idle }
    }

    /// The raw bytes of the most recent reply, as the transport delivered
    /// them. They are valid until the next [`Client::set_reply`].
    pub fn buffer(&self) -> (r: &Vec<u8>)
        ensures
            r@ == self@.reply,
    {
        &self.buf
    }

    /// Takes the invoke id for a new request and advances the counter.
    fn take_invoke_id(&mut self) -> (iv: u8)
        ensures
            iv == old(self)@.next_invoke_id,
            final(self)@.next_invoke_id == next_invoke_after(iv),
            final(self)@.reply == old(self)@.reply,
            final(self)@.state == old(self)@.state,
    {
        let iv = self.next_invoke_id;
        self.next_invoke_id = if iv == 255 {
            0
        } else {
            iv + 1
        };
        iv
    }

    /// Starts a single-property read: returns the frame to send to the
    /// peer and leaves the client awaiting the matching acknowledgement.
    pub fn start_read_property(&mut self, object: ObjectRef, property: u32) -> (frame: Vec<u8>)
        requires
            old(self).wf(),
            old(self)@.state == SessionState::Idle,
            object.wf(),
        ensures
            final(self).wf(),
            frame@ == read_request_frame(
                old(self)@.next_invoke_id,
                object.type_code,
                object.instance,
                property,
            ),
            final(self)@.state == (SessionState::AwaitingRead {
                invoke_id: old(self)@.next_invoke_id,
            }),
            final(self)@.next_invoke_id == next_invoke_after(old(self)@.next_invoke_id),
            final(self)@.reply == old(self)@.reply,
    {
        let iv = self.take_invoke_id();
        self.state = SessionState::AwaitingRead { invoke_id: iv };
        encode_read_request(iv, object.type_code, object.instance, property)
    }

    /// Starts a multi-property read of one object. The property list is
    /// bounded so that the encoded request stays within one MTU-sized
    /// datagram.
    pub fn start_read_property_multiple(
        &mut self,
        object: ObjectRef,
        properties: &Vec<u32>,
    ) -> (frame: Vec<u8>)
        requires
            old(self).wf(),
            old(self)@.state == SessionState::Idle,
            object.wf(),
            properties@.len() <= 256,
        ensures
            final(self).wf(),
            frame@ == read_multiple_frame(
                old(self)@.next_invoke_id,
                object.type_code,
                object.instance,
                properties@,
            ),
            final(self)@.state == (SessionState::AwaitingReadMultiple {
                invoke_id: old(self)@.next_invoke_id,
            }),
            final(self)@.next_invoke_id == next_invoke_after(old(self)@.next_invoke_id),
            final(self)@.reply == old(self)@.reply,
    {
        let iv = self.take_invoke_id();
        self.state = SessionState::AwaitingReadMultiple { invoke_id: iv };
        encode_read_multiple_request(iv, object.type_code, object.instance, properties)
    }

    /// Starts a write of one property. The value must be one whose
    /// encoding is bounded; [`Client::try_start_write_property`] makes
    /// that test first.
    pub fn start_write_property(
        &mut self,
        object: ObjectRef,
        property: u32,
        priority: Option<u8>,
        value: ApplicationDataValueWrite<'static>,
    ) -> (frame: Vec<u8>)
        requires
            old(self).wf(),
            old(self)@.state == SessionState::Idle,
            object.wf(),
            value_fits(value),
        ensures
            final(self).wf(),
            frame@ == write_request_frame(
                old(self)@.next_invoke_id,
                object.type_code,
                object.instance,
                property,
                priority,
                value,
            ),
            final(self)@.state == (SessionState::AwaitingWrite {
                invoke_id: old(self)@.next_invoke_id,
            }),
            final(self)@.next_invoke_id == next_invoke_after(old(self)@.next_invoke_id),
            final(self)@.reply == old(self)@.reply,
    {
        let iv = self.take_invoke_id();
        self.state = SessionState::AwaitingWrite { invoke_id: iv };
        encode_write_request(iv, object.type_code, object.instance, property, priority, value)
    }

    /// Starts a write of one property, first testing that the value's
    /// encoding is bounded: a value that could outgrow one datagram is
    /// refused with `None` and the client left unchanged.
    pub fn try_start_write_property(
        &mut self,
        object: ObjectRef,
        property: u32,
        priority: Option<u8>,
        value: ApplicationDataValueWrite<'static>,
    ) -> (r: Option<Vec<u8>>)
        requires
            old(self).wf(),
            old(self)@.state == SessionState::Idle,
            object.wf(),
        ensures
            final(self).wf(),
            final(self)@.reply == old(self)@.reply,
            value_fits(value) ==> {
                &&& r matches Some(frame) && frame@ == write_request_frame(
                    old(self)@.next_invoke_id,
                    object.type_code,
                    object.instance,
                    property,
                    priority,
                    value,
                )
                &&& final(self)@.state == (SessionState::AwaitingWrite {
                    invoke_id: old(self)@.next_invoke_id,
                })
                &&& final(self)@.next_invoke_id == next_invoke_after(old(self)@.next_invoke_id)
            },
            !value_fits(value) ==> r is None && final(self)@ == old(self)@,
    {
        if value_encodes_bounded(&value) {
            Some(self.start_write_property(object, property, priority, value))
        } else {
            None
        }
    }

    /// Starts a unicast WHO-IS probe towards the configured peer.
    pub fn start_who_is(&mut self) -> (frame: Vec<u8>)
        requires
            old(self).wf(),
            old(self)@.state == SessionState::Idle,
        ensures
            final(self).wf(),
            frame@ == who_is_unicast_frame(),
            final(self)@.state == SessionState::AwaitingIAm,
            final(self)@.next_invoke_id == old(self)@.next_invoke_id,
            final(self)@.reply == old(self)@.reply,
    {
        self.state = SessionState::AwaitingIAm;
        encode_who_is_unicast()
    }

    /// Copies one received datagram into the decode buffer, replacing
    /// whatever the buffer held before. A datagram read into an MTU-sized
    /// receive buffer never exceeds [`BUF_SIZE`].
    pub fn set_reply(&mut self, data: &[u8])
        requires
            old(self).wf(),
            data@.len() <= BUF_SIZE,
        ensures
            stores_reply(*old(self), *final(self), data@),
    {
        self.buf.clear();
        let mut i: usize = 0;
        while i < data.len()
            invariant
                i <= data@.len(),
                data@.len() <= BUF_SIZE,
                self.buf@ == data@.subrange(0, i as int),
                self.next_invoke_id == old(self).next_invoke_id,
                self.state == old(self).state,
            decreases data@.len() - i,
        {
            self.buf.push(data[i]);
            assert(self.buf@ =~= data@.subrange(0, i + 1));
            i += 1;
        }
        assert(self.buf@ =~= data@);
    }

    /// Finishes a single-property read against the reply in the decode
    /// buffer. The acknowledgement's fields come from those bytes alone;
    /// the client is idle again afterwards, whatever the outcome.
    pub fn finish_read_property(&mut self) -> (r: Result<ReadAck, Error>)
        requires
            old(self).wf(),
            old(self)@.state matches SessionState::AwaitingRead { .. },
        ensures
            final(self).wf(),
            final(self)@.state == SessionState::Idle,
            final(self)@.reply == old(self)@.reply,
            final(self)@.next_invoke_id == old(self)@.next_invoke_id,
            r == read_outcome(old(self)@.state->AwaitingRead_invoke_id, old(self)@.reply),
    {
        let pending = match self.state {
            SessionState::AwaitingRead { invoke_id } => invoke_id,
            _ => unreached(),
        };
        self.state = SessionState::Idle;
        match classify_bytes(self.buf.as_slice()) {
            ReplyKind::ReadAck { invoke_id, instance, property } => {
                if invoke_id == pending {
                    Ok(ReadAck { invoke_id, instance, property })
                } else {
                    Err(Error::UnexpectedReply)
                }
            },
            ReplyKind::Rejection { invoke_id } => {
                if invoke_id == pending {
                    Err(Error::Rejected)
                } else {
                    Err(Error::UnexpectedReply)
                }
            },
            ReplyKind::Malformed => Err(Error::Codec),
            _ => Err(Error::UnexpectedReply),
        }
    }

    /// Finishes a multi-property read; on success the raw acknowledgement
    /// bytes stay readable through [`Client::buffer`].
    pub fn finish_read_property_multiple(&mut self) -> (r: Result<u8, Error>)
        requires
            old(self).wf(),
            old(self)@.state matches SessionState::AwaitingReadMultiple { .. },
        ensures
            final(self).wf(),
            final(self)@.state == SessionState::Idle,
            final(self)@.reply == old(self)@.reply,
            final(self)@.next_invoke_id == old(self)@.next_invoke_id,
            r == read_multiple_outcome(
                old(self)@.state->AwaitingReadMultiple_invoke_id,
                old(self)@.reply,
            ),
    {
        let pending = match self.state {
            SessionState::AwaitingReadMultiple { invoke_id } => invoke_id,
            _ => unreached(),
        };
        self.state = SessionState::Idle;
        match classify_bytes(self.buf.as_slice()) {
            ReplyKind::ReadMultipleAck { invoke_id } => {
                if invoke_id == pending {
                    Ok(invoke_id)
                } else {
                    Err(Error::UnexpectedReply)
                }
            },
            ReplyKind::Rejection { invoke_id } => {
                if invoke_id == pending {
                    Err(Error::Rejected)
                } else {
                    Err(Error::UnexpectedReply)
                }
            },
            ReplyKind::Malformed => Err(Error::Codec),
            _ => Err(Error::UnexpectedReply),
        }
    }

    /// Finishes a write: success only when the peer's simple
    /// acknowledgement answers the pending invoke id; a protocol rejection
    /// surfaces as an error, never as a void success.
    pub fn finish_write_property(&mut self) -> (r: Result<(), Error>)
        requires
            old(self).wf(),
            old(self)@.state matches SessionState::AwaitingWrite { .. },
        ensures
            final(self).wf(),
            final(self)@.state == SessionState::Idle,
            final(self)@.reply == old(self)@.reply,
            final(self)@.next_invoke_id == old(self)@.next_invoke_id,
            r == write_outcome(old(self)@.state->AwaitingWrite_invoke_id, old(self)@.reply),
    {
        let pending = match self.state {
            SessionState::AwaitingWrite { invoke_id } => invoke_id,
            _ => unreached(),
        };
        self.state = SessionState::Idle;
        match classify_bytes(self.buf.as_slice()) {
            ReplyKind::WriteAck { invoke_id } => {
                if invoke_id == pending {
                    Ok(())
                } else {
                    Err(Error::UnexpectedReply)
                }
            },
            ReplyKind::Rejection { invoke_id } => {
                if invoke_id == pending {
                    Err(Error::Rejected)
                } else {
                    Err(Error::UnexpectedReply)
                }
            },
            ReplyKind::Malformed => Err(Error::Codec),
            _ => Err(Error::UnexpectedReply),
        }
    }

    /// Finishes a unicast WHO-IS: the first identifying reply, or none
    /// when the reply was filtered out by message kind.
    pub fn finish_who_is(&mut self) -> (r: Result<Option<IAmInfo>, Error>)
        requires
            old(self).wf(),
            old(self)@.state == SessionState::AwaitingIAm,
        ensures
            final(self).wf(),
            final(self)@.state == SessionState::Idle,
            final(self)@.reply == old(self)@.reply,
            final(self)@.next_invoke_id == old(self)@.next_invoke_id,
            r == who_is_outcome(old(self)@.reply),
    {
        self.state = SessionState::Idle;
        match classify_bytes(self.buf.as_slice()) {
            ReplyKind::IAm { device_instance, vendor_id } => {
                Ok(Some(IAmInfo { device_instance, vendor_id }))
            },
            ReplyKind::Malformed => Err(Error::Codec),
            _ => Ok(None),
        }
    }

    /// Abandons the pending request after a transport fault: the fault is
    /// tagged kind for kind, and the client is idle with its decode buffer
    /// intact, safe for the next request.
    pub fn fail_pending(&mut self, fault: TransportFault) -> (e: Error)
        requires
            old(self).wf(),
        ensures
            final(self).wf(),
            final(self)@.state == SessionState::Idle,
            final(self)@.reply == old(self)@.reply,
            final(self)@.next_invoke_id == old(self)@.next_invoke_id,
            e == Error::for_fault_spec(fault),
            fault == TransportFault::Timeout ==> e == Error::Timeout,
    {
        self.state = SessionState::Idle;
        Error::for_fault(fault)
    }
}

/// Sequential reads never alias: once a second reply overwrites the decode
/// buffer, the buffer holds exactly the second datagram's bytes, and a
/// read finished against it is a function of those bytes alone — nothing
/// of the first reply can reach it.
pub proof fn law_second_reply_wins(c0: Client, c1: Client, c2: Client, d1: Seq<u8>, d2: Seq<u8>)
    requires
        stores_reply(c0, c1, d1),
        stores_reply(c1, c2, d2),
    ensures
        c2@.reply == d2,
        forall|iv: u8| read_outcome(iv, c2@.reply) == read_outcome(iv, d2),
{
}

/// Round-trip fidelity of a read: when the reply decodes to the
/// acknowledgement of the pending invoke id, the finished read returns
/// exactly the fields that were decoded from those bytes.
pub proof fn law_read_reflects_reply(iv: u8, reply: Seq<u8>)
    requires
        frame_class(reply) matches ReplyKind::ReadAck { invoke_id, .. } && invoke_id == iv,
    ensures
        read_outcome(iv, reply) == Ok::<_, Error>(ReadAck {
            invoke_id: iv,
            instance: frame_class(reply)->ReadAck_instance,
            property: frame_class(reply)->ReadAck_property,
        }),
{
}

} // verus!

//! The boundary to the `embedded_bacnet` codec.
//!
//! The codec turns typed BACnet requests into bytes. The library treats
//! it as a black box: each call stands behind a trusted wrapper whose
//! contract states what the codec's source shows. Frames the codec builds
//! from plain arguments alone are given names that the rest of the
//! library reasons with, except the two WHO-IS probes, whose bytes are
//! fixed and stated outright. Inbound bytes are never handed to the
//! codec here: the session layer classifies them itself, in [`crate::frame`].

use vstd::prelude::*;

use embedded_bacnet::application_protocol::application_pdu::ApplicationPdu::UnconfirmedRequest as UReq;
use embedded_bacnet::application_protocol::confirmed::{ConfirmedRequest, ConfirmedRequestService};
use embedded_bacnet::application_protocol::primitives::data_value::ApplicationDataValueWrite;
use embedded_bacnet::application_protocol::services::read_property::ReadProperty;
use embedded_bacnet::application_protocol::services::read_property_multiple::{
    PropertyIdList, ReadPropertyMultiple, ReadPropertyMultipleObject,
};
use embedded_bacnet::application_protocol::services::who_is::WhoIs;
use embedded_bacnet::application_protocol::services::write_property::WriteProperty;
use embedded_bacnet::application_protocol::unconfirmed::UnconfirmedRequest;
use embedded_bacnet::common::io::Writer;
use embedded_bacnet::common::object_id::{ObjectId, ObjectType};
use embedded_bacnet::common::property_id::PropertyId;
use embedded_bacnet::network_protocol::data_link::{DataLink, DataLinkFunction};
use embedded_bacnet::network_protocol::network_pdu::NetworkMessage::Apdu;
use embedded_bacnet::network_protocol::network_pdu::{
    DestinationAddress, MessagePriority, NetworkPdu,
};

verus! {

/// The decode buffer's capacity: one link-layer MTU.
pub const BUF_SIZE: usize = 1500;

/// The largest object type code the codec accepts on the wire.
pub const MAX_OBJECT_TYPE: u16 = 1023;

/// A BACnet object reference as plain values: a type code and an instance
/// number.
#[derive(Clone, Copy, Debug, PartialEq, Eq, Structural)]
pub struct ObjectRef {
    pub type_code: u16,
    pub instance: u32,
}

impl ObjectRef {
    /// A reference the codec can put on the wire: the type code stays within
    /// the ten bits the encoding has for it.
    pub open spec fn wf(self) -> bool {
        self.type_code <= MAX_OBJECT_TYPE
    }

    /// Builds a reference, refusing a type code the codec would reject.
    pub fn new(type_code: u16, instance: u32) -> (r: Result<ObjectRef, crate::error::Error>)
        ensures
            type_code <= MAX_OBJECT_TYPE ==> r == Ok::<_, crate::error::Error>(ObjectRef {
                type_code,
                instance,
            }),
            type_code > MAX_OBJECT_TYPE ==> r == Err::<ObjectRef, _>(crate::error::Error::Codec),
            r is Ok ==> r->Ok_0.wf(),
    {
        if type_code <= MAX_OBJECT_TYPE {
            Ok(ObjectRef { type_code, instance })
        } else {
            Err(crate::error::Error::Codec)
        }
    }
}

/// The codec's write-value type, declared so that the library can carry a
/// value through to the encoder without looking inside it. The embedding
/// program builds it; this layer only frames it.
#[verifier::external_type_specification]
#[verifier::external_body]
pub struct ExApplicationDataValueWrite<'a>(ApplicationDataValueWrite<'a>);

/// Whether a write value's encoding is bounded by a handful of bytes:
/// true of the boolean, enumerated and real values, false of a weekly
/// schedule, whose encoding grows with its slices.
pub uninterp spec fn value_fits(value: ApplicationDataValueWrite<'static>) -> bool;

/// The frame of a single-property read request, as the codec encodes it
/// from these arguments.
pub uninterp spec fn read_request_frame(
    invoke_id: u8,
    object_type: u16,
    instance: u32,
    property: u32,
) -> Seq<u8>;

/// The frame of a multi-property read request, as the codec encodes it
/// from these arguments.
pub uninterp spec fn read_multiple_frame(
    invoke_id: u8,
    object_type: u16,
    instance: u32,
    properties: Seq<u32>,
) -> Seq<u8>;

/// The frame of a write request, as the codec encodes it from these
/// arguments. The value is opaque here; the frame is still a function of
/// it and of the plain arguments alone.
pub uninterp spec fn write_request_frame(
    invoke_id: u8,
    object_type: u16,
    instance: u32,
    property: u32,
    priority: Option<u8>,
    value: ApplicationDataValueWrite<'static>,
) -> Seq<u8>;

/// The WHO-IS probe addressed to every network, as the codec encodes it.
pub open spec fn who_is_broadcast_frame() -> Seq<u8> {
    seq![0x81u8, 0x0b, 0x00, 0x0c, 0x01, 0x20, 0xff, 0xff, 0x00, 0xff, 0x10, 0x08]
}

/// The WHO-IS probe addressed to one peer, as the codec encodes it.
pub open spec fn who_is_unicast_frame() -> Seq<u8> {
    seq![0x81u8, 0x0a, 0x00, 0x08, 0x01, 0x00, 0x10, 0x08]
}

/// Relies on the variants of `ApplicationDataValueWrite`: a boolean
/// encodes as one tagged byte, an enumerated or real value as a tag and
/// at most four bytes; only a weekly schedule's encoding is unbounded.
#[verifier::external_body]
pub(crate) fn value_encodes_bounded(value: &ApplicationDataValueWrite<'static>) -> (r: bool)
    ensures
        r == value_fits(*value),
{
    !matches!(value, ApplicationDataValueWrite::WeeklySchedule(_))
}

/// Relies on `DataLink::encode` with an `OriginalBroadcastNpdu` carrying a
/// WHO-IS request to the global network: the encoding is the fixed twelve
/// bytes stated.
#[verifier::external_body]
pub(crate) fn encode_who_is_broadcast() -> (r: Vec<u8>)
    ensures
        r@ == who_is_broadcast_frame(),
{
    let apdu = UReq(UnconfirmedRequest::WhoIs(WhoIs {}));
    let dst = Some(DestinationAddress::new(0xffff, None));
    let npdu = NetworkPdu::new(None, dst, false, MessagePriority::Normal, Apdu(apdu));
    let link = DataLink::new(DataLinkFunction::OriginalBroadcastNpdu, Some(npdu));
    let mut buffer = vec![0u8; BUF_SIZE];
    let mut writer = Writer::new(&mut buffer);
    link.encode(&mut writer);
    writer.to_bytes().to_vec()
}

/// Relies on `DataLink::encode` with an `OriginalUnicastNpdu` carrying a
/// WHO-IS request: the encoding is the fixed eight bytes stated.
#[verifier::external_body]
pub(crate) fn encode_who_is_unicast() -> (r: Vec<u8>)
    ensures
        r@ == who_is_unicast_frame(),
{
    let apdu = UReq(UnconfirmedRequest::WhoIs(WhoIs {}));
    let npdu = NetworkPdu::new(None, None, false, MessagePriority::Normal, Apdu(apdu));
    let link = DataLink::new(DataLinkFunction::OriginalUnicastNpdu, Some(npdu));
    let mut buffer = vec![0u8; BUF_SIZE];
    let mut writer = Writer::new(&mut buffer);
    link.encode(&mut writer);
    writer.to_bytes().to_vec()
}

/// Relies on `DataLink::encode` over `DataLink::new_confirmed_req`: the
/// frame of a read request is a function of these arguments alone. A type
/// code above [`MAX_OBJECT_TYPE`] is refused by `ObjectType::try_from`, so
/// it is left out here.
#[verifier::external_body]
pub(crate) fn encode_read_request(
    invoke_id: u8,
    object_type: u16,
    instance: u32,
    property: u32,
) -> (r: Vec<u8>)
    requires
        object_type <= MAX_OBJECT_TYPE,
    ensures
        r@ == read_request_frame(invoke_id, object_type, instance, property),
{
    let object_id = ObjectId::new(ObjectType::try_from(object_type as u32).unwrap(), instance);
    let request = ReadProperty::new(object_id, PropertyId::from(property));
    let service = ConfirmedRequestService::ReadProperty(request);
    let link = DataLink::new_confirmed_req(ConfirmedRequest::new(invoke_id, service));
    let mut buffer = vec![0u8; BUF_SIZE];
    let mut writer = Writer::new(&mut buffer);
    link.encode(&mut writer);
    writer.to_bytes().to_vec()
}

/// Relies on `DataLink::encode` over `DataLink::new_confirmed_req`: the
/// frame of a multi-property read is a function of these arguments alone.
/// The length bound keeps the encoding within one MTU-sized buffer.
#[verifier::external_body]
pub(crate) fn encode_read_multiple_request(
    invoke_id: u8,
    object_type: u16,
    instance: u32,
    properties: &Vec<u32>,
) -> (r: Vec<u8>)
    requires
        object_type <= MAX_OBJECT_TYPE,
        properties@.len() <= 256,
    ensures
        r@ == read_multiple_frame(invoke_id, object_type, instance, properties@),
{
    let object_id = ObjectId::new(ObjectType::try_from(object_type as u32).unwrap(), instance);
    let ids: Vec<PropertyId> = properties.iter().map(|p| PropertyId::from(*p)).collect();
    let objects = [ReadPropertyMultipleObject::new(object_id, &ids)];
    let request = ReadPropertyMultiple::new(&objects);
    let service = ConfirmedRequestService::ReadPropertyMultiple(request);
    let link = DataLink::new_confirmed_req(ConfirmedRequest::new(invoke_id, service));
    let mut buffer = vec![0u8; BUF_SIZE];
    let mut writer = Writer::new(&mut buffer);
    link.encode(&mut writer);
    writer.to_bytes().to_vec()
}

/// Relies on `DataLink::encode` over `DataLink::new_confirmed_req`: the
/// frame of a write request is a function of these arguments alone. A
/// value with an unbounded encoding is left out: it could outgrow the
/// MTU-sized encode buffer.
#[verifier::external_body]
pub(crate) fn encode_write_request(
    invoke_id: u8,
    object_type: u16,
    instance: u32,
    property: u32,
    priority: Option<u8>,
    value: ApplicationDataValueWrite<'static>,
) -> (r: Vec<u8>)
    requires
        object_type <= MAX_OBJECT_TYPE,
        value_fits(value),
    ensures
        r@ == write_request_frame(invoke_id, object_type, instance, property, priority, value),
{
    let object_id = ObjectId::new(ObjectType::try_from(object_type as u32).unwrap(), instance);
    let request = WriteProperty::new(object_id, PropertyId::from(property), priority, None, value);
    let service = ConfirmedRequestService::WriteProperty(request);
    let link = DataLink::new_confirmed_req(ConfirmedRequest::new(invoke_id, service));
    let mut buffer = vec![0u8; BUF_SIZE];
    let mut writer = Writer::new(&mut buffer);
    link.encode(&mut writer);
    writer.to_bytes().to_vec()
}

} // verus!

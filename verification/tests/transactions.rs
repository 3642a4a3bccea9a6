//! Transaction completion against crafted reply frames.

use async_bacnet::{Client, Error, ObjectRef, ReadAck, TransportFault};

use embedded_bacnet::application_protocol::application_pdu::ApplicationPdu;
use embedded_bacnet::application_protocol::confirmed::{
    ComplexAck, ComplexAckService, ConfirmedServiceChoice, SimpleAck,
};
use embedded_bacnet::application_protocol::primitives::data_value::ApplicationDataValue;
use embedded_bacnet::application_protocol::services::read_property::{
    ReadPropertyAck, ReadPropertyValue,
};
use embedded_bacnet::common::io::Writer;
use embedded_bacnet::common::object_id::{ObjectId, ObjectType};
use embedded_bacnet::common::property_id::PropertyId;
use embedded_bacnet::network_protocol::data_link::{DataLink, DataLinkFunction};
use embedded_bacnet::network_protocol::network_pdu::{
    MessagePriority, NetworkMessage, NetworkPdu,
};

fn frame_bytes(apdu: ApplicationPdu<'_>) -> Vec<u8> {
    let npdu = NetworkPdu::new(
        None,
        None,
        false,
        MessagePriority::Normal,
        NetworkMessage::Apdu(apdu),
    );
    let link = DataLink::new(DataLinkFunction::OriginalUnicastNpdu, Some(npdu));
    let mut buffer = vec![0u8; 1500];
    let mut writer = Writer::new(&mut buffer);
    link.encode(&mut writer);
    writer.to_bytes().to_vec()
}

fn read_ack_frame(invoke_id: u8, instance: u32, value: f32) -> Vec<u8> {
    let ack = ReadPropertyAck {
        object_id: ObjectId::new(ObjectType::ObjectAnalogInput, instance),
        property_id: PropertyId::PropPresentValue,
        property_value: ReadPropertyValue::ApplicationDataValue(ApplicationDataValue::Real(
            value,
        )),
    };
    frame_bytes(ApplicationPdu::ComplexAck(ComplexAck {
        invoke_id,
        service: ComplexAckService::ReadProperty(ack),
    }))
}

fn simple_ack_frame(invoke_id: u8) -> Vec<u8> {
    frame_bytes(ApplicationPdu::SimpleAck(SimpleAck {
        invoke_id,
        service_choice: ConfirmedServiceChoice::WriteProperty,
    }))
}

/// An Error-PDU reply refusing a write under the given invoke id
/// (error class Property, error code WriteAccessDenied).
fn rejection_frame(invoke_id: u8) -> Vec<u8> {
    vec![
        0x81, 0x0a, 0x00, 0x0d, 0x01, 0x00, 0x50, invoke_id, 0x0f, 0x91, 0x02, 0x91, 0x28,
    ]
}

#[test]
fn read_reflects_the_reply_bytes() {
    let mut client = Client::new();
    let object = ObjectRef::new(0, 7).expect("valid type");
    let _frame = client.start_read_property(object, 85);
    client.set_reply(&read_ack_frame(0, 7, 21.5));
    let ack = client.finish_read_property().expect("matching ack must succeed");
    assert_eq!(ack, ReadAck { invoke_id: 0, instance: 7, property: 85 });
}

#[test]
fn read_keeps_the_raw_reply_readable() {
    let mut client = Client::new();
    let object = ObjectRef::new(0, 7).expect("valid type");
    let _frame = client.start_read_property(object, 85);
    let reply = read_ack_frame(0, 7, 21.5);
    client.set_reply(&reply);
    client.finish_read_property().expect("matching ack must succeed");
    assert_eq!(client.buffer().as_slice(), reply.as_slice());
}

#[test]
fn read_refuses_a_foreign_invoke_id() {
    let mut client = Client::new();
    let object = ObjectRef::new(0, 7).expect("valid type");
    let _frame = client.start_read_property(object, 85);
    client.set_reply(&read_ack_frame(9, 7, 21.5));
    assert_eq!(client.finish_read_property(), Err(Error::UnexpectedReply));
}

#[test]
fn read_reports_undecodable_bytes_as_codec_error() {
    let mut client = Client::new();
    let object = ObjectRef::new(0, 7).expect("valid type");
    let _frame = client.start_read_property(object, 85);
    client.set_reply(&[0x01, 0x02, 0x03]);
    assert_eq!(client.finish_read_property(), Err(Error::Codec));
}

#[test]
fn second_read_reflects_second_reply_only() {
    let mut client = Client::new();
    let object = ObjectRef::new(0, 7).expect("valid type");

    let _frame = client.start_read_property(object, 85);
    client.set_reply(&read_ack_frame(0, 7, 1.0));
    let first = client.finish_read_property().expect("first ack");
    assert_eq!(first.instance, 7);

    let _frame = client.start_read_property(object, 77);
    client.set_reply(&read_ack_frame(1, 19, 2.0));
    let second = client.finish_read_property().expect("second ack");
    assert_eq!(second, ReadAck { invoke_id: 1, instance: 19, property: 85 });
    assert_ne!(first, second);
}

#[test]
fn write_succeeds_on_a_matching_simple_ack() {
    let mut client = Client::new();
    let object = ObjectRef::new(2, 5).expect("valid type");
    let value =
        embedded_bacnet::application_protocol::primitives::data_value::ApplicationDataValueWrite::Boolean(
            true,
        );
    let _frame = client.start_write_property(object, 85, Some(8), value);
    client.set_reply(&simple_ack_frame(0));
    assert_eq!(client.finish_write_property(), Ok(()));
}

#[test]
fn write_reports_a_rejection_as_an_error() {
    let mut client = Client::new();
    let object = ObjectRef::new(2, 5).expect("valid type");
    let value =
        embedded_bacnet::application_protocol::primitives::data_value::ApplicationDataValueWrite::Boolean(
            false,
        );
    let _frame = client.start_write_property(object, 85, None, value);
    client.set_reply(&rejection_frame(0));
    assert_eq!(client.finish_write_property(), Err(Error::Rejected));
}

#[test]
fn write_refuses_a_foreign_simple_ack() {
    let mut client = Client::new();
    let object = ObjectRef::new(2, 5).expect("valid type");
    let value =
        embedded_bacnet::application_protocol::primitives::data_value::ApplicationDataValueWrite::Boolean(
            true,
        );
    let _frame = client.start_write_property(object, 85, None, value);
    client.set_reply(&simple_ack_frame(200));
    assert_eq!(client.finish_write_property(), Err(Error::UnexpectedReply));
}

#[test]
fn read_multiple_succeeds_on_its_ack() {
    let mut client = Client::new();
    let object = ObjectRef::new(8, 1).expect("valid type");
    let _frame = client.start_read_property_multiple(object, &vec![85]);
    // A multi-read acknowledgement: service choice ReadPropMultiple with an
    // empty result body is enough for classification.
    let reply = frame_bytes(ApplicationPdu::ComplexAck(ComplexAck {
        invoke_id: 0,
        service: ComplexAckService::ReadPropertyMultiple(
            embedded_bacnet::application_protocol::services::read_property_multiple::ReadPropertyMultipleAck::new_from_buf(&[]),
        ),
    }));
    client.set_reply(&reply);
    assert_eq!(client.finish_read_property_multiple(), Ok(0));
}

#[test]
fn timeout_is_reported_and_client_stays_usable() {
    let mut client = Client::new();
    let object = ObjectRef::new(0, 7).expect("valid type");

    let _frame = client.start_read_property(object, 85);
    let err = client.fail_pending(TransportFault::Timeout);
    assert_eq!(err, Error::Timeout);

    // The decode buffer is safe for reuse: the next transaction runs clean.
    let _frame = client.start_read_property(object, 85);
    client.set_reply(&read_ack_frame(1, 7, 3.25));
    let ack = client.finish_read_property().expect("ack after a timeout");
    assert_eq!(ack.invoke_id, 1);
}

#[test]
fn io_fault_is_reported_as_io() {
    let mut client = Client::new();
    let object = ObjectRef::new(0, 7).expect("valid type");
    let _frame = client.start_read_property(object, 85);
    assert_eq!(client.fail_pending(TransportFault::Io), Error::Io);
}

#[test]
fn invoke_id_wraps_after_two_hundred_fifty_six_requests() {
    let mut client = Client::new();
    let object = ObjectRef::new(0, 1).expect("valid type");
    for _ in 0..256 {
        let _frame = client.start_read_property(object, 85);
        client.fail_pending(TransportFault::Timeout);
    }
    // The 257th request carries invoke id 0 again: its matching ack succeeds.
    let _frame = client.start_read_property(object, 85);
    client.set_reply(&read_ack_frame(0, 1, 0.0));
    let ack = client.finish_read_property().expect("wrapped invoke id matches");
    assert_eq!(ack.invoke_id, 0);
}

#[test]
fn finishing_without_a_reply_is_a_codec_error() {
    let mut client = Client::new();
    let _frame = client.start_who_is();
    // No reply was stored: the empty buffer classifies as malformed.
    assert_eq!(client.finish_who_is(), Err(Error::Codec));
}

#[test]
fn runt_datagrams_are_codec_errors() {
    for runt in [&[][..], &[0x81][..], &[0x81, 0x0a][..], &[0x81, 0x0a, 0x00][..]] {
        let mut client = Client::new();
        let object = ObjectRef::new(0, 7).expect("valid type");
        let _frame = client.start_read_property(object, 85);
        client.set_reply(runt);
        assert_eq!(client.finish_read_property(), Err(Error::Codec));
    }
}

#[test]
fn a_request_frame_is_an_unexpected_reply() {
    let mut client = Client::new();
    let object = ObjectRef::new(0, 7).expect("valid type");
    let _frame = client.start_read_property(object, 85);
    // A confirmed request (such as an echoed copy of our own query) answers
    // nothing; it is a well-formed frame of another kind.
    let mut other = Client::new();
    let request = other.start_read_property(object, 85);
    client.set_reply(&request);
    assert_eq!(client.finish_read_property(), Err(Error::UnexpectedReply));
}

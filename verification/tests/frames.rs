//! The request frames the library builds, decoded back through the codec.

use async_bacnet::{ArgObjectType, Client, DiscoveryEngine, ObjectRef};

use embedded_bacnet::application_protocol::application_pdu::ApplicationPdu;
use embedded_bacnet::application_protocol::confirmed::ConfirmedRequestService;
use embedded_bacnet::application_protocol::unconfirmed::UnconfirmedRequest;
use embedded_bacnet::common::io::Reader;
use embedded_bacnet::common::object_id::ObjectType;
use embedded_bacnet::common::property_id::PropertyId;
use embedded_bacnet::network_protocol::data_link::{DataLink, DataLinkFunction};
use embedded_bacnet::network_protocol::network_pdu::NetworkMessage;

fn decode_apdu(frame: &[u8]) -> ApplicationPdu<'_> {
    let mut reader = Reader::default();
    let link = DataLink::decode(&mut reader, frame).expect("frame must decode");
    match link.npdu.expect("frame must carry an npdu").network_message {
        NetworkMessage::Apdu(apdu) => apdu,
        _ => panic!("frame must carry an apdu"),
    }
}

#[test]
fn broadcast_probe_has_the_documented_bytes() {
    let engine = DiscoveryEngine::new();
    let frame = engine.probe_frame();
    assert_eq!(
        frame,
        vec![0x81, 0x0b, 0x00, 0x0c, 0x01, 0x20, 0xff, 0xff, 0x00, 0xff, 0x10, 0x08]
    );
}

#[test]
fn broadcast_probe_decodes_as_who_is() {
    let engine = DiscoveryEngine::new();
    let frame = engine.probe_frame();
    let mut reader = Reader::default();
    let link = DataLink::decode(&mut reader, &frame).expect("probe must decode");
    assert!(matches!(link.function, DataLinkFunction::OriginalBroadcastNpdu));
    let apdu = decode_apdu(&frame);
    assert!(matches!(
        apdu,
        ApplicationPdu::UnconfirmedRequest(UnconfirmedRequest::WhoIs(_))
    ));
}

#[test]
fn unicast_probe_decodes_as_who_is() {
    let mut client = Client::new();
    let frame = client.start_who_is();
    assert_eq!(frame, vec![0x81, 0x0a, 0x00, 0x08, 0x01, 0x00, 0x10, 0x08]);
    let mut reader = Reader::default();
    let link = DataLink::decode(&mut reader, &frame).expect("probe must decode");
    assert!(matches!(link.function, DataLinkFunction::OriginalUnicastNpdu));
    let apdu = decode_apdu(&frame);
    assert!(matches!(
        apdu,
        ApplicationPdu::UnconfirmedRequest(UnconfirmedRequest::WhoIs(_))
    ));
}

#[test]
fn read_request_frame_carries_the_request() {
    let mut client = Client::new();
    let object = ObjectRef::new(0, 7).expect("analog input is a valid type");
    let frame = client.start_read_property(object, 85);
    let apdu = decode_apdu(&frame);
    let req = match apdu {
        ApplicationPdu::ConfirmedRequest(req) => req,
        _ => panic!("expected a confirmed request"),
    };
    assert_eq!(req.invoke_id, 0);
    match req.service {
        ConfirmedRequestService::ReadProperty(rp) => {
            assert!(matches!(rp.object_id.object_type, ObjectType::ObjectAnalogInput));
            assert_eq!(rp.object_id.id, 7);
            assert!(matches!(rp.property_id, PropertyId::PropPresentValue));
        }
        _ => panic!("expected a read-property service"),
    }
}

#[test]
fn invoke_ids_advance_per_request() {
    let mut client = Client::new();
    let object = ObjectRef::new(0, 1).expect("valid type");

    let first = client.start_read_property(object, 85);
    let apdu = decode_apdu(&first);
    match apdu {
        ApplicationPdu::ConfirmedRequest(req) => assert_eq!(req.invoke_id, 0),
        _ => panic!("expected a confirmed request"),
    }
    // Abandon the pending request so a new one may start.
    client.fail_pending(async_bacnet::TransportFault::Timeout);

    let second = client.start_read_property(object, 85);
    let apdu = decode_apdu(&second);
    match apdu {
        ApplicationPdu::ConfirmedRequest(req) => assert_eq!(req.invoke_id, 1),
        _ => panic!("expected a confirmed request"),
    }
}

#[test]
fn read_multiple_request_frame_carries_the_service() {
    let mut client = Client::new();
    let object = ObjectRef::new(8, 1234).expect("device is a valid type");
    let frame = client.start_read_property_multiple(object, &vec![85, 77]);
    let apdu = decode_apdu(&frame);
    match apdu {
        ApplicationPdu::ConfirmedRequest(req) => {
            assert!(matches!(
                req.service,
                ConfirmedRequestService::ReadPropertyMultiple(_)
            ));
        }
        _ => panic!("expected a confirmed request"),
    }
}

#[test]
fn object_ref_refuses_out_of_range_type_codes() {
    assert!(ObjectRef::new(1023, 5).is_ok());
    assert!(ObjectRef::new(1024, 5).is_err());
}

#[test]
fn arg_object_type_maps_to_wire_codes() {
    assert_eq!(ArgObjectType::ObjectAnalogInput.code(), 0);
    assert_eq!(ArgObjectType::ObjectDevice.code(), 8);
    assert_eq!(ArgObjectType::ObjectNetworkPort.code(), 56);
    assert_eq!(ArgObjectType::Proprietary.code(), 128);
    assert_eq!(ArgObjectType::Invalid.code(), 1024);
}

#[test]
fn arg_object_type_invalid_is_refused() {
    assert!(ArgObjectType::ObjectDevice.object_ref(20088).is_ok());
    assert!(ArgObjectType::Invalid.object_ref(1).is_err());
}

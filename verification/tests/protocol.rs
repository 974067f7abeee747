//! Packet framing, header validation, session request building and version
//! negotiation.

use openrgb2::codec::WriteMessage;
use openrgb2::color::Color;
use openrgb2::error::{OpenRgbError, ProtocolError};
use openrgb2::packet::{parse_header, write_header, PacketId};
use openrgb2::segment::SegmentData;
use openrgb2::session::{OpenRgbProtocol, DEFAULT_PROTOCOL};

#[test]
fn packet_test_read_001() {
    let buf = WriteMessage::new(DEFAULT_PROTOCOL).push_value(&152u32).unwrap();
    let mut msg = buf.to_received_msg();
    assert_eq!(msg.read_value::<PacketId>().unwrap(), PacketId::RequestLoadProfile);
}

#[test]
fn packet_test_write_001() {
    let buf = WriteMessage::new(DEFAULT_PROTOCOL).push_value(&PacketId::RequestLoadProfile).unwrap();
    let mut msg = buf.to_received_msg();
    assert_eq!(msg.read_value::<u32>().unwrap(), 152);
}

#[test]
fn header_round_trip() {
    let header = write_header(7, PacketId::RGBControllerUpdateLeds, 30);
    assert_eq!(header.len(), 16);
    assert_eq!(&header[0..4], b"ORGB");
    assert_eq!(parse_header(&header, 7, PacketId::RGBControllerUpdateLeds).unwrap(), 30);
}

#[test]
fn header_bad_magic_rejected_before_anything_else() {
    // wrong magic, and also a wrong device id and packet kind: the magic
    // error wins
    let mut header = write_header(9, PacketId::SetClientName, 5);
    header[0] = b'X';
    match parse_header(&header, 7, PacketId::RGBControllerUpdateLeds).unwrap_err() {
        OpenRgbError::ProtocolError(ProtocolError::BadMagic { .. }) => {}
        other => panic!("expected a bad-magic error, got {other:?}"),
    }
}

#[test]
fn header_packet_kind_mismatch_rejected() {
    let header = write_header(7, PacketId::SetClientName, 5);
    assert_eq!(
        parse_header(&header, 7, PacketId::RGBControllerUpdateLeds).unwrap_err(),
        OpenRgbError::ProtocolError(ProtocolError::PacketKindMismatch { expected: 1050, got: 50 })
    );
}

#[test]
fn header_device_id_mismatch_rejected() {
    let header = write_header(9, PacketId::SetClientName, 5);
    assert_eq!(
        parse_header(&header, 7, PacketId::SetClientName).unwrap_err(),
        OpenRgbError::ProtocolError(ProtocolError::DeviceIdMismatch { expected: 7, got: 9 })
    );
}

#[test]
fn header_truncated_rejected() {
    let header = write_header(7, PacketId::SetClientName, 5);
    assert_eq!(
        parse_header(&header[..15], 7, PacketId::SetClientName).unwrap_err(),
        OpenRgbError::ProtocolError(ProtocolError::Truncated)
    );
}

#[test]
fn negotiation_adopts_lower_version() {
    // client max 5, server reports 3: the session runs version 3
    let proto = OpenRgbProtocol::new(DEFAULT_PROTOCOL, 3);
    assert_eq!(proto.get_protocol_version(), 3);
    let proto2 = OpenRgbProtocol::new(4, 5);
    assert_eq!(proto2.get_protocol_version(), 4);
}

#[test]
fn gated_operation_refused_below_minimum() {
    // active version 3; a version-5 operation is refused before any bytes
    // are produced, naming required and current versions
    let proto = OpenRgbProtocol::new(DEFAULT_PROTOCOL, 3);
    match proto.rescan_devices_packet().unwrap_err() {
        OpenRgbError::UnsupportedOperation {
            operation,
            current_protocol_version,
            min_protocol_version,
        } => {
            assert_eq!(operation, "Rescan devices");
            assert_eq!(current_protocol_version, 3);
            assert_eq!(min_protocol_version, 5);
        }
        other => panic!("expected an unsupported-operation error, got {other:?}"),
    }
    // the same session still serves ungated operations
    assert!(proto.get_controller_count_request().is_ok());
}

#[test]
fn version_request_and_response() {
    let pkt = OpenRgbProtocol::version_request_packet(DEFAULT_PROTOCOL);
    assert_eq!(parse_header(&pkt[..16], 0, PacketId::RequestProtocolVersion).unwrap(), 4);
    assert_eq!(&pkt[16..], &[5, 0, 0, 0]);
    assert_eq!(OpenRgbProtocol::parse_version_response(&[3, 0, 0, 0]).unwrap(), 3);
}

#[test]
fn set_name_packet_bytes() {
    let proto = OpenRgbProtocol::new(DEFAULT_PROTOCOL, DEFAULT_PROTOCOL);
    let pkt = proto.set_name_packet("TestClient").unwrap();
    assert_eq!(parse_header(&pkt[..16], 0, PacketId::SetClientName).unwrap(), 11);
    assert_eq!(&pkt[16..], b"TestClient\0");
}

#[test]
fn controller_count_request_bytes() {
    let proto = OpenRgbProtocol::new(DEFAULT_PROTOCOL, DEFAULT_PROTOCOL);
    let pkt = proto.get_controller_count_request().unwrap();
    assert_eq!(parse_header(&pkt[..16], 0, PacketId::RequestControllerCount).unwrap(), 0);
    assert_eq!(pkt.len(), 16);
    assert_eq!(proto.parse_controller_count_response(&[2, 0, 0, 0]).unwrap(), 2);
}

#[test]
fn resize_zone_packet_bytes() {
    let proto = OpenRgbProtocol::new(DEFAULT_PROTOCOL, DEFAULT_PROTOCOL);
    let pkt = proto.resize_zone_packet(1, 0, 10).unwrap();
    assert_eq!(parse_header(&pkt[..16], 1, PacketId::RGBControllerResizeZone).unwrap(), 8);
    assert_eq!(&pkt[16..], &[0, 0, 0, 0, 10, 0, 0, 0]);
}

#[test]
fn update_led_packet_bytes() {
    let proto = OpenRgbProtocol::new(DEFAULT_PROTOCOL, DEFAULT_PROTOCOL);
    let pkt = proto.update_led_packet(5, 1, &Color::new(255, 0, 0)).unwrap();
    assert_eq!(parse_header(&pkt[..16], 5, PacketId::RGBControllerUpdateSingleLed).unwrap(), 8);
    assert_eq!(&pkt[16..], &[1, 0, 0, 0, 255, 0, 0, 0]);
}

#[test]
fn update_leds_packet_bytes() {
    let proto = OpenRgbProtocol::new(DEFAULT_PROTOCOL, DEFAULT_PROTOCOL);
    let colors = vec![Color::new(1, 2, 3), Color::new(4, 5, 6)];
    let pkt = proto.update_leds_packet(1, &colors).unwrap();
    // payload: inner length (4 + 2 + 2 colors of 4 bytes = 14), count, colors
    assert_eq!(parse_header(&pkt[..16], 1, PacketId::RGBControllerUpdateLeds).unwrap(), 14);
    assert_eq!(&pkt[16..], &[14, 0, 0, 0, 2, 0, 1, 2, 3, 0, 4, 5, 6, 0]);
}

#[test]
fn update_zone_leds_packet_bytes() {
    let proto = OpenRgbProtocol::new(DEFAULT_PROTOCOL, DEFAULT_PROTOCOL);
    let colors = vec![Color::new(0, 255, 0)];
    let pkt = proto.update_zone_leds_packet(0, 2, &colors).unwrap();
    assert_eq!(parse_header(&pkt[..16], 0, PacketId::RGBControllerUpdateZoneLeds).unwrap(), 14);
    assert_eq!(&pkt[16..], &[14, 0, 0, 0, 2, 0, 0, 0, 1, 0, 0, 255, 0, 0]);
}

#[test]
fn profile_packets_gated_at_version_two() {
    let proto = OpenRgbProtocol::new(DEFAULT_PROTOCOL, 1);
    assert!(proto.get_profiles_request().is_err());
    assert!(proto.load_profile_packet("p").is_err());
    assert!(proto.save_profile_packet("p").is_err());
    assert!(proto.delete_profile_packet("p").is_err());

    let proto = OpenRgbProtocol::new(DEFAULT_PROTOCOL, 2);
    // load sends the bare name; save and delete send it length-prefixed
    let load = proto.load_profile_packet("test_profile").unwrap();
    assert_eq!(&load[16..], b"test_profile\0");
    let save = proto.save_profile_packet("test_profile").unwrap();
    assert_eq!(&save[16..18], &[13, 0]);
    assert_eq!(&save[18..], b"test_profile\0");
    let delete = proto.delete_profile_packet("test_profile").unwrap();
    assert_eq!(parse_header(&delete[..16], 0, PacketId::RequestDeleteProfile).unwrap(), 15);
}

#[test]
fn profiles_response_parsed() {
    let proto = OpenRgbProtocol::new(DEFAULT_PROTOCOL, DEFAULT_PROTOCOL);
    // data size (ignored), then two names
    let payload = WriteMessage::new(DEFAULT_PROTOCOL)
        .push_value(&0u32)
        .unwrap()
        .push_value(&vec!["alpha".to_string(), "beta".to_string()])
        .unwrap();
    let profiles = proto.parse_profiles_response(payload.bytes()).unwrap();
    assert_eq!(profiles, vec!["alpha".to_string(), "beta".to_string()]);
}

#[test]
fn plugins_response_parsed() {
    let proto = OpenRgbProtocol::new(DEFAULT_PROTOCOL, DEFAULT_PROTOCOL);
    let payload = WriteMessage::new(DEFAULT_PROTOCOL)
        .push_value(&0u32)
        .unwrap()
        .push_value(&1u16)
        .unwrap()
        .push_value(&"plug")
        .unwrap()
        .push_value(&"desc")
        .unwrap()
        .push_value(&"1.0")
        .unwrap()
        .push_value(&7u32)
        .unwrap()
        .push_value(&2u32)
        .unwrap();
    let plugins = proto.parse_plugins_response(payload.bytes()).unwrap();
    assert_eq!(plugins.len(), 1);
    assert_eq!(plugins[0].name(), "plug");
    assert_eq!(plugins[0].description(), "desc");
    assert_eq!(plugins[0].version(), "1.0");
    assert_eq!(plugins[0].index(), 7);
    assert_eq!(plugins[0].plugin_protocol_version(), 2);
}

#[test]
fn segment_packets_gated_at_version_five() {
    let proto = OpenRgbProtocol::new(DEFAULT_PROTOCOL, 4);
    let seg = SegmentData::new("TestSegment", 0, 1);
    assert!(proto.add_segment_packet(0, 0, &seg).is_err());
    assert!(proto.clear_segments_packet(0).is_err());

    let proto = OpenRgbProtocol::new(DEFAULT_PROTOCOL, DEFAULT_PROTOCOL);
    let pkt = proto.add_segment_packet(0, 0, &seg).unwrap();
    assert!(parse_header(&pkt[..16], 0, PacketId::RGBControllerAddSegment).is_ok());
    let clear = proto.clear_segments_packet(3).unwrap();
    assert_eq!(parse_header(&clear[..16], 3, PacketId::RgbControllerClearSegments).unwrap(), 0);
}

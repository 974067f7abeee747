//! Wire data records: enums, flag sets, the version-gated optional field,
//! modes, zones, segments and whole controllers.

use openrgb2::codec::{ReceivedMessage, WriteMessage};
use openrgb2::color::Color;
use openrgb2::controller::ControllerData;
use openrgb2::enums::{ColorMode, DeviceType, Direction, ZoneType};
use openrgb2::error::{OpenRgbError, ProtocolError, WireEnum, WireFlags};
use openrgb2::flags::{ModeFlag, ModeFlagSet};
use openrgb2::mode::ModeData;
use openrgb2::protocol_option::ProtocolOption;
use openrgb2::segment::SegmentData;
use openrgb2::session::DEFAULT_PROTOCOL;

#[test]
fn device_type_test_read_001() {
    let buf = WriteMessage::new(DEFAULT_PROTOCOL).push_value(&3u32).unwrap();
    let mut msg = buf.to_received_msg();
    assert_eq!(msg.read_value::<DeviceType>().unwrap(), DeviceType::Cooler);
}

#[test]
fn device_type_test_write_001() {
    let buf = WriteMessage::new(DEFAULT_PROTOCOL).push_value(&DeviceType::Cooler).unwrap();
    let mut msg = buf.to_received_msg();
    assert_eq!(msg.read_value::<u32>().unwrap(), 3);
}

#[test]
fn device_type_unknown_discriminant() {
    let buf = WriteMessage::new(DEFAULT_PROTOCOL).push_value(&99u32).unwrap();
    let mut msg = buf.to_received_msg();
    assert_eq!(
        msg.read_value::<DeviceType>().unwrap_err(),
        OpenRgbError::ProtocolError(ProtocolError::UnknownDiscriminant {
            kind: WireEnum::DeviceType,
            value: 99,
        })
    );
}

#[test]
fn test_read_flag() {
    let buf = WriteMessage::new(DEFAULT_PROTOCOL).push_value(&154u32).unwrap();
    let mut msg = buf.to_received_msg();
    let expected = ModeFlagSet::empty()
        .with(ModeFlag::HasDirectionLR)
        .with(ModeFlag::HasDirectionHV)
        .with(ModeFlag::HasBrightness)
        .with(ModeFlag::HasRandomColor);
    assert_eq!(msg.read_value::<ModeFlagSet>().unwrap(), expected);
}

#[test]
fn test_write_flag() {
    let set = ModeFlagSet::empty().with(ModeFlag::HasBrightness).with(ModeFlag::HasSpeed);
    let buf = WriteMessage::new(DEFAULT_PROTOCOL).push_value(&set).unwrap();
    let mut msg = buf.to_received_msg();
    assert_eq!(msg.read_value::<u32>().unwrap(), (1 << 4) | (1 << 0));
}

#[test]
fn flag_unknown_bits_rejected() {
    assert_eq!(
        ModeFlagSet::from_bits(0x400).unwrap_err(),
        OpenRgbError::ProtocolError(ProtocolError::InvalidFlagBits {
            kind: WireFlags::ModeFlags,
            value: 0x400,
        })
    );
}

#[test]
fn test_read_dir() {
    let buf = WriteMessage::new(DEFAULT_PROTOCOL).push_value(&3u32).unwrap();
    let mut msg = buf.to_received_msg();
    assert_eq!(msg.read_value::<Direction>().unwrap(), Direction::Down);
}

#[test]
fn test_write_dir() {
    let buf = WriteMessage::new(DEFAULT_PROTOCOL).push_value(&Direction::Down).unwrap();
    let mut msg = buf.to_received_msg();
    assert_eq!(msg.read_value::<u32>().unwrap(), 3);
}

#[test]
fn test_read_color_mode() {
    let buf = WriteMessage::new(DEFAULT_PROTOCOL).push_value(&3u32).unwrap();
    let mut msg = buf.to_received_msg();
    assert_eq!(msg.read_value::<ColorMode>().unwrap(), ColorMode::Random);
}

#[test]
fn test_write_color_mode() {
    let buf = WriteMessage::new(DEFAULT_PROTOCOL).push_value(&ColorMode::Random).unwrap();
    let mut msg = buf.to_received_msg();
    assert_eq!(msg.read_value::<u32>().unwrap(), 3);
}

/// The mode of the mode tests, encoded at the given protocol version.
fn mode_bytes(version: u32) -> WriteMessage {
    WriteMessage::new(version)
        .push_value(&"test")
        .unwrap() // name
        .push_value(&46i32)
        .unwrap() // value
        .push_value(&31u32)
        .unwrap() // flags
        .push_value(&10u32)
        .unwrap() // speed_min
        .push_value(&1000u32)
        .unwrap() // speed_max
        .push_value(&1u32)
        .unwrap() // brightness_min
        .push_value(&1024u32)
        .unwrap() // brightness_max
        .push_value(&512u32)
        .unwrap() // brightness
        .push_value(&0u32)
        .unwrap() // colors_min
        .push_value(&256u32)
        .unwrap() // colors_max
        .push_value(&51u32)
        .unwrap() // speed
        .push_value(&4u32)
        .unwrap() // direction
        .push_value(&1u32)
        .unwrap() // color_mode
        .push_value(&vec![Color { r: 37, g: 54, b: 126 }, Color { r: 37, g: 54, b: 255 }])
        .unwrap()
}

#[test]
fn mode_test_read_001() {
    let buf = mode_bytes(3);
    let mut msg = buf.to_received_msg();
    let mode_data = msg.read_value::<ModeData>().unwrap();

    assert_eq!(mode_data.name(), "test");
    assert_eq!(mode_data.speed_min(), Some(10));
    assert_eq!(mode_data.speed_max(), Some(1000));
    assert_eq!(mode_data.brightness_min(), Some(1));
    assert_eq!(mode_data.brightness_max(), Some(1024));
    assert_eq!(mode_data.colors_min(), Some(0));
    assert_eq!(mode_data.colors_max(), Some(256));
    assert_eq!(mode_data.speed(), Some(51));
    assert_eq!(mode_data.brightness(), Some(512));
    assert_eq!(mode_data.direction(), Some(Direction::Horizontal));
    assert_eq!(mode_data.color_mode(), ColorMode::PerLED);
    assert_eq!(
        mode_data.colors(),
        &[Color { r: 37, g: 54, b: 126 }, Color { r: 37, g: 54, b: 255 }]
    );
}

#[test]
fn mode_test_write_001() {
    // name test, value 46, flags direction+speed+brightness, speeds
    // 10/1000/51, brightness 1/231/50, color counts 0/256, horizontal,
    // per-LED colors
    let source = WriteMessage::new(DEFAULT_PROTOCOL)
        .push_value(&"test")
        .unwrap()
        .push_value(&46i32)
        .unwrap()
        .push_value(&0x1Fu32)
        .unwrap()
        .push_value(&10u32)
        .unwrap()
        .push_value(&1000u32)
        .unwrap()
        .push_value(&1u32)
        .unwrap()
        .push_value(&231u32)
        .unwrap()
        .push_value(&50u32)
        .unwrap()
        .push_value(&0u32)
        .unwrap()
        .push_value(&256u32)
        .unwrap()
        .push_value(&51u32)
        .unwrap()
        .push_value(&4u32)
        .unwrap()
        .push_value(&1u32)
        .unwrap()
        .push_value(&vec![Color { r: 37, g: 54, b: 126 }, Color { r: 37, g: 54, b: 255 }])
        .unwrap();
    let mut src_msg = source.to_received_msg();
    let mode = src_msg.read_value::<ModeData>().unwrap();
    assert_eq!(mode.brightness_max(), Some(231));
    assert_eq!(mode.brightness(), Some(50));

    let mut buf = WriteMessage::new(DEFAULT_PROTOCOL);
    buf.write_value(&mode).unwrap();
    let mut msg = buf.to_received_msg();
    assert_eq!(mode, msg.read_value::<ModeData>().unwrap());
}

#[test]
fn mode_round_trip_below_brightness_version() {
    // at protocol version 2 the three brightness fields hold no bytes
    let v2 = WriteMessage::new(2)
        .push_value(&"test")
        .unwrap()
        .push_value(&46i32)
        .unwrap()
        .push_value(&0x1Fu32)
        .unwrap()
        .push_value(&10u32)
        .unwrap()
        .push_value(&1000u32)
        .unwrap()
        .push_value(&0u32)
        .unwrap() // colors_min
        .push_value(&256u32)
        .unwrap() // colors_max
        .push_value(&51u32)
        .unwrap() // speed
        .push_value(&4u32)
        .unwrap() // direction
        .push_value(&1u32)
        .unwrap() // color_mode
        .push_value(&vec![Color { r: 37, g: 54, b: 126 }])
        .unwrap();
    assert_eq!(v2.len(), mode_bytes(3).len() - 4 - 12);
    let mut msg = v2.to_received_msg();
    let mode = msg.read_value::<ModeData>().unwrap();
    assert_eq!(mode.brightness(), None);
    assert_eq!(mode.brightness_min(), None);
    assert_eq!(mode.brightness_max(), None);
    assert_eq!(mode.speed(), Some(51));
    // and writing it back at version 2 reproduces the value exactly
    let mut buf = WriteMessage::new(2);
    buf.write_value(&mode).unwrap();
    let mut msg2 = buf.to_received_msg();
    assert_eq!(mode, msg2.read_value::<ModeData>().unwrap());
}

#[test]
fn zone_test_read_001() {
    let buf = WriteMessage::new(DEFAULT_PROTOCOL).push_value(&1u32).unwrap();
    let mut msg = buf.to_received_msg();
    assert_eq!(msg.read_value::<ZoneType>().unwrap(), ZoneType::Linear);
}

#[test]
fn zone_test_write_001() {
    let buf = WriteMessage::new(DEFAULT_PROTOCOL).push_value(&ZoneType::Linear).unwrap();
    let mut msg = buf.to_received_msg();
    assert_eq!(msg.read_value::<u32>().unwrap(), 1);
}

#[test]
fn segment_round_trip() {
    let seg = SegmentData::new("strip", 4, 10);
    let mut buf = WriteMessage::new(DEFAULT_PROTOCOL);
    buf.write_value(&seg).unwrap();
    let mut msg = buf.to_received_msg();
    let back = msg.read_value::<SegmentData>().unwrap();
    assert_eq!(back, seg);
    assert_eq!(back.name(), "strip");
    assert_eq!(back.offset(), 4);
    assert_eq!(back.led_count(), 10);
}

#[test]
fn segment_unsupported_below_version_four() {
    let seg = SegmentData::new("strip", 0, 1);
    let mut buf = WriteMessage::new(3);
    assert_eq!(
        buf.write_value(&seg).unwrap_err(),
        OpenRgbError::ProtocolError(ProtocolError::SegmentsUnsupported { version: 3 })
    );
    let mut msg = ReceivedMessage::new(&[0u8; 16], 3);
    assert_eq!(
        msg.read_value::<SegmentData>().unwrap_err(),
        OpenRgbError::ProtocolError(ProtocolError::SegmentsUnsupported { version: 3 })
    );
}

#[test]
fn controller_test_read_001() {
    // this message is protocol version 3
    let mut buf = WriteMessage::new(3);
    buf.write_u32(760);
    buf.write_slice(&[
        3, 0, 0, 0, 18, 0, 84, 104, 101, 114, 109, 97, 108, 116, 97, 107, 101, 32, 82, 105, 105,
        110, 103, 0, 12, 0, 84, 104, 101, 114, 109, 97, 108, 116, 97, 107, 101, 0, 25, 0, 84,
        104, 101, 114, 109, 97, 108, 116, 97, 107, 101, 32, 82, 105, 105, 110, 103, 32, 68, 101,
        118, 105, 99, 101, 0, 1, 0, 0, 1, 0, 0, 19, 0, 72, 73, 68, 58, 32, 47, 100, 101, 118,
        47, 104, 105, 100, 114, 97, 119, 49, 48, 0, 8, 0, 0, 0, 0, 0, 7, 0, 68, 105, 114, 101,
        99, 116, 0, 24, 0, 0, 0, 32, 0, 0, 0, 0, 0, 0, 0, 0, 0, 0, 0, 0, 0, 0, 0, 0, 0, 0, 0, 0,
        0, 0, 0, 0, 0, 0, 0, 0, 0, 0, 0, 0, 0, 0, 0, 0, 0, 0, 0, 1, 0, 0, 0, 0, 0, 7, 0, 83,
        116, 97, 116, 105, 99, 0, 25, 0, 0, 0, 64, 0, 0, 0, 0, 0, 0, 0, 0, 0, 0, 0, 0, 0, 0, 0,
        0, 0, 0, 0, 1, 0, 0, 0, 1, 0, 0, 0, 0, 0, 0, 0, 0, 0, 0, 0, 0, 0, 0, 0, 2, 0, 0, 0, 1,
        0, 0, 0, 0, 0, 5, 0, 70, 108, 111, 119, 0, 0, 0, 0, 0, 1, 0, 0, 0, 3, 0, 0, 0, 0, 0, 0,
        0, 0, 0, 0, 0, 0, 0, 0, 0, 0, 0, 0, 0, 0, 0, 0, 0, 2, 0, 0, 0, 0, 0, 0, 0, 0, 0, 0, 0,
        0, 0, 0, 0, 0, 0, 9, 0, 83, 112, 101, 99, 116, 114, 117, 109, 0, 4, 0, 0, 0, 1, 0, 0, 0,
        3, 0, 0, 0, 0, 0, 0, 0, 0, 0, 0, 0, 0, 0, 0, 0, 0, 0, 0, 0, 0, 0, 0, 0, 2, 0, 0, 0, 0,
        0, 0, 0, 0, 0, 0, 0, 0, 0, 0, 0, 0, 0, 7, 0, 82, 105, 112, 112, 108, 101, 0, 8, 0, 0, 0,
        33, 0, 0, 0, 3, 0, 0, 0, 0, 0, 0, 0, 0, 0, 0, 0, 0, 0, 0, 0, 0, 0, 0, 0, 0, 0, 0, 0, 2,
        0, 0, 0, 0, 0, 0, 0, 0, 0, 0, 0, 1, 0, 0, 0, 0, 0, 6, 0, 66, 108, 105, 110, 107, 0, 12,
        0, 0, 0, 33, 0, 0, 0, 3, 0, 0, 0, 0, 0, 0, 0, 0, 0, 0, 0, 0, 0, 0, 0, 0, 0, 0, 0, 0, 0,
        0, 0, 2, 0, 0, 0, 0, 0, 0, 0, 0, 0, 0, 0, 1, 0, 0, 0, 0, 0, 6, 0, 80, 117, 108, 115,
        101, 0, 16, 0, 0, 0, 33, 0, 0, 0, 3, 0, 0, 0, 0, 0, 0, 0, 0, 0, 0, 0, 0, 0, 0, 0, 0, 0,
        0, 0, 0, 0, 0, 0, 2, 0, 0, 0, 0, 0, 0, 0, 0, 0, 0, 0, 1, 0, 0, 0, 0, 0, 5, 0, 87, 97,
        118, 101, 0, 20, 0, 0, 0, 33, 0, 0, 0, 3, 0, 0, 0, 0, 0, 0, 0, 0, 0, 0, 0, 0, 0, 0, 0,
        0, 0, 0, 0, 0, 0, 0, 0, 2, 0, 0, 0, 0, 0, 0, 0, 0, 0, 0, 0, 1, 0, 0, 0, 0, 0, 5, 0, 16,
        0, 82, 105, 105, 110, 103, 32, 67, 104, 97, 110, 110, 101, 108, 32, 49, 0, 1, 0, 0, 0,
        0, 0, 0, 0, 20, 0, 0, 0, 0, 0, 0, 0, 0, 0, 16, 0, 82, 105, 105, 110, 103, 32, 67, 104,
        97, 110, 110, 101, 108, 32, 50, 0, 1, 0, 0, 0, 0, 0, 0, 0, 20, 0, 0, 0, 0, 0, 0, 0, 0,
        0, 16, 0, 82, 105, 105, 110, 103, 32, 67, 104, 97, 110, 110, 101, 108, 32, 51, 0, 1, 0,
        0, 0, 0, 0, 0, 0, 20, 0, 0, 0, 0, 0, 0, 0, 0, 0, 16, 0, 82, 105, 105, 110, 103, 32, 67,
        104, 97, 110, 110, 101, 108, 32, 52, 0, 1, 0, 0, 0, 0, 0, 0, 0, 20, 0, 0, 0, 0, 0, 0, 0,
        0, 0, 16, 0, 82, 105, 105, 110, 103, 32, 67, 104, 97, 110, 110, 101, 108, 32, 53, 0, 1,
        0, 0, 0, 0, 0, 0, 0, 20, 0, 0, 0, 0, 0, 0, 0, 0, 0, 0, 0, 0, 0
    ]);
    let mut msg = buf.to_received_msg();
    let c_data = msg.read_value::<ControllerData>().unwrap();

    assert_eq!(c_data.name(), "Thermaltake Riing");
    assert_eq!(c_data.vendor(), "Thermaltake");
    assert_eq!(c_data.description(), "Thermaltake Riing Device");
    assert_eq!(c_data.version(), "");
    assert_eq!(c_data.serial(), "");
    assert_eq!(c_data.location(), "HID: /dev/hidraw10");
    assert_eq!(c_data.active_mode_index(), 0);
    assert_eq!(c_data.modes().len(), 8);
    assert_eq!(c_data.zones().len(), 5);
    assert_eq!(c_data.leds().len(), 0);
    assert_eq!(c_data.colors().len(), 0);
    assert!(c_data.led_alt_names().is_none());
    assert!(c_data.flags().is_none());
}

#[test]
fn protocol_option_absent_below_minimum() {
    let absent: ProtocolOption<3, u32> = ProtocolOption::new(7, 2);
    assert_eq!(absent, ProtocolOption::UnsupportedVersion);
    assert_eq!(absent.value(), None);
    let present: ProtocolOption<3, u32> = ProtocolOption::new(7, 3);
    assert_eq!(present.value(), Some(&7));
    // an absent field is never invented on a later write
    let mut buf = WriteMessage::new(DEFAULT_PROTOCOL);
    buf.write_value(&absent).unwrap();
    assert_eq!(buf.len(), 0);
    // below the minimum version nothing is consumed or produced
    let mut buf2 = WriteMessage::new(2);
    buf2.write_value(&present).unwrap();
    assert_eq!(buf2.len(), 0);
    let mut msg = ReceivedMessage::new(&[9, 9, 9, 9], 2);
    let back: openrgb2::protocol_option::ProtocolOption<3, u32> = msg.read_value().unwrap();
    assert_eq!(back, ProtocolOption::UnsupportedVersion);
    // from the minimum version on it behaves like the bare value
    let mut buf3 = WriteMessage::new(3);
    buf3.write_value(&present).unwrap();
    assert_eq!(buf3.bytes(), &[7, 0, 0, 0]);
}

#[test]
fn zone_with_matrix_and_segments() {
    let mut buf = WriteMessage::new(DEFAULT_PROTOCOL);
    buf.write_value(&"test").unwrap(); // name
    buf.write_u32(2); // matrix type
    buf.write_u32(3); // leds_min
    buf.write_u32(18); // leds_max
    buf.write_u32(6); // leds_count
    buf.write_u16(32); // matrix block present
    buf.write_u32(2); // height
    buf.write_u32(3); // width
    for v in [0u32, 1, 2, 3, 4, u32::MAX] {
        buf.write_u32(v);
    }
    buf.write_u16(2); // two segments
    for (name, start, count) in [("left", 0u32, 3u32), ("right", 3, 3)] {
        buf.write_value(&name).unwrap();
        buf.write_u32(1); // linear
        buf.write_u32(start);
        buf.write_u32(count);
    }
    buf.write_u32(1); // zone flags: resizable for effects only
    let mut msg = buf.to_received_msg();
    let zone: openrgb2::zone::ZoneData = msg.read_value().unwrap();

    assert_eq!(zone.name(), "test");
    assert_eq!(zone.zone_type(), ZoneType::Matrix);
    assert_eq!(zone.leds_min(), 3);
    assert_eq!(zone.leds_max(), 18);
    assert_eq!(zone.leds_count(), 6);
    let matrix = zone.matrix().unwrap();
    assert_eq!(matrix.height(), 2);
    assert_eq!(matrix.width(), 3);
    assert_eq!(matrix.get(0, 0), 0);
    assert_eq!(matrix.get(1, 1), 4);
    assert_eq!(matrix.get(1, 2), u32::MAX); // no LED at that position
    let segments = zone.segments().unwrap();
    assert_eq!(segments.len(), 2);
    assert_eq!(segments[0].name(), "left");
    assert_eq!(segments[0].id(), 0);
    assert_eq!(segments[1].name(), "right");
    assert_eq!(segments[1].id(), 1);
    assert_eq!(segments[1].offset(), 3);
    assert_eq!(zone.get_segment(1).unwrap().name(), "right");
    assert!(zone.get_segment(2).is_err());
    assert!(zone.flags().is_some());
}

#[test]
fn mode_every_strict_prefix_fails() {
    // decoding any strict prefix of a valid encoding fails; it never panics
    // and never yields a partial value
    let buf = mode_bytes(3);
    let bytes = buf.bytes();
    for k in 0..bytes.len() {
        let mut msg = ReceivedMessage::new(&bytes[..k], 3);
        assert!(msg.read_value::<ModeData>().is_err());
    }
}

#[test]
fn controller_every_strict_prefix_fails() {
    let mut buf = WriteMessage::new(DEFAULT_PROTOCOL);
    buf.write_u32(0);
    buf.write_u32(4); // LED strip
    for s in ["strip", "vendor", "desc", "1.0", "serial", "location"] {
        buf.write_value(&s).unwrap();
    }
    buf.write_u16(0); // no modes
    buf.write_value(&0i32).unwrap();
    buf.write_u16(1); // one zone
    buf.write_value(&"zone").unwrap();
    buf.write_u32(1);
    buf.write_u32(0);
    buf.write_u32(8);
    buf.write_u32(8);
    buf.write_u16(0);
    buf.write_u16(0);
    buf.write_u32(0);
    buf.write_u16(0);
    buf.write_u16(0);
    buf.write_u16(0);
    buf.write_u32(0);
    let bytes = buf.bytes();
    let mut full = ReceivedMessage::new(bytes, DEFAULT_PROTOCOL);
    assert!(full.read_value::<ControllerData>().is_ok());
    for k in 0..bytes.len() {
        let mut msg = ReceivedMessage::new(&bytes[..k], DEFAULT_PROTOCOL);
        assert!(msg.read_value::<ControllerData>().is_err());
    }
}

#[test]
fn segment_range_checked_against_zone() {
    let mut buf = WriteMessage::new(DEFAULT_PROTOCOL);
    buf.write_value(&"zone").unwrap();
    buf.write_u32(1);
    buf.write_u32(0);
    buf.write_u32(10);
    buf.write_u32(10);
    buf.write_u16(0);
    buf.write_u16(0);
    buf.write_u32(0);
    let mut msg = buf.to_received_msg();
    let zone: openrgb2::zone::ZoneData = msg.read_value().unwrap();
    assert!(zone.make_segment("fit", 4, 6).is_ok());
    assert_eq!(
        zone.make_segment("late", 4, 7).unwrap_err(),
        OpenRgbError::CommandError(openrgb2::error::CommandError::SegmentRange {
            start_idx: 4,
            led_count: 7,
            zone_leds: 10,
        })
    );
}

//! Batching behavior: merge order, zone offsets, the lenient oversize
//! policy, the group variant, and the end-to-end flow from controller count
//! to a single update packet.

use openrgb2::codec::WriteMessage;
use openrgb2::color::Color;
use openrgb2::command::{BatchWarning, Command, CommandGroup};
use openrgb2::controller::ControllerData;
use openrgb2::error::{CommandError, OpenRgbError};
use openrgb2::packet::{parse_header, PacketId};
use openrgb2::session::{OpenRgbProtocol, DEFAULT_PROTOCOL};

/// Encodes and decodes a controller named `name` with the given zone sizes,
/// assigned the requested id.
fn controller_with_zones(id: u32, name: &str, zone_sizes: &[u32]) -> ControllerData {
    let mut buf = WriteMessage::new(DEFAULT_PROTOCOL);
    buf.write_u32(0); // data size, ignored on read
    buf.write_u32(0); // device type: motherboard
    for s in [name, "vendor", "desc", "1.0", "serial", "location"] {
        buf.write_value(&s).unwrap();
    }
    buf.write_u16(0); // no modes
    buf.write_value(&0i32).unwrap(); // active mode index
    buf.write_u16(zone_sizes.len() as u16);
    for (i, size) in zone_sizes.iter().enumerate() {
        let zone_name = format!("zone{i}");
        buf.write_value(&zone_name.as_str()).unwrap();
        buf.write_u32(1); // linear
        buf.write_u32(0); // leds_min
        buf.write_u32(*size); // leds_max
        buf.write_u32(*size); // leds_count
        buf.write_u16(0); // no matrix
        buf.write_u16(0); // no segments (version 5: present, empty)
        buf.write_u32(0); // zone flags (version 5)
    }
    buf.write_u16(0); // no LED descriptors
    buf.write_u16(0); // no colors
    buf.write_u16(0); // no alternate LED names (version 5)
    buf.write_u32(0); // controller flags (version 5)

    let proto = OpenRgbProtocol::new(DEFAULT_PROTOCOL, DEFAULT_PROTOCOL);
    proto.parse_controller_response(id, buf.bytes()).unwrap()
}

#[test]
fn batch_last_write_wins() {
    // two writes to the same LED: the later wins, untouched LEDs stay black
    let c = controller_with_zones(0, "dev", &[4]);
    let mut cmd = Command::new(&c);
    cmd.set_led(2, Color::new(10, 20, 30)).unwrap();
    cmd.set_led(2, Color::new(200, 100, 50)).unwrap();
    assert_eq!(cmd.colors().len(), 3);
    assert_eq!(cmd.colors()[2], Color::new(200, 100, 50));
    assert_eq!(cmd.colors()[0], Color::new(0, 0, 0));
    assert_eq!(cmd.colors()[1], Color::new(0, 0, 0));
    assert!(cmd.warnings().is_empty());
}

#[test]
fn batch_zone_offset() {
    // zones of sizes [5, 3, 4]: LED 0 of zone 1 is absolute LED 5
    let c = controller_with_zones(0, "dev", &[5, 3, 4]);
    assert_eq!(c.num_leds(), 12);
    assert_eq!(c.get_zone_led_offset(0).unwrap(), 0);
    assert_eq!(c.get_zone_led_offset(1).unwrap(), 5);
    assert_eq!(c.get_zone_led_offset(2).unwrap(), 8);
    let mut cmd = Command::new(&c);
    cmd.set_zone_led(1, 0, Color::new(9, 9, 9)).unwrap();
    assert_eq!(cmd.colors().len(), 6);
    assert_eq!(cmd.colors()[5], Color::new(9, 9, 9));
    for i in 0..5 {
        assert_eq!(cmd.colors()[i], Color::new(0, 0, 0));
    }
}

#[test]
fn batch_zone_writes() {
    let c = controller_with_zones(0, "dev", &[2, 3]);
    let mut cmd = Command::new(&c);
    cmd.set_zone_leds(1, &[Color::new(1, 1, 1); 3]).unwrap();
    assert_eq!(cmd.colors().len(), 5);
    assert_eq!(cmd.colors()[0], Color::new(0, 0, 0));
    assert_eq!(cmd.colors()[2], Color::new(1, 1, 1));
    assert_eq!(cmd.colors()[4], Color::new(1, 1, 1));
    assert!(cmd.warnings().is_empty());
    assert_eq!(
        cmd.set_zone_leds(7, &[]).unwrap_err(),
        OpenRgbError::CommandError(CommandError::ZoneNotFound { zone_id: 7 })
    );
}

#[test]
fn batch_oversized_device_write_truncates_with_warning() {
    // more colors than the device has LEDs: warn, drop the extra at the
    // boundary, never fail
    let c = controller_with_zones(0, "dev", &[2, 2]);
    let mut cmd = Command::new(&c);
    cmd.set_leds(&[Color::new(5, 5, 5); 7]).unwrap();
    assert_eq!(cmd.colors().len(), 4);
    assert_eq!(cmd.warnings(), &[BatchWarning::TooManyColors { given: 7, num_leds: 4 }]);
}

#[test]
fn batch_oversized_zone_write_truncates_with_warning() {
    let c = controller_with_zones(0, "dev", &[2, 2]);
    let mut cmd = Command::new(&c);
    cmd.set_zone_leds(0, &[Color::new(5, 5, 5); 3]).unwrap();
    assert_eq!(cmd.colors().len(), 2);
    assert_eq!(cmd.warnings(), &[BatchWarning::TooManyColors { given: 3, num_leds: 2 }]);
}

#[test]
fn batch_out_of_bounds_led_warns_and_writes() {
    let c = controller_with_zones(0, "dev", &[2]);
    let mut cmd = Command::new(&c);
    cmd.set_led(4, Color::new(1, 2, 3)).unwrap();
    assert_eq!(cmd.colors().len(), 5);
    assert_eq!(cmd.colors()[4], Color::new(1, 2, 3));
    assert_eq!(cmd.warnings(), &[BatchWarning::LedOutOfBounds { index: 4, num_leds: 2 }]);
}

#[test]
fn batch_segments_absent_is_command_error() {
    let c = controller_with_zones(0, "dev", &[2]);
    let mut cmd = Command::new(&c);
    assert_eq!(
        cmd.set_segment_leds(0, 0, &[]).unwrap_err(),
        OpenRgbError::CommandError(CommandError::SegmentNotFound { zone_id: 0, segment_id: 0 })
    );
}

#[test]
fn group_unknown_controller_is_hard_error() {
    let controllers = vec![controller_with_zones(0, "a", &[2]), controller_with_zones(1, "b", &[3])];
    let datas: Vec<&ControllerData> = controllers.iter().collect();
    let mut group = CommandGroup::new(datas);
    assert_eq!(
        group.set_controller_led(5, 0, Color::new(1, 1, 1)).unwrap_err(),
        OpenRgbError::CommandError(CommandError::ControllerNotFound { controller_id: 5 })
    );
    group.set_controller_led(1, 2, Color::new(1, 1, 1)).unwrap();
    group.set_controller_zone_leds(0, 0, &[Color::new(2, 2, 2); 2]).unwrap();
    let proto = OpenRgbProtocol::new(DEFAULT_PROTOCOL, DEFAULT_PROTOCOL);
    let packets = group.execute(&proto).unwrap();
    assert_eq!(packets.len(), 2);
    assert!(parse_header(&packets[0][..16], 0, PacketId::RGBControllerUpdateLeds).is_ok());
    assert!(parse_header(&packets[1][..16], 1, PacketId::RGBControllerUpdateLeds).is_ok());
}

#[test]
fn end_to_end_single_update_packet() {
    let proto = OpenRgbProtocol::new(DEFAULT_PROTOCOL, DEFAULT_PROTOCOL);

    // the server reports two controllers
    assert_eq!(proto.parse_controller_count_response(&[2, 0, 0, 0]).unwrap(), 2);

    // controller 0 has three zones of two LEDs each: six LEDs total
    let c = controller_with_zones(0, "dev", &[2, 2, 2]);
    assert_eq!(c.num_leds(), 6);

    // one batched write to LED 5, executed as exactly one update packet
    let mut cmd = Command::new(&c);
    cmd.set_led(5, Color::new(255, 0, 0)).unwrap();
    let pkt = cmd.execute(&proto).unwrap();

    // the packet updates all six LEDs of device 0: index 5 is red, 0..4 black
    let payload_len = parse_header(&pkt[..16], 0, PacketId::RGBControllerUpdateLeds).unwrap();
    assert_eq!(payload_len as usize, pkt.len() - 16);
    let payload = &pkt[16..];
    assert_eq!(&payload[0..4], &[30, 0, 0, 0]); // inner length: 4 + 2 + 6 * 4
    assert_eq!(&payload[4..6], &[6, 0]); // six colors
    for i in 0..5 {
        assert_eq!(&payload[6 + 4 * i..10 + 4 * i], &[0, 0, 0, 0]);
    }
    assert_eq!(&payload[26..30], &[255, 0, 0, 0]);
}

#[test]
fn savable_mode_errors() {
    // a controller with no modes has no active mode to save
    let c = controller_with_zones(0, "dev", &[2]);
    assert_eq!(
        c.savable_mode().unwrap_err(),
        OpenRgbError::CommandError(CommandError::NoActiveMode)
    );
}

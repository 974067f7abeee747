//! Byte-level codec behavior: primitives, strings, sequences, colors, and
//! the truncation rule that a short buffer always fails and never yields a
//! partial value.

use openrgb2::codec::{DeserFromBuf, ReceivedMessage, WriteMessage};
use openrgb2::color::Color;
use openrgb2::enums::{DeviceType, ZoneType};
use openrgb2::error::{OpenRgbError, ProtocolError};
use openrgb2::session::DEFAULT_PROTOCOL;
use openrgb2::text::RawString;

#[test]
fn test_read_void_001() {
    let mut msg = ReceivedMessage::new(&[0, 1, 2, 3, 4], DEFAULT_PROTOCOL);
    let _: () = msg.read_value().unwrap();
}

#[test]
fn test_write_void_001() {
    let mut msg = WriteMessage::new(DEFAULT_PROTOCOL);
    msg.write_value(&()).unwrap();
    assert_eq!(msg.len(), 0);
}

#[test]
fn test_read_u8_001() {
    let mut msg = ReceivedMessage::new(&[0, 1, 2, 3, 4], DEFAULT_PROTOCOL);
    assert_eq!(msg.read_u8().unwrap(), 0);
    assert_eq!(msg.read_value::<u8>().unwrap(), 1);
}

#[test]
fn test_write_u8_001() {
    let mut msg = WriteMessage::new(DEFAULT_PROTOCOL);
    msg.write_u8(37);
    msg.write_value(&37u8).unwrap();
    assert_eq!(msg.bytes(), &[37, 37]);
}

#[test]
fn test_read_u16_001() {
    let mut msg = ReceivedMessage::new(&[0, 1, 2, 3, 4], DEFAULT_PROTOCOL);
    assert_eq!(msg.read_u16().unwrap(), u16::from_le_bytes([0, 1]));
    assert_eq!(msg.read_value::<u16>().unwrap(), u16::from_le_bytes([2, 3]));
    assert!(msg.read_value::<u16>().is_err()); // not enough data
}

#[test]
fn test_write_u16_001() {
    let mut msg = WriteMessage::new(DEFAULT_PROTOCOL);
    msg.write_u16(37);
    msg.write_value(&37u16).unwrap();
    assert_eq!(msg.bytes(), &[37, 0, 37, 0]);
}

#[test]
fn test_read_u32_001() {
    let mut msg = ReceivedMessage::new(&[0, 1, 2, 3, 4], DEFAULT_PROTOCOL);
    assert_eq!(msg.read_u32().unwrap(), u32::from_le_bytes([0, 1, 2, 3]));
    assert!(msg.read_value::<u32>().is_err()); // not enough data
}

#[test]
fn test_write_u32_001() {
    let mut msg = WriteMessage::new(DEFAULT_PROTOCOL);
    msg.write_u32(37);
    msg.write_value(&37u32).unwrap();
    assert_eq!(msg.bytes(), &[37, 0, 0, 0, 37, 0, 0, 0]);
}

#[test]
fn test_read_i32_001() {
    let mut msg = ReceivedMessage::new(&[0, 1, 2, 3, 4], DEFAULT_PROTOCOL);
    assert_eq!(msg.read_u32().unwrap() as i32, i32::from_le_bytes([0, 1, 2, 3]));
    assert!(msg.read_value::<i32>().is_err()); // not enough data
}

#[test]
fn test_write_i32_001() {
    let mut msg = WriteMessage::new(DEFAULT_PROTOCOL);
    msg.write_u32(37i32 as u32);
    msg.write_value(&37i32).unwrap();
    assert_eq!(msg.bytes(), &[37, 0, 0, 0, 37, 0, 0, 0]);
}

#[test]
fn test_read_array() {
    let mut message = ReceivedMessage::new(&[0, 1, 2, 3, 4, 5], DEFAULT_PROTOCOL);
    let arr: [u8; 3] = message.read_value().unwrap();
    assert_eq!(arr, [0, 1, 2]);
    let arr2: [u8; 3] = message.read_value().unwrap();
    assert_eq!(arr2, [3, 4, 5]);
    assert!(message.read_value::<[u8; 3]>().is_err());
}

#[test]
fn test_write_array() {
    let mut msg = WriteMessage::new(DEFAULT_PROTOCOL);
    msg.write_value(&vec![42u8; 5]).unwrap();
    assert_eq!(msg.bytes(), &[5, 0, 42, 42, 42, 42, 42]);
}

#[test]
fn test_macro() {
    assert_eq!(ZoneType::from_u32(1).unwrap(), ZoneType::Linear);
    assert_eq!(ZoneType::from_u32(2).unwrap(), ZoneType::Matrix);
    assert!(ZoneType::from_u32(3).is_err());
    assert_eq!(ZoneType::Linear.to_u32(), 1);
    assert_eq!(ZoneType::Matrix.to_u32(), 2);
    assert_eq!(ZoneType::Single.to_u32(), 0);
}

#[test]
fn string_test_read_001() {
    let buf = WriteMessage::new(DEFAULT_PROTOCOL)
        .push_value(&5u16)
        .unwrap()
        .push_value(&RawString("test"))
        .unwrap();
    let mut msg = buf.to_received_msg();
    assert_eq!(msg.read_value::<String>().unwrap(), "test".to_string());
}

#[test]
fn string_test_write_001() {
    let buf = WriteMessage::new(DEFAULT_PROTOCOL).push_value(&"test").unwrap();
    let mut msg = buf.to_received_msg();
    assert_eq!(msg.read_value::<String>().unwrap(), "test".to_string());
}

#[test]
fn string_empty_round_trip() {
    let buf = WriteMessage::new(DEFAULT_PROTOCOL).push_value(&"").unwrap();
    assert_eq!(buf.bytes(), &[1, 0, 0]);
    let mut msg = buf.to_received_msg();
    assert_eq!(msg.read_value::<String>().unwrap(), String::new());
}

#[test]
fn string_invalid_utf8_rejected() {
    // length 3: two content bytes (0xFF is never valid UTF-8) and the NUL
    let mut msg = ReceivedMessage::new(&[3, 0, 0xFF, 0xFF, 0], DEFAULT_PROTOCOL);
    assert_eq!(
        msg.read_value::<String>().unwrap_err(),
        OpenRgbError::ProtocolError(ProtocolError::InvalidUtf8)
    );
}

#[test]
fn string_truncated_rejected() {
    // announces 5 bytes but only 2 follow
    let mut msg = ReceivedMessage::new(&[5, 0, 104, 105], DEFAULT_PROTOCOL);
    assert_eq!(
        msg.read_value::<String>().unwrap_err(),
        OpenRgbError::ProtocolError(ProtocolError::Truncated)
    );
}

#[test]
fn string_too_long_rejected() {
    let big = "a".repeat(0xFFFF);
    let mut msg = WriteMessage::new(DEFAULT_PROTOCOL);
    match msg.write_value(&big.as_str()) {
        Err(OpenRgbError::ProtocolError(ProtocolError::TooLong { len })) => {
            assert_eq!(len, 0xFFFF);
        }
        other => panic!("expected a too-long error, got {other:?}"),
    }
}

#[test]
fn vec_test_read_001() {
    let buf = WriteMessage::new(DEFAULT_PROTOCOL)
        .push_value(&3u16)
        .unwrap()
        .push_value(&37u8)
        .unwrap()
        .push_value(&54u8)
        .unwrap()
        .push_value(&126u8)
        .unwrap();
    let mut msg = buf.to_received_msg();
    assert_eq!(msg.read_value::<Vec<u8>>().unwrap(), vec![37u8, 54u8, 126u8]);
}

#[test]
fn vec_test_write_001() {
    let buf = WriteMessage::new(DEFAULT_PROTOCOL).push_value(&vec![1u8, 2u8, 3u8]).unwrap();
    let mut msg = buf.to_received_msg();
    assert_eq!(msg.read_value::<u16>().unwrap(), 3);
    assert_eq!(msg.read_value::<u8>().unwrap(), 1);
    assert_eq!(msg.read_value::<u8>().unwrap(), 2);
    assert_eq!(msg.read_value::<u8>().unwrap(), 3);
}

#[test]
fn slice_test_read_001() {
    let buf = WriteMessage::new(DEFAULT_PROTOCOL)
        .push_value(&3u16)
        .unwrap()
        .push_value(&37u8)
        .unwrap()
        .push_value(&54u8)
        .unwrap()
        .push_value(&126u8)
        .unwrap();
    let mut msg = buf.to_received_msg();
    assert_eq!(msg.read_value::<Vec<u8>>().unwrap(), vec![37u8, 54u8, 126u8]);
}

#[test]
fn slice_test_write_001() {
    let buf = WriteMessage::new(DEFAULT_PROTOCOL).push_value(&vec![1u8, 2u8, 3u8]).unwrap();
    let mut msg = buf.to_received_msg();
    assert_eq!(msg.read_value::<u16>().unwrap(), 3);
    assert_eq!(msg.read_value::<u8>().unwrap(), 1);
    assert_eq!(msg.read_value::<u8>().unwrap(), 2);
    assert_eq!(msg.read_value::<u8>().unwrap(), 3);
}

#[test]
fn vec_empty_round_trip() {
    let buf = WriteMessage::new(DEFAULT_PROTOCOL).push_value(&Vec::<u8>::new()).unwrap();
    assert_eq!(buf.bytes(), &[0, 0]);
    let mut msg = buf.to_received_msg();
    assert_eq!(msg.read_value::<Vec<u8>>().unwrap(), Vec::<u8>::new());
}

#[test]
fn vec_truncated_rejected() {
    // announces three elements, carries two
    let mut msg = ReceivedMessage::new(&[3, 0, 7, 8], DEFAULT_PROTOCOL);
    assert!(msg.read_value::<Vec<u8>>().is_err());
}

#[test]
fn test_ser_deser_tuple() {
    let buf = WriteMessage::new(DEFAULT_PROTOCOL)
        .push_value(&37u8)
        .unwrap()
        .push_value(&1337u32)
        .unwrap()
        .push_value(&(-1337i32))
        .unwrap()
        .push_value(&4u32)
        .unwrap();
    let mut msg = buf.to_received_msg();
    let (a, (b, (c, d))) = msg.read_value::<(u8, (u32, (i32, DeviceType)))>().unwrap();
    assert_eq!((a, b, c, d), (37, 1337, -1337, DeviceType::LEDStrip));
}

#[test]
fn color_test_read_001() {
    let mut buf = WriteMessage::new(0);
    buf.write_slice(&[37u8, 54u8, 126u8, 0u8]);
    let mut msg = buf.to_received_msg();
    assert_eq!(msg.read_value::<Color>().unwrap(), Color { r: 37, g: 54, b: 126 });
}

#[test]
fn color_test_write_001() {
    let mut buf = WriteMessage::new(0);
    let c = Color { r: 37, g: 54, b: 126 };
    buf.write_value(&c).unwrap();
    let mut msg = buf.to_received_msg();
    assert_eq!(&msg.read_n_values::<u8>(4).unwrap(), &[37u8, 54u8, 126u8, 0u8]);
}

#[test]
fn color_truncated_rejected() {
    let mut msg = ReceivedMessage::new(&[37, 54], DEFAULT_PROTOCOL);
    assert_eq!(
        msg.read_value::<Color>().unwrap_err(),
        OpenRgbError::ProtocolError(ProtocolError::Truncated)
    );
}

#[test]
fn read_u8_truncated_rejected() {
    let mut msg = ReceivedMessage::new(&[], DEFAULT_PROTOCOL);
    assert_eq!(
        msg.read_u8().unwrap_err(),
        OpenRgbError::ProtocolError(ProtocolError::Truncated)
    );
}

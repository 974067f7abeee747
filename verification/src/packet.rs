//! Packet kinds and the fixed message envelope.
//!
//! Every message is a 16-byte header — the four magic bytes "ORGB", a device
//! id, a packet-kind discriminant and the payload length, all little-endian
//! — followed by exactly that many payload bytes. The header format does not
//! depend on the protocol version. Some payloads carry one further 32-bit
//! length field that counts the payload bytes plus the four bytes of the
//! length field itself; [`OpenRgbPacket`] adds it.

use vstd::prelude::*;

use crate::codec::{
    le32, le32_bytes, DeserFromBuf, ReceivedMessage, RoundTrip, SerToBuf, WriteMessage,
};
use crate::error::{OpenRgbError, OpenRgbResult, ProtocolError, WireEnum};

verus! {

/// Packet kind: the discriminant in a message header naming the semantic
/// type of the message.
#[derive(Clone, Copy, Debug, PartialEq, Eq, Structural)]
pub enum PacketId {
    /// Request the controller count from the server.
    RequestControllerCount,
    /// Request one controller's data block.
    RequestControllerData,
    /// Request the server's protocol version.
    RequestProtocolVersion,
    /// Send the client's name to the server.
    SetClientName,
    /// Server notice that the device list changed.
    DeviceListUpdated,
    /// Request a device rescan (protocol 5).
    RequestDeviceRescan,
    /// Request the profile list (protocol 2).
    RequestProfileList,
    /// Save the current configuration as a profile (protocol 2).
    RequestSaveProfile,
    /// Load a named profile (protocol 2).
    RequestLoadProfile,
    /// Delete a named profile (protocol 2).
    RequestDeleteProfile,
    /// Request the plugin list (protocol 4).
    RequestPluginList,
    /// Plugin-specific request (protocol 4).
    PluginSpecific,
    /// Resize a zone.
    RGBControllerResizeZone,
    /// Clear all segments of a controller (protocol 5).
    RgbControllerClearSegments,
    /// Add a segment to a zone (protocol 5).
    RGBControllerAddSegment,
    /// Update all LEDs of a controller.
    RGBControllerUpdateLeds,
    /// Update all LEDs of one zone.
    RGBControllerUpdateZoneLeds,
    /// Update a single LED.
    RGBControllerUpdateSingleLed,
    /// Switch the controller to its custom mode.
    RGBControllerSetCustomMode,
    /// Set and apply a mode.
    RGBControllerUpdateMode,
    /// Save a mode to the device (protocol 3).
    RGBControllerSaveMode,
}

/// The wire discriminant of a [`PacketId`].
pub open spec fn spec_packet_id_to_u32(v: PacketId) -> u32 {
    match v {
        PacketId::RequestControllerCount => 0,
        PacketId::RequestControllerData => 1,
        PacketId::RequestProtocolVersion => 40,
        PacketId::SetClientName => 50,
        PacketId::DeviceListUpdated => 100,
        PacketId::RequestDeviceRescan => 140,
        PacketId::RequestProfileList => 150,
        PacketId::RequestSaveProfile => 151,
        PacketId::RequestLoadProfile => 152,
        PacketId::RequestDeleteProfile => 153,
        PacketId::RequestPluginList => 200,
        PacketId::PluginSpecific => 201,
        PacketId::RGBControllerResizeZone => 1000,
        PacketId::RgbControllerClearSegments => 1001,
        PacketId::RGBControllerAddSegment => 1002,
        PacketId::RGBControllerUpdateLeds => 1050,
        PacketId::RGBControllerUpdateZoneLeds => 1051,
        PacketId::RGBControllerUpdateSingleLed => 1052,
        PacketId::RGBControllerSetCustomMode => 1100,
        PacketId::RGBControllerUpdateMode => 1101,
        PacketId::RGBControllerSaveMode => 1102,
    }
}

/// The [`PacketId`] a wire discriminant stands for, if any.
pub open spec fn spec_packet_id_from_u32(value: u32) -> Option<PacketId> {
    if value == 0 {
        Some(PacketId::RequestControllerCount)
    } else
    if value == 1 {
        Some(PacketId::RequestControllerData)
    } else
    if value == 40 {
        Some(PacketId::RequestProtocolVersion)
    } else
    if value == 50 {
        Some(PacketId::SetClientName)
    } else
    if value == 100 {
        Some(PacketId::DeviceListUpdated)
    } else
    if value == 140 {
        Some(PacketId::RequestDeviceRescan)
    } else
    if value == 150 {
        Some(PacketId::RequestProfileList)
    } else
    if value == 151 {
        Some(PacketId::RequestSaveProfile)
    } else
    if value == 152 {
        Some(PacketId::RequestLoadProfile)
    } else
    if value == 153 {
        Some(PacketId::RequestDeleteProfile)
    } else
    if value == 200 {
        Some(PacketId::RequestPluginList)
    } else
    if value == 201 {
        Some(PacketId::PluginSpecific)
    } else
    if value == 1000 {
        Some(PacketId::RGBControllerResizeZone)
    } else
    if value == 1001 {
        Some(PacketId::RgbControllerClearSegments)
    } else
    if value == 1002 {
        Some(PacketId::RGBControllerAddSegment)
    } else
    if value == 1050 {
        Some(PacketId::RGBControllerUpdateLeds)
    } else
    if value == 1051 {
        Some(PacketId::RGBControllerUpdateZoneLeds)
    } else
    if value == 1052 {
        Some(PacketId::RGBControllerUpdateSingleLed)
    } else
    if value == 1100 {
        Some(PacketId::RGBControllerSetCustomMode)
    } else
    if value == 1101 {
        Some(PacketId::RGBControllerUpdateMode)
    } else
    if value == 1102 {
        Some(PacketId::RGBControllerSaveMode)
    } else {
        None
    }
}

impl PacketId {
    /// The wire discriminant of this packet kind.
    pub fn to_u32(self) -> (r: u32)
        ensures
            r == spec_packet_id_to_u32(self),
    {
        match self {
            PacketId::RequestControllerCount => 0,
            PacketId::RequestControllerData => 1,
            PacketId::RequestProtocolVersion => 40,
            PacketId::SetClientName => 50,
            PacketId::DeviceListUpdated => 100,
            PacketId::RequestDeviceRescan => 140,
            PacketId::RequestProfileList => 150,
            PacketId::RequestSaveProfile => 151,
            PacketId::RequestLoadProfile => 152,
            PacketId::RequestDeleteProfile => 153,
            PacketId::RequestPluginList => 200,
            PacketId::PluginSpecific => 201,
            PacketId::RGBControllerResizeZone => 1000,
            PacketId::RgbControllerClearSegments => 1001,
            PacketId::RGBControllerAddSegment => 1002,
            PacketId::RGBControllerUpdateLeds => 1050,
            PacketId::RGBControllerUpdateZoneLeds => 1051,
            PacketId::RGBControllerUpdateSingleLed => 1052,
            PacketId::RGBControllerSetCustomMode => 1100,
            PacketId::RGBControllerUpdateMode => 1101,
            PacketId::RGBControllerSaveMode => 1102,
        }
    }

    /// The packet kind of a wire discriminant; an integer matching no kind
    /// is a protocol error naming the integer and the enumeration.
    pub fn from_u32(value: u32) -> (r: OpenRgbResult<PacketId>)
        ensures
            r matches Ok(v) ==> spec_packet_id_from_u32(value) == Some(v),
            r matches Err(e) ==> {
                &&& spec_packet_id_from_u32(value) is None
                &&& e == OpenRgbError::ProtocolError(ProtocolError::UnknownDiscriminant {
                    kind: WireEnum::PacketKind,
                    value,
                })
            },
    {
        match value {
            0 => Ok(PacketId::RequestControllerCount),
            1 => Ok(PacketId::RequestControllerData),
            40 => Ok(PacketId::RequestProtocolVersion),
            50 => Ok(PacketId::SetClientName),
            100 => Ok(PacketId::DeviceListUpdated),
            140 => Ok(PacketId::RequestDeviceRescan),
            150 => Ok(PacketId::RequestProfileList),
            151 => Ok(PacketId::RequestSaveProfile),
            152 => Ok(PacketId::RequestLoadProfile),
            153 => Ok(PacketId::RequestDeleteProfile),
            200 => Ok(PacketId::RequestPluginList),
            201 => Ok(PacketId::PluginSpecific),
            1000 => Ok(PacketId::RGBControllerResizeZone),
            1001 => Ok(PacketId::RgbControllerClearSegments),
            1002 => Ok(PacketId::RGBControllerAddSegment),
            1050 => Ok(PacketId::RGBControllerUpdateLeds),
            1051 => Ok(PacketId::RGBControllerUpdateZoneLeds),
            1052 => Ok(PacketId::RGBControllerUpdateSingleLed),
            1100 => Ok(PacketId::RGBControllerSetCustomMode),
            1101 => Ok(PacketId::RGBControllerUpdateMode),
            1102 => Ok(PacketId::RGBControllerSaveMode),
            _ => Err(OpenRgbError::ProtocolError(ProtocolError::UnknownDiscriminant {
                kind: WireEnum::PacketKind,
                value,
            })),
        }
    }
}

impl DeepView for PacketId {
    type V = PacketId;

    open spec fn deep_view(&self) -> PacketId {
        *self
    }
}

impl SerToBuf for PacketId {
    open spec fn spec_enc(v: PacketId, version: u32) -> Seq<u8> {
        le32_bytes(spec_packet_id_to_u32(v))
    }

    open spec fn spec_encodable(v: PacketId, version: u32) -> bool {
        true
    }

    fn serialize(&self, buf: &mut WriteMessage) -> (r: OpenRgbResult<()>) {
        buf.write_u32(self.to_u32());
        Ok(())
    }
}

impl DeserFromBuf for PacketId {
    open spec fn spec_dec(bytes: Seq<u8>, version: u32) -> Option<(PacketId, int)> {
        if bytes.len() >= 4 {
            match spec_packet_id_from_u32(le32(bytes[0], bytes[1], bytes[2], bytes[3])) {
                Some(v) => Some((v, 4)),
                None => None,
            }
        } else {
            None
        }
    }

    proof fn lemma_dec_len(bytes: Seq<u8>, version: u32) {
    }

    proof fn lemma_dec_extend(bytes: Seq<u8>, bytes2: Seq<u8>, version: u32) {
        assert forall|i: int| 0 <= i < bytes.len() implies bytes2[i] == bytes[i] by {
            assert(bytes[i] == bytes2.take(bytes.len() as int)[i]);
        }
    }

    fn deserialize(buf: &mut ReceivedMessage<'_>) -> (r: OpenRgbResult<PacketId>) {
        let raw = match buf.read_u32() {
            Ok(v) => v,
            Err(e) => {
                return Err(e);
            },
        };
        PacketId::from_u32(raw)
    }
}

impl RoundTrip for PacketId {
    open spec fn spec_canonical(v: PacketId, version: u32) -> bool {
        true
    }

    proof fn lemma_round_trip(v: PacketId, version: u32, rest: Seq<u8>) {
        crate::codec::lemma_le32_round_trip(spec_packet_id_to_u32(v));
    }
}

/// The four magic bytes "ORGB" that open every framed message.
pub open spec fn spec_magic() -> Seq<u8> {
    seq![79u8, 82u8, 71u8, 66u8]
}

/// The 16-byte message header: magic, device id, packet kind, payload
/// length, all little-endian.
pub open spec fn spec_header(device_id: u32, packet_id: PacketId, payload_len: u32) -> Seq<u8> {
    spec_magic() + le32_bytes(device_id) + le32_bytes(spec_packet_id_to_u32(packet_id))
        + le32_bytes(payload_len)
}

/// A whole framed message: the header followed by exactly the payload.
pub open spec fn spec_frame(device_id: u32, packet_id: PacketId, payload: Seq<u8>) -> Seq<u8> {
    spec_header(device_id, packet_id, payload.len() as u32) + payload
}

/// What validating a response header against the request's device id and
/// packet kind yields: the payload length, or the exact protocol error, in
/// this order — truncation, bad magic, unknown packet kind, packet-kind
/// mismatch, device-id mismatch.
pub open spec fn spec_parse_header(
    bytes: Seq<u8>,
    expected_device: u32,
    expected_packet: PacketId,
) -> Result<u32, ProtocolError> {
    if bytes.len() < 16 {
        Err(ProtocolError::Truncated)
    } else if !(bytes[0] == 79 && bytes[1] == 82 && bytes[2] == 71 && bytes[3] == 66) {
        Err(ProtocolError::BadMagic { got: le32(bytes[0], bytes[1], bytes[2], bytes[3]) })
    } else {
        let device_id = le32(bytes[4], bytes[5], bytes[6], bytes[7]);
        let kind_raw = le32(bytes[8], bytes[9], bytes[10], bytes[11]);
        match spec_packet_id_from_u32(kind_raw) {
            None => Err(ProtocolError::UnknownDiscriminant {
                kind: WireEnum::PacketKind,
                value: kind_raw,
            }),
            Some(kind) => if kind != expected_packet {
                Err(ProtocolError::PacketKindMismatch {
                    expected: spec_packet_id_to_u32(expected_packet),
                    got: kind_raw,
                })
            } else if device_id != expected_device {
                Err(ProtocolError::DeviceIdMismatch { expected: expected_device, got: device_id })
            } else {
                Ok(le32(bytes[12], bytes[13], bytes[14], bytes[15]))
            },
        }
    }
}

/// Builds the 16-byte header of a framed message.
pub fn write_header(device_id: u32, packet_id: PacketId, payload_len: u32) -> (r: Vec<u8>)
    ensures
        r@ == spec_header(device_id, packet_id, payload_len),
{
    let mut buf = WriteMessage::with_capacity(0, 16);
    buf.write_u8(79);
    buf.write_u8(82);
    buf.write_u8(71);
    buf.write_u8(66);
    buf.write_u32(device_id);
    buf.write_u32(packet_id.to_u32());
    buf.write_u32(payload_len);
    let r = buf.into_bytes();
    proof {
        assert(r@ =~= spec_header(device_id, packet_id, payload_len));
    }
    r
}

/// Validates a response header against the request's device id and packet
/// kind, giving the payload length to read next; rejects a wrong magic
/// before anything else, then an unknown or unexpected packet kind, then a
/// wrong device id.
pub fn parse_header(header: &[u8], expected_device: u32, expected_packet: PacketId) -> (r:
    OpenRgbResult<u32>)
    ensures
        match r {
            Ok(n) => spec_parse_header(header@, expected_device, expected_packet) == Ok::<
                u32,
                ProtocolError,
            >(n),
            Err(e) => {
                &&& spec_parse_header(header@, expected_device, expected_packet) matches Err(pe)
                &&& e == OpenRgbError::ProtocolError(pe)
            },
        },
{
    let mut msg = ReceivedMessage::new(header, 0);
    if msg.available_len() < 16 {
        return Err(OpenRgbError::ProtocolError(ProtocolError::Truncated));
    }
    let m0 = match msg.read_u8() {
        Ok(b) => b,
        Err(e) => {
            return Err(e);
        },
    };
    let m1 = match msg.read_u8() {
        Ok(b) => b,
        Err(e) => {
            return Err(e);
        },
    };
    let m2 = match msg.read_u8() {
        Ok(b) => b,
        Err(e) => {
            return Err(e);
        },
    };
    let m3 = match msg.read_u8() {
        Ok(b) => b,
        Err(e) => {
            return Err(e);
        },
    };
    if !(m0 == 79 && m1 == 82 && m2 == 71 && m3 == 66) {
        let got = m0 as u32 + m1 as u32 * 0x100 + m2 as u32 * 0x10000 + m3 as u32 * 0x1000000;
        return Err(OpenRgbError::ProtocolError(ProtocolError::BadMagic { got }));
    }
    let device_id = match msg.read_u32() {
        Ok(v) => v,
        Err(e) => {
            return Err(e);
        },
    };
    let kind_raw = match msg.read_u32() {
        Ok(v) => v,
        Err(e) => {
            return Err(e);
        },
    };
    let kind = match PacketId::from_u32(kind_raw) {
        Ok(k) => k,
        Err(e) => {
            return Err(e);
        },
    };
    if kind.to_u32() != expected_packet.to_u32() {
        return Err(OpenRgbError::ProtocolError(ProtocolError::PacketKindMismatch {
            expected: expected_packet.to_u32(),
            got: kind_raw,
        }));
    }
    if device_id != expected_device {
        return Err(OpenRgbError::ProtocolError(ProtocolError::DeviceIdMismatch {
            expected: expected_device,
            got: device_id,
        }));
    }
    let payload_len = match msg.read_u32() {
        Ok(v) => v,
        Err(e) => {
            return Err(e);
        },
    };
    Ok(payload_len)
}

/// Framing law: the header of a framed message validates against the ids it
/// was built with and hands back exactly the payload length; a header whose
/// packet kind or device id differs from the expected one is rejected with
/// the mismatch, before any payload is looked at.
pub proof fn lemma_frame_header(device_id: u32, packet_id: PacketId, payload: Seq<u8>)
    requires
        payload.len() <= u32::MAX,
    ensures
        spec_parse_header(spec_frame(device_id, packet_id, payload), device_id, packet_id) == Ok::<
            u32,
            ProtocolError,
        >(payload.len() as u32),
        forall|k: PacketId|
            spec_packet_id_to_u32(k) != spec_packet_id_to_u32(packet_id)
                ==> #[trigger] spec_parse_header(
                spec_frame(device_id, packet_id, payload),
                device_id,
                k,
            ) == Err::<u32, ProtocolError>(ProtocolError::PacketKindMismatch {
                expected: spec_packet_id_to_u32(k),
                got: spec_packet_id_to_u32(packet_id),
            }),
        forall|d: u32|
            d != device_id ==> #[trigger] spec_parse_header(
                spec_frame(device_id, packet_id, payload),
                d,
                packet_id,
            ) == Err::<u32, ProtocolError>(ProtocolError::DeviceIdMismatch {
                expected: d,
                got: device_id,
            }),
{
    let frame = spec_frame(device_id, packet_id, payload);
    crate::codec::lemma_le32_round_trip(device_id);
    crate::codec::lemma_le32_round_trip(spec_packet_id_to_u32(packet_id));
    crate::codec::lemma_le32_round_trip(payload.len() as u32);
    assert(le32(frame[4], frame[5], frame[6], frame[7]) == device_id);
    assert(le32(frame[8], frame[9], frame[10], frame[11]) == spec_packet_id_to_u32(packet_id));
    assert(le32(frame[12], frame[13], frame[14], frame[15]) == payload.len() as u32);
    assert(spec_packet_id_from_u32(spec_packet_id_to_u32(packet_id)) == Some(packet_id));
}

/// Framing law, magic side: a header that does not begin with the protocol
/// magic is rejected as such, whatever else it holds.
pub proof fn lemma_bad_magic_rejected(
    bytes: Seq<u8>,
    expected_device: u32,
    expected_packet: PacketId,
)
    requires
        bytes.len() >= 16,
        !(bytes[0] == 79 && bytes[1] == 82 && bytes[2] == 71 && bytes[3] == 66),
    ensures
        spec_parse_header(bytes, expected_device, expected_packet) == Err::<u32, ProtocolError>(
            ProtocolError::BadMagic { got: le32(bytes[0], bytes[1], bytes[2], bytes[3]) },
        ),
{
}

/// A payload wrapper that prefixes the serialized contents with one 32-bit
/// length counting the contents plus the four bytes of the length itself;
/// the length is computed after serialization, never estimated.
pub struct OpenRgbPacket<T: SerToBuf> {
    /// The wrapped payload value.
    pub contents: T,
}

impl<T: SerToBuf> OpenRgbPacket<T> {
    /// Wraps a payload value.
    pub fn new(contents: T) -> (r: OpenRgbPacket<T>)
        ensures
            r.contents == contents,
    {
        OpenRgbPacket { contents }
    }
}

impl<T: SerToBuf> DeepView for OpenRgbPacket<T> {
    type V = T::V;

    open spec fn deep_view(&self) -> T::V {
        self.contents.deep_view()
    }
}

impl<T: SerToBuf> SerToBuf for OpenRgbPacket<T> {
    open spec fn spec_enc(v: T::V, version: u32) -> Seq<u8> {
        le32_bytes((T::spec_enc(v, version).len() + 4) as u32) + T::spec_enc(v, version)
    }

    open spec fn spec_encodable(v: T::V, version: u32) -> bool {
        T::spec_encodable(v, version) && T::spec_enc(v, version).len() + 4 <= u32::MAX
    }

    fn serialize(&self, buf: &mut WriteMessage) -> (r: OpenRgbResult<()>) {
        let mut inner = WriteMessage::new(buf.protocol_version());
        match self.contents.serialize(&mut inner) {
            Ok(()) => {},
            Err(e) => {
                return Err(e);
            },
        }
        if inner.len() > (u32::MAX - 4) as usize {
            return Err(OpenRgbError::ProtocolError(ProtocolError::TooLong { len: inner.len() }));
        }
        buf.write_u32(inner.len() as u32 + 4);
        buf.write_slice(inner.bytes());
        proof {
            assert(buf@ =~= old(buf)@ + Self::spec_enc(self.deep_view(), old(buf).spec_version()));
        }
        Ok(())
    }
}

} // verus!

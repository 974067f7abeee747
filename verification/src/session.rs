//! The protocol session core: version negotiation and, for every wire
//! operation, the exact framed request bytes and the parsing of the matching
//! response payload.
//!
//! The session is deliberately free of I/O: callers write the returned bytes
//! to their stream, read a 16-byte header back, validate it with
//! [`crate::packet::parse_header`], read exactly the announced payload, and
//! hand it to the matching parser here. Each operation that needs a minimum
//! protocol version checks it first and fails with an unsupported-operation
//! error naming the operation, the active and the required version, before
//! any bytes are produced.

use vstd::prelude::*;

use crate::codec::{le32_bytes, DeserFromBuf, ReceivedMessage, SerToBuf, WriteMessage};
use crate::color::Color;
use crate::controller::{ControllerData, ControllerDataV};
use crate::data::PluginData;
use crate::error::{OpenRgbError, OpenRgbResult};
use crate::mode::ModeData;
use crate::packet::{spec_frame, write_header, OpenRgbPacket, PacketId};
use crate::segment::SegmentData;

verus! {

/// The highest protocol version this client speaks; requested at connect
/// time.
pub const DEFAULT_PROTOCOL: u32 = 5;

/// Device id used by messages that target no particular device.
pub const NO_DEVICE_ID: u32 = 0;

/// The framed request bytes of one operation: device id, packet kind, and a
/// payload encoded at the session's protocol version.
pub open spec fn spec_request<T: SerToBuf>(
    version: u32,
    device_id: u32,
    packet_id: PacketId,
    v: T::V,
) -> Seq<u8> {
    spec_frame(device_id, packet_id, T::spec_enc(v, version))
}

/// Whether a payload value fits one framed request at the given version.
pub open spec fn spec_request_ok<T: SerToBuf>(version: u32, v: T::V) -> bool {
    T::spec_encodable(v, version) && T::spec_enc(v, version).len() <= u32::MAX
}

/// One protocol session's decision core: the protocol version negotiated at
/// connect time, threaded through every encode and decode of the session.
pub struct OpenRgbProtocol {
    protocol_id: u32,
}

impl OpenRgbProtocol {
    /// The session's active protocol version.
    pub closed spec fn spec_version(&self) -> u32 {
        self.protocol_id
    }

    /// Adopts the lower of this client's and the server's maximum protocol
    /// version as the session's active version.
    pub fn new(client_max: u32, server_max: u32) -> (r: Self)
        ensures
            r.spec_version() == (if client_max <= server_max {
                client_max
            } else {
                server_max
            }),
    {
        let protocol_id = if client_max <= server_max {
            client_max
        } else {
            server_max
        };
        OpenRgbProtocol { protocol_id }
    }

    /// The session's active protocol version: the lower of this client's and
    /// the server's maximum.
    pub fn get_protocol_version(&self) -> (r: u32)
        ensures
            r == self.spec_version(),
    {
        self.protocol_id
    }

    /// The version-request packet opening a negotiation: it carries the
    /// client's maximum supported version.
    pub fn version_request_packet(client_max: u32) -> (r: Vec<u8>)
        ensures
            r@ == spec_frame(
                NO_DEVICE_ID,
                PacketId::RequestProtocolVersion,
                le32_bytes(client_max),
            ),
    {
        let mut payload = WriteMessage::new(0);
        payload.write_u32(client_max);
        let mut r = write_header(NO_DEVICE_ID, PacketId::RequestProtocolVersion, 4);
        let mut pv = payload.into_bytes();
        r.append(&mut pv);
        proof {
            assert(r@ =~= spec_frame(
                NO_DEVICE_ID,
                PacketId::RequestProtocolVersion,
                le32_bytes(client_max),
            ));
        }
        r
    }

    /// The server's maximum protocol version, from the version response
    /// payload.
    pub fn parse_version_response(payload: &[u8]) -> (r: OpenRgbResult<u32>)
        ensures
            match r {
                Ok(v) => <u32 as DeserFromBuf>::spec_dec(payload@, 0) matches Some(d) && d.0 == v,
                Err(e) => <u32 as DeserFromBuf>::spec_dec(payload@, 0) is None && e.is_protocol(),
            },
    {
        let mut msg = ReceivedMessage::new(payload, 0);
        proof {
            assert(msg.remaining() =~= payload@);
        }
        msg.read_u32()
    }

    /// Builds the framed request for one operation: header, then the payload
    /// encoded at the session's version.
    pub fn packet_bytes<T: SerToBuf>(
        &self,
        device_id: u32,
        packet_id: PacketId,
        data: &T,
    ) -> (r: OpenRgbResult<Vec<u8>>)
        ensures
            r is Ok <==> spec_request_ok::<T>(self.spec_version(), data.deep_view()),
            r matches Ok(b) ==> b@ == spec_request::<T>(
                self.spec_version(),
                device_id,
                packet_id,
                data.deep_view(),
            ),
            r matches Err(e) ==> e.is_protocol(),
    {
        let mut payload = WriteMessage::new(self.protocol_id);
        match data.serialize(&mut payload) {
            Ok(()) => {},
            Err(e) => {
                return Err(e);
            },
        }
        if payload.len() > u32::MAX as usize {
            return Err(OpenRgbError::ProtocolError(crate::error::ProtocolError::TooLong {
                len: payload.len(),
            }));
        }
        let len = payload.len() as u32;
        let mut r = write_header(device_id, packet_id, len);
        let mut pv = payload.into_bytes();
        r.append(&mut pv);
        proof {
            assert(r@ =~= spec_request::<T>(
                self.spec_version(),
                device_id,
                packet_id,
                data.deep_view(),
            ));
        }
        Ok(r)
    }

    /// Refuses an operation that needs a higher protocol version than the
    /// session's, naming the operation and both versions.
    fn check_protocol_version(&self, min: u32, operation: &str) -> (r: OpenRgbResult<()>)
        ensures
            r is Ok <==> self.spec_version() >= min,
            r matches Err(e) ==> e matches OpenRgbError::UnsupportedOperation {
                operation: op,
                current_protocol_version,
                min_protocol_version,
            } && op@ == operation@ && current_protocol_version == self.spec_version()
                && min_protocol_version == min,
    {
        if self.protocol_id < min {
            return Err(OpenRgbError::UnsupportedOperation {
                operation: operation.to_owned(),
                current_protocol_version: self.protocol_id,
                min_protocol_version: min,
            });
        }
        Ok(())
    }

    /// The packet that sets this client's display name on the server; the name travels as a bare NUL-terminated string.
    pub fn set_name_packet(&self, name: &str) -> (r: OpenRgbResult<Vec<u8>>)
        ensures
            r is Ok <==> spec_request_ok::<crate::text::RawString>(self.spec_version(), name@),
            r matches Ok(b) ==> b@ == spec_request::<crate::text::RawString>(
                self.spec_version(),
                NO_DEVICE_ID,
                PacketId::SetClientName,
                name@,
            ),
            r matches Err(e) ==> e.is_protocol(),
    {
        let payload = crate::text::RawString(name);
        self.packet_bytes(NO_DEVICE_ID, PacketId::SetClientName, &payload)
    }

    /// The request for the number of controllers the server exposes.
    pub fn get_controller_count_request(&self) -> (r: OpenRgbResult<Vec<u8>>)
        ensures
            r is Ok <==> spec_request_ok::<()>(self.spec_version(), ()),
            r matches Ok(b) ==> b@ == spec_request::<()>(
                self.spec_version(),
                NO_DEVICE_ID,
                PacketId::RequestControllerCount,
                (),
            ),
            r matches Err(e) ==> e.is_protocol(),
    {
        let payload = ();
        self.packet_bytes(NO_DEVICE_ID, PacketId::RequestControllerCount, &payload)
    }

    /// The request for one controller's full data snapshot; the payload names the protocol version the reply must be encoded at.
    pub fn get_controller_request(&self, controller_id: u32) -> (r: OpenRgbResult<Vec<u8>>)
        ensures
            r is Ok <==> spec_request_ok::<u32>(self.spec_version(), self.spec_version()),
            r matches Ok(b) ==> b@ == spec_request::<u32>(
                self.spec_version(),
                controller_id,
                PacketId::RequestControllerData,
                self.spec_version(),
            ),
            r matches Err(e) ==> e.is_protocol(),
    {
        let payload = self.protocol_id;
        self.packet_bytes(controller_id, PacketId::RequestControllerData, &payload)
    }

    /// The packet that resizes a zone to a new LED count.
    pub fn resize_zone_packet(&self, controller_id: u32, zone_id: u32, new_size: u32) -> (r: OpenRgbResult<Vec<u8>>)
        ensures
            r is Ok <==> spec_request_ok::<(u32, u32)>(self.spec_version(), (zone_id, new_size)),
            r matches Ok(b) ==> b@ == spec_request::<(u32, u32)>(
                self.spec_version(),
                controller_id,
                PacketId::RGBControllerResizeZone,
                (zone_id, new_size),
            ),
            r matches Err(e) ==> e.is_protocol(),
    {
        let payload = (zone_id, new_size);
        self.packet_bytes(controller_id, PacketId::RGBControllerResizeZone, &payload)
    }

    /// The packet that sets a single LED of a controller to a color.
    pub fn update_led_packet(&self, controller_id: u32, led_id: i32, color: &Color) -> (r: OpenRgbResult<Vec<u8>>)
        ensures
            r is Ok <==> spec_request_ok::<(i32, Color)>(self.spec_version(), (led_id, *color)),
            r matches Ok(b) ==> b@ == spec_request::<(i32, Color)>(
                self.spec_version(),
                controller_id,
                PacketId::RGBControllerUpdateSingleLed,
                (led_id, *color),
            ),
            r matches Err(e) ==> e.is_protocol(),
    {
        let payload = (led_id, *color);
        self.packet_bytes(controller_id, PacketId::RGBControllerUpdateSingleLed, &payload)
    }

    /// The packet that sets all LEDs of a controller at once; its payload carries the inner length field.
    pub fn update_leds_packet(&self, controller_id: u32, colors: &Vec<Color>) -> (r: OpenRgbResult<Vec<u8>>)
        ensures
            r is Ok <==> spec_request_ok::<OpenRgbPacket<&Vec<Color>>>(self.spec_version(), colors.deep_view()),
            r matches Ok(b) ==> b@ == spec_request::<OpenRgbPacket<&Vec<Color>>>(
                self.spec_version(),
                controller_id,
                PacketId::RGBControllerUpdateLeds,
                colors.deep_view(),
            ),
            r matches Err(e) ==> e.is_protocol(),
    {
        let payload = OpenRgbPacket::new(colors);
        self.packet_bytes(controller_id, PacketId::RGBControllerUpdateLeds, &payload)
    }

    /// The packet that sets all LEDs of one zone; its payload carries the inner length field.
    pub fn update_zone_leds_packet(&self, controller_id: u32, zone_id: u32, colors: &Vec<Color>) -> (r: OpenRgbResult<Vec<u8>>)
        ensures
            r is Ok <==> spec_request_ok::<OpenRgbPacket<(u32, &Vec<Color>)>>(self.spec_version(), (zone_id, colors.deep_view())),
            r matches Ok(b) ==> b@ == spec_request::<OpenRgbPacket<(u32, &Vec<Color>)>>(
                self.spec_version(),
                controller_id,
                PacketId::RGBControllerUpdateZoneLeds,
                (zone_id, colors.deep_view()),
            ),
            r matches Err(e) ==> e.is_protocol(),
    {
        let payload = OpenRgbPacket::new((zone_id, colors));
        self.packet_bytes(controller_id, PacketId::RGBControllerUpdateZoneLeds, &payload)
    }

    /// The packet that sets a controller's active mode and applies its parameters; its payload carries the inner length field.
    pub fn update_mode_packet(&self, controller_id: u32, mode: &ModeData) -> (r: OpenRgbResult<Vec<u8>>)
        ensures
            r is Ok <==> spec_request_ok::<OpenRgbPacket<(u32, &ModeData)>>(self.spec_version(), (mode.deep_view().id, mode.deep_view())),
            r matches Ok(b) ==> b@ == spec_request::<OpenRgbPacket<(u32, &ModeData)>>(
                self.spec_version(),
                controller_id,
                PacketId::RGBControllerUpdateMode,
                (mode.deep_view().id, mode.deep_view()),
            ),
            r matches Err(e) ==> e.is_protocol(),
    {
        let mode_id = mode.id() as u32;
        let payload = OpenRgbPacket::new((mode_id, mode));
        self.packet_bytes(controller_id, PacketId::RGBControllerUpdateMode, &payload)
    }

    /// The packet that saves a mode to the device's own memory; needs protocol version 3.
    pub fn save_mode_packet(&self, controller_id: u32, mode: &ModeData) -> (r: OpenRgbResult<Vec<u8>>)
        ensures
            self.spec_version() < 3 ==> (r matches Err(e) && e matches OpenRgbError::UnsupportedOperation {
                operation: op,
                current_protocol_version,
                min_protocol_version,
            } && op@ == "Save mode"@ && current_protocol_version == self.spec_version()
                && min_protocol_version == 3),
            self.spec_version() >= 3 ==> {
                &&& r is Ok <==> spec_request_ok::<OpenRgbPacket<(u32, &ModeData)>>(self.spec_version(), (mode.deep_view().id, mode.deep_view()))
                &&& r matches Ok(b) ==> b@ == spec_request::<OpenRgbPacket<(u32, &ModeData)>>(
                    self.spec_version(),
                    controller_id,
                    PacketId::RGBControllerSaveMode,
                    (mode.deep_view().id, mode.deep_view()),
                )
            },
    {
        match self.check_protocol_version(3, "Save mode") {
            Ok(()) => {},
            Err(e) => {
                return Err(e);
            },
        }
        let mode_id = mode.id() as u32;
        let payload = OpenRgbPacket::new((mode_id, mode));
        self.packet_bytes(controller_id, PacketId::RGBControllerSaveMode, &payload)
    }

    /// The request for the server's profile list; needs protocol version 2.
    pub fn get_profiles_request(&self) -> (r: OpenRgbResult<Vec<u8>>)
        ensures
            self.spec_version() < 2 ==> (r matches Err(e) && e matches OpenRgbError::UnsupportedOperation {
                operation: op,
                current_protocol_version,
                min_protocol_version,
            } && op@ == "Get profiles"@ && current_protocol_version == self.spec_version()
                && min_protocol_version == 2),
            self.spec_version() >= 2 ==> {
                &&& r is Ok <==> spec_request_ok::<()>(self.spec_version(), ())
                &&& r matches Ok(b) ==> b@ == spec_request::<()>(
                    self.spec_version(),
                    NO_DEVICE_ID,
                    PacketId::RequestProfileList,
                    (),
                )
            },
    {
        match self.check_protocol_version(2, "Get profiles") {
            Ok(()) => {},
            Err(e) => {
                return Err(e);
            },
        }
        let payload = ();
        self.packet_bytes(NO_DEVICE_ID, PacketId::RequestProfileList, &payload)
    }

    /// The packet that loads a named profile; needs protocol version 2. The name travels as a bare NUL-terminated string.
    pub fn load_profile_packet(&self, name: &str) -> (r: OpenRgbResult<Vec<u8>>)
        ensures
            self.spec_version() < 2 ==> (r matches Err(e) && e matches OpenRgbError::UnsupportedOperation {
                operation: op,
                current_protocol_version,
                min_protocol_version,
            } && op@ == "Load profiles"@ && current_protocol_version == self.spec_version()
                && min_protocol_version == 2),
            self.spec_version() >= 2 ==> {
                &&& r is Ok <==> spec_request_ok::<crate::text::RawString>(self.spec_version(), name@)
                &&& r matches Ok(b) ==> b@ == spec_request::<crate::text::RawString>(
                    self.spec_version(),
                    NO_DEVICE_ID,
                    PacketId::RequestLoadProfile,
                    name@,
                )
            },
    {
        match self.check_protocol_version(2, "Load profiles") {
            Ok(()) => {},
            Err(e) => {
                return Err(e);
            },
        }
        let payload = crate::text::RawString(name);
        self.packet_bytes(NO_DEVICE_ID, PacketId::RequestLoadProfile, &payload)
    }

    /// The packet that saves the current configuration under a profile name; needs protocol version 2. The name travels length-prefixed.
    pub fn save_profile_packet(&self, name: &str) -> (r: OpenRgbResult<Vec<u8>>)
        ensures
            self.spec_version() < 2 ==> (r matches Err(e) && e matches OpenRgbError::UnsupportedOperation {
                operation: op,
                current_protocol_version,
                min_protocol_version,
            } && op@ == "Save profiles"@ && current_protocol_version == self.spec_version()
                && min_protocol_version == 2),
            self.spec_version() >= 2 ==> {
                &&& r is Ok <==> spec_request_ok::<&str>(self.spec_version(), name@)
                &&& r matches Ok(b) ==> b@ == spec_request::<&str>(
                    self.spec_version(),
                    NO_DEVICE_ID,
                    PacketId::RequestSaveProfile,
                    name@,
                )
            },
    {
        match self.check_protocol_version(2, "Save profiles") {
            Ok(()) => {},
            Err(e) => {
                return Err(e);
            },
        }
        let payload = name;
        self.packet_bytes(NO_DEVICE_ID, PacketId::RequestSaveProfile, &payload)
    }

    /// The packet that deletes a named profile; needs protocol version 2. The name travels length-prefixed.
    pub fn delete_profile_packet(&self, name: &str) -> (r: OpenRgbResult<Vec<u8>>)
        ensures
            self.spec_version() < 2 ==> (r matches Err(e) && e matches OpenRgbError::UnsupportedOperation {
                operation: op,
                current_protocol_version,
                min_protocol_version,
            } && op@ == "Delete profiles"@ && current_protocol_version == self.spec_version()
                && min_protocol_version == 2),
            self.spec_version() >= 2 ==> {
                &&& r is Ok <==> spec_request_ok::<&str>(self.spec_version(), name@)
                &&& r matches Ok(b) ==> b@ == spec_request::<&str>(
                    self.spec_version(),
                    NO_DEVICE_ID,
                    PacketId::RequestDeleteProfile,
                    name@,
                )
            },
    {
        match self.check_protocol_version(2, "Delete profiles") {
            Ok(()) => {},
            Err(e) => {
                return Err(e);
            },
        }
        let payload = name;
        self.packet_bytes(NO_DEVICE_ID, PacketId::RequestDeleteProfile, &payload)
    }

    /// The request for the list of installed plugins; needs protocol version 4.
    pub fn get_plugins_request(&self) -> (r: OpenRgbResult<Vec<u8>>)
        ensures
            self.spec_version() < 4 ==> (r matches Err(e) && e matches OpenRgbError::UnsupportedOperation {
                operation: op,
                current_protocol_version,
                min_protocol_version,
            } && op@ == "Request Plugin List"@ && current_protocol_version == self.spec_version()
                && min_protocol_version == 4),
            self.spec_version() >= 4 ==> {
                &&& r is Ok <==> spec_request_ok::<()>(self.spec_version(), ())
                &&& r matches Ok(b) ==> b@ == spec_request::<()>(
                    self.spec_version(),
                    NO_DEVICE_ID,
                    PacketId::RequestPluginList,
                    (),
                )
            },
    {
        match self.check_protocol_version(4, "Request Plugin List") {
            Ok(()) => {},
            Err(e) => {
                return Err(e);
            },
        }
        let payload = ();
        self.packet_bytes(NO_DEVICE_ID, PacketId::RequestPluginList, &payload)
    }

    /// The packet that adds a segment to a zone; needs protocol version 5. Its payload carries the inner length field.
    pub fn add_segment_packet(&self, controller_id: u32, zone_id: u32, segment: &SegmentData) -> (r: OpenRgbResult<Vec<u8>>)
        ensures
            self.spec_version() < 5 ==> (r matches Err(e) && e matches OpenRgbError::UnsupportedOperation {
                operation: op,
                current_protocol_version,
                min_protocol_version,
            } && op@ == "Add Segment"@ && current_protocol_version == self.spec_version()
                && min_protocol_version == 5),
            self.spec_version() >= 5 ==> {
                &&& r is Ok <==> spec_request_ok::<OpenRgbPacket<(u32, &SegmentData)>>(self.spec_version(), (zone_id, segment.deep_view()))
                &&& r matches Ok(b) ==> b@ == spec_request::<OpenRgbPacket<(u32, &SegmentData)>>(
                    self.spec_version(),
                    controller_id,
                    PacketId::RGBControllerAddSegment,
                    (zone_id, segment.deep_view()),
                )
            },
    {
        match self.check_protocol_version(5, "Add Segment") {
            Ok(()) => {},
            Err(e) => {
                return Err(e);
            },
        }
        let payload = OpenRgbPacket::new((zone_id, segment));
        self.packet_bytes(controller_id, PacketId::RGBControllerAddSegment, &payload)
    }

    /// The packet that clears all segments of a controller; needs protocol version 5.
    pub fn clear_segments_packet(&self, controller_id: u32) -> (r: OpenRgbResult<Vec<u8>>)
        ensures
            self.spec_version() < 5 ==> (r matches Err(e) && e matches OpenRgbError::UnsupportedOperation {
                operation: op,
                current_protocol_version,
                min_protocol_version,
            } && op@ == "Clear segment"@ && current_protocol_version == self.spec_version()
                && min_protocol_version == 5),
            self.spec_version() >= 5 ==> {
                &&& r is Ok <==> spec_request_ok::<()>(self.spec_version(), ())
                &&& r matches Ok(b) ==> b@ == spec_request::<()>(
                    self.spec_version(),
                    controller_id,
                    PacketId::RgbControllerClearSegments,
                    (),
                )
            },
    {
        match self.check_protocol_version(5, "Clear segment") {
            Ok(()) => {},
            Err(e) => {
                return Err(e);
            },
        }
        let payload = ();
        self.packet_bytes(controller_id, PacketId::RgbControllerClearSegments, &payload)
    }

    /// The packet that asks the server to rescan its devices; needs protocol version 5.
    pub fn rescan_devices_packet(&self) -> (r: OpenRgbResult<Vec<u8>>)
        ensures
            self.spec_version() < 5 ==> (r matches Err(e) && e matches OpenRgbError::UnsupportedOperation {
                operation: op,
                current_protocol_version,
                min_protocol_version,
            } && op@ == "Rescan devices"@ && current_protocol_version == self.spec_version()
                && min_protocol_version == 5),
            self.spec_version() >= 5 ==> {
                &&& r is Ok <==> spec_request_ok::<()>(self.spec_version(), ())
                &&& r matches Ok(b) ==> b@ == spec_request::<()>(
                    self.spec_version(),
                    NO_DEVICE_ID,
                    PacketId::RequestDeviceRescan,
                    (),
                )
            },
    {
        match self.check_protocol_version(5, "Rescan devices") {
            Ok(()) => {},
            Err(e) => {
                return Err(e);
            },
        }
        let payload = ();
        self.packet_bytes(NO_DEVICE_ID, PacketId::RequestDeviceRescan, &payload)
    }

    /// The framed bytes of a plugin-specific command, addressed by plugin
    /// id; needs protocol version 4.
    pub fn plugin_specific_packet<I: SerToBuf>(&self, plugin_id: u32, data: &I) -> (r:
        OpenRgbResult<Vec<u8>>)
        ensures
            self.spec_version() < 4 ==> (r matches Err(e) && e matches OpenRgbError::UnsupportedOperation {
                operation: op,
                current_protocol_version,
                min_protocol_version,
            } && op@ == "Plugin Specific Command"@ && current_protocol_version == self.spec_version()
                && min_protocol_version == 4),
            self.spec_version() >= 4 ==> {
                &&& r is Ok <==> spec_request_ok::<I>(self.spec_version(), data.deep_view())
                &&& r matches Ok(b) ==> b@ == spec_request::<I>(
                    self.spec_version(),
                    plugin_id,
                    PacketId::PluginSpecific,
                    data.deep_view(),
                )
            },
    {
        match self.check_protocol_version(4, "Plugin Specific Command") {
            Ok(()) => {},
            Err(e) => {
                return Err(e);
            },
        }
        self.packet_bytes(plugin_id, PacketId::PluginSpecific, data)
    }

    /// The controller count, from the controller-count response payload.
    pub fn parse_controller_count_response(&self, payload: &[u8]) -> (r: OpenRgbResult<u32>)
        ensures
            match r {
                Ok(v) => <u32 as DeserFromBuf>::spec_dec(payload@, self.spec_version())
                    matches Some(d) && d.0 == v,
                Err(e) => {
                    &&& <u32 as DeserFromBuf>::spec_dec(payload@, self.spec_version()) is None
                    &&& e.is_protocol()
                },
            },
    {
        let mut msg = ReceivedMessage::new(payload, self.protocol_id);
        proof {
            assert(msg.remaining() =~= payload@);
        }
        msg.read_u32()
    }

    /// One controller's data, decoded from a controller-data response
    /// payload at the session's version, with the requested id assigned —
    /// the id is not part of the wire payload.
    #[verifier::rlimit(100)]
    #[verifier::spinoff_prover]
    pub fn parse_controller_response(&self, controller_id: u32, payload: &[u8]) -> (r:
        OpenRgbResult<ControllerData>)
        ensures
            match r {
                Ok(c) => <ControllerData as DeserFromBuf>::spec_dec(payload@, self.spec_version())
                    matches Some(d) && c.deep_view() == (ControllerDataV {
                    id: controller_id,
                    ..d.0
                }),
                Err(e) => {
                    &&& <ControllerData as DeserFromBuf>::spec_dec(
                        payload@,
                        self.spec_version(),
                    ) is None
                    &&& e.is_protocol()
                },
            },
    {
        let mut msg = ReceivedMessage::new(payload, self.protocol_id);
        proof {
            assert(msg.remaining() =~= payload@);
        }
        let mut c = match msg.read_value::<ControllerData>() {
            Ok(c) => c,
            Err(e) => {
                return Err(e);
            },
        };
        c.set_id(controller_id);
        Ok(c)
    }

    /// The profile names, from a profile-list response payload: a data size
    /// then the list of names.
    #[verifier::rlimit(100)]
    #[verifier::spinoff_prover]
    pub fn parse_profiles_response(&self, payload: &[u8]) -> (r: OpenRgbResult<Vec<String>>)
        ensures
            match r {
                Ok(v) => <(u32, Vec<String>) as DeserFromBuf>::spec_dec(
                    payload@,
                    self.spec_version(),
                ) matches Some(d) && v.deep_view() == d.0.1,
                Err(e) => {
                    &&& <(u32, Vec<String>) as DeserFromBuf>::spec_dec(
                        payload@,
                        self.spec_version(),
                    ) is None
                    &&& e.is_protocol()
                },
            },
    {
        let mut msg = ReceivedMessage::new(payload, self.protocol_id);
        proof {
            assert(msg.remaining() =~= payload@);
        }
        let t = match msg.read_value::<(u32, Vec<String>)>() {
            Ok(t) => t,
            Err(e) => {
                return Err(e);
            },
        };
        proof {
            assert(t.deep_view().1 == t.1.deep_view());
        }
        let (_size, profiles) = t;
        Ok(profiles)
    }

    /// The plugin entries, from a plugin-list response payload: a data size
    /// then the list of plugins.
    #[verifier::rlimit(100)]
    #[verifier::spinoff_prover]
    pub fn parse_plugins_response(&self, payload: &[u8]) -> (r: OpenRgbResult<Vec<PluginData>>)
        ensures
            match r {
                Ok(v) => <(u32, Vec<PluginData>) as DeserFromBuf>::spec_dec(
                    payload@,
                    self.spec_version(),
                ) matches Some(d) && v.deep_view() == d.0.1,
                Err(e) => {
                    &&& <(u32, Vec<PluginData>) as DeserFromBuf>::spec_dec(
                        payload@,
                        self.spec_version(),
                    ) is None
                    &&& e.is_protocol()
                },
            },
    {
        let mut msg = ReceivedMessage::new(payload, self.protocol_id);
        proof {
            assert(msg.remaining() =~= payload@);
        }
        let t = match msg.read_value::<(u32, Vec<PluginData>)>() {
            Ok(t) => t,
            Err(e) => {
                return Err(e);
            },
        };
        proof {
            assert(t.deep_view().1 == t.1.deep_view());
        }
        let (_size, plugins) = t;
        Ok(plugins)
    }
}

} // verus!

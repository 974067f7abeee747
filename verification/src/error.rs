//! Error types for the OpenRGB protocol core.
//!
//! Every failure is a typed value: wire-level faults ([`ProtocolError`]),
//! caller mistakes ([`CommandError`]), transport faults, and operations
//! refused because the negotiated protocol version is too low.

use vstd::prelude::*;

verus! {

/// Type alias for `Result<T, OpenRgbError>`.
pub type OpenRgbResult<T> = Result<T, OpenRgbError>;

/// The closed enumeration a wire discriminant was being decoded into when it
/// failed to match any variant.
#[derive(Clone, Copy, Debug, PartialEq, Eq, Structural)]
pub enum WireEnum {
    /// Packet kind discriminant in a message header.
    PacketKind,
    /// Device type of a controller.
    DeviceType,
    /// Zone type of a zone or segment.
    ZoneType,
    /// Color mode of a mode.
    ColorMode,
    /// Direction of a mode.
    Direction,
}

/// The flag set a wire bit pattern was being decoded into when it contained
/// bits outside the set's known flags.
#[derive(Clone, Copy, Debug, PartialEq, Eq, Structural)]
pub enum WireFlags {
    /// Capability flags of a mode.
    ModeFlags,
    /// Flags of a zone.
    ZoneFlags,
    /// Flags of a controller.
    ControllerFlags,
}

/// Malformed or unexpected bytes encountered while encoding or decoding,
/// distinct from transport faults: the link works but the data is wrong.
#[derive(Clone, Copy, Debug, PartialEq, Eq, Structural)]
pub enum ProtocolError {
    /// The buffer ended before the value was fully decoded.
    Truncated,
    /// A framed message did not begin with the protocol magic.
    BadMagic {
        /// The four bytes found where the magic was expected, read as one
        /// little-endian 32-bit word.
        got: u32,
    },
    /// A decoded string was not valid UTF-8.
    InvalidUtf8,
    /// An integer on the wire matched no variant of a closed enumeration.
    UnknownDiscriminant {
        /// The enumeration being decoded.
        kind: WireEnum,
        /// The integer that matched no variant.
        value: u32,
    },
    /// A 32-bit flag word contained bits outside the known flags.
    InvalidFlagBits {
        /// The flag set being decoded.
        kind: WireFlags,
        /// The word that held the unknown bits.
        value: u32,
    },
    /// A response header carried a packet kind other than the request's.
    PacketKindMismatch {
        /// Packet kind of the request.
        expected: u32,
        /// Packet kind found in the response header.
        got: u32,
    },
    /// A response header carried a device id other than the request's.
    DeviceIdMismatch {
        /// Device id of the request.
        expected: u32,
        /// Device id found in the response header.
        got: u32,
    },
    /// Segment data is only on the wire from protocol version 4.
    SegmentsUnsupported {
        /// The active protocol version that is too low.
        version: u32,
    },
    /// A sequence or string is too long for its 16-bit length prefix, or a
    /// payload is too long for the 32-bit header length field.
    TooLong {
        /// The length that does not fit.
        len: usize,
    },
    /// No mode of a controller is controllable (named direct, custom or
    /// static).
    NoControllableMode,
    /// The sum of a controller's zone LED counts does not fit the machine's
    /// index type.
    LedCountOverflow,
}

/// A caller mistake caught by the session or batching layer, not a server
/// fault.
#[derive(Clone, Copy, Debug, PartialEq, Eq, Structural)]
pub enum CommandError {
    /// A zone id at or beyond the controller's zone count.
    ZoneNotFound {
        /// The offending zone id.
        zone_id: usize,
    },
    /// A segment id at or beyond the zone's segment count.
    SegmentNotFound {
        /// Zone the segment was looked up in.
        zone_id: usize,
        /// The offending segment id.
        segment_id: usize,
    },
    /// Segment data is absent because the active protocol version is below 4.
    SegmentsUnsupported,
    /// A controller id not present in the group.
    ControllerNotFound {
        /// The offending controller id.
        controller_id: usize,
    },
    /// The controller reports no active mode.
    NoActiveMode,
    /// The active mode does not have the manual-save capability.
    ModeNotSavable,
    /// A new segment's range does not fit inside its zone.
    SegmentRange {
        /// First LED of the new segment, relative to the zone.
        start_idx: usize,
        /// LED count of the new segment.
        led_count: usize,
        /// LED count of the zone.
        zone_leds: usize,
    },
    /// A single-LED index at or beyond the zone's or segment's LED count.
    LedOutOfBounds {
        /// The offending LED index.
        index: usize,
        /// Number of LEDs in the target.
        num_leds: usize,
    },
    /// The group holds no controllers.
    EmptyGroup,
}

/// Errors returned by the OpenRGB protocol core and its callers.
#[derive(Clone, Debug, PartialEq, Eq)]
pub enum OpenRgbError {
    /// Failed opening a connection to the OpenRGB server.
    ConnectionError {
        /// Address of the server the connection was attempted to.
        addr: String,
        /// Description of the underlying I/O failure.
        message: String,
    },
    /// I/O failure on an established session.
    CommunicationError {
        /// Description of the underlying I/O failure.
        message: String,
    },
    /// Malformed or unexpected bytes while talking to the server.
    ProtocolError(ProtocolError),
    /// The operation needs a higher protocol version than the session's.
    UnsupportedOperation {
        /// Name of the refused operation.
        operation: String,
        /// Protocol version negotiated for the session.
        current_protocol_version: u32,
        /// Minimum protocol version the operation needs.
        min_protocol_version: u32,
    },
    /// The caller passed invalid parameters.
    CommandError(CommandError),
}

impl OpenRgbError {
    /// True of wire-level faults: the link works but the data is wrong.
    pub open spec fn is_protocol(&self) -> bool {
        self is ProtocolError
    }

    /// True of caller mistakes caught before any I/O.
    pub open spec fn is_command(&self) -> bool {
        self is CommandError
    }
}

} // verus!

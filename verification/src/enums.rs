//! The closed enumerations of the wire protocol, each carried as a 32-bit
//! little-endian discriminant. Decoding an integer with no matching variant
//! fails with a protocol error naming the value and the enumeration.

use vstd::prelude::*;

use crate::codec::{
    le32, le32_bytes, DeserFromBuf, ReceivedMessage, RoundTrip, SerToBuf, WriteMessage,
};
use crate::error::{OpenRgbError, OpenRgbResult, ProtocolError, WireEnum};

verus! {

/// RGB controller device type.
#[derive(Clone, Copy, Debug, PartialEq, Eq, Structural, Hash)]
pub enum DeviceType {
    /// Motherboard.
    Motherboard,
    /// DRAM.
    DRam,
    /// GPU.
    Gpu,
    /// Cooler.
    Cooler,
    /// LED strip.
    LEDStrip,
    /// Keyboard.
    Keyboard,
    /// Mouse.
    Mouse,
    /// Mouse mat.
    MouseMat,
    /// Headset.
    Headset,
    /// Headset stand.
    HeadsetStand,
    /// Gamepad.
    Gamepad,
    /// Light.
    Light,
    /// Speaker.
    Speaker,
    /// Virtual device.
    Virtual,
    /// Unknown device.
    Unknown,
}

/// The wire discriminant of a [`DeviceType`].
pub open spec fn spec_device_type_to_u32(v: DeviceType) -> u32 {
    match v {
        DeviceType::Motherboard => 0,
        DeviceType::DRam => 1,
        DeviceType::Gpu => 2,
        DeviceType::Cooler => 3,
        DeviceType::LEDStrip => 4,
        DeviceType::Keyboard => 5,
        DeviceType::Mouse => 6,
        DeviceType::MouseMat => 7,
        DeviceType::Headset => 8,
        DeviceType::HeadsetStand => 9,
        DeviceType::Gamepad => 10,
        DeviceType::Light => 11,
        DeviceType::Speaker => 12,
        DeviceType::Virtual => 13,
        DeviceType::Unknown => 14,
    }
}

/// The [`DeviceType`] a wire discriminant stands for, if any.
pub open spec fn spec_device_type_from_u32(value: u32) -> Option<DeviceType> {
    if value == 0 {
        Some(DeviceType::Motherboard)
    } else
    if value == 1 {
        Some(DeviceType::DRam)
    } else
    if value == 2 {
        Some(DeviceType::Gpu)
    } else
    if value == 3 {
        Some(DeviceType::Cooler)
    } else
    if value == 4 {
        Some(DeviceType::LEDStrip)
    } else
    if value == 5 {
        Some(DeviceType::Keyboard)
    } else
    if value == 6 {
        Some(DeviceType::Mouse)
    } else
    if value == 7 {
        Some(DeviceType::MouseMat)
    } else
    if value == 8 {
        Some(DeviceType::Headset)
    } else
    if value == 9 {
        Some(DeviceType::HeadsetStand)
    } else
    if value == 10 {
        Some(DeviceType::Gamepad)
    } else
    if value == 11 {
        Some(DeviceType::Light)
    } else
    if value == 12 {
        Some(DeviceType::Speaker)
    } else
    if value == 13 {
        Some(DeviceType::Virtual)
    } else
    if value == 14 {
        Some(DeviceType::Unknown)
    } else {
        None
    }
}

impl DeviceType {
    /// The wire discriminant of this value.
    pub fn to_u32(self) -> (r: u32)
        ensures
            r == spec_device_type_to_u32(self),
    {
        match self {
            DeviceType::Motherboard => 0,
            DeviceType::DRam => 1,
            DeviceType::Gpu => 2,
            DeviceType::Cooler => 3,
            DeviceType::LEDStrip => 4,
            DeviceType::Keyboard => 5,
            DeviceType::Mouse => 6,
            DeviceType::MouseMat => 7,
            DeviceType::Headset => 8,
            DeviceType::HeadsetStand => 9,
            DeviceType::Gamepad => 10,
            DeviceType::Light => 11,
            DeviceType::Speaker => 12,
            DeviceType::Virtual => 13,
            DeviceType::Unknown => 14,
        }
    }

    /// The value of a wire discriminant; an integer matching no variant
    /// is a protocol error naming the integer and the enumeration.
    pub fn from_u32(value: u32) -> (r: OpenRgbResult<DeviceType>)
        ensures
            r matches Ok(v) ==> spec_device_type_from_u32(value) == Some(v),
            r matches Err(e) ==> {
                &&& spec_device_type_from_u32(value) is None
                &&& e == OpenRgbError::ProtocolError(ProtocolError::UnknownDiscriminant {
                    kind: WireEnum::DeviceType,
                    value,
                })
            },
    {
        match value {
            0 => Ok(DeviceType::Motherboard),
            1 => Ok(DeviceType::DRam),
            2 => Ok(DeviceType::Gpu),
            3 => Ok(DeviceType::Cooler),
            4 => Ok(DeviceType::LEDStrip),
            5 => Ok(DeviceType::Keyboard),
            6 => Ok(DeviceType::Mouse),
            7 => Ok(DeviceType::MouseMat),
            8 => Ok(DeviceType::Headset),
            9 => Ok(DeviceType::HeadsetStand),
            10 => Ok(DeviceType::Gamepad),
            11 => Ok(DeviceType::Light),
            12 => Ok(DeviceType::Speaker),
            13 => Ok(DeviceType::Virtual),
            14 => Ok(DeviceType::Unknown),
            _ => Err(OpenRgbError::ProtocolError(ProtocolError::UnknownDiscriminant {
                kind: WireEnum::DeviceType,
                value,
            })),
        }
    }
}

impl DeepView for DeviceType {
    type V = DeviceType;

    open spec fn deep_view(&self) -> DeviceType {
        *self
    }
}

impl SerToBuf for DeviceType {
    open spec fn spec_enc(v: DeviceType, version: u32) -> Seq<u8> {
        le32_bytes(spec_device_type_to_u32(v))
    }

    open spec fn spec_encodable(v: DeviceType, version: u32) -> bool {
        true
    }

    fn serialize(&self, buf: &mut WriteMessage) -> (r: OpenRgbResult<()>) {
        buf.write_u32(self.to_u32());
        Ok(())
    }
}

impl DeserFromBuf for DeviceType {
    open spec fn spec_dec(bytes: Seq<u8>, version: u32) -> Option<(DeviceType, int)> {
        if bytes.len() >= 4 {
            match spec_device_type_from_u32(le32(bytes[0], bytes[1], bytes[2], bytes[3])) {
                Some(v) => Some((v, 4)),
                None => None,
            }
        } else {
            None
        }
    }

    proof fn lemma_dec_len(bytes: Seq<u8>, version: u32) {
    }

    proof fn lemma_dec_extend(bytes: Seq<u8>, bytes2: Seq<u8>, version: u32) {
        assert forall|i: int| 0 <= i < bytes.len() implies bytes2[i] == bytes[i] by {
            assert(bytes[i] == bytes2.take(bytes.len() as int)[i]);
        }
    }

    fn deserialize(buf: &mut ReceivedMessage<'_>) -> (r: OpenRgbResult<DeviceType>) {
        let raw = match buf.read_u32() {
            Ok(v) => v,
            Err(e) => {
                return Err(e);
            },
        };
        DeviceType::from_u32(raw)
    }
}

impl RoundTrip for DeviceType {
    open spec fn spec_canonical(v: DeviceType, version: u32) -> bool {
        true
    }

    proof fn lemma_round_trip(v: DeviceType, version: u32, rest: Seq<u8>) {
        crate::codec::lemma_le32_round_trip(spec_device_type_to_u32(v));
    }
}

/// Type of a zone or segment.
#[derive(Clone, Copy, Debug, PartialEq, Eq, Structural)]
pub enum ZoneType {
    /// Single-LED zone.
    Single,
    /// Linear zone.
    Linear,
    /// Matrix zone, with a 2D LED position map.
    Matrix,
}

/// The wire discriminant of a [`ZoneType`].
pub open spec fn spec_zone_type_to_u32(v: ZoneType) -> u32 {
    match v {
        ZoneType::Single => 0,
        ZoneType::Linear => 1,
        ZoneType::Matrix => 2,
    }
}

/// The [`ZoneType`] a wire discriminant stands for, if any.
pub open spec fn spec_zone_type_from_u32(value: u32) -> Option<ZoneType> {
    if value == 0 {
        Some(ZoneType::Single)
    } else
    if value == 1 {
        Some(ZoneType::Linear)
    } else
    if value == 2 {
        Some(ZoneType::Matrix)
    } else {
        None
    }
}

impl ZoneType {
    /// The wire discriminant of this value.
    pub fn to_u32(self) -> (r: u32)
        ensures
            r == spec_zone_type_to_u32(self),
    {
        match self {
            ZoneType::Single => 0,
            ZoneType::Linear => 1,
            ZoneType::Matrix => 2,
        }
    }

    /// The value of a wire discriminant; an integer matching no variant
    /// is a protocol error naming the integer and the enumeration.
    pub fn from_u32(value: u32) -> (r: OpenRgbResult<ZoneType>)
        ensures
            r matches Ok(v) ==> spec_zone_type_from_u32(value) == Some(v),
            r matches Err(e) ==> {
                &&& spec_zone_type_from_u32(value) is None
                &&& e == OpenRgbError::ProtocolError(ProtocolError::UnknownDiscriminant {
                    kind: WireEnum::ZoneType,
                    value,
                })
            },
    {
        match value {
            0 => Ok(ZoneType::Single),
            1 => Ok(ZoneType::Linear),
            2 => Ok(ZoneType::Matrix),
            _ => Err(OpenRgbError::ProtocolError(ProtocolError::UnknownDiscriminant {
                kind: WireEnum::ZoneType,
                value,
            })),
        }
    }
}

impl DeepView for ZoneType {
    type V = ZoneType;

    open spec fn deep_view(&self) -> ZoneType {
        *self
    }
}

impl SerToBuf for ZoneType {
    open spec fn spec_enc(v: ZoneType, version: u32) -> Seq<u8> {
        le32_bytes(spec_zone_type_to_u32(v))
    }

    open spec fn spec_encodable(v: ZoneType, version: u32) -> bool {
        true
    }

    fn serialize(&self, buf: &mut WriteMessage) -> (r: OpenRgbResult<()>) {
        buf.write_u32(self.to_u32());
        Ok(())
    }
}

impl DeserFromBuf for ZoneType {
    open spec fn spec_dec(bytes: Seq<u8>, version: u32) -> Option<(ZoneType, int)> {
        if bytes.len() >= 4 {
            match spec_zone_type_from_u32(le32(bytes[0], bytes[1], bytes[2], bytes[3])) {
                Some(v) => Some((v, 4)),
                None => None,
            }
        } else {
            None
        }
    }

    proof fn lemma_dec_len(bytes: Seq<u8>, version: u32) {
    }

    proof fn lemma_dec_extend(bytes: Seq<u8>, bytes2: Seq<u8>, version: u32) {
        assert forall|i: int| 0 <= i < bytes.len() implies bytes2[i] == bytes[i] by {
            assert(bytes[i] == bytes2.take(bytes.len() as int)[i]);
        }
    }

    fn deserialize(buf: &mut ReceivedMessage<'_>) -> (r: OpenRgbResult<ZoneType>) {
        let raw = match buf.read_u32() {
            Ok(v) => v,
            Err(e) => {
                return Err(e);
            },
        };
        ZoneType::from_u32(raw)
    }
}

impl RoundTrip for ZoneType {
    open spec fn spec_canonical(v: ZoneType, version: u32) -> bool {
        true
    }

    proof fn lemma_round_trip(v: ZoneType, version: u32, rest: Seq<u8>) {
        crate::codec::lemma_le32_round_trip(spec_zone_type_to_u32(v));
    }
}

/// How a mode uses its colors.
#[derive(Clone, Copy, Debug, PartialEq, Eq, Structural)]
pub enum ColorMode {
    /// No color parameter.
    NoColors,
    /// Per-LED colors.
    PerLED,
    /// Mode-specific colors.
    ModeSpecific,
    /// Random colors.
    Random,
}

/// The wire discriminant of a [`ColorMode`].
pub open spec fn spec_color_mode_to_u32(v: ColorMode) -> u32 {
    match v {
        ColorMode::NoColors => 0,
        ColorMode::PerLED => 1,
        ColorMode::ModeSpecific => 2,
        ColorMode::Random => 3,
    }
}

/// The [`ColorMode`] a wire discriminant stands for, if any.
pub open spec fn spec_color_mode_from_u32(value: u32) -> Option<ColorMode> {
    if value == 0 {
        Some(ColorMode::NoColors)
    } else
    if value == 1 {
        Some(ColorMode::PerLED)
    } else
    if value == 2 {
        Some(ColorMode::ModeSpecific)
    } else
    if value == 3 {
        Some(ColorMode::Random)
    } else {
        None
    }
}

impl ColorMode {
    /// The wire discriminant of this value.
    pub fn to_u32(self) -> (r: u32)
        ensures
            r == spec_color_mode_to_u32(self),
    {
        match self {
            ColorMode::NoColors => 0,
            ColorMode::PerLED => 1,
            ColorMode::ModeSpecific => 2,
            ColorMode::Random => 3,
        }
    }

    /// The value of a wire discriminant; an integer matching no variant
    /// is a protocol error naming the integer and the enumeration.
    pub fn from_u32(value: u32) -> (r: OpenRgbResult<ColorMode>)
        ensures
            r matches Ok(v) ==> spec_color_mode_from_u32(value) == Some(v),
            r matches Err(e) ==> {
                &&& spec_color_mode_from_u32(value) is None
                &&& e == OpenRgbError::ProtocolError(ProtocolError::UnknownDiscriminant {
                    kind: WireEnum::ColorMode,
                    value,
                })
            },
    {
        match value {
            0 => Ok(ColorMode::NoColors),
            1 => Ok(ColorMode::PerLED),
            2 => Ok(ColorMode::ModeSpecific),
            3 => Ok(ColorMode::Random),
            _ => Err(OpenRgbError::ProtocolError(ProtocolError::UnknownDiscriminant {
                kind: WireEnum::ColorMode,
                value,
            })),
        }
    }
}

impl DeepView for ColorMode {
    type V = ColorMode;

    open spec fn deep_view(&self) -> ColorMode {
        *self
    }
}

impl SerToBuf for ColorMode {
    open spec fn spec_enc(v: ColorMode, version: u32) -> Seq<u8> {
        le32_bytes(spec_color_mode_to_u32(v))
    }

    open spec fn spec_encodable(v: ColorMode, version: u32) -> bool {
        true
    }

    fn serialize(&self, buf: &mut WriteMessage) -> (r: OpenRgbResult<()>) {
        buf.write_u32(self.to_u32());
        Ok(())
    }
}

impl DeserFromBuf for ColorMode {
    open spec fn spec_dec(bytes: Seq<u8>, version: u32) -> Option<(ColorMode, int)> {
        if bytes.len() >= 4 {
            match spec_color_mode_from_u32(le32(bytes[0], bytes[1], bytes[2], bytes[3])) {
                Some(v) => Some((v, 4)),
                None => None,
            }
        } else {
            None
        }
    }

    proof fn lemma_dec_len(bytes: Seq<u8>, version: u32) {
    }

    proof fn lemma_dec_extend(bytes: Seq<u8>, bytes2: Seq<u8>, version: u32) {
        assert forall|i: int| 0 <= i < bytes.len() implies bytes2[i] == bytes[i] by {
            assert(bytes[i] == bytes2.take(bytes.len() as int)[i]);
        }
    }

    fn deserialize(buf: &mut ReceivedMessage<'_>) -> (r: OpenRgbResult<ColorMode>) {
        let raw = match buf.read_u32() {
            Ok(v) => v,
            Err(e) => {
                return Err(e);
            },
        };
        ColorMode::from_u32(raw)
    }
}

impl RoundTrip for ColorMode {
    open spec fn spec_canonical(v: ColorMode, version: u32) -> bool {
        true
    }

    proof fn lemma_round_trip(v: ColorMode, version: u32, rest: Seq<u8>) {
        crate::codec::lemma_le32_round_trip(spec_color_mode_to_u32(v));
    }
}

/// Direction of a mode's effect.
#[derive(Clone, Copy, Debug, PartialEq, Eq, Structural)]
pub enum Direction {
    /// Left direction.
    Left,
    /// Right direction.
    Right,
    /// Up direction.
    Up,
    /// Down direction.
    Down,
    /// Horizontal direction.
    Horizontal,
    /// Vertical direction.
    Vertical,
}

/// The wire discriminant of a [`Direction`].
pub open spec fn spec_direction_to_u32(v: Direction) -> u32 {
    match v {
        Direction::Left => 0,
        Direction::Right => 1,
        Direction::Up => 2,
        Direction::Down => 3,
        Direction::Horizontal => 4,
        Direction::Vertical => 5,
    }
}

/// The [`Direction`] a wire discriminant stands for, if any.
pub open spec fn spec_direction_from_u32(value: u32) -> Option<Direction> {
    if value == 0 {
        Some(Direction::Left)
    } else
    if value == 1 {
        Some(Direction::Right)
    } else
    if value == 2 {
        Some(Direction::Up)
    } else
    if value == 3 {
        Some(Direction::Down)
    } else
    if value == 4 {
        Some(Direction::Horizontal)
    } else
    if value == 5 {
        Some(Direction::Vertical)
    } else {
        None
    }
}

impl Direction {
    /// The wire discriminant of this value.
    pub fn to_u32(self) -> (r: u32)
        ensures
            r == spec_direction_to_u32(self),
    {
        match self {
            Direction::Left => 0,
            Direction::Right => 1,
            Direction::Up => 2,
            Direction::Down => 3,
            Direction::Horizontal => 4,
            Direction::Vertical => 5,
        }
    }

    /// The value of a wire discriminant; an integer matching no variant
    /// is a protocol error naming the integer and the enumeration.
    pub fn from_u32(value: u32) -> (r: OpenRgbResult<Direction>)
        ensures
            r matches Ok(v) ==> spec_direction_from_u32(value) == Some(v),
            r matches Err(e) ==> {
                &&& spec_direction_from_u32(value) is None
                &&& e == OpenRgbError::ProtocolError(ProtocolError::UnknownDiscriminant {
                    kind: WireEnum::Direction,
                    value,
                })
            },
    {
        match value {
            0 => Ok(Direction::Left),
            1 => Ok(Direction::Right),
            2 => Ok(Direction::Up),
            3 => Ok(Direction::Down),
            4 => Ok(Direction::Horizontal),
            5 => Ok(Direction::Vertical),
            _ => Err(OpenRgbError::ProtocolError(ProtocolError::UnknownDiscriminant {
                kind: WireEnum::Direction,
                value,
            })),
        }
    }
}

impl DeepView for Direction {
    type V = Direction;

    open spec fn deep_view(&self) -> Direction {
        *self
    }
}

impl SerToBuf for Direction {
    open spec fn spec_enc(v: Direction, version: u32) -> Seq<u8> {
        le32_bytes(spec_direction_to_u32(v))
    }

    open spec fn spec_encodable(v: Direction, version: u32) -> bool {
        true
    }

    fn serialize(&self, buf: &mut WriteMessage) -> (r: OpenRgbResult<()>) {
        buf.write_u32(self.to_u32());
        Ok(())
    }
}

impl DeserFromBuf for Direction {
    open spec fn spec_dec(bytes: Seq<u8>, version: u32) -> Option<(Direction, int)> {
        if bytes.len() >= 4 {
            match spec_direction_from_u32(le32(bytes[0], bytes[1], bytes[2], bytes[3])) {
                Some(v) => Some((v, 4)),
                None => None,
            }
        } else {
            None
        }
    }

    proof fn lemma_dec_len(bytes: Seq<u8>, version: u32) {
    }

    proof fn lemma_dec_extend(bytes: Seq<u8>, bytes2: Seq<u8>, version: u32) {
        assert forall|i: int| 0 <= i < bytes.len() implies bytes2[i] == bytes[i] by {
            assert(bytes[i] == bytes2.take(bytes.len() as int)[i]);
        }
    }

    fn deserialize(buf: &mut ReceivedMessage<'_>) -> (r: OpenRgbResult<Direction>) {
        let raw = match buf.read_u32() {
            Ok(v) => v,
            Err(e) => {
                return Err(e);
            },
        };
        Direction::from_u32(raw)
    }
}

impl RoundTrip for Direction {
    open spec fn spec_canonical(v: Direction, version: u32) -> bool {
        true
    }

    proof fn lemma_round_trip(v: Direction, version: u32, rest: Seq<u8>) {
        crate::codec::lemma_le32_round_trip(spec_direction_to_u32(v));
    }
}

} // verus!

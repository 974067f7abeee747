//! Mode data: one named lighting effect of a controller, with capability
//! flags saying which of its parameters apply. The brightness fields are on
//! the wire only from protocol version 3.

use vstd::prelude::*;

use crate::codec::{DeserFromBuf, ReceivedMessage, RoundTrip, SerToBuf, WriteMessage};
use crate::color::Color;
use crate::enums::{ColorMode, Direction};
use crate::error::OpenRgbResult;
use crate::flags::{ModeFlag, ModeFlagSet};
use crate::protocol_option::ProtocolOption;

verus! {

/// The wire shape of a mode: name, device value, flags, speed range,
/// brightness fields (version 3), color count range, current speed,
/// direction, color mode, colors.
type ModeWire = (String, (i32, (ModeFlagSet, (u32, (u32, (ProtocolOption<3, u32>, (ProtocolOption<
    3,
    u32,
>, (ProtocolOption<3, u32>, (u32, (u32, (u32, (Direction, (ColorMode, Vec<Color>)))))))))))));

/// Ghost mirror of a [`ModeData`]: its fields as mathematical values.
pub ghost struct ModeDataV {
    /// Mode name.
    pub name: Seq<char>,
    /// Device-specific opaque mode value.
    pub value: i32,
    /// Capability flags.
    pub flags: ModeFlagSet,
    /// Minimum speed, meaningful only with the speed capability.
    pub speed_min: u32,
    /// Maximum speed, meaningful only with the speed capability.
    pub speed_max: u32,
    /// Current speed, meaningful only with the speed capability.
    pub speed: u32,
    /// Minimum brightness; absent below protocol version 3.
    pub brightness_min: Option<u32>,
    /// Maximum brightness; absent below protocol version 3.
    pub brightness_max: Option<u32>,
    /// Current brightness; absent below protocol version 3.
    pub brightness: Option<u32>,
    /// How the mode uses its colors.
    pub color_mode: ColorMode,
    /// The mode's colors.
    pub colors: Seq<Color>,
    /// Minimum color count, meaningful only with a non-empty color list.
    pub colors_min: u32,
    /// Maximum color count, meaningful only with a non-empty color list.
    pub colors_max: u32,
    /// Direction, meaningful only with a direction capability bit.
    pub direction: Direction,
    /// Position in the controller's mode list; not on the wire, assigned
    /// after decoding, `u32::MAX` until then.
    pub id: u32,
}

/// The nested wire view of a mode's fields, in wire order.
pub open spec fn spec_mode_fields(v: ModeDataV) -> <ModeWire as DeepView>::V {
    (
        v.name,
        (
            v.value,
            (
                v.flags,
                (
                    v.speed_min,
                    (
                        v.speed_max,
                        (
                            v.brightness_min,
                            (
                                v.brightness_max,
                                (
                                    v.brightness,
                                    (
                                        v.colors_min,
                                        (
                                            v.colors_max,
                                            (v.speed, (v.direction, (v.color_mode, v.colors))),
                                        ),
                                    ),
                                ),
                            ),
                        ),
                    ),
                ),
            ),
        ),
    )
}

/// A mode of a controller: one named lighting effect and its parameters.
#[derive(Debug, Clone, PartialEq, Eq)]
pub struct ModeData {
    name: String,
    value: i32,
    flags: ModeFlagSet,
    speed_min: u32,
    speed_max: u32,
    speed: u32,
    brightness_min: ProtocolOption<3, u32>,
    brightness_max: ProtocolOption<3, u32>,
    brightness: ProtocolOption<3, u32>,
    color_mode: ColorMode,
    colors: Vec<Color>,
    colors_min: u32,
    colors_max: u32,
    direction: Direction,
    id: u32,
}

impl DeepView for ModeData {
    type V = ModeDataV;

    closed spec fn deep_view(&self) -> ModeDataV {
        ModeDataV {
            name: self.name.deep_view(),
            value: self.value,
            flags: self.flags,
            speed_min: self.speed_min,
            speed_max: self.speed_max,
            speed: self.speed,
            brightness_min: self.brightness_min.deep_view(),
            brightness_max: self.brightness_max.deep_view(),
            brightness: self.brightness.deep_view(),
            color_mode: self.color_mode,
            colors: self.colors.deep_view(),
            colors_min: self.colors_min,
            colors_max: self.colors_max,
            direction: self.direction,
            id: self.id,
        }
    }
}

impl ModeData {
    /// The mode's name.
    pub fn name(&self) -> (r: &str)
        ensures
            r@ == self.deep_view().name,
    {
        self.name.as_str()
    }

    /// Position in the controller's mode list, assigned after decoding.
    pub fn id(&self) -> (r: usize)
        ensures
            r == self.deep_view().id as usize,
    {
        self.id as usize
    }

    /// Records the mode's position in its controller's mode list.
    pub fn set_id(&mut self, id: usize)
        requires
            id <= u32::MAX,
        ensures
            final(self).deep_view() == (ModeDataV { id: id as u32, ..old(self).deep_view() }),
    {
        self.id = id as u32;
    }

    /// The mode's capability flags.
    pub fn flags(&self) -> (r: ModeFlagSet)
        ensures
            r == self.deep_view().flags,
    {
        self.flags
    }

    /// Current brightness: present only with the brightness capability and
    /// from protocol version 3.
    pub fn brightness(&self) -> (r: Option<u32>)
        ensures
            r == (if self.deep_view().flags.spec_contains(ModeFlag::HasBrightness) {
                self.deep_view().brightness
            } else {
                None::<u32>
            }),
    {
        if self.flags.contains(ModeFlag::HasBrightness) {
            match self.brightness.value() {
                Some(b) => Some(*b),
                None => None,
            }
        } else {
            None
        }
    }

    /// Sets the brightness; nothing changes without the brightness
    /// capability, and an absent field is never invented.
    pub fn set_brightness(&mut self, b: u32)
        ensures
            final(self).deep_view() == (ModeDataV {
                brightness: if old(self).deep_view().flags.spec_contains(ModeFlag::HasBrightness)
                    && old(self).deep_view().brightness is Some {
                    Some(b)
                } else {
                    old(self).deep_view().brightness
                },
                ..old(self).deep_view()
            }),
    {
        if self.flags.contains(ModeFlag::HasBrightness) {
            self.brightness.replace(b);
        }
    }

    /// Minimum brightness: present only with the brightness capability and
    /// from protocol version 3.
    pub fn brightness_min(&self) -> (r: Option<u32>)
        ensures
            r == (if self.deep_view().flags.spec_contains(ModeFlag::HasBrightness) {
                self.deep_view().brightness_min
            } else {
                None::<u32>
            }),
    {
        if self.flags.contains(ModeFlag::HasBrightness) {
            match self.brightness_min.value() {
                Some(b) => Some(*b),
                None => None,
            }
        } else {
            None
        }
    }

    /// Maximum brightness: present only with the brightness capability and
    /// from protocol version 3.
    pub fn brightness_max(&self) -> (r: Option<u32>)
        ensures
            r == (if self.deep_view().flags.spec_contains(ModeFlag::HasBrightness) {
                self.deep_view().brightness_max
            } else {
                None::<u32>
            }),
    {
        if self.flags.contains(ModeFlag::HasBrightness) {
            match self.brightness_max.value() {
                Some(b) => Some(*b),
                None => None,
            }
        } else {
            None
        }
    }

    /// Current speed: present only with the speed capability.
    pub fn speed(&self) -> (r: Option<u32>)
        ensures
            r == (if self.deep_view().flags.spec_contains(ModeFlag::HasSpeed) {
                Some(self.deep_view().speed)
            } else {
                None::<u32>
            }),
    {
        if self.flags.contains(ModeFlag::HasSpeed) {
            Some(self.speed)
        } else {
            None
        }
    }

    /// Sets the speed; nothing changes without the speed capability.
    pub fn set_speed(&mut self, sp: u32)
        ensures
            final(self).deep_view() == (ModeDataV {
                speed: if old(self).deep_view().flags.spec_contains(ModeFlag::HasSpeed) {
                    sp
                } else {
                    old(self).deep_view().speed
                },
                ..old(self).deep_view()
            }),
    {
        if self.flags.contains(ModeFlag::HasSpeed) {
            self.speed = sp;
        }
    }

    /// Minimum speed: present only with the speed capability.
    pub fn speed_min(&self) -> (r: Option<u32>)
        ensures
            r == (if self.deep_view().flags.spec_contains(ModeFlag::HasSpeed) {
                Some(self.deep_view().speed_min)
            } else {
                None::<u32>
            }),
    {
        if self.flags.contains(ModeFlag::HasSpeed) {
            Some(self.speed_min)
        } else {
            None
        }
    }

    /// Maximum speed: present only with the speed capability.
    pub fn speed_max(&self) -> (r: Option<u32>)
        ensures
            r == (if self.deep_view().flags.spec_contains(ModeFlag::HasSpeed) {
                Some(self.deep_view().speed_max)
            } else {
                None::<u32>
            }),
    {
        if self.flags.contains(ModeFlag::HasSpeed) {
            Some(self.speed_max)
        } else {
            None
        }
    }

    /// Direction: present only with a direction capability bit.
    pub fn direction(&self) -> (r: Option<Direction>)
        ensures
            r == (if self.deep_view().flags.spec_contains(ModeFlag::HasDirection) {
                Some(self.deep_view().direction)
            } else {
                None::<Direction>
            }),
    {
        if self.flags.contains(ModeFlag::HasDirection) {
            Some(self.direction)
        } else {
            None
        }
    }

    /// How the mode uses its colors.
    pub fn color_mode(&self) -> (r: ColorMode)
        ensures
            r == self.deep_view().color_mode,
    {
        self.color_mode
    }

    /// The mode's colors.
    pub fn colors(&self) -> (r: &[Color])
        ensures
            r@ == self.deep_view().colors,
    {
        self.colors.as_slice()
    }

    /// Minimum color count: present only with a non-empty color list.
    pub fn colors_min(&self) -> (r: Option<u32>)
        ensures
            r == (if self.deep_view().colors.len() > 0 {
                Some(self.deep_view().colors_min)
            } else {
                None::<u32>
            }),
    {
        if self.colors.len() > 0 {
            Some(self.colors_min)
        } else {
            None
        }
    }

    /// Maximum color count: present only with a non-empty color list.
    pub fn colors_max(&self) -> (r: Option<u32>)
        ensures
            r == (if self.deep_view().colors.len() > 0 {
                Some(self.deep_view().colors_max)
            } else {
                None::<u32>
            }),
    {
        if self.colors.len() > 0 {
            Some(self.colors_max)
        } else {
            None
        }
    }
}

impl SerToBuf for ModeData {
    open spec fn spec_enc(v: ModeDataV, version: u32) -> Seq<u8> {
        <ModeWire as SerToBuf>::spec_enc(spec_mode_fields(v), version)
    }

    open spec fn spec_encodable(v: ModeDataV, version: u32) -> bool {
        <ModeWire as SerToBuf>::spec_encodable(spec_mode_fields(v), version)
    }

    fn serialize(&self, buf: &mut WriteMessage) -> (r: OpenRgbResult<()>) {
        let fields = (
            &self.name,
            (
                &self.value,
                (
                    &self.flags,
                    (
                        &self.speed_min,
                        (
                            &self.speed_max,
                            (
                                &self.brightness_min,
                                (
                                    &self.brightness_max,
                                    (
                                        &self.brightness,
                                        (
                                            &self.colors_min,
                                            (
                                                &self.colors_max,
                                                (
                                                    &self.speed,
                                                    (
                                                        &self.direction,
                                                        (&self.color_mode, &self.colors),
                                                    ),
                                                ),
                                            ),
                                        ),
                                    ),
                                ),
                            ),
                        ),
                    ),
                ),
            ),
        );
        proof {
            assert(fields.deep_view() == spec_mode_fields(self.deep_view()));
        }
        buf.write_value(&fields)
    }
}

impl DeserFromBuf for ModeData {
    open spec fn spec_dec(bytes: Seq<u8>, version: u32) -> Option<(ModeDataV, int)> {
        match <ModeWire as DeserFromBuf>::spec_dec(bytes, version) {
            Some(d) => Some(
                (
                    ModeDataV {
                        name: d.0.0,
                        value: d.0.1.0,
                        flags: d.0.1.1.0,
                        speed_min: d.0.1.1.1.0,
                        speed_max: d.0.1.1.1.1.0,
                        brightness_min: d.0.1.1.1.1.1.0,
                        brightness_max: d.0.1.1.1.1.1.1.0,
                        brightness: d.0.1.1.1.1.1.1.1.0,
                        colors_min: d.0.1.1.1.1.1.1.1.1.0,
                        colors_max: d.0.1.1.1.1.1.1.1.1.1.0,
                        speed: d.0.1.1.1.1.1.1.1.1.1.1.0,
                        direction: d.0.1.1.1.1.1.1.1.1.1.1.1.0,
                        color_mode: d.0.1.1.1.1.1.1.1.1.1.1.1.1.0,
                        colors: d.0.1.1.1.1.1.1.1.1.1.1.1.1.1,
                        id: u32::MAX,
                    },
                    d.1,
                ),
            ),
            None => None,
        }
    }

    proof fn lemma_dec_len(bytes: Seq<u8>, version: u32) {
        <ModeWire as DeserFromBuf>::lemma_dec_len(bytes, version);
    }

    proof fn lemma_dec_extend(bytes: Seq<u8>, bytes2: Seq<u8>, version: u32) {
        <ModeWire as DeserFromBuf>::lemma_dec_extend(bytes, bytes2, version);
    }

    fn deserialize(buf: &mut ReceivedMessage<'_>) -> (r: OpenRgbResult<ModeData>) {
        let (name, (value, (flags, (speed_min, (speed_max, (brightness_min, (brightness_max, (
            brightness,
            (colors_min, (colors_max, (speed, (direction, (color_mode, colors))))),
        )))))))) = match buf.read_value::<ModeWire>() {
            Ok(t) => t,
            Err(e) => {
                return Err(e);
            },
        };
        Ok(
            ModeData {
                name,
                value,
                flags,
                speed_min,
                speed_max,
                speed,
                brightness_min,
                brightness_max,
                brightness,
                color_mode,
                colors,
                colors_min,
                colors_max,
                direction,
                id: u32::MAX,
            },
        )
    }
}

impl RoundTrip for ModeData {
    /// Only values a decode can rebuild: the list position holds its
    /// placeholder, and the brightness fields are present exactly from
    /// protocol version 3 on.
    open spec fn spec_canonical(v: ModeDataV, version: u32) -> bool {
        v.id == u32::MAX && <ModeWire as RoundTrip>::spec_canonical(spec_mode_fields(v), version)
    }

    proof fn lemma_round_trip(v: ModeDataV, version: u32, rest: Seq<u8>) {
        <ModeWire as RoundTrip>::lemma_round_trip(spec_mode_fields(v), version, rest);
    }
}

} // verus!

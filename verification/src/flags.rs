//! Flag sets of the wire protocol: independent bits over one 32-bit
//! little-endian word. Decoding a word with bits outside the set's known
//! flags fails with a protocol error naming the word and the set.

use vstd::prelude::*;

use crate::codec::{
    le32, le32_bytes, DeserFromBuf, ReceivedMessage, RoundTrip, SerToBuf, WriteMessage,
};
use crate::error::{OpenRgbError, OpenRgbResult, ProtocolError, WireFlags};

verus! {

/// Capability flags of a controller mode. A single named flag; combinations live in a
/// [`ModeFlagSet`].
#[derive(Clone, Copy, Debug, PartialEq, Eq, Structural)]
pub enum ModeFlag {
    /// Mode has a speed parameter.
    HasSpeed,
    /// Mode has a left/right parameter.
    HasDirectionLR,
    /// Mode has an up/down parameter.
    HasDirectionUD,
    /// Mode has a horizontal/vertical parameter.
    HasDirectionHV,
    /// Any of the three direction parameters.
    HasDirection,
    /// Mode has a brightness parameter.
    HasBrightness,
    /// Mode has per-LED colors.
    HasPerLEDColor,
    /// Mode has mode-specific colors.
    HasModeSpecificColor,
    /// Mode has a random color option.
    HasRandomColor,
    /// Mode can be saved manually.
    ManualSave,
    /// Mode saves automatically.
    AutomaticSave,
}

/// The bits of one [`ModeFlag`] inside the 32-bit flag word.
pub open spec fn spec_mode_flags_mask(f: ModeFlag) -> u32 {
    match f {
        ModeFlag::HasSpeed => 0x1,
        ModeFlag::HasDirectionLR => 0x2,
        ModeFlag::HasDirectionUD => 0x4,
        ModeFlag::HasDirectionHV => 0x8,
        ModeFlag::HasDirection => 0xE,
        ModeFlag::HasBrightness => 0x10,
        ModeFlag::HasPerLEDColor => 0x20,
        ModeFlag::HasModeSpecificColor => 0x40,
        ModeFlag::HasRandomColor => 0x80,
        ModeFlag::ManualSave => 0x100,
        ModeFlag::AutomaticSave => 0x200,
    }
}

/// Whether a flag word holds only bits known to [`ModeFlagSet`].
pub open spec fn spec_mode_flags_valid(bits: u32) -> bool {
    bits & 0x3FF == bits
}

impl ModeFlag {
    /// The bits of this flag inside the 32-bit flag word.
    pub fn mask(self) -> (r: u32)
        ensures
            r == spec_mode_flags_mask(self),
    {
        match self {
            ModeFlag::HasSpeed => 0x1,
            ModeFlag::HasDirectionLR => 0x2,
            ModeFlag::HasDirectionUD => 0x4,
            ModeFlag::HasDirectionHV => 0x8,
            ModeFlag::HasDirection => 0xE,
            ModeFlag::HasBrightness => 0x10,
            ModeFlag::HasPerLEDColor => 0x20,
            ModeFlag::HasModeSpecificColor => 0x40,
            ModeFlag::HasRandomColor => 0x80,
            ModeFlag::ManualSave => 0x100,
            ModeFlag::AutomaticSave => 0x200,
        }
    }
}

/// A set of capability flags of a mode, over one 32-bit word.
#[derive(Clone, Copy, Debug, PartialEq, Eq, Structural)]
pub struct ModeFlagSet {
    /// The raw 32-bit flag word.
    pub bits: u32,
}

impl ModeFlagSet {
    /// The raw 32-bit flag word.
    pub open spec fn spec_bits(&self) -> u32 {
        self.bits
    }

    /// The set with no flags.
    pub fn empty() -> (r: ModeFlagSet)
        ensures
            r.spec_bits() == 0u32,
    {
        ModeFlagSet { bits: 0 }
    }

    /// The raw 32-bit flag word.
    pub fn bits(&self) -> (r: u32)
        ensures
            r == self.spec_bits(),
    {
        self.bits
    }

    /// The set for a flag word; a word with unknown bits is a protocol
    /// error naming the word and the set.
    pub fn from_bits(value: u32) -> (r: OpenRgbResult<ModeFlagSet>)
        ensures
            r matches Ok(s) ==> spec_mode_flags_valid(value) && s.spec_bits() == value,
            r matches Err(e) ==> {
                &&& !spec_mode_flags_valid(value)
                &&& e == OpenRgbError::ProtocolError(ProtocolError::InvalidFlagBits {
                    kind: WireFlags::ModeFlags,
                    value,
                })
            },
    {
        if value & 0x3FF == value {
            Ok(ModeFlagSet { bits: value })
        } else {
            Err(OpenRgbError::ProtocolError(ProtocolError::InvalidFlagBits {
                kind: WireFlags::ModeFlags,
                value,
            }))
        }
    }

    /// This set with one more flag.
    pub fn with(self, f: ModeFlag) -> (r: ModeFlagSet)
        ensures
            r.spec_bits() == self.spec_bits() | spec_mode_flags_mask(f),
    {
        ModeFlagSet { bits: self.bits | f.mask() }
    }

    /// Whether any bit of `f` is in the set.
    pub fn contains(&self, f: ModeFlag) -> (r: bool)
        ensures
            r == self.spec_contains(f),
    {
        self.bits & f.mask() != 0
    }

    /// Whether any bit of `f` is in the set.
    pub open spec fn spec_contains(&self, f: ModeFlag) -> bool {
        self.spec_bits() & spec_mode_flags_mask(f) != 0u32
    }
}

impl DeepView for ModeFlagSet {
    type V = ModeFlagSet;

    open spec fn deep_view(&self) -> ModeFlagSet {
        *self
    }
}

impl SerToBuf for ModeFlagSet {
    open spec fn spec_enc(v: ModeFlagSet, version: u32) -> Seq<u8> {
        le32_bytes(v.spec_bits())
    }

    open spec fn spec_encodable(v: ModeFlagSet, version: u32) -> bool {
        true
    }

    fn serialize(&self, buf: &mut WriteMessage) -> (r: OpenRgbResult<()>) {
        buf.write_u32(self.bits);
        Ok(())
    }
}

impl DeserFromBuf for ModeFlagSet {
    open spec fn spec_dec(bytes: Seq<u8>, version: u32) -> Option<(ModeFlagSet, int)> {
        if bytes.len() >= 4 {
            let word = le32(bytes[0], bytes[1], bytes[2], bytes[3]);
            if spec_mode_flags_valid(word) {
                Some((ModeFlagSet { bits: word }, 4))
            } else {
                None
            }
        } else {
            None
        }
    }

    proof fn lemma_dec_len(bytes: Seq<u8>, version: u32) {
    }

    proof fn lemma_dec_extend(bytes: Seq<u8>, bytes2: Seq<u8>, version: u32) {
        assert forall|i: int| 0 <= i < bytes.len() implies bytes2[i] == bytes[i] by {
            assert(bytes[i] == bytes2.take(bytes.len() as int)[i]);
        }
    }

    fn deserialize(buf: &mut ReceivedMessage<'_>) -> (r: OpenRgbResult<ModeFlagSet>) {
        let raw = match buf.read_u32() {
            Ok(v) => v,
            Err(e) => {
                return Err(e);
            },
        };
        ModeFlagSet::from_bits(raw)
    }
}

impl RoundTrip for ModeFlagSet {
    /// Only words made of known bits come back from a decode.
    open spec fn spec_canonical(v: ModeFlagSet, version: u32) -> bool {
        spec_mode_flags_valid(v.spec_bits())
    }

    proof fn lemma_round_trip(v: ModeFlagSet, version: u32, rest: Seq<u8>) {
        crate::codec::lemma_le32_round_trip(v.spec_bits());
    }
}

/// Flags of a controller zone. A single named flag; combinations live in a
/// [`ZoneFlagSet`].
#[derive(Clone, Copy, Debug, PartialEq, Eq, Structural)]
pub enum ZoneFlags {
    /// Zone is resizable, but only for effects.
    ResizableForEffectsOnly,
}

/// The bits of one [`ZoneFlags`] inside the 32-bit flag word.
pub open spec fn spec_zone_flags_mask(f: ZoneFlags) -> u32 {
    match f {
        ZoneFlags::ResizableForEffectsOnly => 0x1,
    }
}

/// Whether a flag word holds only bits known to [`ZoneFlagSet`].
pub open spec fn spec_zone_flags_valid(bits: u32) -> bool {
    bits & 0x1 == bits
}

impl ZoneFlags {
    /// The bits of this flag inside the 32-bit flag word.
    pub fn mask(self) -> (r: u32)
        ensures
            r == spec_zone_flags_mask(self),
    {
        match self {
            ZoneFlags::ResizableForEffectsOnly => 0x1,
        }
    }
}

/// A set of flags of a zone, over one 32-bit word.
#[derive(Clone, Copy, Debug, PartialEq, Eq, Structural)]
pub struct ZoneFlagSet {
    /// The raw 32-bit flag word.
    pub bits: u32,
}

impl ZoneFlagSet {
    /// The raw 32-bit flag word.
    pub open spec fn spec_bits(&self) -> u32 {
        self.bits
    }

    /// The set with no flags.
    pub fn empty() -> (r: ZoneFlagSet)
        ensures
            r.spec_bits() == 0u32,
    {
        ZoneFlagSet { bits: 0 }
    }

    /// The raw 32-bit flag word.
    pub fn bits(&self) -> (r: u32)
        ensures
            r == self.spec_bits(),
    {
        self.bits
    }

    /// The set for a flag word; a word with unknown bits is a protocol
    /// error naming the word and the set.
    pub fn from_bits(value: u32) -> (r: OpenRgbResult<ZoneFlagSet>)
        ensures
            r matches Ok(s) ==> spec_zone_flags_valid(value) && s.spec_bits() == value,
            r matches Err(e) ==> {
                &&& !spec_zone_flags_valid(value)
                &&& e == OpenRgbError::ProtocolError(ProtocolError::InvalidFlagBits {
                    kind: WireFlags::ZoneFlags,
                    value,
                })
            },
    {
        if value & 0x1 == value {
            Ok(ZoneFlagSet { bits: value })
        } else {
            Err(OpenRgbError::ProtocolError(ProtocolError::InvalidFlagBits {
                kind: WireFlags::ZoneFlags,
                value,
            }))
        }
    }

    /// This set with one more flag.
    pub fn with(self, f: ZoneFlags) -> (r: ZoneFlagSet)
        ensures
            r.spec_bits() == self.spec_bits() | spec_zone_flags_mask(f),
    {
        ZoneFlagSet { bits: self.bits | f.mask() }
    }

    /// Whether any bit of `f` is in the set.
    pub fn contains(&self, f: ZoneFlags) -> (r: bool)
        ensures
            r == self.spec_contains(f),
    {
        self.bits & f.mask() != 0
    }

    /// Whether any bit of `f` is in the set.
    pub open spec fn spec_contains(&self, f: ZoneFlags) -> bool {
        self.spec_bits() & spec_zone_flags_mask(f) != 0u32
    }
}

impl DeepView for ZoneFlagSet {
    type V = ZoneFlagSet;

    open spec fn deep_view(&self) -> ZoneFlagSet {
        *self
    }
}

impl SerToBuf for ZoneFlagSet {
    open spec fn spec_enc(v: ZoneFlagSet, version: u32) -> Seq<u8> {
        le32_bytes(v.spec_bits())
    }

    open spec fn spec_encodable(v: ZoneFlagSet, version: u32) -> bool {
        true
    }

    fn serialize(&self, buf: &mut WriteMessage) -> (r: OpenRgbResult<()>) {
        buf.write_u32(self.bits);
        Ok(())
    }
}

impl DeserFromBuf for ZoneFlagSet {
    open spec fn spec_dec(bytes: Seq<u8>, version: u32) -> Option<(ZoneFlagSet, int)> {
        if bytes.len() >= 4 {
            let word = le32(bytes[0], bytes[1], bytes[2], bytes[3]);
            if spec_zone_flags_valid(word) {
                Some((ZoneFlagSet { bits: word }, 4))
            } else {
                None
            }
        } else {
            None
        }
    }

    proof fn lemma_dec_len(bytes: Seq<u8>, version: u32) {
    }

    proof fn lemma_dec_extend(bytes: Seq<u8>, bytes2: Seq<u8>, version: u32) {
        assert forall|i: int| 0 <= i < bytes.len() implies bytes2[i] == bytes[i] by {
            assert(bytes[i] == bytes2.take(bytes.len() as int)[i]);
        }
    }

    fn deserialize(buf: &mut ReceivedMessage<'_>) -> (r: OpenRgbResult<ZoneFlagSet>) {
        let raw = match buf.read_u32() {
            Ok(v) => v,
            Err(e) => {
                return Err(e);
            },
        };
        ZoneFlagSet::from_bits(raw)
    }
}

impl RoundTrip for ZoneFlagSet {
    /// Only words made of known bits come back from a decode.
    open spec fn spec_canonical(v: ZoneFlagSet, version: u32) -> bool {
        spec_zone_flags_valid(v.spec_bits())
    }

    proof fn lemma_round_trip(v: ZoneFlagSet, version: u32, rest: Seq<u8>) {
        crate::codec::lemma_le32_round_trip(v.spec_bits());
    }
}

/// Flags of a controller. A single named flag; combinations live in a
/// [`ControllerFlagSet`].
#[derive(Clone, Copy, Debug, PartialEq, Eq, Structural)]
pub enum ControllerFlags {
    /// Controller is local to this server instance.
    IsLocal,
    /// Controller is on a remote instance.
    IsRemote,
    /// Controller is a virtual device.
    IsVirtual,
    /// Flag reset by the server before an update.
    ResetBeforeUpdate,
}

/// The bits of one [`ControllerFlags`] inside the 32-bit flag word.
pub open spec fn spec_controller_flags_mask(f: ControllerFlags) -> u32 {
    match f {
        ControllerFlags::IsLocal => 0x1,
        ControllerFlags::IsRemote => 0x2,
        ControllerFlags::IsVirtual => 0x4,
        ControllerFlags::ResetBeforeUpdate => 0x100,
    }
}

/// Whether a flag word holds only bits known to [`ControllerFlagSet`].
pub open spec fn spec_controller_flags_valid(bits: u32) -> bool {
    bits & 0x107 == bits
}

impl ControllerFlags {
    /// The bits of this flag inside the 32-bit flag word.
    pub fn mask(self) -> (r: u32)
        ensures
            r == spec_controller_flags_mask(self),
    {
        match self {
            ControllerFlags::IsLocal => 0x1,
            ControllerFlags::IsRemote => 0x2,
            ControllerFlags::IsVirtual => 0x4,
            ControllerFlags::ResetBeforeUpdate => 0x100,
        }
    }
}

/// A set of flags of a controller, over one 32-bit word.
#[derive(Clone, Copy, Debug, PartialEq, Eq, Structural)]
pub struct ControllerFlagSet {
    /// The raw 32-bit flag word.
    pub bits: u32,
}

impl ControllerFlagSet {
    /// The raw 32-bit flag word.
    pub open spec fn spec_bits(&self) -> u32 {
        self.bits
    }

    /// The set with no flags.
    pub fn empty() -> (r: ControllerFlagSet)
        ensures
            r.spec_bits() == 0u32,
    {
        ControllerFlagSet { bits: 0 }
    }

    /// The raw 32-bit flag word.
    pub fn bits(&self) -> (r: u32)
        ensures
            r == self.spec_bits(),
    {
        self.bits
    }

    /// The set for a flag word; a word with unknown bits is a protocol
    /// error naming the word and the set.
    pub fn from_bits(value: u32) -> (r: OpenRgbResult<ControllerFlagSet>)
        ensures
            r matches Ok(s) ==> spec_controller_flags_valid(value) && s.spec_bits() == value,
            r matches Err(e) ==> {
                &&& !spec_controller_flags_valid(value)
                &&& e == OpenRgbError::ProtocolError(ProtocolError::InvalidFlagBits {
                    kind: WireFlags::ControllerFlags,
                    value,
                })
            },
    {
        if value & 0x107 == value {
            Ok(ControllerFlagSet { bits: value })
        } else {
            Err(OpenRgbError::ProtocolError(ProtocolError::InvalidFlagBits {
                kind: WireFlags::ControllerFlags,
                value,
            }))
        }
    }

    /// This set with one more flag.
    pub fn with(self, f: ControllerFlags) -> (r: ControllerFlagSet)
        ensures
            r.spec_bits() == self.spec_bits() | spec_controller_flags_mask(f),
    {
        ControllerFlagSet { bits: self.bits | f.mask() }
    }

    /// Whether any bit of `f` is in the set.
    pub fn contains(&self, f: ControllerFlags) -> (r: bool)
        ensures
            r == self.spec_contains(f),
    {
        self.bits & f.mask() != 0
    }

    /// Whether any bit of `f` is in the set.
    pub open spec fn spec_contains(&self, f: ControllerFlags) -> bool {
        self.spec_bits() & spec_controller_flags_mask(f) != 0u32
    }
}

impl DeepView for ControllerFlagSet {
    type V = ControllerFlagSet;

    open spec fn deep_view(&self) -> ControllerFlagSet {
        *self
    }
}

impl SerToBuf for ControllerFlagSet {
    open spec fn spec_enc(v: ControllerFlagSet, version: u32) -> Seq<u8> {
        le32_bytes(v.spec_bits())
    }

    open spec fn spec_encodable(v: ControllerFlagSet, version: u32) -> bool {
        true
    }

    fn serialize(&self, buf: &mut WriteMessage) -> (r: OpenRgbResult<()>) {
        buf.write_u32(self.bits);
        Ok(())
    }
}

impl DeserFromBuf for ControllerFlagSet {
    open spec fn spec_dec(bytes: Seq<u8>, version: u32) -> Option<(ControllerFlagSet, int)> {
        if bytes.len() >= 4 {
            let word = le32(bytes[0], bytes[1], bytes[2], bytes[3]);
            if spec_controller_flags_valid(word) {
                Some((ControllerFlagSet { bits: word }, 4))
            } else {
                None
            }
        } else {
            None
        }
    }

    proof fn lemma_dec_len(bytes: Seq<u8>, version: u32) {
    }

    proof fn lemma_dec_extend(bytes: Seq<u8>, bytes2: Seq<u8>, version: u32) {
        assert forall|i: int| 0 <= i < bytes.len() implies bytes2[i] == bytes[i] by {
            assert(bytes[i] == bytes2.take(bytes.len() as int)[i]);
        }
    }

    fn deserialize(buf: &mut ReceivedMessage<'_>) -> (r: OpenRgbResult<ControllerFlagSet>) {
        let raw = match buf.read_u32() {
            Ok(v) => v,
            Err(e) => {
                return Err(e);
            },
        };
        ControllerFlagSet::from_bits(raw)
    }
}

impl RoundTrip for ControllerFlagSet {
    /// Only words made of known bits come back from a decode.
    open spec fn spec_canonical(v: ControllerFlagSet, version: u32) -> bool {
        spec_controller_flags_valid(v.spec_bits())
    }

    proof fn lemma_round_trip(v: ControllerFlagSet, version: u32, rest: Seq<u8>) {
        crate::codec::lemma_le32_round_trip(v.spec_bits());
    }
}

} // verus!

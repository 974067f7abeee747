//! Segment data: a named, independently addressable sub-range of a zone.
//! Segments are on the wire only from protocol version 4; below that both
//! encoding and decoding fail.

use vstd::prelude::*;

use crate::codec::{DeserFromBuf, ReceivedMessage, RoundTrip, SerToBuf, WriteMessage};
use crate::enums::ZoneType;
use crate::error::{OpenRgbError, OpenRgbResult, ProtocolError};

verus! {

/// The wire shape of a segment: name, type, start offset, LED count.
type SegmentWire = (String, (ZoneType, (u32, u32)));

/// Ghost mirror of a [`SegmentData`]: its fields as mathematical values.
pub ghost struct SegmentDataV {
    /// Segment name.
    pub name: Seq<char>,
    /// Segment type; mirrors the parent zone's type.
    pub seg_type: ZoneType,
    /// First LED of the segment, relative to its zone.
    pub start_idx: u32,
    /// Number of LEDs in the segment.
    pub led_count: u32,
    /// Position in the zone's segment list; not on the wire, assigned after
    /// decoding, `usize::MAX` until then.
    pub id: usize,
}

/// A segment: a named sub-range of a zone's LEDs.
#[derive(Debug, Clone, PartialEq, Eq)]
pub struct SegmentData {
    name: String,
    seg_type: ZoneType,
    start_idx: u32,
    led_count: u32,
    id: usize,
}

impl DeepView for SegmentData {
    type V = SegmentDataV;

    closed spec fn deep_view(&self) -> SegmentDataV {
        SegmentDataV {
            name: self.name.deep_view(),
            seg_type: self.seg_type,
            start_idx: self.start_idx,
            led_count: self.led_count,
            id: self.id,
        }
    }
}

impl SegmentData {
    /// Builds a new linear segment to add to a zone.
    pub fn new(name: &str, start_idx: u32, led_count: u32) -> (r: SegmentData)
        ensures
            r.deep_view() == (SegmentDataV {
                name: name@,
                seg_type: ZoneType::Linear,
                start_idx,
                led_count,
                id: usize::MAX,
            }),
    {
        SegmentData {
            name: name.to_owned(),
            seg_type: ZoneType::Linear,
            start_idx,
            led_count,
            id: usize::MAX,
        }
    }

    /// The segment's name.
    pub fn name(&self) -> (r: &str)
        ensures
            r@ == self.deep_view().name,
    {
        self.name.as_str()
    }

    /// Number of LEDs in the segment.
    pub fn led_count(&self) -> (r: u32)
        ensures
            r == self.deep_view().led_count,
    {
        self.led_count
    }

    /// First LED of the segment, relative to its zone.
    pub fn offset(&self) -> (r: u32)
        ensures
            r == self.deep_view().start_idx,
    {
        self.start_idx
    }

    /// Position in the zone's segment list, assigned after decoding.
    pub fn id(&self) -> (r: usize)
        ensures
            r == self.deep_view().id,
    {
        self.id
    }

    /// Records the segment's position in its zone's segment list.
    pub fn set_id(&mut self, id: usize)
        ensures
            final(self).deep_view() == (SegmentDataV { id, ..old(self).deep_view() }),
    {
        self.id = id;
    }
}

impl SerToBuf for SegmentData {
    open spec fn spec_enc(v: SegmentDataV, version: u32) -> Seq<u8> {
        <SegmentWire as SerToBuf>::spec_enc((v.name, (v.seg_type, (v.start_idx, v.led_count))), version)
    }

    open spec fn spec_encodable(v: SegmentDataV, version: u32) -> bool {
        version >= 4 && <SegmentWire as SerToBuf>::spec_encodable(
            (v.name, (v.seg_type, (v.start_idx, v.led_count))),
            version,
        )
    }

    fn serialize(&self, buf: &mut WriteMessage) -> (r: OpenRgbResult<()>) {
        if buf.protocol_version() < 4 {
            return Err(OpenRgbError::ProtocolError(ProtocolError::SegmentsUnsupported {
                version: buf.protocol_version(),
            }));
        }
        let fields = (&self.name, (&self.seg_type, (&self.start_idx, &self.led_count)));
        buf.write_value(&fields)
    }
}

impl DeserFromBuf for SegmentData {
    open spec fn spec_dec(bytes: Seq<u8>, version: u32) -> Option<(SegmentDataV, int)> {
        if version < 4 {
            None
        } else {
            match <SegmentWire as DeserFromBuf>::spec_dec(bytes, version) {
                Some(d) => Some(
                    (
                        SegmentDataV {
                            name: d.0.0,
                            seg_type: d.0.1.0,
                            start_idx: d.0.1.1.0,
                            led_count: d.0.1.1.1,
                            id: usize::MAX,
                        },
                        d.1,
                    ),
                ),
                None => None,
            }
        }
    }

    proof fn lemma_dec_len(bytes: Seq<u8>, version: u32) {
        if version >= 4 {
            <SegmentWire as DeserFromBuf>::lemma_dec_len(bytes, version);
        }
    }

    proof fn lemma_dec_extend(bytes: Seq<u8>, bytes2: Seq<u8>, version: u32) {
        if version >= 4 {
            <SegmentWire as DeserFromBuf>::lemma_dec_extend(bytes, bytes2, version);
        }
    }

    fn deserialize(buf: &mut ReceivedMessage<'_>) -> (r: OpenRgbResult<SegmentData>) {
        if buf.protocol_version() < 4 {
            return Err(OpenRgbError::ProtocolError(ProtocolError::SegmentsUnsupported {
                version: buf.protocol_version(),
            }));
        }
        let (name, (seg_type, (start_idx, led_count))) = match buf.read_value::<SegmentWire>() {
            Ok(t) => t,
            Err(e) => {
                return Err(e);
            },
        };
        Ok(SegmentData { name, seg_type, start_idx, led_count, id: usize::MAX })
    }
}

impl RoundTrip for SegmentData {
    /// Only values a decode can rebuild: the list position holds its
    /// placeholder, since it is not on the wire.
    open spec fn spec_canonical(v: SegmentDataV, version: u32) -> bool {
        v.id == usize::MAX
    }

    proof fn lemma_round_trip(v: SegmentDataV, version: u32, rest: Seq<u8>) {
        <SegmentWire as RoundTrip>::lemma_round_trip(
            (v.name, (v.seg_type, (v.start_idx, v.led_count))),
            version,
            rest,
        );
    }
}

} // verus!

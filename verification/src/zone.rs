//! Zone data: a named, contiguous LED range of a controller, with an
//! optional 2D LED-position matrix, an optional segment list (protocol
//! version 4) and optional flags (protocol version 5).

use vstd::prelude::*;

use crate::codec::{le16, DeserFromBuf, ReceivedMessage};
use crate::enums::ZoneType;
use crate::error::{CommandError, OpenRgbError, OpenRgbResult, ProtocolError};
use crate::flags::ZoneFlagSet;
use crate::protocol_option::ProtocolOption;
use crate::segment::{SegmentData, SegmentDataV};
use crate::sequence::{lemma_dec_n_len, lemma_skip_skip, spec_dec_n};

verus! {

/// The wire shape of a zone up to the matrix block: name, type, minimum,
/// maximum and current LED counts.
type ZonePrefix = (String, (ZoneType, (u32, (u32, u32))));

/// Ghost mirror of a [`LedMatrix`]: its fields as mathematical values.
pub ghost struct LedMatrixV {
    /// Number of rows.
    pub height: u32,
    /// Number of columns.
    pub width: u32,
    /// LED ids in row-major order; `u32::MAX` marks a position with no LED.
    pub data: Seq<u32>,
}

impl LedMatrixV {
    /// The data holds exactly one value per position.
    pub open spec fn wf(&self) -> bool {
        self.data.len() == self.height * self.width
    }
}

/// The LED-position matrix of a matrix-type zone: the LED id at each grid
/// position, row-major, with `u32::MAX` marking a position with no LED.
#[derive(Debug, Clone, PartialEq, Eq)]
pub struct LedMatrix {
    height: u32,
    width: u32,
    data: Vec<u32>,
}

impl DeepView for LedMatrix {
    type V = LedMatrixV;

    closed spec fn deep_view(&self) -> LedMatrixV {
        LedMatrixV { height: self.height, width: self.width, data: self.data.deep_view() }
    }
}

impl LedMatrix {
    /// Number of rows.
    pub fn height(&self) -> (r: u32)
        ensures
            r == self.deep_view().height,
    {
        self.height
    }

    /// Number of columns.
    pub fn width(&self) -> (r: u32)
        ensures
            r == self.deep_view().width,
    {
        self.width
    }

    /// The LED id at a grid position, or `u32::MAX` for no LED.
    pub fn get(&self, row: usize, col: usize) -> (r: u32)
        requires
            self.deep_view().wf(),
            row < self.deep_view().height,
            col < self.deep_view().width,
        ensures
            r == self.deep_view().data[row * self.deep_view().width + col],
    {
        let total = self.data.len();
        proof {
            let h = self.deep_view().height as int;
            let w = self.deep_view().width as int;
            assert((row as int) * w + (col as int) < h * w) by (nonlinear_arith)
                requires
                    0 <= (row as int) < h,
                    0 <= (col as int) < w,
            ;
            assert(h * w == total);
        }
        self.data[row * self.width as usize + col]
    }
}

/// The matrix block of a zone: a 16-bit length, zero when there is no
/// matrix, else the height, width, and height-times-width LED ids.
pub open spec fn spec_dec_matrix(bytes: Seq<u8>, version: u32) -> Option<(Option<LedMatrixV>, int)> {
    if bytes.len() < 2 {
        None
    } else if le16(bytes[0], bytes[1]) == 0 {
        Some((None, 2))
    } else {
        match <(u32, u32) as DeserFromBuf>::spec_dec(bytes.skip(2), version) {
            Some(hw) => match spec_dec_n::<u32>(
                bytes.skip(2 + hw.1),
                version,
                hw.0.0 * hw.0.1,
            ) {
                Some(d) => if d.0.len() == hw.0.0 * hw.0.1 {
                    Some(
                        (
                            Some(LedMatrixV { height: hw.0.0, width: hw.0.1, data: d.0 }),
                            2 + hw.1 + d.1,
                        ),
                    )
                } else {
                    None
                },
                None => None,
            },
            None => None,
        }
    }
}

/// Decoding `n` 32-bit values needs `4 * n` bytes.
proof fn lemma_dec_n_u32_short(bytes: Seq<u8>, version: u32, n: int)
    requires
        n >= 0,
        4 * n > bytes.len(),
    ensures
        spec_dec_n::<u32>(bytes, version, n) is None,
    decreases n,
{
    if n > 0 {
        if bytes.len() >= 4 {
            lemma_dec_n_u32_short(bytes.skip(4), version, n - 1);
        }
    }
}

/// Reads the matrix block of a zone.
fn read_matrix(buf: &mut ReceivedMessage<'_>) -> (r: OpenRgbResult<Option<LedMatrix>>)
    requires
        old(buf).wf(),
    ensures
        final(buf).wf(),
        final(buf).all_bytes() == old(buf).all_bytes(),
        final(buf).spec_version() == old(buf).spec_version(),
        old(buf).spec_idx() <= final(buf).spec_idx(),
        match r {
            Ok(m) => spec_dec_matrix(old(buf).remaining(), old(buf).spec_version()) == Some(
                (m.deep_view(), final(buf).spec_idx() - old(buf).spec_idx()),
            ),
            Err(e) => {
                &&& spec_dec_matrix(old(buf).remaining(), old(buf).spec_version()) is None
                &&& e.is_protocol()
            },
        },
{
    let ghost rem0 = buf.remaining();
    let ghost start0 = buf.spec_idx();
    let matrix_len = match buf.read_u16() {
        Ok(v) => v,
        Err(e) => {
            return Err(e);
        },
    };
    if matrix_len == 0 {
        return Ok(None);
    }
    proof {
        lemma_skip_skip(buf.all_bytes(), start0, 2);
        assert(buf.remaining() == rem0.skip(2));
    }
    let ghost rem1 = buf.remaining();
    let (height, width) = match buf.read_value::<(u32, u32)>() {
        Ok(t) => t,
        Err(e) => {
            return Err(e);
        },
    };
    let ghost hw_len = buf.spec_idx() - (start0 + 2);
    proof {
        lemma_skip_skip(buf.all_bytes(), start0 + 2, hw_len);
        assert(buf.remaining() == rem1.skip(hw_len));
        lemma_skip_skip(rem0, 2, hw_len);
        assert(buf.remaining() == rem0.skip(2 + hw_len));
        vstd::arithmetic::mul::lemma_mul_upper_bound(
            height as int,
            0xFFFFFFFF,
            width as int,
            0xFFFFFFFF,
        );
    }
    let count = (height as u64) * (width as u64);
    let available = buf.available_len();
    if count > available as u64 {
        proof {
            lemma_dec_n_u32_short(
                buf.remaining(),
                buf.spec_version(),
                (height as int) * (width as int),
            );
        }
        return Err(OpenRgbError::ProtocolError(ProtocolError::Truncated));
    }
    let data = match buf.read_n_values::<u32>(count as usize) {
        Ok(v) => v,
        Err(e) => {
            return Err(e);
        },
    };
    proof {
        lemma_dec_n_len::<u32>(rem1.skip(hw_len), buf.spec_version(), count as int);
    }
    Ok(Some(LedMatrix { height, width, data }))
}

/// Ghost mirror of a [`ZoneData`]: its fields as mathematical values.
pub ghost struct ZoneDataV {
    /// Zone name.
    pub name: Seq<char>,
    /// Zone type.
    pub zone_type: ZoneType,
    /// Minimum LED count when the zone is resizable.
    pub leds_min: u32,
    /// Maximum LED count when the zone is resizable.
    pub leds_max: u32,
    /// Current LED count.
    pub leds_count: u32,
    /// LED-position matrix of a matrix-type zone.
    pub matrix: Option<LedMatrixV>,
    /// Segment list, each holding its list position; absent below protocol
    /// version 4.
    pub segments: Option<Seq<SegmentDataV>>,
    /// Zone flags; absent below protocol version 5.
    pub flags: Option<ZoneFlagSet>,
    /// Position in the controller's zone list; not on the wire, assigned
    /// after decoding, `usize::MAX` until then.
    pub id: usize,
}

/// The same segment views with list positions assigned by position.
pub open spec fn spec_with_segment_ids(s: Seq<SegmentDataV>) -> Seq<SegmentDataV> {
    Seq::new(s.len(), |j: int| SegmentDataV { id: j as usize, ..s[j] })
}

/// A zone: a named, contiguous LED range of a controller.
#[derive(Debug, Clone, PartialEq, Eq)]
pub struct ZoneData {
    name: String,
    zone_type: ZoneType,
    leds_min: u32,
    leds_max: u32,
    leds_count: u32,
    matrix: Option<LedMatrix>,
    segments: Option<Vec<SegmentData>>,
    flags: Option<ZoneFlagSet>,
    id: usize,
}

impl DeepView for ZoneData {
    type V = ZoneDataV;

    closed spec fn deep_view(&self) -> ZoneDataV {
        ZoneDataV {
            name: self.name.deep_view(),
            zone_type: self.zone_type,
            leds_min: self.leds_min,
            leds_max: self.leds_max,
            leds_count: self.leds_count,
            matrix: self.matrix.deep_view(),
            segments: self.segments.deep_view(),
            flags: self.flags.deep_view(),
            id: self.id,
        }
    }
}

impl ZoneData {
    /// Position in the controller's zone list, assigned after decoding.
    pub fn id(&self) -> (r: usize)
        ensures
            r == self.deep_view().id,
    {
        self.id
    }

    /// Records the zone's position in its controller's zone list.
    pub fn set_id(&mut self, id: usize)
        ensures
            final(self).deep_view() == (ZoneDataV { id, ..old(self).deep_view() }),
    {
        self.id = id;
    }

    /// The zone's name.
    pub fn name(&self) -> (r: &str)
        ensures
            r@ == self.deep_view().name,
    {
        self.name.as_str()
    }

    /// The zone's type.
    pub fn zone_type(&self) -> (r: ZoneType)
        ensures
            r == self.deep_view().zone_type,
    {
        self.zone_type
    }

    /// Minimum LED count when the zone is resizable.
    pub fn leds_min(&self) -> (r: usize)
        ensures
            r == self.deep_view().leds_min as usize,
    {
        self.leds_min as usize
    }

    /// Maximum LED count when the zone is resizable.
    pub fn leds_max(&self) -> (r: usize)
        ensures
            r == self.deep_view().leds_max as usize,
    {
        self.leds_max as usize
    }

    /// Current LED count.
    pub fn leds_count(&self) -> (r: usize)
        ensures
            r == self.deep_view().leds_count as usize,
    {
        self.leds_count as usize
    }

    /// The zone's segments; absent below protocol version 4.
    pub fn segments(&self) -> (r: Option<&[SegmentData]>)
        ensures
            match r {
                Some(s) => self.deep_view().segments == Some(s.deep_view()),
                None => self.deep_view().segments is None,
            },
    {
        match &self.segments {
            Some(v) => Some(v.as_slice()),
            None => None,
        }
    }

    /// The zone's flags; absent below protocol version 5.
    pub fn flags(&self) -> (r: Option<ZoneFlagSet>)
        ensures
            r == self.deep_view().flags,
    {
        self.flags
    }

    /// The LED-position matrix of a matrix-type zone.
    pub fn matrix(&self) -> (r: Option<&LedMatrix>)
        ensures
            match r {
                Some(m) => self.deep_view().matrix == Some(m.deep_view()),
                None => self.deep_view().matrix is None,
            },
    {
        match &self.matrix {
            Some(m) => Some(m),
            None => None,
        }
    }

    /// Builds a new linear segment for this zone, checking that its range
    /// fits the zone; a range that does not is a caller error naming it.
    pub fn make_segment(&self, name: &str, start_idx: u32, led_count: u32) -> (r: OpenRgbResult<
        SegmentData,
    >)
        ensures
            start_idx + led_count <= self.deep_view().leds_count ==> (r matches Ok(s)
                && s.deep_view() == (SegmentDataV {
                name: name@,
                seg_type: ZoneType::Linear,
                start_idx,
                led_count,
                id: usize::MAX,
            })),
            start_idx + led_count > self.deep_view().leds_count ==> (r matches Err(e) && e
                == OpenRgbError::CommandError(CommandError::SegmentRange {
                start_idx: start_idx as usize,
                led_count: led_count as usize,
                zone_leds: self.deep_view().leds_count as usize,
            })),
    {
        if start_idx as u64 + led_count as u64 > self.leds_count as u64 {
            return Err(
                OpenRgbError::CommandError(
                    CommandError::SegmentRange {
                        start_idx: start_idx as usize,
                        led_count: led_count as usize,
                        zone_leds: self.leds_count as usize,
                    },
                ),
            );
        }
        Ok(SegmentData::new(name, start_idx, led_count))
    }

    /// The segment with the given list position: a missing list is a caller
    /// error naming the version gate, a bad position one naming the ids.
    pub fn get_segment(&self, segment_id: usize) -> (r: OpenRgbResult<&SegmentData>)
        ensures
            match r {
                Ok(s) => {
                    &&& self.deep_view().segments matches Some(segs)
                    &&& segment_id < segs.len()
                    &&& s.deep_view() == segs[segment_id as int]
                },
                Err(e) => match self.deep_view().segments {
                    Some(segs) => segment_id >= segs.len() && e == OpenRgbError::CommandError(
                        CommandError::SegmentNotFound { zone_id: self.deep_view().id, segment_id },
                    ),
                    None => e == OpenRgbError::CommandError(CommandError::SegmentsUnsupported),
                },
            },
    {
        match &self.segments {
            Some(segs) => {
                if segment_id < segs.len() {
                    Ok(&segs[segment_id])
                } else {
                    Err(
                        OpenRgbError::CommandError(
                            CommandError::SegmentNotFound { zone_id: self.id, segment_id },
                        ),
                    )
                }
            },
            None => Err(OpenRgbError::CommandError(CommandError::SegmentsUnsupported)),
        }
    }
}

impl DeserFromBuf for ZoneData {
    open spec fn spec_dec(bytes: Seq<u8>, version: u32) -> Option<(ZoneDataV, int)> {
        match <ZonePrefix as DeserFromBuf>::spec_dec(bytes, version) {
            Some(p) => match spec_dec_matrix(bytes.skip(p.1), version) {
                Some(m) => match <(ProtocolOption<4, Vec<SegmentData>>, ProtocolOption<
                    5,
                    ZoneFlagSet,
                >) as DeserFromBuf>::spec_dec(bytes.skip(p.1 + m.1), version) {
                    Some(t) => Some(
                        (
                            ZoneDataV {
                                name: p.0.0,
                                zone_type: p.0.1.0,
                                leds_min: p.0.1.1.0,
                                leds_max: p.0.1.1.1.0,
                                leds_count: p.0.1.1.1.1,
                                matrix: m.0,
                                segments: match t.0.0 {
                                    Some(raw) => Some(spec_with_segment_ids(raw)),
                                    None => None,
                                },
                                flags: t.0.1,
                                id: usize::MAX,
                            },
                            p.1 + m.1 + t.1,
                        ),
                    ),
                    None => None,
                },
                None => None,
            },
            None => None,
        }
    }

    proof fn lemma_dec_len(bytes: Seq<u8>, version: u32) {
        if let Some(p) = <ZonePrefix as DeserFromBuf>::spec_dec(bytes, version) {
            <ZonePrefix as DeserFromBuf>::lemma_dec_len(bytes, version);
            if let Some(m) = spec_dec_matrix(bytes.skip(p.1), version) {
                lemma_dec_matrix_len(bytes.skip(p.1), version);
                <(ProtocolOption<4, Vec<SegmentData>>, ProtocolOption<
                    5,
                    ZoneFlagSet,
                >) as DeserFromBuf>::lemma_dec_len(bytes.skip(p.1 + m.1), version);
                lemma_skip_skip(bytes, p.1, m.1);
            }
        }
    }

    proof fn lemma_dec_extend(bytes: Seq<u8>, bytes2: Seq<u8>, version: u32) {
        let p = <ZonePrefix as DeserFromBuf>::spec_dec(bytes, version)->Some_0;
        <ZonePrefix as DeserFromBuf>::lemma_dec_len(bytes, version);
        <ZonePrefix as DeserFromBuf>::lemma_dec_extend(bytes, bytes2, version);
        crate::sequence::lemma_skip_of_prefix(bytes, bytes2, p.1);
        let m = spec_dec_matrix(bytes.skip(p.1), version)->Some_0;
        lemma_dec_matrix_len(bytes.skip(p.1), version);
        lemma_dec_matrix_extend(bytes.skip(p.1), bytes2.skip(p.1), version);
        crate::sequence::lemma_skip_of_prefix(bytes, bytes2, p.1 + m.1);
        lemma_skip_skip(bytes, p.1, m.1);
        lemma_skip_skip(bytes2, p.1, m.1);
        <(ProtocolOption<4, Vec<SegmentData>>, ProtocolOption<
            5,
            ZoneFlagSet,
        >) as DeserFromBuf>::lemma_dec_extend(bytes.skip(p.1 + m.1), bytes2.skip(p.1 + m.1), version);
    }

    #[verifier::rlimit(100)]
    fn deserialize(buf: &mut ReceivedMessage<'_>) -> (r: OpenRgbResult<ZoneData>) {
        let ghost rem0 = buf.remaining();
        let ghost start0 = buf.spec_idx();
        let (name, (zone_type, (leds_min, (leds_max, leds_count)))) = match buf.read_value::<
            ZonePrefix,
        >() {
            Ok(t) => t,
            Err(e) => {
                return Err(e);
            },
        };
        let ghost n_prefix = buf.spec_idx() - start0;
        proof {
            lemma_skip_skip(buf.all_bytes(), start0, n_prefix);
            assert(buf.remaining() == rem0.skip(n_prefix));
        }
        let matrix = match read_matrix(buf) {
            Ok(m) => m,
            Err(e) => {
                return Err(e);
            },
        };
        let ghost n_matrix = buf.spec_idx() - (start0 + n_prefix);
        proof {
            lemma_skip_skip(buf.all_bytes(), start0 + n_prefix, n_matrix);
            assert(buf.remaining() == rem0.skip(n_prefix).skip(n_matrix));
            lemma_skip_skip(rem0, n_prefix, n_matrix);
        }
        let (segments_raw, flags_po) = match buf.read_value::<(ProtocolOption<
            4,
            Vec<SegmentData>,
        >, ProtocolOption<5, ZoneFlagSet>)>() {
            Ok(t) => t,
            Err(e) => {
                return Err(e);
            },
        };
        let segments = match segments_raw {
            ProtocolOption::Value(raw) => Some(assign_segment_ids(raw)),
            ProtocolOption::UnsupportedVersion => None,
        };
        let flags = match flags_po {
            ProtocolOption::Value(f) => Some(f),
            ProtocolOption::UnsupportedVersion => None,
        };
        Ok(
            ZoneData {
                name,
                zone_type,
                leds_min,
                leds_max,
                leds_count,
                matrix,
                segments,
                flags,
                id: usize::MAX,
            },
        )
    }
}

/// Decoding a matrix block consumes between two bytes and the whole buffer.
proof fn lemma_dec_matrix_len(bytes: Seq<u8>, version: u32)
    ensures
        spec_dec_matrix(bytes, version) matches Some(d) ==> 0 <= d.1 <= bytes.len(),
{
    if bytes.len() >= 2 && le16(bytes[0], bytes[1]) != 0 {
        if let Some(hw) = <(u32, u32) as DeserFromBuf>::spec_dec(bytes.skip(2), version) {
            <(u32, u32) as DeserFromBuf>::lemma_dec_len(bytes.skip(2), version);
            lemma_dec_n_len::<u32>(bytes.skip(2 + hw.1), version, hw.0.0 * hw.0.1);
            lemma_skip_skip(bytes, 2, hw.1);
        }
    }
}

/// Extending the buffer behind a successful matrix-block decode changes
/// nothing.
proof fn lemma_dec_matrix_extend(bytes: Seq<u8>, bytes2: Seq<u8>, version: u32)
    requires
        spec_dec_matrix(bytes, version) is Some,
        bytes.len() <= bytes2.len(),
        bytes2.take(bytes.len() as int) == bytes,
    ensures
        spec_dec_matrix(bytes2, version) == spec_dec_matrix(bytes, version),
{
    assert(bytes2[0] == bytes.take(bytes.len() as int)[0]);
    assert(bytes2[1] == bytes.take(bytes.len() as int)[1]);
    if le16(bytes[0], bytes[1]) != 0 {
        let hw = <(u32, u32) as DeserFromBuf>::spec_dec(bytes.skip(2), version)->Some_0;
        <(u32, u32) as DeserFromBuf>::lemma_dec_len(bytes.skip(2), version);
        crate::sequence::lemma_skip_of_prefix(bytes, bytes2, 2);
        <(u32, u32) as DeserFromBuf>::lemma_dec_extend(bytes.skip(2), bytes2.skip(2), version);
        lemma_dec_n_len::<u32>(bytes.skip(2 + hw.1), version, hw.0.0 * hw.0.1);
        lemma_skip_skip(bytes, 2, hw.1);
        lemma_skip_skip(bytes2, 2, hw.1);
        crate::sequence::lemma_skip_of_prefix(bytes, bytes2, 2 + hw.1);
        crate::sequence::lemma_dec_n_extend::<u32>(
            bytes.skip(2 + hw.1),
            bytes2.skip(2 + hw.1),
            version,
            hw.0.0 * hw.0.1,
        );
    }
}

/// Stamps each segment with its position in the list.
fn assign_segment_ids(raw: Vec<SegmentData>) -> (r: Vec<SegmentData>)
    ensures
        r.deep_view() == spec_with_segment_ids(raw.deep_view()),
{
    let ghost rawv = raw.deep_view();
    let mut rest = raw;
    let n = rest.len();
    let mut out: Vec<SegmentData> = Vec::with_capacity(n);
    while rest.len() > 0
        invariant
            out.len() + rest.len() == n,
            n == rawv.len(),
            rest.deep_view() == rawv.skip(out.len() as int),
            forall|j: int| 0 <= j < out.len() ==> out.deep_view()[j] == spec_with_segment_ids(
                rawv,
            )[j],
        decreases rest.len(),
    {
        let ghost prevseq = rest@;
        let ghost prevout = out@;
        let ghost k = out.len() as int;
        let mut seg = rest.remove(0);
        proof {
            assert(seg.deep_view() == rawv.skip(k)[0]);
        }
        seg.set_id(out.len());
        out.push(seg);
        proof {
            assert forall|j: int| 0 <= j < rest@.len() implies rest.deep_view()[j] == rawv[k + 1
                + j] by {
                assert(rest@[j] == prevseq[j + 1]);
                assert(prevseq[j + 1].deep_view() == rawv.skip(k)[j + 1]);
            }
            assert(rest.deep_view() =~= rawv.skip(k + 1));
            assert(out.deep_view()[k] == (SegmentDataV { id: k as usize, ..rawv[k] }));
            assert forall|j: int| 0 <= j <= k implies out.deep_view()[j] == spec_with_segment_ids(
                rawv,
            )[j] by {
                if j < k {
                    assert(out@[j] == prevout[j]);
                    assert(out.deep_view()[j] == prevout[j].deep_view());
                }
            }
        }
    }
    proof {
        assert(out.deep_view() =~= spec_with_segment_ids(rawv));
    }
    out
}

} // verus!

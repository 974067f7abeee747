//! Controller data: the full snapshot of one RGB device — identity strings,
//! modes, zones, LED descriptors and current colors. Controllers are read
//! from the server and never written back whole.
//!
//! Two values are not on the wire and are assigned right after decoding: the
//! list position of each mode and zone, and the controller's total LED
//! count, the sum of its zones' LED counts (which is not the length of the
//! raw LED descriptor list).

use vstd::prelude::*;

use crate::codec::{DeserFromBuf, ReceivedMessage};
use crate::color::Color;
use crate::data::{Led, LedV};
use crate::enums::DeviceType;
use crate::error::{CommandError, OpenRgbError, OpenRgbResult, ProtocolError};
use crate::flags::ControllerFlagSet;
use crate::mode::{ModeData, ModeDataV};
use crate::protocol_option::ProtocolOption;
use crate::sequence::{lemma_skip_skip, spec_dec_n};
use crate::zone::{ZoneData, ZoneDataV};

verus! {

/// The wire shape of a controller up to the mode count and active mode:
/// ignored data size, device type, six identity strings, mode count, active
/// mode index.
type ControllerPrefix = (u32, (DeviceType, (String, (String, (String, (String, (String, (String, (
    u16,
    i32,
)))))))));

/// The wire shape of a controller behind the zones: LED descriptors, current
/// colors, alternate LED names (protocol version 5), controller flags
/// (protocol version 5).
type ControllerSuffix = (Vec<Led>, (Vec<Color>, (ProtocolOption<5, Vec<String>>, ProtocolOption<
    5,
    ControllerFlagSet,
>)));

/// The same mode views with list positions assigned by position.
pub open spec fn spec_with_mode_ids(s: Seq<ModeDataV>) -> Seq<ModeDataV> {
    Seq::new(s.len(), |j: int| ModeDataV { id: j as u32, ..s[j] })
}

/// The same zone views with list positions assigned by position.
pub open spec fn spec_with_zone_ids(s: Seq<ZoneDataV>) -> Seq<ZoneDataV> {
    Seq::new(s.len(), |j: int| ZoneDataV { id: j as usize, ..s[j] })
}

/// The sum of the zones' LED counts.
pub open spec fn spec_led_sum(zones: Seq<ZoneDataV>) -> int
    decreases zones.len(),
{
    if zones.len() <= 0 {
        0
    } else {
        spec_led_sum(zones.drop_last()) + zones.last().leds_count
    }
}

/// The LED sum of a prefix never exceeds the LED sum of a longer prefix.
pub proof fn lemma_led_sum_monotone(zones: Seq<ZoneDataV>, i: int, j: int)
    requires
        0 <= i <= j <= zones.len(),
    ensures
        spec_led_sum(zones.take(i)) <= spec_led_sum(zones.take(j)),
    decreases j - i,
{
    if i < j {
        lemma_led_sum_monotone(zones, i, j - 1);
        assert(zones.take(j).drop_last() =~= zones.take(j - 1));
        assert(spec_led_sum(zones.take(j)) == spec_led_sum(zones.take(j - 1))
            + zones.take(j).last().leds_count);
    }
}

/// One more zone adds its LED count to the prefix sum.
pub proof fn lemma_led_sum_step(zones: Seq<ZoneDataV>, i: int)
    requires
        0 <= i < zones.len(),
    ensures
        spec_led_sum(zones.take(i + 1)) == spec_led_sum(zones.take(i)) + zones[i].leds_count,
{
    assert(zones.take(i + 1).drop_last() =~= zones.take(i));
}

/// Ghost mirror of a [`ControllerData`]: its fields as mathematical values.
pub ghost struct ControllerDataV {
    /// Device type.
    pub device_type: DeviceType,
    /// Device name.
    pub name: Seq<char>,
    /// Vendor name.
    pub vendor: Seq<char>,
    /// Device description.
    pub description: Seq<char>,
    /// Firmware version string.
    pub version: Seq<char>,
    /// Serial string.
    pub serial: Seq<char>,
    /// Device location string.
    pub location: Seq<char>,
    /// Index of the currently active mode.
    pub active_mode: i32,
    /// The device's modes, each holding its list position.
    pub modes: Seq<ModeDataV>,
    /// The device's zones, each holding its list position.
    pub zones: Seq<ZoneDataV>,
    /// Raw LED descriptors.
    pub leds: Seq<LedV>,
    /// Current colors.
    pub colors: Seq<Color>,
    /// Alternate LED names; absent below protocol version 5.
    pub led_alt_names: Option<Seq<Seq<char>>>,
    /// Controller flags; absent below protocol version 5.
    pub flags: Option<ControllerFlagSet>,
    /// The id the controller was requested under; not on the wire,
    /// `u32::MAX` until assigned.
    pub id: u32,
    /// Sum of the zones' LED counts.
    pub num_leds: usize,
}

/// One RGB device as reported by the server.
#[derive(Debug, PartialEq, Eq)]
pub struct ControllerData {
    device_type: DeviceType,
    name: String,
    vendor: String,
    description: String,
    version: String,
    serial: String,
    location: String,
    active_mode: i32,
    modes: Vec<ModeData>,
    zones: Vec<ZoneData>,
    leds: Vec<Led>,
    colors: Vec<Color>,
    led_alt_names: Option<Vec<String>>,
    flags: Option<ControllerFlagSet>,
    id: u32,
    num_leds: usize,
}

impl DeepView for ControllerData {
    type V = ControllerDataV;

    closed spec fn deep_view(&self) -> ControllerDataV {
        ControllerDataV {
            device_type: self.device_type,
            name: self.name.deep_view(),
            vendor: self.vendor.deep_view(),
            description: self.description.deep_view(),
            version: self.version.deep_view(),
            serial: self.serial.deep_view(),
            location: self.location.deep_view(),
            active_mode: self.active_mode,
            modes: self.modes.deep_view(),
            zones: self.zones.deep_view(),
            leds: self.leds.deep_view(),
            colors: self.colors.deep_view(),
            led_alt_names: self.led_alt_names.deep_view(),
            flags: self.flags.deep_view(),
            id: self.id,
            num_leds: self.num_leds,
        }
    }
}

impl ControllerData {
    /// The controller's name.
    pub fn name(&self) -> (r: &str)
        ensures
            r@ == self.deep_view().name,
    {
        self.name.as_str()
    }

    /// The id the controller was requested under.
    pub fn id(&self) -> (r: u32)
        ensures
            r == self.deep_view().id,
    {
        self.id
    }

    /// Records the id the controller was requested under, which is not part
    /// of the wire payload.
    pub fn set_id(&mut self, id: u32)
        ensures
            final(self).deep_view() == (ControllerDataV { id, ..old(self).deep_view() }),
    {
        proof {
            use_type_invariant(&*self);
        }
        self.id = id;
    }

    /// The controller's device type.
    pub fn device_type(&self) -> (r: DeviceType)
        ensures
            r == self.deep_view().device_type,
    {
        self.device_type
    }

    /// The vendor name.
    pub fn vendor(&self) -> (r: &str)
        ensures
            r@ == self.deep_view().vendor,
    {
        self.vendor.as_str()
    }

    /// The device description.
    pub fn description(&self) -> (r: &str)
        ensures
            r@ == self.deep_view().description,
    {
        self.description.as_str()
    }

    /// The firmware version string.
    pub fn version(&self) -> (r: &str)
        ensures
            r@ == self.deep_view().version,
    {
        self.version.as_str()
    }

    /// The serial string.
    pub fn serial(&self) -> (r: &str)
        ensures
            r@ == self.deep_view().serial,
    {
        self.serial.as_str()
    }

    /// The device location string.
    pub fn location(&self) -> (r: &str)
        ensures
            r@ == self.deep_view().location,
    {
        self.location.as_str()
    }

    /// Index of the currently active mode, as the server reported it.
    pub fn active_mode_index(&self) -> (r: i32)
        ensures
            r == self.deep_view().active_mode,
    {
        self.active_mode
    }

    /// The currently active mode, when the reported index is in range.
    pub fn active_mode(&self) -> (r: Option<&ModeData>)
        ensures
            match r {
                Some(m) => {
                    &&& 0 <= self.deep_view().active_mode < self.deep_view().modes.len()
                    &&& m.deep_view() == self.deep_view().modes[self.deep_view().active_mode as int]
                },
                None => !(0 <= self.deep_view().active_mode < self.deep_view().modes.len()),
            },
    {
        if self.active_mode >= 0 && (self.active_mode as usize) < self.modes.len() {
            Some(&self.modes[self.active_mode as usize])
        } else {
            None
        }
    }

    /// The controller's modes.
    pub fn modes(&self) -> (r: &[ModeData])
        ensures
            r.deep_view() == self.deep_view().modes,
    {
        self.modes.as_slice()
    }

    /// The controller's zones.
    pub fn zones(&self) -> (r: &[ZoneData])
        ensures
            r.deep_view() == self.deep_view().zones,
    {
        self.zones.as_slice()
    }

    /// The raw LED descriptors.
    pub fn leds(&self) -> (r: &[Led])
        ensures
            r.deep_view() == self.deep_view().leds,
    {
        self.leds.as_slice()
    }

    /// The current colors.
    pub fn colors(&self) -> (r: &[Color])
        ensures
            r@ == self.deep_view().colors,
    {
        self.colors.as_slice()
    }

    /// Sum of the zones' LED counts; not necessarily the length of the raw
    /// LED descriptor list.
    pub fn num_leds(&self) -> (r: usize)
        ensures
            r == self.deep_view().num_leds,
            r == spec_led_sum(self.deep_view().zones),
    {
        proof {
            use_type_invariant(self);
        }
        self.num_leds
    }

    /// Alternate LED names; absent below protocol version 5.
    pub fn led_alt_names(&self) -> (r: Option<&[String]>)
        ensures
            match r {
                Some(s) => self.deep_view().led_alt_names == Some(s.deep_view()),
                None => self.deep_view().led_alt_names is None,
            },
    {
        match &self.led_alt_names {
            Some(v) => Some(v.as_slice()),
            None => None,
        }
    }

    /// Controller flags; absent below protocol version 5.
    pub fn flags(&self) -> (r: Option<ControllerFlagSet>)
        ensures
            r == self.deep_view().flags,
    {
        self.flags
    }

    /// The zone with the given list position, or a caller error naming it.
    pub fn get_zone(&self, zone_id: usize) -> (r: OpenRgbResult<&ZoneData>)
        ensures
            match r {
                Ok(z) => zone_id < self.deep_view().zones.len() && z.deep_view()
                    == self.deep_view().zones[zone_id as int],
                Err(e) => zone_id >= self.deep_view().zones.len() && e
                    == OpenRgbError::CommandError(CommandError::ZoneNotFound { zone_id }),
            },
    {
        if zone_id < self.zones.len() {
            Ok(&self.zones[zone_id])
        } else {
            Err(OpenRgbError::CommandError(CommandError::ZoneNotFound { zone_id }))
        }
    }

    /// The absolute LED offset of a zone: the sum of the LED counts of all
    /// zones with a lower list position.
    pub fn get_zone_led_offset(&self, zone_id: usize) -> (r: OpenRgbResult<usize>)
        ensures
            self.deep_view().num_leds == spec_led_sum(self.deep_view().zones),
            match r {
                Ok(off) => zone_id < self.deep_view().zones.len() && off == spec_led_sum(
                    self.deep_view().zones.take(zone_id as int),
                ) && off <= self.deep_view().num_leds,
                Err(e) => zone_id >= self.deep_view().zones.len() && e
                    == OpenRgbError::CommandError(CommandError::ZoneNotFound { zone_id }),
            },
    {
        proof {
            use_type_invariant(self);
        }
        if zone_id >= self.zones.len() {
            return Err(OpenRgbError::CommandError(CommandError::ZoneNotFound { zone_id }));
        }
        let ghost zv = self.deep_view().zones;
        let mut offset: usize = 0;
        let mut i: usize = 0;
        while i < zone_id
            invariant
                i <= zone_id < zv.len(),
                zv == self.deep_view().zones,
                self.deep_view().num_leds == spec_led_sum(zv),
                zv.len() == self.zones.len(),
                offset == spec_led_sum(zv.take(i as int)),
                offset <= self.deep_view().num_leds,
            decreases zone_id - i,
        {
            proof {
                assert(zv.take(i + 1).drop_last() =~= zv.take(i as int));
                lemma_led_sum_monotone(zv, i + 1, zv.len() as int);
                assert(zv.take(zv.len() as int) =~= zv);
            }
            offset = offset + self.zones[i].leds_count();
            i = i + 1;
        }
        Ok(offset)
    }

    /// The active mode, when it may be saved to the device: a controller
    /// without an active mode, or whose active mode lacks the manual-save
    /// capability, is a caller error.
    pub fn savable_mode(&self) -> (r: OpenRgbResult<&ModeData>)
        ensures
            match r {
                Ok(m) => {
                    &&& 0 <= self.deep_view().active_mode < self.deep_view().modes.len()
                    &&& m.deep_view() == self.deep_view().modes[self.deep_view().active_mode as int]
                    &&& m.deep_view().flags.spec_contains(crate::flags::ModeFlag::ManualSave)
                },
                Err(e) => {
                    if !(0 <= self.deep_view().active_mode < self.deep_view().modes.len()) {
                        e == OpenRgbError::CommandError(CommandError::NoActiveMode)
                    } else {
                        !self.deep_view().modes[self.deep_view().active_mode as int].flags.spec_contains(
                            crate::flags::ModeFlag::ManualSave,
                        ) && e == OpenRgbError::CommandError(CommandError::ModeNotSavable)
                    }
                },
            },
    {
        let m = match self.active_mode() {
            Some(m) => m,
            None => {
                return Err(OpenRgbError::CommandError(CommandError::NoActiveMode));
            },
        };
        if !m.flags().contains(crate::flags::ModeFlag::ManualSave) {
            return Err(OpenRgbError::CommandError(CommandError::ModeNotSavable));
        }
        Ok(m)
    }

    /// The stored total LED count is the sum of the zones' LED counts;
    /// decoding establishes this and every method keeps it.
    #[verifier::type_invariant]
    closed spec fn zones_wf(self) -> bool {
        self.num_leds == spec_led_sum(self.zones.deep_view())
    }
}

/// Stamps each mode with its position in the list.
fn assign_mode_ids(raw: Vec<ModeData>) -> (r: Vec<ModeData>)
    requires
        raw.deep_view().len() <= u32::MAX,
    ensures
        r.deep_view() == spec_with_mode_ids(raw.deep_view()),
{
    let ghost rawv = raw.deep_view();
    let mut rest = raw;
    let n = rest.len();
    let mut out: Vec<ModeData> = Vec::with_capacity(n);
    while rest.len() > 0
        invariant
            out.len() + rest.len() == n,
            n == rawv.len(),
            n <= u32::MAX,
            rest.deep_view() == rawv.skip(out.len() as int),
            forall|j: int| 0 <= j < out.len() ==> out.deep_view()[j] == spec_with_mode_ids(
                rawv,
            )[j],
        decreases rest.len(),
    {
        let ghost prevseq = rest@;
        let ghost prevout = out@;
        let ghost k = out.len() as int;
        let mut m = rest.remove(0);
        proof {
            assert(m.deep_view() == rawv.skip(k)[0]);
        }
        m.set_id(out.len());
        out.push(m);
        proof {
            assert forall|j: int| 0 <= j < rest@.len() implies rest.deep_view()[j] == rawv[k + 1
                + j] by {
                assert(rest@[j] == prevseq[j + 1]);
                assert(prevseq[j + 1].deep_view() == rawv.skip(k)[j + 1]);
            }
            assert(rest.deep_view() =~= rawv.skip(k + 1));
            assert(out.deep_view()[k] == (ModeDataV { id: k as u32, ..rawv[k] }));
            assert forall|j: int| 0 <= j <= k implies out.deep_view()[j] == spec_with_mode_ids(
                rawv,
            )[j] by {
                if j < k {
                    assert(out@[j] == prevout[j]);
                    assert(out.deep_view()[j] == prevout[j].deep_view());
                }
            }
        }
    }
    proof {
        assert(out.deep_view() =~= spec_with_mode_ids(rawv));
    }
    out
}

/// Stamps each zone with its position in the list.
fn assign_zone_ids(raw: Vec<ZoneData>) -> (r: Vec<ZoneData>)
    ensures
        r.deep_view() == spec_with_zone_ids(raw.deep_view()),
{
    let ghost rawv = raw.deep_view();
    let mut rest = raw;
    let n = rest.len();
    let mut out: Vec<ZoneData> = Vec::with_capacity(n);
    while rest.len() > 0
        invariant
            out.len() + rest.len() == n,
            n == rawv.len(),
            rest.deep_view() == rawv.skip(out.len() as int),
            forall|j: int| 0 <= j < out.len() ==> out.deep_view()[j] == spec_with_zone_ids(
                rawv,
            )[j],
        decreases rest.len(),
    {
        let ghost prevseq = rest@;
        let ghost prevout = out@;
        let ghost k = out.len() as int;
        let mut z = rest.remove(0);
        proof {
            assert(z.deep_view() == rawv.skip(k)[0]);
        }
        z.set_id(out.len());
        out.push(z);
        proof {
            assert forall|j: int| 0 <= j < rest@.len() implies rest.deep_view()[j] == rawv[k + 1
                + j] by {
                assert(rest@[j] == prevseq[j + 1]);
                assert(prevseq[j + 1].deep_view() == rawv.skip(k)[j + 1]);
            }
            assert(rest.deep_view() =~= rawv.skip(k + 1));
            assert(out.deep_view()[k] == (ZoneDataV { id: k as usize, ..rawv[k] }));
            assert forall|j: int| 0 <= j <= k implies out.deep_view()[j] == spec_with_zone_ids(
                rawv,
            )[j] by {
                if j < k {
                    assert(out@[j] == prevout[j]);
                    assert(out.deep_view()[j] == prevout[j].deep_view());
                }
            }
        }
    }
    proof {
        assert(out.deep_view() =~= spec_with_zone_ids(rawv));
    }
    out
}

/// Sums the zones' LED counts, or reports that the sum does not fit the
/// machine's index type.
fn sum_zone_leds(zones: &Vec<ZoneData>) -> (r: OpenRgbResult<usize>)
    ensures
        match r {
            Ok(total) => total == spec_led_sum(zones.deep_view()) && spec_led_sum(
                zones.deep_view(),
            ) <= usize::MAX,
            Err(e) => spec_led_sum(zones.deep_view()) > usize::MAX && e
                == OpenRgbError::ProtocolError(ProtocolError::LedCountOverflow),
        },
{
    let ghost zv = zones.deep_view();
    let mut total: usize = 0;
    let mut i: usize = 0;
    while i < zones.len()
        invariant
            i <= zones.len(),
            zv == zones.deep_view(),
            zv.len() == zones.len(),
            total == spec_led_sum(zv.take(i as int)),
        decreases zones.len() - i,
    {
        proof {
            assert(zv.take(i + 1).drop_last() =~= zv.take(i as int));
        }
        let count = zones[i].leds_count();
        if usize::MAX - total < count {
            proof {
                lemma_led_sum_monotone(zv, i + 1, zv.len() as int);
                assert(zv.take(zv.len() as int) =~= zv);
            }
            return Err(OpenRgbError::ProtocolError(ProtocolError::LedCountOverflow));
        }
        total = total + count;
        i = i + 1;
    }
    proof {
        assert(zv.take(zv.len() as int) =~= zv);
    }
    Ok(total)
}


/// The identity fields of a controller, read before its mode list.
struct PrefixFields {
    data_size: u32,
    device_type: DeviceType,
    name: String,
    vendor: String,
    description: String,
    version: String,
    serial: String,
    location: String,
    num_modes: u16,
    active_mode: i32,
}

impl PrefixFields {
    /// The nested wire view of these fields.
    spec fn wire_view(&self) -> <ControllerPrefix as DeepView>::V {
        (
            self.data_size,
            (
                self.device_type,
                (
                    self.name.deep_view(),
                    (
                        self.vendor.deep_view(),
                        (
                            self.description.deep_view(),
                            (
                                self.version.deep_view(),
                                (
                                    self.serial.deep_view(),
                                    (
                                        self.location.deep_view(),
                                        (self.num_modes, self.active_mode),
                                    ),
                                ),
                            ),
                        ),
                    ),
                ),
            ),
        )
    }
}

/// Reads the identity fields of a controller.
#[verifier::spinoff_prover]
fn read_controller_prefix(buf: &mut ReceivedMessage<'_>) -> (r: OpenRgbResult<PrefixFields>)
    requires
        old(buf).wf(),
    ensures
        final(buf).wf(),
        final(buf).all_bytes() == old(buf).all_bytes(),
        final(buf).spec_version() == old(buf).spec_version(),
        old(buf).spec_idx() <= final(buf).spec_idx(),
        match r {
            Ok(f) => <ControllerPrefix as DeserFromBuf>::spec_dec(
                old(buf).remaining(),
                old(buf).spec_version(),
            ) == Some((f.wire_view(), final(buf).spec_idx() - old(buf).spec_idx())),
            Err(e) => {
                &&& <ControllerPrefix as DeserFromBuf>::spec_dec(
                    old(buf).remaining(),
                    old(buf).spec_version(),
                ) is None
                &&& e.is_protocol()
            },
        },
{
    let (data_size, (device_type, (name, (vendor, (description, (version, (serial, (location, (
        num_modes,
        active_mode,
    ))))))))) = match buf.read_value::<ControllerPrefix>() {
        Ok(t) => t,
        Err(e) => {
            return Err(e);
        },
    };
    let f = PrefixFields {
        data_size,
        device_type,
        name,
        vendor,
        description,
        version,
        serial,
        location,
        num_modes,
        active_mode,
    };
    proof {
        assert(f.wire_view() == (
            data_size,
            (
                device_type,
                (
                    name.deep_view(),
                    (
                        vendor.deep_view(),
                        (
                            description.deep_view(),
                            (
                                version.deep_view(),
                                (
                                    serial.deep_view(),
                                    (location.deep_view(), (num_modes, active_mode)),
                                ),
                            ),
                        ),
                    ),
                ),
            ),
        ));
    }
    Ok(f)
}


/// Reads a controller's mode list — `n` modes with no length prefix — and
/// stamps each with its list position.
#[verifier::spinoff_prover]
fn read_controller_modes(buf: &mut ReceivedMessage<'_>, n: u16) -> (r: OpenRgbResult<
    Vec<ModeData>,
>)
    requires
        old(buf).wf(),
    ensures
        final(buf).wf(),
        final(buf).all_bytes() == old(buf).all_bytes(),
        final(buf).spec_version() == old(buf).spec_version(),
        old(buf).spec_idx() <= final(buf).spec_idx(),
        match r {
            Ok(v) => spec_dec_n::<ModeData>(old(buf).remaining(), old(buf).spec_version(), n as int)
                matches Some(d) && v.deep_view() == spec_with_mode_ids(d.0) && d.1 == final(buf).spec_idx() - old(buf).spec_idx(),
            Err(e) => {
                &&& spec_dec_n::<ModeData>(
                    old(buf).remaining(),
                    old(buf).spec_version(),
                    n as int,
                ) is None
                &&& e.is_protocol()
            },
        },
{
    let raw = match buf.read_n_values::<ModeData>(n as usize) {
        Ok(v) => v,
        Err(e) => {
            return Err(e);
        },
    };
    proof {
        crate::sequence::lemma_dec_n_len::<ModeData>(
            old(buf).remaining(),
            old(buf).spec_version(),
            n as int,
        );
    }
    Ok(assign_mode_ids(raw))
}

/// Reads a controller's zone list and stamps each zone with its list
/// position.
#[verifier::spinoff_prover]
fn read_controller_zones(buf: &mut ReceivedMessage<'_>) -> (r: OpenRgbResult<Vec<ZoneData>>)
    requires
        old(buf).wf(),
    ensures
        final(buf).wf(),
        final(buf).all_bytes() == old(buf).all_bytes(),
        final(buf).spec_version() == old(buf).spec_version(),
        old(buf).spec_idx() <= final(buf).spec_idx(),
        match r {
            Ok(v) => <Vec<ZoneData> as DeserFromBuf>::spec_dec(
                old(buf).remaining(),
                old(buf).spec_version(),
            ) matches Some(d) && v.deep_view() == spec_with_zone_ids(d.0) && d.1 == final(buf).spec_idx() - old(buf).spec_idx(),
            Err(e) => {
                &&& <Vec<ZoneData> as DeserFromBuf>::spec_dec(
                    old(buf).remaining(),
                    old(buf).spec_version(),
                ) is None
                &&& e.is_protocol()
            },
        },
{
    let raw = match buf.read_value::<Vec<ZoneData>>() {
        Ok(v) => v,
        Err(e) => {
            return Err(e);
        },
    };
    Ok(assign_zone_ids(raw))
}


/// A controller fails to decode when its prefix, its mode list or its zone
/// list fails to decode.
#[verifier::rlimit(100)]
#[verifier::spinoff_prover]
proof fn lemma_controller_dec_none(bytes: Seq<u8>, ver: u32)
    requires
        match <ControllerPrefix as DeserFromBuf>::spec_dec(bytes, ver) {
            None => true,
            Some(p) => match spec_dec_n::<ModeData>(
                bytes.skip(p.1),
                ver,
                p.0.1.1.1.1.1.1.1.1.0 as int,
            ) {
                None => true,
                Some(m) => <Vec<ZoneData> as DeserFromBuf>::spec_dec(
                    bytes.skip(p.1 + m.1),
                    ver,
                ) is None,
            },
        },
    ensures
        <ControllerData as DeserFromBuf>::spec_dec(bytes, ver) is None,
{
}

impl DeserFromBuf for ControllerData {
    open spec fn spec_dec(bytes: Seq<u8>, version: u32) -> Option<(ControllerDataV, int)> {
        match <ControllerPrefix as DeserFromBuf>::spec_dec(bytes, version) {
            Some(p) => match spec_dec_n::<ModeData>(
                bytes.skip(p.1),
                version,
                p.0.1.1.1.1.1.1.1.1.0 as int,
            ) {
                Some(m) => match <Vec<ZoneData> as DeserFromBuf>::spec_dec(
                    bytes.skip(p.1 + m.1),
                    version,
                ) {
                    Some(z) => match <ControllerSuffix as DeserFromBuf>::spec_dec(
                        bytes.skip(p.1 + m.1 + z.1),
                        version,
                    ) {
                        Some(s) => {
                            let zones = spec_with_zone_ids(z.0);
                            if spec_led_sum(zones) <= usize::MAX {
                                Some(
                                    (
                                        ControllerDataV {
                                            device_type: p.0.1.0,
                                            name: p.0.1.1.0,
                                            vendor: p.0.1.1.1.0,
                                            description: p.0.1.1.1.1.0,
                                            version: p.0.1.1.1.1.1.0,
                                            serial: p.0.1.1.1.1.1.1.0,
                                            location: p.0.1.1.1.1.1.1.1.0,
                                            active_mode: p.0.1.1.1.1.1.1.1.1.1,
                                            modes: spec_with_mode_ids(m.0),
                                            zones,
                                            leds: s.0.0,
                                            colors: s.0.1.0,
                                            led_alt_names: s.0.1.1.0,
                                            flags: s.0.1.1.1,
                                            id: u32::MAX,
                                            num_leds: spec_led_sum(zones) as usize,
                                        },
                                        p.1 + m.1 + z.1 + s.1,
                                    ),
                                )
                            } else {
                                None
                            }
                        },
                        None => None,
                    },
                    None => None,
                },
                None => None,
            },
            None => None,
        }
    }

    proof fn lemma_dec_len(bytes: Seq<u8>, version: u32) {
        if let Some(p) = <ControllerPrefix as DeserFromBuf>::spec_dec(bytes, version) {
            <ControllerPrefix as DeserFromBuf>::lemma_dec_len(bytes, version);
            let nm = p.0.1.1.1.1.1.1.1.1.0 as int;
            if let Some(m) = spec_dec_n::<ModeData>(bytes.skip(p.1), version, nm) {
                crate::sequence::lemma_dec_n_len::<ModeData>(bytes.skip(p.1), version, nm);
                lemma_skip_skip(bytes, p.1, m.1);
                if let Some(z) = <Vec<ZoneData> as DeserFromBuf>::spec_dec(
                    bytes.skip(p.1 + m.1),
                    version,
                ) {
                    <Vec<ZoneData> as DeserFromBuf>::lemma_dec_len(bytes.skip(p.1 + m.1), version);
                    lemma_skip_skip(bytes, p.1 + m.1, z.1);
                    <ControllerSuffix as DeserFromBuf>::lemma_dec_len(
                        bytes.skip(p.1 + m.1 + z.1),
                        version,
                    );
                }
            }
        }
    }

    proof fn lemma_dec_extend(bytes: Seq<u8>, bytes2: Seq<u8>, version: u32) {
        let p = <ControllerPrefix as DeserFromBuf>::spec_dec(bytes, version)->Some_0;
        <ControllerPrefix as DeserFromBuf>::lemma_dec_len(bytes, version);
        <ControllerPrefix as DeserFromBuf>::lemma_dec_extend(bytes, bytes2, version);
        crate::sequence::lemma_skip_of_prefix(bytes, bytes2, p.1);
        let nm = p.0.1.1.1.1.1.1.1.1.0 as int;
        let m = spec_dec_n::<ModeData>(bytes.skip(p.1), version, nm)->Some_0;
        crate::sequence::lemma_dec_n_len::<ModeData>(bytes.skip(p.1), version, nm);
        crate::sequence::lemma_dec_n_extend::<ModeData>(
            bytes.skip(p.1),
            bytes2.skip(p.1),
            version,
            nm,
        );
        lemma_skip_skip(bytes, p.1, m.1);
        lemma_skip_skip(bytes2, p.1, m.1);
        crate::sequence::lemma_skip_of_prefix(bytes, bytes2, p.1 + m.1);
        let z = <Vec<ZoneData> as DeserFromBuf>::spec_dec(bytes.skip(p.1 + m.1), version)->Some_0;
        <Vec<ZoneData> as DeserFromBuf>::lemma_dec_len(bytes.skip(p.1 + m.1), version);
        <Vec<ZoneData> as DeserFromBuf>::lemma_dec_extend(
            bytes.skip(p.1 + m.1),
            bytes2.skip(p.1 + m.1),
            version,
        );
        lemma_skip_skip(bytes, p.1 + m.1, z.1);
        lemma_skip_skip(bytes2, p.1 + m.1, z.1);
        crate::sequence::lemma_skip_of_prefix(bytes, bytes2, p.1 + m.1 + z.1);
        <ControllerSuffix as DeserFromBuf>::lemma_dec_extend(
            bytes.skip(p.1 + m.1 + z.1),
            bytes2.skip(p.1 + m.1 + z.1),
            version,
        );
    }

    #[verifier::rlimit(100)]
    #[verifier::spinoff_prover]
    fn deserialize(buf: &mut ReceivedMessage<'_>) -> (r: OpenRgbResult<ControllerData>) {
        let ghost rem0 = buf.remaining();
        let ghost start0 = buf.spec_idx();
        let prefix = match read_controller_prefix(buf) {
            Ok(f) => f,
            Err(e) => {
                proof {
                    lemma_controller_dec_none(rem0, buf.spec_version());
                }
                return Err(e);
            },
        };
        let num_modes = prefix.num_modes;
        let ghost n_prefix = buf.spec_idx() - start0;
        proof {
            lemma_skip_skip(buf.all_bytes(), start0, n_prefix);
            assert(buf.remaining() == rem0.skip(n_prefix));
        }
        let modes = match read_controller_modes(buf, num_modes) {
            Ok(v) => v,
            Err(e) => {
                proof {
                    lemma_controller_dec_none(rem0, buf.spec_version());
                }
                return Err(e);
            },
        };
        let ghost n_modes = buf.spec_idx() - (start0 + n_prefix);
        proof {
            lemma_skip_skip(buf.all_bytes(), start0 + n_prefix, n_modes);
            assert(buf.remaining() == rem0.skip(n_prefix).skip(n_modes));
            lemma_skip_skip(rem0, n_prefix, n_modes);
        }
        let zones = match read_controller_zones(buf) {
            Ok(v) => v,
            Err(e) => {
                proof {
                    lemma_controller_dec_none(rem0, buf.spec_version());
                }
                return Err(e);
            },
        };
        let ghost n_zones = buf.spec_idx() - (start0 + n_prefix + n_modes);
        proof {
            lemma_skip_skip(buf.all_bytes(), start0 + n_prefix + n_modes, n_zones);
            assert(buf.remaining() == rem0.skip(n_prefix + n_modes).skip(n_zones));
            lemma_skip_skip(rem0, n_prefix + n_modes, n_zones);
        }
        finish_controller(buf, prefix, modes, zones, Ghost(rem0), Ghost(n_prefix), Ghost(n_modes), Ghost(n_zones))
    }
}

/// Reads the suffix of a controller, computes the total LED count, and
/// assembles the controller value.
#[verifier::rlimit(100)]
#[verifier::spinoff_prover]
fn finish_controller(
    buf: &mut ReceivedMessage<'_>,
    prefix: PrefixFields,
    modes: Vec<ModeData>,
    zones: Vec<ZoneData>,
    Ghost(rem0): Ghost<Seq<u8>>,
    Ghost(n_prefix): Ghost<int>,
    Ghost(n_modes): Ghost<int>,
    Ghost(n_zones): Ghost<int>,
) -> (r: OpenRgbResult<ControllerData>)
    requires
        old(buf).wf(),
        old(buf).remaining() == rem0.skip(n_prefix + n_modes + n_zones),
        0 <= n_prefix,
        0 <= n_modes,
        0 <= n_zones,
        n_prefix + n_modes + n_zones <= rem0.len(),
        <ControllerPrefix as DeserFromBuf>::spec_dec(rem0, old(buf).spec_version()) == Some(
            (prefix.wire_view(), n_prefix),
        ),
        spec_dec_n::<ModeData>(
            rem0.skip(n_prefix),
            old(buf).spec_version(),
            prefix.num_modes as int,
        ) matches Some(m) && modes.deep_view() == spec_with_mode_ids(m.0) && m.1 == n_modes,
        <Vec<ZoneData> as DeserFromBuf>::spec_dec(
            rem0.skip(n_prefix + n_modes),
            old(buf).spec_version(),
        ) matches Some(z) && zones.deep_view() == spec_with_zone_ids(z.0) && z.1 == n_zones,
    ensures
        final(buf).wf(),
        final(buf).all_bytes() == old(buf).all_bytes(),
        final(buf).spec_version() == old(buf).spec_version(),
        old(buf).spec_idx() <= final(buf).spec_idx(),
        match r {
            Ok(c) => <ControllerData as DeserFromBuf>::spec_dec(rem0, old(buf).spec_version())
                == Some(
                (
                    c.deep_view(),
                    n_prefix + n_modes + n_zones + (final(buf).spec_idx() - old(buf).spec_idx()),
                ),
            ),
            Err(e) => {
                &&& <ControllerData as DeserFromBuf>::spec_dec(
                    rem0,
                    old(buf).spec_version(),
                ) is None
                &&& e.is_protocol()
            },
        },
{
    let ghost ver = buf.spec_version();
    let (leds, (colors, (led_alt_names_po, flags_po))) = match buf.read_value::<
        ControllerSuffix,
    >() {
        Ok(t) => t,
        Err(e) => {
            return Err(e);
        },
    };
    let num_leds = match sum_zone_leds(&zones) {
        Ok(n) => n,
        Err(e) => {
            return Err(e);
        },
    };
    let led_alt_names = match led_alt_names_po {
        ProtocolOption::Value(v) => Some(v),
        ProtocolOption::UnsupportedVersion => None,
    };
    let flags = match flags_po {
        ProtocolOption::Value(f) => Some(f),
        ProtocolOption::UnsupportedVersion => None,
    };
    let out = ControllerData {
        device_type: prefix.device_type,
        name: prefix.name,
        vendor: prefix.vendor,
        description: prefix.description,
        version: prefix.version,
        serial: prefix.serial,
        location: prefix.location,
        active_mode: prefix.active_mode,
        modes,
        zones,
        leds,
        colors,
        led_alt_names,
        flags,
        id: u32::MAX,
        num_leds,
    };
    proof {
        let p = <ControllerPrefix as DeserFromBuf>::spec_dec(rem0, ver)->Some_0;
        assert(p.0.1.1.1.1.1.1.1.1.0 == prefix.num_modes);
        let m = spec_dec_n::<ModeData>(rem0.skip(n_prefix), ver, prefix.num_modes as int)->Some_0;
        assert(out.deep_view().modes == spec_with_mode_ids(m.0));
        let z = <Vec<ZoneData> as DeserFromBuf>::spec_dec(
            rem0.skip(n_prefix + n_modes),
            ver,
        )->Some_0;
        assert(out.deep_view().zones == spec_with_zone_ids(z.0));
        let sd = <ControllerSuffix as DeserFromBuf>::spec_dec(
            rem0.skip(n_prefix + n_modes + n_zones),
            ver,
        );
        assert(sd is Some);
        assert(spec_led_sum(out.deep_view().zones) <= usize::MAX);
    }
    Ok(out)
}

} // verus!

//! Update batching: accumulates whole-device, zone, segment and single-LED
//! color writes against one device into a growable buffer indexed by
//! absolute LED position, and reduces them to exactly one whole-device
//! update packet.
//!
//! Writes overlap last-write-wins, in call order. A write past the current
//! buffer end grows the buffer, filling gaps with black. Supplying more
//! colors than the target has LEDs, or a single-LED index at or beyond the
//! device's LED count, is deliberately lenient: it is recorded as a warning
//! and the matching sub-range is still written, never a hard failure.

use vstd::prelude::*;
use vstd::pervasive::VecAdditionalExecFns;

use crate::color::Color;
use crate::controller::{spec_led_sum, ControllerData};
use crate::error::{CommandError, OpenRgbError, OpenRgbResult};
use crate::packet::{OpenRgbPacket, PacketId};
use crate::session::{spec_request, spec_request_ok, OpenRgbProtocol};

verus! {

/// The color of an LED no write has touched.
pub open spec fn spec_black() -> Color {
    Color { r: 0, g: 0, b: 0 }
}

/// The batch buffer after writing `cs` at absolute position `offset`: grown
/// with black as far as needed, the written range overlaid, everything else
/// kept.
pub open spec fn spec_apply(buf: Seq<Color>, offset: int, cs: Seq<Color>) -> Seq<Color> {
    let len = if buf.len() >= offset + cs.len() {
        buf.len() as int
    } else {
        offset + cs.len()
    };
    Seq::new(
        len as nat,
        |i: int|
            if offset <= i < offset + cs.len() {
                cs[i - offset]
            } else if i < buf.len() {
                buf[i]
            } else {
                spec_black()
            },
    )
}

/// Merge law: of two writes to the same position, the later wins; the
/// earlier leaves no trace.
pub proof fn lemma_batch_last_write_wins(buf: Seq<Color>, i: int, c1: Color, c2: Color)
    requires
        0 <= i,
    ensures
        spec_apply(spec_apply(buf, i, seq![c1]), i, seq![c2]) == spec_apply(buf, i, seq![c2]),
{
    assert(spec_apply(spec_apply(buf, i, seq![c1]), i, seq![c2]) =~= spec_apply(
        buf,
        i,
        seq![c2],
    ));
}

/// Untouched positions of a batch buffer stay as they were, and positions
/// the growth created are black.
pub proof fn lemma_batch_untouched(buf: Seq<Color>, offset: int, cs: Seq<Color>, j: int)
    requires
        0 <= offset,
        0 <= j < spec_apply(buf, offset, cs).len(),
        !(offset <= j < offset + cs.len()),
    ensures
        spec_apply(buf, offset, cs)[j] == (if j < buf.len() {
            buf[j]
        } else {
            spec_black()
        }),
{
}

/// A non-fatal oddity noticed while batching; the write still happened on
/// the matching sub-range.
#[derive(Clone, Copy, Debug, PartialEq, Eq, Structural)]
pub enum BatchWarning {
    /// More colors were supplied than the target has LEDs; the extra colors
    /// were dropped.
    TooManyColors {
        /// Number of colors supplied.
        given: usize,
        /// Number of LEDs in the target.
        num_leds: usize,
    },
    /// A single-LED index at or beyond the device's LED count; the color was
    /// still written.
    LedOutOfBounds {
        /// The absolute LED index written.
        index: usize,
        /// The device's LED count.
        num_leds: usize,
    },
}

/// A one-shot batch of LED writes against one device, reduced to a single
/// whole-device update on execution.
pub struct Command<'a> {
    controller: &'a ControllerData,
    colors: Vec<Color>,
    warnings: Vec<BatchWarning>,
}

impl<'a> Command<'a> {
    /// The accumulated buffer, by absolute LED position.
    pub closed spec fn spec_colors(&self) -> Seq<Color> {
        self.colors@
    }

    /// The warnings recorded so far, in call order.
    pub closed spec fn spec_warnings(&self) -> Seq<BatchWarning> {
        self.warnings@
    }

    /// The device this batch writes to.
    pub closed spec fn spec_controller(&self) -> crate::controller::ControllerDataV {
        self.controller.deep_view()
    }

    /// Starts an empty batch against one device.
    pub fn new(controller: &'a ControllerData) -> (r: Command<'a>)
        ensures
            r.spec_colors() == Seq::<Color>::empty(),
            r.spec_warnings() == Seq::<BatchWarning>::empty(),
            r.spec_controller() == controller.deep_view(),
    {
        Command { controller, colors: Vec::with_capacity(controller.num_leds()), warnings: Vec::new() }
    }

    /// The accumulated buffer, by absolute LED position.
    pub fn colors(&self) -> (r: &[Color])
        ensures
            r@ == self.spec_colors(),
    {
        self.colors.as_slice()
    }

    /// The warnings recorded so far, in call order.
    pub fn warnings(&self) -> (r: &[BatchWarning])
        ensures
            r@ == self.spec_warnings(),
    {
        self.warnings.as_slice()
    }

    /// Writes `cs` into the buffer at absolute position `offset`, growing it
    /// with black as needed.
    fn set_colors(&mut self, offset: usize, cs: &[Color])
        requires
            offset + cs@.len() <= usize::MAX,
        ensures
            final(self).spec_colors() == spec_apply(old(self).spec_colors(), offset as int, cs@),
            final(self).spec_warnings() == old(self).spec_warnings(),
            final(self).spec_controller() == old(self).spec_controller(),
    {
        let end = offset + cs.len();
        if self.colors.len() < end {
            self.colors.resize(end, Color { r: 0, g: 0, b: 0 });
        }
        let ghost grown = self.colors@;
        proof {
            assert forall|i: int| 0 <= i < grown.len() implies grown[i] == (if i < old(self).spec_colors().len() {
                old(self).spec_colors()[i]
            } else {
                spec_black()
            }) by {
                if i >= old(self).spec_colors().len() {
                    assert(vstd::pervasive::cloned::<Color>(Color { r: 0, g: 0, b: 0 }, grown[i]));
                }
            }
        }
        let mut i: usize = 0;
        while i < cs.len()
            invariant
                i <= cs@.len(),
                offset + cs@.len() <= usize::MAX,
                offset + cs@.len() <= self.colors@.len(),
                self.colors@.len() == grown.len(),
                grown.len() == (if old(self).spec_colors().len() >= offset + cs@.len() {
                    old(self).spec_colors().len() as int
                } else {
                    offset + cs@.len()
                }),
                forall|j: int| #![trigger self.colors@[j]]
                    0 <= j < grown.len() && !(offset <= j < offset + i) ==> self.colors@[j]
                        == grown[j],
                forall|j: int| #![trigger self.colors@[j]]
                    offset <= j < offset + i ==> self.colors@[j] == cs@[j - offset],
                forall|j: int| #![trigger grown[j]]
                    0 <= j < grown.len() ==> grown[j] == (if j < old(self).spec_colors().len() {
                        old(self).spec_colors()[j]
                    } else {
                        spec_black()
                    }),
                self.warnings@ == old(self).spec_warnings(),
                self.controller == old(self).controller,
            decreases cs@.len() - i,
        {
            self.colors.set(offset + i, cs[i]);
            i = i + 1;
        }
        proof {
            assert(self.colors@ =~= spec_apply(old(self).spec_colors(), offset as int, cs@));
        }
    }

    /// Queues a write of one LED by absolute position. An index at or beyond
    /// the device's LED count is recorded as a warning and still written; an
    /// index so large its successor does not fit the machine's index type is
    /// a caller error.
    pub fn set_led(&mut self, led_id: usize, color: Color) -> (r: OpenRgbResult<()>)
        ensures
            led_id == usize::MAX ==> (r matches Err(e) && e == OpenRgbError::CommandError(
                CommandError::LedOutOfBounds {
                    index: led_id,
                    num_leds: old(self).spec_controller().num_leds,
                },
            ) && *final(self) == *old(self)),
            led_id < usize::MAX ==> {
                &&& r is Ok
                &&& final(self).spec_colors() == spec_apply(
                    old(self).spec_colors(),
                    led_id as int,
                    seq![color],
                )
                &&& final(self).spec_warnings() == (if led_id
                    >= old(self).spec_controller().num_leds {
                    old(self).spec_warnings().push(
                        BatchWarning::LedOutOfBounds {
                            index: led_id,
                            num_leds: old(self).spec_controller().num_leds,
                        },
                    )
                } else {
                    old(self).spec_warnings()
                })
            },
            final(self).spec_controller() == old(self).spec_controller(),
    {
        let num_leds = self.controller.num_leds();
        if led_id == usize::MAX {
            return Err(
                OpenRgbError::CommandError(CommandError::LedOutOfBounds { index: led_id, num_leds }),
            );
        }
        if led_id >= num_leds {
            self.warnings.push(BatchWarning::LedOutOfBounds { index: led_id, num_leds });
        }
        let one = [color];
        proof {
            assert(one@ =~= seq![color]);
        }
        self.set_colors(led_id, one.as_slice());
        Ok(())
    }

    /// Queues a whole-device write. Colors beyond the device's LED count are
    /// dropped at the boundary, with a warning.
    pub fn set_leds(&mut self, colors: &[Color]) -> (r: OpenRgbResult<()>)
        ensures
            r is Ok,
            final(self).spec_colors() == spec_apply(
                old(self).spec_colors(),
                0,
                colors@.take(
                    if colors@.len() <= old(self).spec_controller().num_leds {
                        colors@.len() as int
                    } else {
                        old(self).spec_controller().num_leds as int
                    },
                ),
            ),
            final(self).spec_warnings() == (if colors@.len() > old(self).spec_controller().num_leds {
                old(self).spec_warnings().push(
                    BatchWarning::TooManyColors {
                        given: colors@.len() as usize,
                        num_leds: old(self).spec_controller().num_leds,
                    },
                )
            } else {
                old(self).spec_warnings()
            }),
            final(self).spec_controller() == old(self).spec_controller(),
    {
        let num_leds = self.controller.num_leds();
        let used: &[Color] = if colors.len() > num_leds {
            self.warnings.push(BatchWarning::TooManyColors { given: colors.len(), num_leds });
            vstd::slice::slice_subrange(colors, 0, num_leds)
        } else {
            colors
        };
        proof {
            assert(colors@.take(colors@.len() as int) =~= colors@);
        }
        self.set_colors(0, used);
        Ok(())
    }

    /// Queues a write of one zone. The absolute position is the sum of the
    /// LED counts of all zones before it; colors beyond the zone's LED count
    /// are dropped at the boundary, with a warning. A zone id out of range
    /// is a caller error.
    pub fn set_zone_leds(&mut self, zone_id: usize, colors: &[Color]) -> (r: OpenRgbResult<()>)
        ensures
            zone_id >= old(self).spec_controller().zones.len() ==> (r matches Err(e) && e
                == OpenRgbError::CommandError(CommandError::ZoneNotFound { zone_id }) && *final(self)
                == *old(self)),
            zone_id < old(self).spec_controller().zones.len() ==> {
                let zone_len = old(self).spec_controller().zones[zone_id as int].leds_count as int;
                let offset = spec_led_sum(old(self).spec_controller().zones.take(zone_id as int));
                &&& r is Ok
                &&& final(self).spec_colors() == spec_apply(
                    old(self).spec_colors(),
                    offset,
                    colors@.take(
                        if colors@.len() <= zone_len {
                            colors@.len() as int
                        } else {
                            zone_len
                        },
                    ),
                )
                &&& final(self).spec_warnings() == (if colors@.len() > zone_len {
                    old(self).spec_warnings().push(
                        BatchWarning::TooManyColors {
                            given: colors@.len() as usize,
                            num_leds: old(self).spec_controller().zones[zone_id as int].leds_count
                                as usize,
                        },
                    )
                } else {
                    old(self).spec_warnings()
                })
            },
            final(self).spec_controller() == old(self).spec_controller(),
    {
        let offset = match self.controller.get_zone_led_offset(zone_id) {
            Ok(o) => o,
            Err(e) => {
                return Err(e);
            },
        };
        let zone = match self.controller.get_zone(zone_id) {
            Ok(z) => z,
            Err(e) => {
                return Err(e);
            },
        };
        let zone_len = zone.leds_count();
        proof {
            crate::controller::lemma_led_sum_step(self.controller.deep_view().zones, zone_id as int);
            crate::controller::lemma_led_sum_monotone(
                self.controller.deep_view().zones,
                zone_id + 1,
                self.controller.deep_view().zones.len() as int,
            );
            assert(self.controller.deep_view().zones.take(
                self.controller.deep_view().zones.len() as int,
            ) =~= self.controller.deep_view().zones);
        }
        let used: &[Color] = if colors.len() > zone_len {
            self.warnings.push(
                BatchWarning::TooManyColors { given: colors.len(), num_leds: zone_len },
            );
            vstd::slice::slice_subrange(colors, 0, zone_len)
        } else {
            colors
        };
        proof {
            assert(colors@.take(colors@.len() as int) =~= colors@);
        }
        self.set_colors(offset, used);
        Ok(())
    }

    /// Queues a write of one LED of a zone, by zone-relative index. The
    /// absolute position is the zone's offset plus the index.
    pub fn set_zone_led(&mut self, zone_id: usize, led_idx: usize, color: Color) -> (r:
        OpenRgbResult<()>)
        ensures
            zone_id >= old(self).spec_controller().zones.len() ==> (r matches Err(e) && e
                == OpenRgbError::CommandError(CommandError::ZoneNotFound { zone_id }) && *final(self)
                == *old(self)),
            zone_id < old(self).spec_controller().zones.len() ==> {
                let offset = spec_led_sum(old(self).spec_controller().zones.take(zone_id as int));
                if offset + led_idx < usize::MAX {
                    &&& r is Ok
                    &&& final(self).spec_colors() == spec_apply(
                        old(self).spec_colors(),
                        offset + led_idx,
                        seq![color],
                    )
                    &&& final(self).spec_warnings() == (if offset + led_idx >= old(self).spec_controller().num_leds {
                        old(self).spec_warnings().push(
                            BatchWarning::LedOutOfBounds {
                                index: (offset + led_idx) as usize,
                                num_leds: old(self).spec_controller().num_leds,
                            },
                        )
                    } else {
                        old(self).spec_warnings()
                    })
                } else {
                    r is Err && *final(self) == *old(self)
                }
            },
            r matches Err(e) ==> e.is_command(),
            final(self).spec_controller() == old(self).spec_controller(),
    {
        let offset = match self.controller.get_zone_led_offset(zone_id) {
            Ok(o) => o,
            Err(e) => {
                return Err(e);
            },
        };
        if usize::MAX - offset <= led_idx {
            // Even the lenient policy cannot address past the index type.
            return Err(
                OpenRgbError::CommandError(
                    CommandError::LedOutOfBounds {
                        index: usize::MAX,
                        num_leds: self.controller.num_leds(),
                    },
                ),
            );
        }
        self.set_led(offset + led_idx, color)
    }

    /// Queues a write of one segment of a zone. The absolute position is the
    /// zone's offset plus the segment's own offset; colors beyond the
    /// segment's LED count are dropped at the boundary, with a warning. A
    /// missing segment list or a bad id is a caller error.
    pub fn set_segment_leds(&mut self, zone_id: usize, segment_id: usize, colors: &[Color]) -> (r:
        OpenRgbResult<()>)
        ensures
            final(self).spec_controller() == old(self).spec_controller(),
            r is Err ==> *final(self) == *old(self),
            r matches Err(e) ==> e.is_command(),
            r is Ok ==> {
                &&& zone_id < old(self).spec_controller().zones.len()
                &&& old(self).spec_controller().zones[zone_id as int].segments matches Some(segs)
                &&& segment_id < segs.len()
                &&& {
                    let seg = segs[segment_id as int];
                    let offset = spec_led_sum(
                        old(self).spec_controller().zones.take(zone_id as int),
                    ) + seg.start_idx;
                    let seg_len = seg.led_count as int;
                    &&& final(self).spec_colors() == spec_apply(
                        old(self).spec_colors(),
                        offset,
                        colors@.take(
                            if colors@.len() <= seg_len {
                                colors@.len() as int
                            } else {
                                seg_len
                            },
                        ),
                    )
                    &&& final(self).spec_warnings() == (if colors@.len() > seg_len {
                        old(self).spec_warnings().push(
                            BatchWarning::TooManyColors {
                                given: colors@.len() as usize,
                                num_leds: seg.led_count as usize,
                            },
                        )
                    } else {
                        old(self).spec_warnings()
                    })
                }
            },
    {
        let offset = match self.controller.get_zone_led_offset(zone_id) {
            Ok(o) => o,
            Err(e) => {
                return Err(e);
            },
        };
        let zone = match self.controller.get_zone(zone_id) {
            Ok(z) => z,
            Err(e) => {
                return Err(e);
            },
        };
        let seg = match zone.get_segment(segment_id) {
            Ok(s) => s,
            Err(e) => {
                return Err(e);
            },
        };
        let seg_len = seg.led_count() as usize;
        let seg_off = seg.offset() as usize;
        if usize::MAX - offset < seg_off || usize::MAX - (offset + seg_off) < seg_len {
            return Err(
                OpenRgbError::CommandError(
                    CommandError::SegmentRange {
                        start_idx: seg_off,
                        led_count: seg_len,
                        zone_leds: zone.leds_count(),
                    },
                ),
            );
        }
        let used: &[Color] = if colors.len() > seg_len {
            self.warnings.push(
                BatchWarning::TooManyColors { given: colors.len(), num_leds: seg_len },
            );
            vstd::slice::slice_subrange(colors, 0, seg_len)
        } else {
            colors
        };
        proof {
            assert(colors@.take(colors@.len() as int) =~= colors@);
        }
        self.set_colors(offset + seg_off, used);
        Ok(())
    }

    /// Queues a write of one LED of a segment, by segment-relative index.
    /// The absolute position is the zone's offset plus the segment's offset
    /// plus the index.
    pub fn set_segment_led(
        &mut self,
        zone_id: usize,
        segment_id: usize,
        led_idx: usize,
        color: Color,
    ) -> (r: OpenRgbResult<()>)
        ensures
            final(self).spec_controller() == old(self).spec_controller(),
            r is Err ==> *final(self) == *old(self),
            r matches Err(e) ==> e.is_command(),
            r is Ok ==> {
                &&& zone_id < old(self).spec_controller().zones.len()
                &&& old(self).spec_controller().zones[zone_id as int].segments matches Some(segs)
                &&& segment_id < segs.len()
                &&& {
                    let offset = spec_led_sum(
                        old(self).spec_controller().zones.take(zone_id as int),
                    ) + segs[segment_id as int].start_idx + led_idx;
                    &&& final(self).spec_colors() == spec_apply(
                        old(self).spec_colors(),
                        offset,
                        seq![color],
                    )
                    &&& final(self).spec_warnings() == (if offset >= old(self).spec_controller().num_leds {
                        old(self).spec_warnings().push(
                            BatchWarning::LedOutOfBounds {
                                index: offset as usize,
                                num_leds: old(self).spec_controller().num_leds,
                            },
                        )
                    } else {
                        old(self).spec_warnings()
                    })
                }
            },
    {
        let offset = match self.controller.get_zone_led_offset(zone_id) {
            Ok(o) => o,
            Err(e) => {
                return Err(e);
            },
        };
        let zone = match self.controller.get_zone(zone_id) {
            Ok(z) => z,
            Err(e) => {
                return Err(e);
            },
        };
        let seg = match zone.get_segment(segment_id) {
            Ok(s) => s,
            Err(e) => {
                return Err(e);
            },
        };
        let seg_off = seg.offset() as usize;
        if usize::MAX - offset < seg_off || usize::MAX - (offset + seg_off) <= led_idx {
            return Err(
                OpenRgbError::CommandError(
                    CommandError::LedOutOfBounds {
                        index: usize::MAX,
                        num_leds: self.controller.num_leds(),
                    },
                ),
            );
        }
        self.set_led(offset + seg_off + led_idx, color)
    }

    /// Reduces the batch to exactly one whole-device update packet and
    /// discards it: the batch is one-shot.
    pub fn execute(self, proto: &OpenRgbProtocol) -> (r: OpenRgbResult<Vec<u8>>)
        ensures
            r is Ok <==> spec_request_ok::<OpenRgbPacket<Vec<Color>>>(
                proto.spec_version(),
                self.spec_colors(),
            ),
            r matches Ok(b) ==> b@ == spec_request::<OpenRgbPacket<Vec<Color>>>(
                proto.spec_version(),
                self.spec_controller().id,
                PacketId::RGBControllerUpdateLeds,
                self.spec_colors(),
            ),
            r matches Err(e) ==> e.is_protocol(),
    {
        let controller_id = self.controller.id();
        let ghost cv = self.colors@;
        let payload = OpenRgbPacket::new(self.colors);
        proof {
            assert(payload.deep_view() =~= cv);
        }
        proto.packet_bytes(controller_id, PacketId::RGBControllerUpdateLeds, &payload)
    }
}


/// Putting an element back where it was taken from restores the sequence;
/// putting another element there updates that position alone.
proof fn lemma_remove_insert<T>(s: Seq<T>, i: int, x: T)
    requires
        0 <= i < s.len(),
    ensures
        s.remove(i).insert(i, x) == s.update(i, x),
        s.update(i, s[i]) == s,
{
    assert(s.remove(i).insert(i, x) =~= s.update(i, x));
    assert(s.update(i, s[i]) =~= s);
}

/// One independent batch per device of a group, executed sequentially; a
/// device id not present in the group is a hard error.
pub struct CommandGroup<'a> {
    commands: Vec<Command<'a>>,
}

impl<'a> CommandGroup<'a> {
    /// The per-device batches, by group position.
    pub closed spec fn spec_cmds(&self) -> Seq<Command<'a>> {
        self.commands@
    }

    /// Starts one empty batch per controller of the group.
    pub fn new(controllers: Vec<&'a ControllerData>) -> (r: CommandGroup<'a>)
        ensures
            r.spec_cmds().len() == controllers@.len(),
            forall|i: int|
                0 <= i < controllers@.len() ==> {
                    &&& (#[trigger] r.spec_cmds()[i]).spec_controller()
                        == controllers@[i].deep_view()
                    &&& r.spec_cmds()[i].spec_colors() == Seq::<Color>::empty()
                    &&& r.spec_cmds()[i].spec_warnings() == Seq::<BatchWarning>::empty()
                },
    {
        let mut commands: Vec<Command<'a>> = Vec::with_capacity(controllers.len());
        let mut i: usize = 0;
        while i < controllers.len()
            invariant
                i <= controllers@.len(),
                commands@.len() == i,
                forall|j: int|
                    0 <= j < i ==> {
                        &&& (#[trigger] commands@[j]).spec_controller()
                            == controllers@[j].deep_view()
                        &&& commands@[j].spec_colors() == Seq::<Color>::empty()
                        &&& commands@[j].spec_warnings() == Seq::<BatchWarning>::empty()
                    },
            decreases controllers@.len() - i,
        {
            commands.push(Command::new(controllers[i]));
            i = i + 1;
        }
        CommandGroup { commands }
    }

    /// Queues a single-LED write on one device of the group.
    pub fn set_controller_led(
        &mut self,
        controller_id: usize,
        led_id: usize,
        color: Color,
    ) -> (r: OpenRgbResult<()>)
        ensures
            controller_id >= old(self).spec_cmds().len() ==> (r matches Err(e) && e
                == OpenRgbError::CommandError(CommandError::ControllerNotFound { controller_id })
                && final(self).spec_cmds() == old(self).spec_cmds()),
            controller_id < old(self).spec_cmds().len() ==> {
                let oc = old(self).spec_cmds()[controller_id as int];
                &&& final(self).spec_cmds().len() == old(self).spec_cmds().len()
                &&& forall|j: int|
                    0 <= j < old(self).spec_cmds().len() && j != controller_id
                        ==> final(self).spec_cmds()[j] == #[trigger] old(self).spec_cmds()[j]
                &&& final(self).spec_cmds()[controller_id as int].spec_controller()
                    == oc.spec_controller()
                &&& (r is Err ==> final(self).spec_cmds() == old(self).spec_cmds())
                &&& (r matches Err(e) ==> e.is_command())
                &&& (led_id < usize::MAX ==> r is Ok
                    && final(self).spec_cmds()[controller_id as int].spec_colors() == spec_apply(
                    oc.spec_colors(),
                    led_id as int,
                    seq![color],
                ))
            },
    {
        if controller_id >= self.commands.len() {
            return Err(
                OpenRgbError::CommandError(CommandError::ControllerNotFound { controller_id }),
            );
        }
        let ghost olds = self.commands@;
        let mut cmd = self.commands.remove(controller_id);
        let res = cmd.set_led(led_id, color);
        self.commands.insert(controller_id, cmd);
        proof {
            lemma_remove_insert(olds, controller_id as int, cmd);
        }
        res
    }

    /// Queues a whole-device write on one device of the group.
    pub fn set_controller_leds(&mut self, controller_id: usize, colors: &[Color]) -> (r:
        OpenRgbResult<()>)
        ensures
            controller_id >= old(self).spec_cmds().len() ==> (r matches Err(e) && e
                == OpenRgbError::CommandError(CommandError::ControllerNotFound { controller_id })
                && final(self).spec_cmds() == old(self).spec_cmds()),
            controller_id < old(self).spec_cmds().len() ==> {
                let oc = old(self).spec_cmds()[controller_id as int];
                let keep = if colors@.len() <= oc.spec_controller().num_leds {
                    colors@.len() as int
                } else {
                    oc.spec_controller().num_leds as int
                };
                &&& r is Ok
                &&& final(self).spec_cmds().len() == old(self).spec_cmds().len()
                &&& forall|j: int|
                    0 <= j < old(self).spec_cmds().len() && j != controller_id
                        ==> final(self).spec_cmds()[j] == #[trigger] old(self).spec_cmds()[j]
                &&& final(self).spec_cmds()[controller_id as int].spec_controller()
                    == oc.spec_controller()
                &&& final(self).spec_cmds()[controller_id as int].spec_colors() == spec_apply(
                    oc.spec_colors(),
                    0,
                    colors@.take(keep),
                )
            },
    {
        if controller_id >= self.commands.len() {
            return Err(
                OpenRgbError::CommandError(CommandError::ControllerNotFound { controller_id }),
            );
        }
        let ghost olds = self.commands@;
        let mut cmd = self.commands.remove(controller_id);
        let res = cmd.set_leds(colors);
        self.commands.insert(controller_id, cmd);
        proof {
            lemma_remove_insert(olds, controller_id as int, cmd);
        }
        res
    }

    /// Queues a zone write on one device of the group.
    pub fn set_controller_zone_leds(
        &mut self,
        controller_id: usize,
        zone_id: usize,
        colors: &[Color],
    ) -> (r: OpenRgbResult<()>)
        ensures
            controller_id >= old(self).spec_cmds().len() ==> (r matches Err(e) && e
                == OpenRgbError::CommandError(CommandError::ControllerNotFound { controller_id })
                && final(self).spec_cmds() == old(self).spec_cmds()),
            controller_id < old(self).spec_cmds().len() ==> {
                let oc = old(self).spec_cmds()[controller_id as int];
                &&& final(self).spec_cmds().len() == old(self).spec_cmds().len()
                &&& forall|j: int|
                    0 <= j < old(self).spec_cmds().len() && j != controller_id
                        ==> final(self).spec_cmds()[j] == #[trigger] old(self).spec_cmds()[j]
                &&& final(self).spec_cmds()[controller_id as int].spec_controller()
                    == oc.spec_controller()
                &&& (r is Err ==> final(self).spec_cmds() == old(self).spec_cmds())
                &&& (r matches Err(e) ==> e.is_command())
                &&& (zone_id < oc.spec_controller().zones.len() ==> r is Ok
                    && final(self).spec_cmds()[controller_id as int].spec_colors() == spec_apply(
                    oc.spec_colors(),
                    spec_led_sum(oc.spec_controller().zones.take(zone_id as int)),
                    colors@.take(
                        if colors@.len() <= oc.spec_controller().zones[zone_id as int].leds_count {
                            colors@.len() as int
                        } else {
                            oc.spec_controller().zones[zone_id as int].leds_count as int
                        },
                    ),
                ))
            },
    {
        if controller_id >= self.commands.len() {
            return Err(
                OpenRgbError::CommandError(CommandError::ControllerNotFound { controller_id }),
            );
        }
        let ghost olds = self.commands@;
        let mut cmd = self.commands.remove(controller_id);
        let res = cmd.set_zone_leds(zone_id, colors);
        self.commands.insert(controller_id, cmd);
        proof {
            lemma_remove_insert(olds, controller_id as int, cmd);
        }
        res
    }

    /// Queues a zone-relative single-LED write on one device of the group.
    pub fn set_controller_zone_led(
        &mut self,
        controller_id: usize,
        zone_id: usize,
        led_idx: usize,
        color: Color,
    ) -> (r: OpenRgbResult<()>)
        ensures
            controller_id >= old(self).spec_cmds().len() ==> (r matches Err(e) && e
                == OpenRgbError::CommandError(CommandError::ControllerNotFound { controller_id })
                && final(self).spec_cmds() == old(self).spec_cmds()),
            controller_id < old(self).spec_cmds().len() ==> final(self).spec_cmds().len()
                == old(self).spec_cmds().len(),
            controller_id < old(self).spec_cmds().len() ==> forall|j: int|
                0 <= j < old(self).spec_cmds().len() && j != controller_id ==> final(self).spec_cmds()[j] == #[trigger] old(self).spec_cmds()[j],
            controller_id < old(self).spec_cmds().len() ==> final(self).spec_cmds()[controller_id as int].spec_controller() == old(self).spec_cmds()[controller_id as int].spec_controller(),
            controller_id < old(self).spec_cmds().len() && r is Err ==> final(self).spec_cmds()
                == old(self).spec_cmds(),
            r matches Err(e) ==> e.is_command(),
            controller_id < old(self).spec_cmds().len() && zone_id < old(self).spec_cmds()[controller_id as int].spec_controller().zones.len() && spec_led_sum(
                old(self).spec_cmds()[controller_id as int].spec_controller().zones.take(
                    zone_id as int,
                ),
            ) + led_idx < usize::MAX ==> r is Ok && final(self).spec_cmds()[controller_id as int].spec_colors() == spec_apply(
                old(self).spec_cmds()[controller_id as int].spec_colors(),
                spec_led_sum(
                    old(self).spec_cmds()[controller_id as int].spec_controller().zones.take(
                        zone_id as int,
                    ),
                ) + led_idx,
                seq![color],
            ),
    {
        if controller_id >= self.commands.len() {
            return Err(
                OpenRgbError::CommandError(CommandError::ControllerNotFound { controller_id }),
            );
        }
        let ghost olds = self.commands@;
        let mut cmd = self.commands.remove(controller_id);
        let res = cmd.set_zone_led(zone_id, led_idx, color);
        self.commands.insert(controller_id, cmd);
        proof {
            lemma_remove_insert(olds, controller_id as int, cmd);
            assert(self.commands@ == olds.update(controller_id as int, cmd));
            assert(self.commands@[controller_id as int] == cmd);
            assert forall|j: int|
                0 <= j < olds.len() && j != controller_id implies self.commands@[j] == olds[j] by {}
            if res is Err {
                assert(self.commands@ =~= olds);
            }
            let oc = olds[controller_id as int];
            if zone_id < oc.spec_controller().zones.len() && spec_led_sum(
                oc.spec_controller().zones.take(zone_id as int),
            ) + led_idx < usize::MAX {
                assert(res is Ok);
                assert(cmd.spec_colors() == spec_apply(
                    oc.spec_colors(),
                    spec_led_sum(oc.spec_controller().zones.take(zone_id as int)) + led_idx,
                    seq![color],
                ));
            }
        }
        res
    }

    /// Queues a segment write on one device of the group.
    pub fn set_controller_segment_leds(
        &mut self,
        controller_id: usize,
        zone_id: usize,
        segment_id: usize,
        colors: &[Color],
    ) -> (r: OpenRgbResult<()>)
        ensures
            controller_id >= old(self).spec_cmds().len() ==> (r matches Err(e) && e
                == OpenRgbError::CommandError(CommandError::ControllerNotFound { controller_id })
                && final(self).spec_cmds() == old(self).spec_cmds()),
            controller_id < old(self).spec_cmds().len() ==> {
                let oc = old(self).spec_cmds()[controller_id as int];
                &&& final(self).spec_cmds().len() == old(self).spec_cmds().len()
                &&& forall|j: int|
                    0 <= j < old(self).spec_cmds().len() && j != controller_id
                        ==> final(self).spec_cmds()[j] == #[trigger] old(self).spec_cmds()[j]
                &&& final(self).spec_cmds()[controller_id as int].spec_controller()
                    == oc.spec_controller()
                &&& (r is Err ==> final(self).spec_cmds() == old(self).spec_cmds())
                &&& (r matches Err(e) ==> e.is_command())
            },
    {
        if controller_id >= self.commands.len() {
            return Err(
                OpenRgbError::CommandError(CommandError::ControllerNotFound { controller_id }),
            );
        }
        let ghost olds = self.commands@;
        let mut cmd = self.commands.remove(controller_id);
        let res = cmd.set_segment_leds(zone_id, segment_id, colors);
        self.commands.insert(controller_id, cmd);
        proof {
            lemma_remove_insert(olds, controller_id as int, cmd);
        }
        res
    }

    /// Reduces every batch of the group to one whole-device update packet,
    /// in group order; the packets are to be sent one after another, never
    /// concurrently.
    pub fn execute(self, proto: &OpenRgbProtocol) -> (r: OpenRgbResult<Vec<Vec<u8>>>)
        ensures
            r matches Ok(pkts) ==> {
                &&& pkts@.len() == self.spec_cmds().len()
                &&& forall|i: int|
                    0 <= i < pkts@.len() ==> (#[trigger] pkts@[i])@ == spec_request::<
                        OpenRgbPacket<Vec<Color>>,
                    >(
                        proto.spec_version(),
                        self.spec_cmds()[i].spec_controller().id,
                        PacketId::RGBControllerUpdateLeds,
                        self.spec_cmds()[i].spec_colors(),
                    )
            },
            r matches Err(e) ==> e.is_protocol(),
    {
        let ghost cmds0 = self.commands@;
        let mut rest = self.commands;
        let mut out: Vec<Vec<u8>> = Vec::with_capacity(rest.len());
        while rest.len() > 0
            invariant
                out@.len() + rest@.len() == cmds0.len(),
                rest@ == cmds0.skip(out@.len() as int),
                forall|i: int|
                    0 <= i < out@.len() ==> (#[trigger] out@[i])@ == spec_request::<
                        OpenRgbPacket<Vec<Color>>,
                    >(
                        proto.spec_version(),
                        cmds0[i].spec_controller().id,
                        PacketId::RGBControllerUpdateLeds,
                        cmds0[i].spec_colors(),
                    ),
            decreases rest@.len(),
        {
            let ghost prevseq = rest@;
            let cmd = rest.remove(0);
            proof {
                assert(cmd == cmds0.skip(out@.len() as int)[0]);
                assert(rest@ =~= cmds0.skip(out@.len() as int + 1));
            }
            let bytes = match cmd.execute(proto) {
                Ok(b) => b,
                Err(e) => {
                    return Err(e);
                },
            };
            out.push(bytes);
        }
        Ok(out)
    }
}

} // verus!

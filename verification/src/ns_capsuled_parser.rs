//! The capsule decoder itself.
//!
//! All angle arithmetic is carried out in binary fixed point: the wire start
//! angle is in 1/64-degree units ("q6") and the interpolated per-sample angles
//! in 1/2048-degree units ("q11"). Dividing the q6 angular travel between two
//! capsules by the 32 samples of a capsule is exactly a q6-to-q11
//! reinterpretation, so every intermediate value is an exact multiple of
//! 1/2048 degree and no precision is lost anywhere in the pipeline.

use vstd::prelude::*;

use crate::answers::RplidarResponseCabinNodes;
use crate::answers::RplidarResponseCapsuleMeasurementNodes;
use crate::answers::RplidarResponseMeasurementNodeHq;

verus! {

/// Number of cabins in one capsule frame.
pub const CAPSULE_CABIN_COUNT: usize = 16;

/// Number of measurement samples in one capsule frame: two per cabin.
pub const CAPSULE_MEASUREMENT_COUNT: usize = 32;

/// One full turn in q6 units: 360 * 64.
pub const FULL_TURN_Q6: i32 = 23040;

/// Mathematical model of one normalized sample: a signed angle offset in
/// whole degrees and a raw distance in millimetres.
pub struct SampleModel {
    pub angle_offset: int,
    pub distance_mm: int,
}

/// Mathematical model of one normalized capsule: the masked start angle in
/// q6 units and the ordered per-sample offset/distance pairs.
pub struct CapsuleModel {
    pub start_angle_q6: int,
    pub samples: Seq<SampleModel>,
}

/// The masked coarse start angle: the low 15 bits of the wire field, in q6
/// (1/64-degree) units.
pub open spec fn start_angle_q6_of(raw: u16) -> u16 {
    raw & 0x7fff
}

/// The raw millimetre distance of one packed distance/angle field: the low
/// 2 compensation bits are masked off and the rest shifted down.
pub open spec fn distance_mm_of(field: u16) -> u16 {
    (field & 0xfffc) >> 2
}

/// The 6 raw bits of the first sample's angle offset: the low nibble of the
/// offset byte plus the low 2 bits of the first distance/angle field.
pub open spec fn offset_bits_1(cabin: RplidarResponseCabinNodes) -> u16 {
    ((cabin.offset_angles_q3 & 0xf) as u16) | ((cabin.distance_angle_1 & 0x3) << 4)
}

/// The 6 raw bits of the second sample's angle offset: the high nibble of the
/// offset byte plus the low 2 bits of the second distance/angle field.
pub open spec fn offset_bits_2(cabin: RplidarResponseCabinNodes) -> u16 {
    ((cabin.offset_angles_q3 >> 4) as u16) | ((cabin.distance_angle_2 & 0x3) << 4)
}

/// A 6-bit field read as a signed value in [-32, 32).
pub open spec fn sign_extend_6bit(bits: u16) -> int {
    if bits >= 32 {
        bits - 64
    } else {
        bits as int
    }
}

/// The first normalized sample of a cabin.
pub open spec fn cabin_sample_1(cabin: RplidarResponseCabinNodes) -> SampleModel {
    SampleModel {
        angle_offset: sign_extend_6bit(offset_bits_1(cabin)),
        distance_mm: distance_mm_of(cabin.distance_angle_1) as int,
    }
}

/// The second normalized sample of a cabin.
pub open spec fn cabin_sample_2(cabin: RplidarResponseCabinNodes) -> SampleModel {
    SampleModel {
        angle_offset: sign_extend_6bit(offset_bits_2(cabin)),
        distance_mm: distance_mm_of(cabin.distance_angle_2) as int,
    }
}

/// The normalized form of one wire capsule: masked start angle and the 32
/// samples in cabin order, first sample of each cabin before the second.
pub open spec fn normalized(nodes: RplidarResponseCapsuleMeasurementNodes) -> CapsuleModel {
    CapsuleModel {
        start_angle_q6: start_angle_q6_of(nodes.start_angle_sync_q6) as int,
        samples: Seq::new(
            32,
            |i: int|
                if i % 2 == 0 {
                    cabin_sample_1(nodes.cabins@[i / 2])
                } else {
                    cabin_sample_2(nodes.cabins@[i / 2])
                },
        ),
    }
}

/// Range invariant of one normalized sample.
pub open spec fn sample_inv(s: SampleModel) -> bool {
    &&& -32 <= s.angle_offset < 32
    &&& 0 <= s.distance_mm < 0x4000
}

/// Range invariant of one normalized capsule: a 15-bit start angle and
/// exactly 32 samples, each within its field's range.
pub open spec fn capsule_model_inv(m: CapsuleModel) -> bool {
    &&& 0 <= m.start_angle_q6 < 0x8000
    &&& m.samples.len() == 32
    &&& forall|i: int| 0 <= i < m.samples.len() ==> sample_inv(#[trigger] m.samples[i])
}

/// Forward angular travel from `prev_q6` to `curr_q6`, wrapping at one full
/// turn: `(curr - prev + 360) mod 360` in q6 units, with the remainder taken
/// toward zero as the executable code does.
pub open spec fn diff_angle_q6(curr_q6: int, prev_q6: int) -> int {
    let d = curr_q6 - prev_q6 + 23040;
    if d >= 46080 {
        d - 46080
    } else if d >= 23040 {
        d - 23040
    } else {
        d
    }
}

/// A new revolution starts between two capsules exactly when the start angle
/// wrapped around, i.e. dropped strictly below the previous one.
pub open spec fn spec_is_new_scan(curr_q6: int, prev_q6: int) -> bool {
    curr_q6 < prev_q6
}

/// The reconstructed angle of sample `index` in q11 (1/2048-degree) units:
/// the previous capsule's start angle plus `index` steps of the per-sample
/// increment, minus the sample's own offset. The q6 travel `diff_q6` is
/// numerically equal to the q11 per-sample increment `diff_q6 / 32`.
pub open spec fn node_angle_q11(start_q6: int, diff_q6: int, index: int, angle_offset: int) -> int {
    start_q6 * 32 + diff_q6 * index - angle_offset * 2048
}

/// A q11 angle truncated to the unsigned whole-degree output field: negative
/// values clamp to 0, the degree count is truncated toward zero.
pub open spec fn angle_out(q11: int) -> u16 {
    if q11 < 0 {
        0
    } else if q11 / 2048 > 0xffff {
        0xffff
    } else {
        (q11 / 2048) as u16
    }
}

/// The output node emitted for sample `index` of the previous capsule, given
/// the current capsule's start angle.
pub open spec fn output_node(
    prev: CapsuleModel,
    curr_start_q6: int,
    index: int,
) -> RplidarResponseMeasurementNodeHq {
    let diff = diff_angle_q6(curr_start_q6, prev.start_angle_q6);
    RplidarResponseMeasurementNodeHq {
        angle_z_q14: angle_out(
            node_angle_q11(prev.start_angle_q6, diff, index, prev.samples[index].angle_offset),
        ),
        dist_mm_q2: prev.samples[index].distance_mm as u32,
        quality: 0,
        flag: if index == 0 && spec_is_new_scan(curr_start_q6, prev.start_angle_q6) {
            1
        } else {
            0
        },
    }
}

/// The full output sequence of one decode call in the primed state: one node
/// per sample of the previous capsule.
pub open spec fn output_nodes(
    prev: CapsuleModel,
    curr_start_q6: int,
) -> Seq<RplidarResponseMeasurementNodeHq> {
    Seq::new(prev.samples.len(), |i: int| output_node(prev, curr_start_q6, i))
}

/// The raw bits of a 6-bit angle offset always lie below 64, whichever
/// nibble and distance field they are assembled from.
proof fn lemma_offset_bits_bounded(q3: u8, dist: u16)
    by (bit_vector)
    ensures
        ((q3 & 0xf) as u16) | ((dist & 0x3) << 4) < 64,
        ((q3 >> 4) as u16) | ((dist & 0x3) << 4) < 64,
{
}

/// The normalized form of any wire capsule satisfies the range invariant:
/// a 15-bit start angle, exactly 32 samples, offsets in [-32, 32) and
/// distances below 2^14.
pub proof fn lemma_normalized_inv(nodes: RplidarResponseCapsuleMeasurementNodes)
    ensures
        capsule_model_inv(normalized(nodes)),
{
    let raw = nodes.start_angle_sync_q6;
    assert(raw & 0x7fff < 0x8000) by (bit_vector);
    assert forall|i: int| 0 <= i < normalized(nodes).samples.len() implies sample_inv(
        #[trigger] normalized(nodes).samples[i],
    ) by {
        let cabin = nodes.cabins@[i / 2];
        let d1 = cabin.distance_angle_1;
        let d2 = cabin.distance_angle_2;
        lemma_offset_bits_bounded(cabin.offset_angles_q3, d1);
        lemma_offset_bits_bounded(cabin.offset_angles_q3, d2);
        assert((d1 & 0xfffc) >> 2 < 0x4000) by (bit_vector);
        assert((d2 & 0xfffc) >> 2 < 0x4000) by (bit_vector);
    }
}

/// One normalized sample as stored by the decoder: the sign-extended angle
/// offset in whole degrees and the raw millimetre distance.
#[derive(Clone, Copy)]
struct CabinMeasurement {
    angle_offset: i8,
    distance: u16,
}

/// One normalized capsule as stored by the decoder.
struct Capsule {
    start_angle_q6: u16,
    cabins: Vec<CabinMeasurement>,
}

/// The model of one stored sample.
spec fn sample_model(s: CabinMeasurement) -> SampleModel {
    SampleModel { angle_offset: s.angle_offset as int, distance_mm: s.distance as int }
}

/// The model of one stored capsule.
spec fn capsule_model(c: Capsule) -> CapsuleModel {
    CapsuleModel {
        start_angle_q6: c.start_angle_q6 as int,
        samples: c.cabins@.map_values(|s: CabinMeasurement| sample_model(s)),
    }
}

/// Range invariant of one stored capsule.
spec fn capsule_inv(c: Capsule) -> bool {
    capsule_model_inv(capsule_model(c))
}

/// Stateful decoder from wire capsules to measurement nodes.
///
/// It remembers at most the previously decoded capsule: the first call only
/// primes that state, every later call interpolates between the remembered
/// capsule and the new one and emits one node per remembered sample.
pub struct CapsuledParser {
    prev_capsule: Option<Capsule>,
}

impl View for CapsuledParser {
    type V = Option<CapsuleModel>;

    closed spec fn view(&self) -> Option<CapsuleModel> {
        match self.prev_capsule {
            Some(c) => Some(capsule_model(c)),
            None => None,
        }
    }
}

impl CapsuledParser {
    /// The stored capsule, if any, satisfies the range invariant.
    pub closed spec fn wf(&self) -> bool {
        match self.prev_capsule {
            Some(c) => capsule_inv(c),
            None => true,
        }
    }

    /// A fresh decoder with no remembered capsule.
    pub fn new() -> (parser: Self)
        ensures
            parser@ is None,
            parser.wf(),
    {
        Self { prev_capsule: None }
    }

    /// Decodes one capsule.
    ///
    /// The first call on a fresh decoder only stores the normalized capsule
    /// and returns nothing. Every later call emits exactly one node per
    /// sample of the previously stored capsule — 32 of them — interpolating
    /// the per-sample angles between the two capsules' start angles, then
    /// stores the new capsule in place of the old one. Bit 0 of a node's
    /// `flag` is set only on the first node of a call, and only when the new
    /// start angle wrapped around below the previous one.
    pub fn parse(&mut self, nodes: RplidarResponseCapsuleMeasurementNodes) -> (result: Vec<
        RplidarResponseMeasurementNodeHq,
    >)
        requires
            old(self).wf(),
        ensures
            final(self).wf(),
            final(self)@ == Some(normalized(nodes)),
            old(self)@ is None ==> result@ == Seq::<RplidarResponseMeasurementNodeHq>::empty(),
            old(self)@ matches Some(prev) ==> result@ == output_nodes(
                prev,
                normalized(nodes).start_angle_q6,
            ),
            old(self)@ is Some ==> result@.len() == CAPSULE_MEASUREMENT_COUNT,
            old(self)@ matches Some(prev) ==> capsule_model_inv(prev),
    {
        let capsule = self.parse_measurements(nodes);
        let curr_start_q6: u16 = capsule.start_angle_q6;

        let mut result: Vec<RplidarResponseMeasurementNodeHq> = Vec::new();
        match &self.prev_capsule {
            None => {},
            Some(prev_capsule) => {
                let prev_start_q6: u16 = prev_capsule.start_angle_q6;
                let diff_angle: i32 = self.calc_diff_angle(curr_start_q6, prev_start_q6);
                let is_new_scan: bool = self.is_new_scan(curr_start_q6, prev_start_q6);

                let ghost prev_model = capsule_model(*prev_capsule);
                let mut index: usize = 0;
                while index < CAPSULE_MEASUREMENT_COUNT
                    invariant
                        index <= 32,
                        capsule_inv(*prev_capsule),
                        prev_model == capsule_model(*prev_capsule),
                        prev_start_q6 == prev_capsule.start_angle_q6,
                        curr_start_q6 < 0x8000,
                        diff_angle == diff_angle_q6(
                            curr_start_q6 as int,
                            prev_start_q6 as int,
                        ),
                        -23040 < diff_angle < 23040,
                        is_new_scan == spec_is_new_scan(
                            curr_start_q6 as int,
                            prev_start_q6 as int,
                        ),
                        result@.len() == index,
                        forall|j: int|
                            0 <= j < index ==> #[trigger] result@[j] == output_node(
                                prev_model,
                                curr_start_q6 as int,
                                j,
                            ),
                    decreases 32 - index,
                {
                    let cabin: &CabinMeasurement = &prev_capsule.cabins[index];

                    proof {
                        assert(sample_inv(prev_model.samples[index as int]));
                        assert(-23040 * 31 <= diff_angle * index < 23040 * 32) by (nonlinear_arith)
                            requires
                                -23040 < diff_angle < 23040,
                                0 <= index < 32,
                        ;
                    }
                    let angle_q11: i32 = (prev_start_q6 as i32) * 32 + diff_angle * (index as i32)
                        - (cabin.angle_offset as i32) * 2048;
                    let angle_z_q14: u16 = if angle_q11 < 0 {
                        0
                    } else {
                        (angle_q11 / 2048) as u16
                    };
                    let flag: u8 = if index == 0 && is_new_scan {
                        1
                    } else {
                        0
                    };

                    result.push(
                        RplidarResponseMeasurementNodeHq {
                            angle_z_q14,
                            dist_mm_q2: cabin.distance as u32,
                            quality: 0,
                            flag,
                        },
                    );
                    index += 1;
                }
                proof {
                    assert(result@ =~= output_nodes(prev_model, curr_start_q6 as int));
                }
            },
        }

        self.prev_capsule = Some(capsule);
        result
    }

    /// Masks the sync bit off the wire start-angle field, leaving the q6
    /// start angle.
    fn parse_start_angle(&self, start_angle: u16) -> (angle_q6: u16)
        ensures
            angle_q6 == start_angle_q6_of(start_angle),
            angle_q6 < 0x8000,
    {
        proof {
            assert(start_angle & 0x7fff < 0x8000) by (bit_vector);
        }
        start_angle & 0x7fff
    }

    /// Strips the two compensation bits off a packed distance/angle field,
    /// leaving the raw millimetre distance.
    fn parse_cabin_dist(&self, distance_angle: u16) -> (distance_mm: u16)
        ensures
            distance_mm == distance_mm_of(distance_angle),
            distance_mm < 0x4000,
    {
        proof {
            assert((distance_angle & 0xfffc) >> 2 < 0x4000) by (bit_vector);
        }
        (distance_angle & 0xfffc) >> 2
    }

    /// Reassembles the two 6-bit angle offsets of a cabin from the offset
    /// byte's nibbles and the borrowed low bits of the distance fields, and
    /// sign-extends them.
    fn parse_cabin_angles(&self, cabin: &RplidarResponseCabinNodes) -> (offsets: (i8, i8))
        ensures
            offsets.0 as int == sign_extend_6bit(offset_bits_1(*cabin)),
            offsets.1 as int == sign_extend_6bit(offset_bits_2(*cabin)),
            -32 <= offsets.0 < 32,
            -32 <= offsets.1 < 32,
    {
        let bits1: u16 = ((cabin.offset_angles_q3 & 0xf) as u16) | ((cabin.distance_angle_1 & 0x3)
            << 4);
        let bits2: u16 = ((cabin.offset_angles_q3 >> 4) as u16) | ((cabin.distance_angle_2 & 0x3)
            << 4);
        proof {
            lemma_offset_bits_bounded(cabin.offset_angles_q3, cabin.distance_angle_1);
            lemma_offset_bits_bounded(cabin.offset_angles_q3, cabin.distance_angle_2);
        }
        let offset1: i8 = if bits1 >= 32 {
            (bits1 as i8) - 64
        } else {
            bits1 as i8
        };
        let offset2: i8 = if bits2 >= 32 {
            (bits2 as i8) - 64
        } else {
            bits2 as i8
        };
        (offset1, offset2)
    }

    /// Wrapping q6 difference of two masked start angles: the forward angular
    /// travel from `prev_angle_q6` to `angle_q6`.
    fn calc_diff_angle(&self, angle_q6: u16, prev_angle_q6: u16) -> (diff: i32)
        requires
            angle_q6 < 0x8000,
            prev_angle_q6 < 0x8000,
        ensures
            diff == diff_angle_q6(angle_q6 as int, prev_angle_q6 as int),
            -23040 < diff < 23040,
    {
        let d: i32 = angle_q6 as i32 - prev_angle_q6 as i32 + FULL_TURN_Q6;
        if d >= 2 * FULL_TURN_Q6 {
            d - 2 * FULL_TURN_Q6
        } else if d >= FULL_TURN_Q6 {
            d - FULL_TURN_Q6
        } else {
            d
        }
    }

    /// Normalizes one wire capsule: masks the start angle and decodes the two
    /// distance/offset samples of each cabin, in cabin order.
    fn parse_measurements(&self, capsule: RplidarResponseCapsuleMeasurementNodes) -> (c: Capsule)
        ensures
            capsule_model(c) == normalized(capsule),
            capsule_inv(c),
    {
        let start_angle_q6: u16 = self.parse_start_angle(capsule.start_angle_sync_q6);

        let mut cabin_measurements: Vec<CabinMeasurement> = Vec::new();
        let mut i: usize = 0;
        while i < CAPSULE_CABIN_COUNT
            invariant
                i <= 16,
                cabin_measurements@.len() == 2 * i,
                forall|j: int|
                    0 <= j < 2 * i ==> sample_model(#[trigger] cabin_measurements@[j])
                        == normalized(capsule).samples[j],
            decreases 16 - i,
        {
            let cabin = &capsule.cabins[i];
            let dist1: u16 = self.parse_cabin_dist(cabin.distance_angle_1);
            let dist2: u16 = self.parse_cabin_dist(cabin.distance_angle_2);
            let (angle1, angle2): (i8, i8) = self.parse_cabin_angles(cabin);

            cabin_measurements.push(CabinMeasurement { angle_offset: angle1, distance: dist1 });
            cabin_measurements.push(CabinMeasurement { angle_offset: angle2, distance: dist2 });

            proof {
                assert((2 * i as int) % 2 == 0 && (2 * i as int) / 2 == i as int);
                assert((2 * i as int + 1) % 2 == 1 && (2 * i as int + 1) / 2 == i as int);
            }
            i += 1;
        }

        let c = Capsule { start_angle_q6, cabins: cabin_measurements };
        proof {
            assert(capsule_model(c).samples =~= normalized(capsule).samples);
            lemma_normalized_inv(capsule);
        }
        c
    }

    /// A new revolution started exactly when the start angle wrapped around.
    fn is_new_scan(&self, start_angle_q6: u16, prev_angle_q6: u16) -> (new_scan: bool)
        ensures
            new_scan == spec_is_new_scan(start_angle_q6 as int, prev_angle_q6 as int),
    {
        start_angle_q6 < prev_angle_q6
    }
}

/// Law: for start angles below one full turn — as the sensor emits them —
/// the wrapping difference always lies in [0°, 360°), i.e. [0, 23040) in q6.
pub proof fn lemma_diff_angle_range(curr_q6: int, prev_q6: int)
    requires
        0 <= curr_q6 < 23040,
        0 <= prev_q6 < 23040,
    ensures
        0 <= diff_angle_q6(curr_q6, prev_q6) < 23040,
{
}

/// Law: in the output of one primed decode call, bit 0 of `flag` is set on
/// the first node alone, and there exactly when the current start angle lies
/// strictly below the previous one.
pub proof fn lemma_new_scan_flag(prev: CapsuleModel, curr_start_q6: int)
    requires
        capsule_model_inv(prev),
    ensures
        forall|i: int|
            0 < i < output_nodes(prev, curr_start_q6).len()
                ==> #[trigger] output_nodes(prev, curr_start_q6)[i].flag == 0,
        output_nodes(prev, curr_start_q6)[0].flag == if spec_is_new_scan(
            curr_start_q6,
            prev.start_angle_q6,
        ) {
            1u8
        } else {
            0u8
        },
{
}

/// Law: angle reconstruction is linear. Ignoring the per-sample offset, the
/// q11 angle of sample `index` is the start angle plus `index` times the
/// per-sample increment, and consecutive samples differ by exactly that
/// increment — numerically the q6 travel itself, since dividing the travel
/// by the 32 samples is the q6-to-q11 conversion.
pub proof fn lemma_angle_linear(start_q6: int, diff_q6: int, index: int)
    ensures
        node_angle_q11(start_q6, diff_q6, index, 0) == start_q6 * 32 + diff_q6 * index,
        node_angle_q11(start_q6, diff_q6, index + 1, 0) - node_angle_q11(
            start_q6,
            diff_q6,
            index,
            0,
        ) == diff_q6,
{
    assert(diff_q6 * (index + 1) == diff_q6 * index + diff_q6) by (nonlinear_arith);
}

/// Law: the decoded distance is the packed field shifted down by two and is
/// independent of the two compensation bits.
pub proof fn lemma_distance_ignores_compensation(field: u16, comp: u16)
    by (bit_vector)
    requires
        comp < 4,
    ensures
        distance_mm_of(field) == field >> 2,
        distance_mm_of((field & 0xfffc) | comp) == distance_mm_of(field),
{
}

} // verus!


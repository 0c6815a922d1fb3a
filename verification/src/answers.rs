//! Wire-format records exchanged with the scanning engine.
//!
//! The input records mirror the sensor's capsuled response frames byte for
//! byte; the output record is the uniform measurement node handed to the
//! scan-assembly layer above.

use vstd::prelude::*;

verus! {

/// One cabin sub-record of a capsule: two packed 16-bit distance/angle fields
/// and one byte holding the two 4-bit angle-offset nibbles.
///
/// In each `distance_angle` field the upper 14 bits carry the distance in
/// millimetres and the low 2 bits carry the high bits of the matching sample's
/// 6-bit angle offset.
#[derive(Clone, Copy, PartialEq, Eq, Debug)]
pub struct RplidarResponseCabinNodes {
    pub distance_angle_1: u16,
    pub distance_angle_2: u16,
    pub offset_angles_q3: u8,
}

/// One capsule frame: the coarse start angle (low 15 bits, in 1/64-degree
/// units; the top bit is a sync marker consumed elsewhere) followed by a fixed
/// number of cabins.
#[derive(Clone, Copy, PartialEq, Eq, Debug)]
pub struct RplidarResponseCapsuleMeasurementNodes {
    pub start_angle_sync_q6: u16,
    pub cabins: [RplidarResponseCabinNodes; 16],
}

/// One decoded measurement node.
///
/// `angle_z_q14` holds the reconstructed angle truncated to whole degrees,
/// `dist_mm_q2` the raw millimetre distance, `quality` is not computed by this
/// decoder and stays 0, and bit 0 of `flag` marks the first sample of a new
/// revolution.
#[derive(Clone, Copy, PartialEq, Eq, Debug)]
pub struct RplidarResponseMeasurementNodeHq {
    pub angle_z_q14: u16,
    pub dist_mm_q2: u32,
    pub quality: u8,
    pub flag: u8,
}

} // verus!

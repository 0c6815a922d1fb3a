use rplidar_capsule::answers::RplidarResponseCabinNodes;
use rplidar_capsule::answers::RplidarResponseCapsuleMeasurementNodes;
use rplidar_capsule::answers::RplidarResponseMeasurementNodeHq;
use rplidar_capsule::ns_capsuled_parser::CapsuledParser;

fn cabin(d1: u16, d2: u16, q3: u8) -> RplidarResponseCabinNodes {
    RplidarResponseCabinNodes {
        distance_angle_1: d1,
        distance_angle_2: d2,
        offset_angles_q3: q3,
    }
}

fn capsule(start_q6: u16, c: RplidarResponseCabinNodes) -> RplidarResponseCapsuleMeasurementNodes {
    RplidarResponseCapsuleMeasurementNodes {
        start_angle_sync_q6: start_q6,
        cabins: [c; 16],
    }
}

#[test]
fn first_call_returns_empty() {
    let mut parser = CapsuledParser::new();
    let out = parser.parse(capsule(640, cabin(0, 0, 0)));
    assert_eq!(out.len(), 0);

    let mut parser = CapsuledParser::new();
    let out = parser.parse(capsule(22400, cabin(0x1234, 0x5678, 0xab)));
    assert_eq!(out.len(), 0);
}

#[test]
fn subsequent_calls_return_full_count() {
    let mut parser = CapsuledParser::new();
    assert_eq!(parser.parse(capsule(640, cabin(0, 0, 0))).len(), 0);
    assert_eq!(parser.parse(capsule(1280, cabin(400, 800, 3))).len(), 32);
    assert_eq!(parser.parse(capsule(1920, cabin(0, 0, 0))).len(), 32);
}

#[test]
fn angle_reconstruction_is_linear() {
    // Start angles 10.0 and 20.0 degrees, all offsets zero: the per-sample
    // increment is 10/32 = 0.3125 degrees, so sample i sits at 10 + 0.3125*i
    // degrees and the output holds that value truncated to whole degrees.
    let mut parser = CapsuledParser::new();
    assert_eq!(parser.parse(capsule(640, cabin(100 << 2, 100 << 2, 0))).len(), 0);
    let out = parser.parse(capsule(1280, cabin(0, 0, 0)));
    assert_eq!(out.len(), 32);
    assert_eq!(out[0].angle_z_q14, 10); // 10.0
    assert_eq!(out[3].angle_z_q14, 10); // 10.9375
    assert_eq!(out[4].angle_z_q14, 11); // 11.25
    assert_eq!(out[5].angle_z_q14, 11); // 11.5625
    assert_eq!(out[16].angle_z_q14, 15); // 15.0
    assert_eq!(out[31].angle_z_q14, 19); // 19.6875
    for node in out.iter() {
        assert_eq!(node.dist_mm_q2, 100);
    }
}

#[test]
fn wraparound_sets_new_scan_flag() {
    // 350.0 degrees then 5.0 degrees: the start angle wrapped, so the first
    // node of the second call carries the new-scan flag and no other does.
    let mut parser = CapsuledParser::new();
    assert_eq!(parser.parse(capsule(350 * 64, cabin(0, 0, 0))).len(), 0);
    let out = parser.parse(capsule(5 * 64, cabin(0, 0, 0)));
    assert_eq!(out.len(), 32);
    assert_eq!(out[0].flag, 1);
    for node in out.iter().skip(1) {
        assert_eq!(node.flag, 0);
    }
    // Forward travel is (5 - 350 + 360) mod 360 = 15 degrees; sample 0 still
    // sits at the previous start angle.
    assert_eq!(out[0].angle_z_q14, 350);
    assert_eq!(out[31].angle_z_q14, 364); // 350 + 15/32 * 31 = 364.53125
}

#[test]
fn forward_motion_clears_flag() {
    let mut parser = CapsuledParser::new();
    assert_eq!(parser.parse(capsule(640, cabin(0, 0, 0))).len(), 0);
    let out = parser.parse(capsule(1280, cabin(0, 0, 0)));
    for node in out.iter() {
        assert_eq!(node.flag, 0);
    }
}

#[test]
fn distance_ignores_compensation_bits() {
    // The low 2 bits of a distance/angle field are angle-offset bits; the
    // decoded distance is always the field shifted down by two.
    let mut with_comp = CapsuledParser::new();
    assert_eq!(with_comp.parse(capsule(640, cabin((1234 << 2) | 3, (77 << 2) | 3, 0))).len(), 0);
    let out = with_comp.parse(capsule(1280, cabin(0, 0, 0)));
    assert_eq!(out[0].dist_mm_q2, 1234);
    assert_eq!(out[1].dist_mm_q2, 77);

    let mut without_comp = CapsuledParser::new();
    assert_eq!(without_comp.parse(capsule(640, cabin(1234 << 2, 77 << 2, 0))).len(), 0);
    let out2 = without_comp.parse(capsule(1280, cabin(0, 0, 0)));
    assert_eq!(out2[0].dist_mm_q2, 1234);
    assert_eq!(out2[1].dist_mm_q2, 77);
}

#[test]
fn same_sequence_twice_is_identical() {
    let frames = [
        capsule(22400, cabin((500 << 2) | 1, 600 << 2, 0x4f)),
        capsule(320, cabin(700 << 2, (800 << 2) | 2, 0x21)),
        capsule(960, cabin(0, 0, 0)),
    ];

    let mut first = CapsuledParser::new();
    let mut second = CapsuledParser::new();
    for frame in frames.iter() {
        let a: Vec<RplidarResponseMeasurementNodeHq> = first.parse(*frame);
        let b: Vec<RplidarResponseMeasurementNodeHq> = second.parse(*frame);
        assert_eq!(a, b);
    }
}

#[test]
fn negative_offset_is_sign_extended() {
    // Offset bits 0b111111 = 63 read as a signed 6-bit value are -1, so the
    // first sample's angle is 10 - (-1) = 11 degrees. Both capsules start at
    // 10 degrees, so the travel is zero.
    let mut parser = CapsuledParser::new();
    assert_eq!(parser.parse(capsule(640, cabin(3, 0, 0x0f))).len(), 0);
    let out = parser.parse(capsule(640, cabin(0, 0, 0)));
    assert_eq!(out[0].angle_z_q14, 11);
    assert_eq!(out[1].angle_z_q14, 10); // second sample's offset is 0
}

#[test]
fn positive_offset_subtracts() {
    // Offset bits 2 stay +2, so the first sample's angle is 10 - 2 = 8.
    let mut parser = CapsuledParser::new();
    assert_eq!(parser.parse(capsule(640, cabin(0, 0, 0x02))).len(), 0);
    let out = parser.parse(capsule(640, cabin(0, 0, 0)));
    assert_eq!(out[0].angle_z_q14, 8);
}

#[test]
fn negative_angle_clamps_to_zero() {
    // Start angle 0 with a +2-degree offset puts the sample at -2 degrees,
    // which truncates to 0 in the unsigned output field.
    let mut parser = CapsuledParser::new();
    assert_eq!(parser.parse(capsule(0, cabin(0, 0, 0x02))).len(), 0);
    let out = parser.parse(capsule(0, cabin(0, 0, 0)));
    assert_eq!(out[0].angle_z_q14, 0);
}

#[test]
fn sync_bit_is_masked_off() {
    // The top bit of the wire start-angle field is a sync marker and must
    // not change the decoded angles.
    let mut plain = CapsuledParser::new();
    let mut marked = CapsuledParser::new();
    assert_eq!(plain.parse(capsule(640, cabin(40, 80, 5))).len(), 0);
    assert_eq!(marked.parse(capsule(0x8000 | 640, cabin(40, 80, 5))).len(), 0);
    let a = plain.parse(capsule(1280, cabin(0, 0, 0)));
    let b = marked.parse(capsule(0x8000 | 1280, cabin(0, 0, 0)));
    assert_eq!(a, b);
    // Sample 0 sits at 10 degrees minus its offset of 5.
    assert_eq!(a[0].angle_z_q14, 5);
}

#[test]
fn quality_is_always_zero() {
    let mut parser = CapsuledParser::new();
    assert_eq!(parser.parse(capsule(22400, cabin(0x7ffc, 0x1230, 0xff))).len(), 0);
    let out = parser.parse(capsule(320, cabin(0, 0, 0)));
    for node in out.iter() {
        assert_eq!(node.quality, 0);
    }
}

use firmware::exposure::{gain_code, shutter_width, MAX_GAIN, UNITY_GAIN};

#[test]
fn gain_codes_of_the_lowest_segment() {
    assert_eq!(gain_code(UNITY_GAIN), 0x08);
    assert_eq!(gain_code(1124), 0x08);
    assert_eq!(gain_code(1125), 0x09);
    assert_eq!(gain_code(1300), 0x0A);
    assert_eq!(gain_code(2000), 0x10);
    assert_eq!(gain_code(4000), 0x20);
}

#[test]
fn gain_below_one_counts_as_one() {
    assert_eq!(gain_code(0), 0x08);
    assert_eq!(gain_code(999), 0x08);
}

#[test]
fn gain_codes_of_the_middle_segment() {
    assert_eq!(gain_code(4001), 0x51);
    assert_eq!(gain_code(4249), 0x51);
    assert_eq!(gain_code(4250), 0x52);
    assert_eq!(gain_code(6000), 0x59);
    assert_eq!(gain_code(8000), 0x61);
}

#[test]
fn gain_codes_of_the_highest_segment() {
    assert_eq!(gain_code(8001), 0x61);
    assert_eq!(gain_code(8999), 0x61);
    assert_eq!(gain_code(9000), 0x61);
    assert_eq!(gain_code(9999), 0x61);
    assert_eq!(gain_code(10000), 0x62);
    assert_eq!(gain_code(15000), 0x67);
    assert_eq!(gain_code(MAX_GAIN), 0xFFFF);
}

#[test]
fn gain_code_at_eight_is_the_same_from_both_sides() {
    assert_eq!(gain_code(8000), gain_code(8001));
}

#[test]
fn gain_code_never_falls_as_gain_rises() {
    let mut last = gain_code(0);
    let mut gain = 0u32;
    while gain <= 40_000 {
        let code = gain_code(gain);
        assert!(code >= last, "gain {gain}");
        last = code;
        gain += 1;
    }
}

#[test]
fn shutter_width_of_a_tenth_of_a_second() {
    // 580000 clocks, plus 180, over a line of 1312 + 226 clocks
    assert_eq!(shutter_width(1, 10, 5_800_000, 0, 1312, 0), 377);
}

#[test]
fn shutter_width_counts_delay_and_blanking() {
    // (58000 + 180 + 4 * 25) / (1312 + 100 + 226)
    assert_eq!(shutter_width(1, 100, 5_800_000, 25, 1312, 100), 35);
    // (5800000 + 180) / 226
    assert_eq!(shutter_width(1, 1, 5_800_000, 0, 0, 0), 25664);
    assert_eq!(shutter_width(0, 1, 5_800_000, 0, 0, 0), 0);
}

#[test]
fn shutter_width_does_not_overflow() {
    let width = shutter_width(u32::MAX, 1, u32::MAX, u16::MAX, 0, 0);
    let rows = (u32::MAX as u128) * (u32::MAX as u128) + 180 + 4 * 65535;
    assert_eq!(width as u128, rows / 226);
}

#[test]
fn shutter_width_is_the_same_for_the_same_arguments() {
    let first = shutter_width(3, 7, 5_800_000, 11, 1311, 9);
    let second = shutter_width(3, 7, 5_800_000, 11, 1311, 9);
    assert_eq!(first, second);
    assert_eq!(first, (3 * 5_800_000 / 7 + 180 + 44) / (1311 + 9 + 226));
}

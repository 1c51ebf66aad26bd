use wave_compute::sample::{sample_of_bits, ONE_BITS, ZERO_BITS};

fn reference(bits: u32) -> u8 {
    (255.0 * f32::from_bits(bits)) as u8
}

#[test]
fn one_gives_the_full_sample() {
    assert_eq!(ONE_BITS, 1.0f32.to_bits());
    assert_eq!(sample_of_bits(ONE_BITS), 255);
}

#[test]
fn zero_gives_the_empty_sample() {
    assert_eq!(ZERO_BITS, 0.0f32.to_bits());
    assert_eq!(sample_of_bits(ZERO_BITS), 0);
    assert_eq!(sample_of_bits((-0.0f32).to_bits()), 0);
}

#[test]
fn half_gives_127() {
    assert_eq!(sample_of_bits(0.5f32.to_bits()), 127);
}

#[test]
fn values_outside_the_unit_interval_saturate() {
    assert_eq!(sample_of_bits(2.5f32.to_bits()), 255);
    assert_eq!(sample_of_bits(f32::MAX.to_bits()), 255);
    assert_eq!(sample_of_bits(f32::INFINITY.to_bits()), 255);
    assert_eq!(sample_of_bits((-0.25f32).to_bits()), 0);
    assert_eq!(sample_of_bits(f32::NEG_INFINITY.to_bits()), 0);
}

#[test]
fn a_nan_gives_the_empty_sample() {
    assert_eq!(sample_of_bits(f32::NAN.to_bits()), 0);
    assert_eq!(sample_of_bits(0x7f80_0001), 0);
    assert_eq!(sample_of_bits(0xffc0_0000), 0);
}

#[test]
fn the_value_just_below_one_gives_254() {
    assert_eq!(sample_of_bits(ONE_BITS - 1), 254);
}

#[test]
fn subnormal_values_give_the_empty_sample() {
    assert_eq!(sample_of_bits(1), 0);
    assert_eq!(sample_of_bits(0x007f_ffff), 0);
    assert_eq!(sample_of_bits(f32::MIN_POSITIVE.to_bits()), 0);
}

#[test]
fn the_sample_steps_up_at_each_multiple_of_one_255th() {
    for k in 1u32..=255 {
        let at = (k as f32 / 255.0).to_bits();
        for bits in at - 4..=at + 4 {
            assert_eq!(sample_of_bits(bits), reference(bits), "bits {bits:#x}");
        }
    }
}

#[test]
fn agrees_with_single_precision_arithmetic_across_the_unit_interval() {
    let mut bits: u32 = 0x3b00_0000;
    while bits <= ONE_BITS + 0x100 {
        assert_eq!(sample_of_bits(bits), reference(bits), "bits {bits:#x}");
        bits += 257;
    }
}

#[test]
fn agrees_with_single_precision_arithmetic_on_a_sweep_of_all_patterns() {
    let mut bits: u64 = 0;
    while bits <= u32::MAX as u64 {
        let b = bits as u32;
        assert_eq!(sample_of_bits(b), reference(b), "bits {b:#x}");
        bits += 65_521;
    }
}

/// Holds every pattern of one binade against single-precision arithmetic.
fn whole_binade(exponent: u32) {
    let first = exponent << 23;
    for bits in first..first + (1 << 23) {
        assert_eq!(sample_of_bits(bits), reference(bits), "bits {bits:#x}");
    }
}

#[test]
fn every_value_from_one_half_to_one_agrees() {
    whole_binade(126);
}

#[test]
fn every_value_from_one_quarter_to_one_half_agrees() {
    whole_binade(125);
}

#[test]
fn every_value_from_one_eighth_to_one_quarter_agrees() {
    whole_binade(124);
}

#[test]
fn every_value_from_2_to_the_minus_4_to_one_eighth_agrees() {
    whole_binade(123);
}

#[test]
fn every_value_from_2_to_the_minus_5_to_2_to_the_minus_4_agrees() {
    whole_binade(122);
}

#[test]
fn every_value_from_2_to_the_minus_6_to_2_to_the_minus_5_agrees() {
    whole_binade(121);
}

#[test]
fn every_value_from_2_to_the_minus_7_to_2_to_the_minus_6_agrees() {
    whole_binade(120);
}

#[test]
fn every_value_from_2_to_the_minus_8_to_2_to_the_minus_7_agrees() {
    whole_binade(119);
}

#[test]
fn every_value_from_2_to_the_minus_9_to_2_to_the_minus_8_agrees() {
    whole_binade(118);
}

#[test]
fn every_value_from_one_to_two_agrees() {
    whole_binade(127);
}

#[test]
fn every_value_from_2_to_the_minus_10_to_2_to_the_minus_9_agrees() {
    whole_binade(117);
}

#[test]
fn every_subnormal_value_agrees() {
    whole_binade(0);
}

#[test]
fn every_negative_value_from_one_half_to_one_agrees() {
    whole_binade(126 + 256);
}

#[test]
fn every_pattern_with_all_exponent_bits_set_agrees() {
    whole_binade(255);
    whole_binade(255 + 256);
}

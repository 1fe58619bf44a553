use wavefront::sampler::{sample_tea_32, IndependentSampler, Pcg32};

#[test]
fn tea_hash_matches_reference_values() {
    assert_eq!(sample_tea_32(0, 0, 4), (0x5DF5_F2BF, 0x54CE_08BA));
    assert_eq!(sample_tea_32(42, 7, 4), (0x71FA_0B7C, 0x4ACB_95E5));
}

#[test]
fn tea_hash_with_zero_rounds_is_identity() {
    assert_eq!(sample_tea_32(123, 456, 0), (123, 456));
}

#[test]
fn pcg_produces_the_reference_stream() {
    // The canonical demo stream of the generator seeded with
    // state 42, stream 54.
    let mut pcg = Pcg32::new(42, 54);
    let words: Vec<u32> = (0..6).map(|_| pcg.next_u32()).collect();
    assert_eq!(
        words,
        vec![0xA15C_02B7, 0x7B47_F409, 0xBA1D_3330, 0x83D2_F293, 0xBFA4_784B, 0xCBED_606E]
    );
}

#[test]
fn samplers_seeded_alike_produce_identical_streams() {
    let mut a = IndependentSampler::new(42, 3);
    let mut b = IndependentSampler::new(42, 3);
    let run_a: Vec<u32> = (0..8).map(|_| a.next_u32()).collect();
    let run_b: Vec<u32> = (0..8).map(|_| b.next_u32()).collect();
    assert_eq!(run_a, run_b);
    assert_eq!(&run_a[0..3], &[2586928981, 1805593960, 1482683947]);
}

#[test]
fn reseeding_equals_fresh_construction() {
    let mut reseeded = IndependentSampler::new(0, 0);
    reseeded.next_u32();
    reseeded.seed(9, 11);
    let mut fresh = IndependentSampler::new(9, 11);
    for _ in 0..4 {
        assert_eq!(reseeded.next_u32(), fresh.next_u32());
    }
}

#[test]
fn unit_samples_carry_the_words_top_bits_under_a_unit_exponent() {
    let mut a = IndependentSampler::new(1, 2);
    let mut b = IndependentSampler::new(1, 2);
    let word = a.next_u32();
    let bits = b.next_1d_bits();
    assert_eq!(bits, (word >> 9) | 0x3F80_0000);
    // The pattern denotes a value in [1, 2): unit exponent, top bits as
    // mantissa.
    assert_eq!(bits >> 23, 0x7F);

    let mut c = IndependentSampler::new(1, 2);
    let pair = c.next_2d_bits();
    assert_eq!(pair.0, bits);
    assert_eq!(pair.1, b.next_1d_bits());
}

#[test]
fn different_pixels_get_different_streams() {
    let mut a = IndependentSampler::new(42, 0);
    let mut b = IndependentSampler::new(42, 1);
    let run_a: Vec<u32> = (0..4).map(|_| a.next_u32()).collect();
    let run_b: Vec<u32> = (0..4).map(|_| b.next_u32()).collect();
    assert_ne!(run_a, run_b);
}

use common_tests::randomizer::{
    combine_halves, generate_random_string, lcg_step, random_u32_range, random_u64, random_usize,
    scale_into_range, simple_random_u32, CHARSET, CHARSET_LEN,
};

#[test]
fn lcg_step_known_values() {
    assert_eq!(lcg_step(0), 1013904223);
    assert_eq!(lcg_step(1), 1015568748);
    assert_eq!(lcg_step(u32::MAX), 1012239698);
}

#[test]
fn scale_into_range_folds_by_width() {
    assert_eq!(scale_into_range(17, 10, 14), 12);
    assert_eq!(scale_into_range(5, 3, 3), 3);
    assert_eq!(scale_into_range(u32::MAX, 0, u32::MAX), u32::MAX);
    assert_eq!(scale_into_range(123, 0, u32::MAX), 123);
}

#[test]
fn combine_halves_places_high_above_low() {
    assert_eq!(combine_halves(1, 2), (1u64 << 32) | 2);
    assert_eq!(combine_halves(u32::MAX, u32::MAX), u64::MAX);
    assert_eq!(combine_halves(0, 7), 7);
}

#[test]
fn random_string_has_length_and_charset() {
    assert_eq!(CHARSET.len(), CHARSET_LEN);
    for len in [0usize, 1, 10, 64] {
        let s = generate_random_string(len);
        assert_eq!(s.chars().count(), len);
        assert!(s.chars().all(|c| c.is_ascii_alphanumeric()));
    }
}

#[test]
fn random_range_stays_inside() {
    for _ in 0..100 {
        let r = random_u32_range(5, 9);
        assert!((5..=9).contains(&r));
    }
    assert_eq!(random_u32_range(7, 7), 7);
    let _ = random_u32_range(0, u32::MAX);
}

#[test]
fn random_values_are_in_their_ranges() {
    let _ = simple_random_u32();
    let _ = random_u64();
    assert!(random_usize() <= u32::MAX as usize);
}

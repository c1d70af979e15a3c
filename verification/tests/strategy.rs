use hashbench::keys::{xor_fold, U128Wrap, U128Wrap2, U128Wrap2Hash};

#[test]
fn xor_fold_of_zero_is_zero() {
    assert_eq!(xor_fold(0), 0);
}

#[test]
fn xor_fold_exact_value() {
    let x: u128 = (0xdead_0000_0000_0001_u128 << 64) | 0x0000_0000_0000_beef_u128;
    assert_eq!(xor_fold(x), 0xdead_0000_0000_0001_u64 ^ 0x0000_0000_0000_beef_u64);
}

#[test]
fn xor_fold_cancels_when_halves_equal() {
    let half: u64 = 0x1234_5678_9abc_def0;
    let x: u128 = ((half as u128) << 64) | (half as u128);
    assert_eq!(xor_fold(x), 0);
}

#[test]
fn wrappers_report_equal_hash_for_equal_payloads() {
    let payloads: [u128; 4] = [0, 1, u128::MAX, 0x0123_4567_89ab_cdef_fedc_ba98_7654_3210];
    for &p in payloads.iter() {
        let a = U128Wrap(p);
        let b = U128Wrap2(p);
        assert_eq!(a.hash_value(), b.hash_value());
        assert_eq!(a.hash_value(), xor_fold(p));
    }
}

#[test]
fn wrappers_agree_on_structural_equality() {
    let x: u128 = 42;
    let y: u128 = 43;
    assert_eq!(U128Wrap(x) == U128Wrap(x), U128Wrap2(x) == U128Wrap2(x));
    assert_eq!(U128Wrap(x) == U128Wrap(y), U128Wrap2(x) == U128Wrap2(y));
    assert!(U128Wrap(x) == U128Wrap(x));
    assert!(U128Wrap(x) != U128Wrap(y));
}

#[test]
fn hash_differs_when_only_low_half_differs() {
    let x: u128 = 0xaaaa_bbbb_cccc_dddd_0000_0000_0000_0001;
    let y: u128 = 0xaaaa_bbbb_cccc_dddd_0000_0000_0000_0002;
    assert_ne!(U128Wrap(x).hash_value(), U128Wrap(y).hash_value());
    assert_ne!(U128Wrap2(x).hash_value(), U128Wrap2(y).hash_value());
}

#[test]
fn hash_differs_when_only_high_half_differs() {
    let x: u128 = 0x0000_0000_0000_0001_aaaa_bbbb_cccc_dddd;
    let y: u128 = 0x0000_0000_0000_0002_aaaa_bbbb_cccc_dddd;
    assert_ne!(U128Wrap(x).hash_value(), U128Wrap(y).hash_value());
}

#[test]
fn xor_cancellation_across_both_halves_is_possible() {
    // A known limitation, not a defect: changing both halves the same way
    // leaves the fold unchanged.
    let x: u128 = (1u128 << 64) | 1u128;
    let y: u128 = (2u128 << 64) | 2u128;
    assert_ne!(x, y);
    assert_eq!(xor_fold(x), xor_fold(y));
}

#[test]
fn accumulator_starts_at_zero() {
    let h: U128Wrap2Hash = Default::default();
    assert_eq!(h.finish(), 0);
}

#[test]
fn accumulator_reports_last_word_unmixed() {
    let mut h: U128Wrap2Hash = Default::default();
    h.write_u64(7);
    assert_eq!(h.finish(), 7);
    h.write_u64(0xdead_beef_0102_0304);
    assert_eq!(h.finish(), 0xdead_beef_0102_0304);
}

#[test]
fn wrapper_conversions_round_trip() {
    let w = U128Wrap::from(7u128);
    assert_eq!(u128::from(w), 7);
    let w2 = U128Wrap2::from(9u128);
    assert_eq!(u128::from(w2), 9);
}

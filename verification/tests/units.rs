use sandwich_detector::detector::uniswap_v2_router;
use sandwich_detector::paths::a_b_a_path_matches;
use sandwich_detector::types::{Address, Amount};

fn bytes_of(s: &str) -> Vec<u8> {
    s.as_bytes().to_vec()
}

#[test]
fn paths_reverse_on_reversed_tails() {
    let front = bytes_of(&format!("{}{}{}", "0".repeat(10), "a".repeat(64), "b".repeat(64)));
    let back = bytes_of(&format!("{}{}{}", "1".repeat(22), "b".repeat(64), "a".repeat(64)));
    assert!(a_b_a_path_matches(&front, &back));
    assert!(a_b_a_path_matches(&back, &front));
}

#[test]
fn paths_do_not_reverse_on_equal_tails() {
    let front = bytes_of(&format!("{}{}{}", "0".repeat(10), "a".repeat(64), "b".repeat(64)));
    let back = front.clone();
    assert!(!a_b_a_path_matches(&front, &back));
}

#[test]
fn paths_never_match_below_guard_length() {
    let long = bytes_of(&format!("{}{}", "a".repeat(64), "a".repeat(64)));
    let short = bytes_of(&"a".repeat(73));
    assert!(!a_b_a_path_matches(&short, &long));
    assert!(!a_b_a_path_matches(&long, &short));
    assert!(!a_b_a_path_matches(&short, &short));
}

#[test]
fn paths_never_match_between_guard_and_two_slots() {
    // Long enough for the guard, too short to hold two whole 64-character
    // slots: nothing can be extracted, so nothing matches.
    let awkward = bytes_of(&"a".repeat(100));
    let long = bytes_of(&"a".repeat(128));
    assert!(!a_b_a_path_matches(&awkward, &long));
    assert!(!a_b_a_path_matches(&long, &awkward));
}

#[test]
fn paths_match_at_exactly_two_slots() {
    // Two identical slots reversed onto themselves, with no head at all.
    let data = bytes_of(&"a".repeat(128));
    assert!(a_b_a_path_matches(&data, &data));
}

#[test]
fn paths_compare_only_the_two_tail_slots() {
    // Different heads do not matter; only the two tail slots do.
    let front = bytes_of(&format!("{}{}{}", "x".repeat(30), "a".repeat(64), "b".repeat(64)));
    let back = bytes_of(&format!("{}{}{}", "y".repeat(11), "b".repeat(64), "a".repeat(64)));
    assert!(a_b_a_path_matches(&front, &back));
}

#[test]
fn amount_order_high_half_dominates() {
    let small = Amount { hi: 0, lo: u128::MAX };
    let large = Amount { hi: 1, lo: 0 };
    assert!(small.lt(&large));
    assert!(!large.lt(&small));
    assert!(!small.lt(&small));
}

#[test]
fn amount_order_low_half_decides_on_equal_high() {
    let a = Amount { hi: 7, lo: 3 };
    let b = Amount { hi: 7, lo: 4 };
    assert!(a.lt(&b));
    assert!(!b.lt(&a));
}

#[test]
fn amount_from_limbs_places_each_limb() {
    assert_eq!(Amount::from_u64_limbs(5, 0, 0, 0), Amount { hi: 0, lo: 5 });
    assert_eq!(
        Amount::from_u64_limbs(0, 1, 0, 0),
        Amount { hi: 0, lo: 0x1_0000_0000_0000_0000 }
    );
    assert_eq!(Amount::from_u64_limbs(0, 0, 1, 0), Amount { hi: 1, lo: 0 });
    assert_eq!(
        Amount::from_u64_limbs(0, 0, 0, 1),
        Amount { hi: 0x1_0000_0000_0000_0000, lo: 0 }
    );
    assert_eq!(Amount::from_u128(9), Amount { hi: 0, lo: 9 });
}

#[test]
fn address_from_bytes_big_endian() {
    let bytes: [u8; 20] = [
        0x7a, 0x25, 0x09, 0x56, 0x80, 0x8f, 0x5c, 0x3d, 0x7c, 0x48, 0x53, 0x74, 0x0a, 0x6d,
        0x7e, 0x44, 0x4e, 0x9a, 0xce, 0xd8,
    ];
    let a = Address::from_bytes(&bytes);
    assert_eq!(a, uniswap_v2_router());
    assert_eq!(a.hi, 0x7a250956);
    assert_eq!(a.lo, 0x808f5c3d7c4853740a6d7e444e9aced8);
}

#[test]
fn address_equality() {
    let a = Address { hi: 1, lo: 2 };
    let b = Address { hi: 1, lo: 2 };
    let c = Address { hi: 1, lo: 3 };
    assert!(a.eq_addr(&b));
    assert!(!a.eq_addr(&c));
}

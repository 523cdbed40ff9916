use float_hash_of::{hash_63_bits, FloatHashOf, EXP_1};
use hash_of::HashOf;
use std::collections::HashSet;

fn test_cases() -> HashSet<u64> {
    let mut cases = HashSet::new();
    cases.insert(0);
    for start in 0..16u64 {
        for shift in 0..(0u64.count_zeros()) {
            let case = start << shift;
            cases.insert(case);
        }
    }
    cases
}

#[test]
fn no_invalid_values() {
    let cases = test_cases();
    for &case in cases.iter() {
        let result = f64::from_bits(hash_63_bits(case));
        assert!(result != 0.);
        assert!(!result.is_nan());
    }
}

#[test]
fn boundary_sweep_is_normal() {
    for case in test_cases() {
        let result = f64::from_bits(hash_63_bits(case));
        assert!(result.is_normal());
        assert!(result.is_finite());
    }
}

#[test]
fn zero_maps_to_two() {
    assert_eq!(hash_63_bits(0), 0x4000_0000_0000_0000);
    let value = f64::from_bits(hash_63_bits(0));
    assert_eq!(value, 2.0);
    assert!(value.is_normal());
}

#[test]
fn all_ones_maps_to_finite() {
    assert_eq!(hash_63_bits(u64::MAX), 0xbfff_ffff_ffff_ffff);
    let value = f64::from_bits(hash_63_bits(u64::MAX));
    assert!(!value.is_nan());
    assert!(!value.is_infinite());
    assert!(value.is_normal());
}

#[test]
fn mixed_window_passes_through() {
    let one = 1.0f64.to_bits();
    assert_eq!(hash_63_bits(one), one);
    let minus_half = (-0.5f64).to_bits();
    assert_eq!(hash_63_bits(minus_half), minus_half);
    assert_eq!(hash_63_bits(0x4000_0000_0000_0001), 0x4000_0000_0000_0001);
}

#[test]
fn sign_and_mantissa_are_kept() {
    let hash: u64 = 0x800f_ffff_ffff_ffff;
    assert_eq!(hash_63_bits(hash), 0xc00f_ffff_ffff_ffff);
    let hash: u64 = 0xe123_4567_89ab_cdef;
    assert_eq!(hash_63_bits(hash), 0xa123_4567_89ab_cdef);
    assert_eq!(hash_63_bits(hash) & !EXP_1, hash & !EXP_1);
}

#[test]
fn transform_is_deterministic() {
    for case in test_cases() {
        assert_eq!(hash_63_bits(case), hash_63_bits(case));
    }
    let a = FloatHashOf::<String>::from("key");
    let b = FloatHashOf::<String>::from("key");
    assert_eq!(a, b);
}

#[test]
fn stored_bits_are_never_zero() {
    for case in test_cases() {
        let wrapped = FloatHashOf::<u32>::from_u64(case);
        assert_ne!(wrapped.bits(), 0);
        assert_eq!(wrapped.bits(), hash_63_bits(case));
    }
}

#[test]
fn equality_follows_bits() {
    let a = FloatHashOf::<u32>::from_u64(0);
    let b = FloatHashOf::<u32>::from_u64(EXP_1);
    let c = FloatHashOf::<u32>::from_u64(1);
    assert_eq!(a.bits(), b.bits());
    assert!(a == b);
    assert!(a != c);
    let d = a.clone();
    assert!(d == a);
}

#[test]
fn from_hash_of_reencodes_its_hash() {
    let hash = HashOf::<String>::from("test");
    let raw = hash.to_inner();
    let wrapped = FloatHashOf::<String>::from(hash);
    assert_eq!(wrapped.bits(), hash_63_bits(raw));
    assert!(f64::from_bits(wrapped.bits()).is_normal());
}

#[test]
fn borrowed_and_owned_values_agree() {
    let owned = String::new() + "test";
    let from_owned = FloatHashOf::<String>::from(&owned);
    let from_borrowed = FloatHashOf::<String>::from("test");
    assert_eq!(from_owned, from_borrowed);
    let raw = HashOf::<String>::from("test").to_inner();
    assert_eq!(from_borrowed.bits(), hash_63_bits(raw));
    let other = FloatHashOf::<String>::from("other");
    assert_ne!(HashOf::<String>::from("other").to_inner(), raw);
    assert_ne!(other, from_borrowed);
}

#[test]
fn borrowed_constructor_stores_normal_bits() {
    for key in ["", "a", "test", "a longer key with spaces"] {
        let wrapped = FloatHashOf::<String>::from(key);
        assert_ne!(wrapped.bits(), 0);
        assert!(f64::from_bits(wrapped.bits()).is_normal());
    }
    let numbers = [0u32, 1, 7, u32::MAX];
    for n in numbers.iter() {
        let wrapped = FloatHashOf::<u32>::from(n);
        assert_ne!(wrapped.bits(), 0);
        assert!(f64::from_bits(wrapped.bits()).is_normal());
    }
}

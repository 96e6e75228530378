//! Tests for the identifier types, element model, and element-ID
//! uniqueness checking.

use input::elements_have_unique_ids;
use input::value_is_zero;
use input::DeviceID;
use input::Element;
use input::ElementID;
use input::Timestamp;
use input::VALUE_ONE_BITS;
use input::VALUE_ZERO_BITS;

fn hash_of<T: std::hash::Hash>(v: &T) -> u64 {
    let mut h = std::collections::hash_map::DefaultHasher::new();
    std::hash::Hash::hash(v, &mut h);
    std::hash::Hasher::finish(&h)
}

#[test]
fn timestamps_carry_nanoseconds_and_order_totally() {
    assert_eq!(Timestamp(123).as_nanoseconds(), 123);
    assert_eq!(Timestamp(0).as_nanoseconds(), 0);
    assert!(Timestamp(1) < Timestamp(2));
    assert_eq!(Timestamp(5), Timestamp(5));
    assert_eq!(hash_of(&Timestamp(5)), hash_of(&Timestamp(5)));
}

#[test]
fn identifiers_compare_order_and_hash_by_value() {
    let a = DeviceID(String::from("usb-1"));
    let b = DeviceID(String::from("usb-1"));
    let c = DeviceID(String::from("usb-2"));
    assert_eq!(a, b);
    assert_ne!(a, c);
    assert!(a < c);
    assert_eq!(hash_of(&a), hash_of(&b));
    assert_eq!(a.clone(), a);

    assert_eq!(ElementID(9), ElementID(9));
    assert_ne!(ElementID(9), ElementID(10));
    assert!(ElementID(9) < ElementID(10));
    assert_eq!(hash_of(&ElementID(9)), hash_of(&ElementID(9)));
}

fn fixture(ids: &[u64]) -> Vec<Element> {
    // Cycle through the four element kinds so every kind is exercised.
    ids.iter()
        .enumerate()
        .map(|(i, &id)| match i % 4 {
            0 => Element::Button { id: ElementID(id), name: format!("button {}", i) },
            1 => Element::AbsoluteAxis {
                id: ElementID(id),
                name: format!("axis {}", i),
                range: ((-1.0f64).to_bits(), 1.0f64.to_bits()),
            },
            2 => Element::RelativeAxis { id: ElementID(id), name: format!("wheel {}", i) },
            _ => Element::UnknownElement { id: ElementID(id) },
        })
        .collect()
}

#[test]
fn every_element_kind_reports_its_id() {
    let els = fixture(&[4, 5, 6, 7]);
    for (el, expected) in els.iter().zip([4u64, 5, 6, 7]) {
        assert_eq!(el.id(), ElementID(expected));
    }
}

#[test]
fn unique_ids_are_accepted() {
    assert!(elements_have_unique_ids(&fixture(&[])));
    assert!(elements_have_unique_ids(&fixture(&[1])));
    assert!(elements_have_unique_ids(&fixture(&[1, 2, 3, 4, 5, 6, 7, 8])));
}

#[test]
fn repeated_ids_are_rejected() {
    assert!(!elements_have_unique_ids(&fixture(&[1, 1])));
    assert!(!elements_have_unique_ids(&fixture(&[1, 2, 3, 2])));
    assert!(!elements_have_unique_ids(&fixture(&[5, 1, 2, 3, 4, 5])));
}

#[test]
fn random_fixtures_agree_with_a_naive_check() {
    // A small deterministic pseudo-random walk over id lists.
    let mut seed: u64 = 0x9E3779B97F4A7C15;
    for len in 0..32usize {
        let mut ids = Vec::new();
        for _ in 0..len {
            seed = seed.wrapping_mul(6364136223846793005).wrapping_add(1442695040888963407);
            ids.push(seed >> 59);
        }
        let naive = (0..ids.len())
            .all(|i| (i + 1..ids.len()).all(|j| ids[i] != ids[j]));
        assert_eq!(elements_have_unique_ids(&fixture(&ids)), naive);
    }
}

#[test]
fn zero_readings_are_recognized_by_bit_pattern() {
    assert!(value_is_zero(0.0f64.to_bits()));
    assert!(value_is_zero((-0.0f64).to_bits()));
    assert!(!value_is_zero(1.0f64.to_bits()));
    assert!(!value_is_zero((-2.0f64).to_bits()));
    assert!(!value_is_zero(f64::NAN.to_bits()));
    assert_eq!(VALUE_ONE_BITS, 1.0f64.to_bits());
    assert_eq!(VALUE_ZERO_BITS, 0.0f64.to_bits());
}

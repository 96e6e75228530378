//! Tests for the key code-mapping layer.

use input::keyboard::Key;

/// Every code of the table, in ascending order.
const TABLE_CODES: [u64; 236] = [
    0, 8, 9, 13, 27, 32,
    33, 34, 35, 36, 37, 38,
    39, 40, 41, 42, 43, 44,
    45, 46, 47, 48, 49, 50,
    51, 52, 53, 54, 55, 56,
    57, 58, 59, 60, 61, 62,
    63, 64, 91, 92, 93, 94,
    95, 96, 97, 98, 99, 100,
    101, 102, 103, 104, 105, 106,
    107, 108, 109, 110, 111, 112,
    113, 114, 115, 116, 117, 118,
    119, 120, 121, 122, 127, 1073741881,
    1073741882, 1073741883, 1073741884, 1073741885, 1073741886, 1073741887,
    1073741888, 1073741889, 1073741890, 1073741891, 1073741892, 1073741893,
    1073741894, 1073741895, 1073741896, 1073741897, 1073741898, 1073741899,
    1073741901, 1073741902, 1073741903, 1073741904, 1073741905, 1073741906,
    1073741907, 1073741908, 1073741909, 1073741910, 1073741911, 1073741912,
    1073741913, 1073741914, 1073741915, 1073741916, 1073741917, 1073741918,
    1073741919, 1073741920, 1073741921, 1073741922, 1073741923, 1073741925,
    1073741926, 1073741927, 1073741928, 1073741929, 1073741930, 1073741931,
    1073741932, 1073741933, 1073741934, 1073741935, 1073741936, 1073741937,
    1073741938, 1073741939, 1073741940, 1073741941, 1073741942, 1073741943,
    1073741944, 1073741945, 1073741946, 1073741947, 1073741948, 1073741949,
    1073741950, 1073741951, 1073741952, 1073741953, 1073741957, 1073741958,
    1073741977, 1073741978, 1073741979, 1073741980, 1073741981, 1073741982,
    1073741983, 1073741984, 1073741985, 1073741986, 1073741987, 1073741988,
    1073742000, 1073742001, 1073742002, 1073742003, 1073742004, 1073742005,
    1073742006, 1073742007, 1073742008, 1073742009, 1073742010, 1073742011,
    1073742012, 1073742013, 1073742014, 1073742015, 1073742016, 1073742017,
    1073742018, 1073742019, 1073742020, 1073742021, 1073742022, 1073742023,
    1073742024, 1073742025, 1073742026, 1073742027, 1073742028, 1073742029,
    1073742030, 1073742031, 1073742032, 1073742033, 1073742034, 1073742035,
    1073742036, 1073742037, 1073742038, 1073742039, 1073742040, 1073742041,
    1073742042, 1073742043, 1073742044, 1073742045, 1073742048, 1073742049,
    1073742050, 1073742051, 1073742052, 1073742053, 1073742054, 1073742055,
    1073742081, 1073742082, 1073742083, 1073742084, 1073742085, 1073742086,
    1073742087, 1073742088, 1073742089, 1073742090, 1073742091, 1073742092,
    1073742093, 1073742094, 1073742095, 1073742096, 1073742097, 1073742098,
    1073742099, 1073742100, 1073742101, 1073742102, 1073742103, 1073742104,
    1073742105, 1073742106,
];

#[test]
fn code_round_trip_over_the_whole_table() {
    for &c in TABLE_CODES.iter() {
        let k = Key::from_u64(c).unwrap();
        assert_eq!(k.code() as u64, c);
        assert_eq!(Key::from_u64(k.code() as u64).unwrap(), k);
    }
}

#[test]
fn table_codes_map_to_distinct_keys() {
    for (i, &a) in TABLE_CODES.iter().enumerate() {
        for &b in TABLE_CODES.iter().skip(i + 1) {
            assert_ne!(Key::from_u64(a).unwrap(), Key::from_u64(b).unwrap());
        }
    }
}

#[test]
fn codes_outside_the_table_yield_unknown() {
    for c in [1u64, 2, 7, 10, 65, 66, 90, 123, 126, 128, 1000, 1073741880, 1073741900, 1073741924, 1073741959, 1073742107, u64::MAX] {
        assert!(!TABLE_CODES.contains(&c));
        assert_eq!(Key::from_u64(c).unwrap(), Key::Unknown);
    }
    for c in [-1i64, -97, i64::MIN] {
        assert_eq!(Key::from_i64(c).unwrap(), Key::Unknown);
    }
}

#[test]
fn fixed_codes_of_named_keys() {
    assert_eq!(Key::Unknown.code(), 0);
    assert_eq!(Key::A.code(), 97);
    assert_eq!(Key::F1.code(), 1073741882);
    assert_eq!(Key::Backspace.code(), 8);
    assert_eq!(Key::Tab.code(), 9);
    assert_eq!(Key::CapsLock.code(), 1073741881);
    assert_eq!(Key::Sleep.code(), 1073742106);
}

#[test]
fn primitive_conversions_carry_the_code() {
    assert_eq!(Key::A.to_i64(), Some(97i64));
    assert_eq!(Key::A.to_u64(), Some(97u64));
    assert_eq!(Key::F1.to_i64(), Some(1073741882i64));
    assert_eq!(Key::F1.to_u64(), Some(1073741882u64));
    assert_eq!(Key::from_i64(97).unwrap(), Key::A);
    assert_eq!(Key::from_i64(1073741882).unwrap(), Key::F1);
}

fn hash_of(k: Key) -> u64 {
    let mut h = std::collections::hash_map::DefaultHasher::new();
    std::hash::Hash::hash(&k, &mut h);
    std::hash::Hasher::finish(&h)
}

#[test]
fn keys_from_the_same_code_compare_and_hash_equal() {
    for &c in TABLE_CODES.iter() {
        let k1 = Key::from_u64(c).unwrap();
        let k2 = Key::from_u64(c).unwrap();
        assert_eq!(k1, k2);
        assert_eq!(hash_of(k1), hash_of(k2));
    }
}

#[test]
fn the_default_key_is_unknown() {
    assert_eq!(Key::default(), Key::Unknown);
    assert_eq!(Key::default().code(), 0);
}

#[test]
fn key_ordering_matches_code_ordering() {
    assert!(Key::Backspace < Key::Tab);
    assert!(Key::A < Key::B);
    assert!(Key::Delete < Key::CapsLock);
    assert!(Key::Unknown < Key::Sleep);
    for &a in TABLE_CODES.iter() {
        for &b in TABLE_CODES.iter() {
            let (ka, kb) = (Key::from_u64(a).unwrap(), Key::from_u64(b).unwrap());
            assert_eq!(ka < kb, a < b);
            assert_eq!(ka.cmp(&kb), a.cmp(&b));
        }
    }
}

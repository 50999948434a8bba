use ab_versions::{decode_version, protection_verdict, FTypeError, FileVersion};

#[test]
fn decodes_second_and_third_byte() {
    for first in [0x00u8, 0x01, 0x03, 0x7F, 0xFF] {
        let version = decode_version(&[first, 7, 3]).unwrap();
        assert_eq!(version, FileVersion { major_rev: 7, minor_rev: 3 });
    }
    assert_eq!(
        decode_version(&[0x03, 0x05, 0x0A]).unwrap(),
        FileVersion { major_rev: 5, minor_rev: 10 }
    );
    assert_eq!(
        decode_version(&[0, 255, 0]).unwrap(),
        FileVersion { major_rev: 255, minor_rev: 0 }
    );
}

#[test]
fn decodes_every_pair_of_bytes() {
    for major in 0..=255u8 {
        for minor in [0u8, 1, 9, 10, 99, 100, 254, 255] {
            let version = decode_version(&[0xAB, major, minor]).unwrap();
            assert_eq!(version.major_rev, major);
            assert_eq!(version.minor_rev, minor);
        }
    }
}

#[test]
fn rejects_streams_that_are_not_three_bytes() {
    assert_eq!(decode_version(&[]), Err(FTypeError::InvalidVersion));
    assert_eq!(decode_version(&[5]), Err(FTypeError::InvalidVersion));
    assert_eq!(decode_version(&[0, 5]), Err(FTypeError::InvalidVersion));
    assert_eq!(decode_version(&[0, 5, 10, 0]), Err(FTypeError::InvalidVersion));
    assert_eq!(decode_version(&[0u8; 64]), Err(FTypeError::InvalidVersion));
}

#[test]
fn is_old_below_major_five() {
    for major in 0..=255u8 {
        for minor in [0u8, 10, 255] {
            let version = FileVersion { major_rev: major, minor_rev: minor };
            assert_eq!(version.is_old(), major < 5);
        }
    }
}

#[test]
fn is_restorable_from_major_four() {
    for major in 0..=255u8 {
        for minor in [0u8, 10, 255] {
            let version = FileVersion { major_rev: major, minor_rev: minor };
            assert_eq!(version.is_restorable(), major >= 4);
        }
    }
}

#[test]
fn major_four_is_old_and_restorable() {
    let version = FileVersion { major_rev: 4, minor_rev: 0 };
    assert!(version.is_old());
    assert!(version.is_restorable());
    let version = FileVersion { major_rev: 3, minor_rev: 9 };
    assert!(version.is_old());
    assert!(!version.is_restorable());
    let version = FileVersion { major_rev: 5, minor_rev: 0 };
    assert!(!version.is_old());
    assert!(version.is_restorable());
}

#[test]
fn text_is_major_dot_minor() {
    assert_eq!(FileVersion { major_rev: 5, minor_rev: 10 }.to_string(), "5.10");
    assert_eq!(FileVersion { major_rev: 12, minor_rev: 0 }.to_string(), "12.0");
    assert_eq!(FileVersion { major_rev: 0, minor_rev: 0 }.to_string(), "0.0");
    assert_eq!(FileVersion { major_rev: 255, minor_rev: 255 }.to_string(), "255.255");
    assert_eq!(FileVersion { major_rev: 100, minor_rev: 9 }.to_string(), "100.9");
    assert_eq!(FileVersion { major_rev: 7, minor_rev: 103 }.to_string(), "7.103");
}

#[test]
fn text_agrees_with_decimal_formatting() {
    for major in 0..=255u8 {
        for minor in 0..=255u8 {
            let version = FileVersion { major_rev: major, minor_rev: minor };
            assert_eq!(version.to_string(), format!("{}.{}", major, minor));
        }
    }
}

#[test]
fn default_is_zero_dot_zero() {
    assert_eq!(FileVersion::default(), FileVersion { major_rev: 0, minor_rev: 0 });
}

#[test]
fn versions_compare_as_pairs() {
    let v5_10 = FileVersion { major_rev: 5, minor_rev: 10 };
    let v5_2 = FileVersion { major_rev: 5, minor_rev: 2 };
    let v6_0 = FileVersion { major_rev: 6, minor_rev: 0 };
    let v12_0 = FileVersion { major_rev: 12, minor_rev: 0 };
    assert!(v5_2 < v5_10);
    assert!(v5_10 < v6_0);
    assert!(v6_0 < v12_0);
    assert!(v12_0 > v5_10);
    assert!(v5_10 <= v5_10);
    assert!(v5_10 >= v5_10);
    assert_eq!(v5_10, FileVersion { major_rev: 5, minor_rev: 10 });
    assert_ne!(v5_10, v5_2);
    assert_eq!(v5_10.partial_cmp(&v5_2), Some(std::cmp::Ordering::Greater));
    assert_eq!(v5_10.partial_cmp(&v5_10), Some(std::cmp::Ordering::Equal));
    assert_eq!(v5_10.cmp(&v6_0), std::cmp::Ordering::Less);
    for a in [(0u8, 0u8), (0, 255), (4, 9), (5, 0), (255, 255)] {
        for b in [(0u8, 0u8), (0, 255), (4, 9), (5, 0), (255, 255)] {
            let left = FileVersion { major_rev: a.0, minor_rev: a.1 };
            let right = FileVersion { major_rev: b.0, minor_rev: b.1 };
            assert_eq!(left.partial_cmp(&right), Some(a.cmp(&b)));
            assert_eq!(left.cmp(&right), a.cmp(&b));
        }
    }
}

#[test]
fn never_restore_pattern_is_locked() {
    assert!(protection_verdict(&[0x00, 0x03, 0x00, 0x01, 0x00, 0x00, 0x00]));
}

#[test]
fn other_seven_bytes_are_not_locked() {
    assert!(!protection_verdict(&[0x00, 0x03, 0x00, 0x00, 0x00, 0x00, 0x00]));
    assert!(!protection_verdict(&[0x00; 7]));
    assert!(!protection_verdict(&[0xFF; 7]));
    assert!(!protection_verdict(&[0x00, 0x03, 0x00, 0x01, 0x00, 0x00, 0x01]));
    assert!(!protection_verdict(&[0x01, 0x03, 0x00, 0x01, 0x00, 0x00, 0x00]));
    assert!(!protection_verdict(&[0x00, 0x03, 0x00, 0x02, 0x00, 0x00, 0x00]));
}

#[test]
fn longer_streams_are_locked() {
    assert!(protection_verdict(&[0x00; 8]));
    assert!(protection_verdict(&[0x00, 0x03, 0x00, 0x00, 0x00, 0x00, 0x00, 0x00]));
    assert!(protection_verdict(&[0x00, 0x03, 0x00, 0x01, 0x00, 0x00, 0x00, 0x00]));
    assert!(protection_verdict(&[0x5A; 12]));
    assert!(protection_verdict(&[0x5A; 5000]));
}

#[test]
fn shorter_streams_are_not_locked() {
    assert!(!protection_verdict(&[]));
    assert!(!protection_verdict(&[0x00]));
    assert!(!protection_verdict(&[0x00, 0x03, 0x00, 0x01, 0x00, 0x00]));
    assert!(!protection_verdict(&[0xFF; 6]));
}

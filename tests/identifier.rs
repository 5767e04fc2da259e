use structured_data::decimal::push_padded;
use structured_data::prelude::{StructuredData, StructuredDataError};

#[test]
fn various_checksum_values() {
    let test_cases = [
        (10, 1, 26),
        (100, 0, 0),
        (0, 1000, 0),
        (999, 9999, 999),
        (123, 4567, 890),
    ];

    for (a, b, c) in test_cases {
        let data = StructuredData::new(a, b, c).unwrap();
        let digits = data.to_digits();

        let code: u64 = digits[0..10].parse().unwrap();
        let checksum: u64 = digits[10..12].parse().unwrap();

        let expected = if code % 97 == 0 { 97 } else { code % 97 };
        assert_eq!(checksum, expected, "Checksum mismatch for {:?}", (a, b, c));
    }
}

#[test]
fn digits_of_known_codes() {
    assert_eq!(StructuredData::new(10, 1, 26).unwrap().to_digits(), "010000102640");
    assert_eq!(StructuredData::new(100, 0, 0).unwrap().to_digits(), "100000000034");
    assert_eq!(StructuredData::new(999, 9999, 999).unwrap().to_digits(), "999999999948");
    assert_eq!(StructuredData::new(123, 4567, 890).unwrap().to_digits(), "123456789002");
}

#[test]
fn bank_format_of_known_codes() {
    assert_eq!(
        StructuredData::new(10, 1, 26).unwrap().to_bank_format(),
        "+++ 010/0001/02640 +++"
    );
    assert_eq!(
        StructuredData::new(123, 4567, 890).unwrap().to_bank_format(),
        "+++ 123/4567/89002 +++"
    );
}

#[test]
fn zero_remainder_becomes_97() {
    // 97 * 1_000_000 = 0097000000: parts 9, 7000, 0
    let data = StructuredData::new(9, 7000, 0).unwrap();
    assert_eq!(data.to_digits(), "009700000097");
    let all_zero = StructuredData::new(0, 0, 0).unwrap();
    assert_eq!(all_zero.to_digits(), "000000000097");
    assert_eq!(all_zero.to_bank_format(), "+++ 000/0000/00097 +++");
}

#[test]
fn largest_parts_are_accepted() {
    assert!(StructuredData::new(999, 9999, 999).is_ok());
}

#[test]
fn first_part_checked_first() {
    assert_eq!(
        StructuredData::new(1000, 10000, 1000).unwrap_err(),
        StructuredDataError::FirstPartOutOfRange(1000)
    );
}

#[test]
fn second_part_checked_second() {
    assert_eq!(
        StructuredData::new(999, 10000, 1000).unwrap_err(),
        StructuredDataError::SecondPartOutOfRange(10000)
    );
}

#[test]
fn third_part_checked_last() {
    assert_eq!(
        StructuredData::new(0, 0, 1000).unwrap_err(),
        StructuredDataError::ThirdPartOutOfRange(1000)
    );
    assert_eq!(
        StructuredData::new(0, 0, u64::MAX).unwrap_err(),
        StructuredDataError::ThirdPartOutOfRange(u64::MAX)
    );
}

#[test]
fn checksum_is_never_zero() {
    for a in [0u64, 1, 500, 999] {
        for b in [0u64, 1, 4242, 9999] {
            for c in 0..1000u64 {
                let digits = StructuredData::new(a, b, c).unwrap().to_digits();
                let checksum: u64 = digits[10..12].parse().unwrap();
                assert!((1..=97).contains(&checksum));
            }
        }
    }
}

#[test]
fn renderings_have_fixed_widths() {
    for (a, b, c) in [(0, 0, 0), (7, 42, 3), (999, 9999, 999)] {
        let data = StructuredData::new(a, b, c).unwrap();
        assert_eq!(data.to_digits().len(), 12);
        assert_eq!(data.to_bank_format().len(), 22);
    }
}

#[test]
fn bank_format_strips_to_digits() {
    let data = StructuredData::new(7, 42, 3).unwrap();
    let bank = data.to_bank_format();
    let stripped = bank
        .strip_prefix("+++ ")
        .unwrap()
        .strip_suffix(" +++")
        .unwrap()
        .replace('/', "");
    assert_eq!(stripped, data.to_digits());
}

#[test]
fn renderings_are_repeatable() {
    let data = StructuredData::new(123, 4567, 890).unwrap();
    assert_eq!(data.to_digits(), data.to_digits());
    assert_eq!(data.to_bank_format(), data.to_bank_format());
    let copy = data;
    assert_eq!(copy.to_bank_format(), data.to_bank_format());
}

#[test]
fn error_messages() {
    assert_eq!(
        StructuredDataError::FirstPartOutOfRange(1000).message(),
        "first_part must be 0-999, got 1000"
    );
    assert_eq!(
        StructuredDataError::SecondPartOutOfRange(12345).message(),
        "second_part must be 0-9999, got 12345"
    );
    assert_eq!(
        StructuredDataError::ThirdPartOutOfRange(u64::MAX).message(),
        "third_part must be 0-999, got 18446744073709551615"
    );
    assert_eq!(StructuredDataError::CodeParsingIssue.message(), "Failed to parse code");
}

#[test]
fn padded_keeps_low_digits() {
    let mut s = String::from("x");
    push_padded(&mut s, 5, 3);
    push_padded(&mut s, 12345, 2);
    push_padded(&mut s, 0, 0);
    assert_eq!(s, "x00545");
}

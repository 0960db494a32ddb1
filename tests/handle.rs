use tni::clock::ClockReading;
use tni::text::{name_code_hex, payload_bytes, tni_string, tni_string_from_encoded};
use tni::v0::make_from_parts;
use tni::{IdName, TNIVariant, UUID};

struct TestId;

impl IdName for TestId {
    fn id_name() -> &'static str {
        "test"
    }
}

fn reading(year: i32, ordinal: u16, hour: u8, minute: u8, second: u8) -> ClockReading {
    ClockReading { year, ordinal, hour, minute, second }
}

#[test]
fn clock_reading_parts() {
    let r = reading(2024, 1, 0, 0, 0);
    assert_eq!(r.years_since_unix_epoch(), 54);
    assert_eq!(r.seconds_since_year_start(), 0);
    let r = reading(2024, 366, 23, 59, 59);
    assert_eq!(r.seconds_since_year_start(), 31_622_399);
    let r = reading(2226, 2, 1, 2, 3);
    assert_eq!(r.years_since_unix_epoch(), 0);
    assert_eq!(r.seconds_since_year_start(), 86400 + 3600 + 120 + 3);
}

#[test]
fn from_clock_reading_packs() {
    let r = reading(2036, 32, 10, 0, 1);
    let id: UUID<TestId> = UUID::from_clock_reading(&r, 0x1234);
    let seconds = 31 * 86400 + 36000 + 1;
    assert_eq!(id.as_u128(), make_from_parts("test", 66, seconds, 0x1234));
    assert_eq!(id.name(), "test");
    assert_eq!(id.tni_variant(), TNIVariant::V0);
}

#[test]
fn readings_a_second_apart_sort() {
    let mut last: UUID<TestId> = UUID::from_clock_reading(&reading(2025, 100, 12, 0, 0), u128::MAX);
    for k in 1..6u8 {
        let id: UUID<TestId> = UUID::from_clock_reading(&reading(2025, 100, 12, 0, k), 0);
        assert!(last.as_u128() < id.as_u128());
        assert!(last.to_tni_string() < id.to_tni_string());
        last = id;
    }
}

#[test]
fn name_hex_of_test() {
    let id: UUID<TestId> = UUID::from_clock_reading(&reading(2025, 1, 0, 0, 0), 0);
    assert_eq!(id.name_hex(), "cab19");
    assert_eq!(name_code_hex(0), "00000");
    assert_eq!(name_code_hex(0xfffff), "fffff");
}

#[test]
fn new_ids_are_variant_zero() {
    let id: UUID<TestId> = UUID::new_time_sortable();
    assert_eq!(id.as_u128() >> 108, 0b11001_01010_11000_11001);
    assert_eq!((id.as_u128() >> 76) & 0xf, 8);
    assert_eq!((id.as_u128() >> 60) & 0xf, 8);
    let text = id.to_tni_string();
    assert!(text.starts_with("test."));
    assert_eq!(text.len(), 22);
}

#[test]
fn payload_bytes_big_endian() {
    let bytes = payload_bytes(0x0102_0304_0506_0708_090a_0b0c_0d0e_0f10);
    assert_eq!(bytes, vec![5, 6, 7, 8, 9, 10, 11, 12, 13, 14, 15, 16]);
}

#[test]
fn text_pads_payload() {
    assert_eq!(tni_string_from_encoded("ab", "xyz"), "ab.11111111111111xyz");
    let long = "23456789ABCDEFGHJK";
    assert_eq!(tni_string_from_encoded("a", long), format!("a.{}", long));
    assert_eq!(tni_string_from_encoded("a", ""), "a.11111111111111111");
}

#[test]
fn text_encodes_payload_in_base58() {
    assert_eq!(tni_string("test", 0), "test.11111111111111111");
    assert_eq!(tni_string("test", 1), "test.11111111111111112");
    assert_eq!(tni_string("test", 57), "test.1111111111111111z");
    assert_eq!(tni_string("test", 58), "test.11111111111111121");
}

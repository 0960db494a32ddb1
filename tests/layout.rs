use tni::name_encoding::{encode_char, CHAR_BIT_LENGTH, CHAR_MAPPING};
use tni::utils::metadata_mask;
use tni::v0::{
    compile_name_valid_check, id_name_mask, make_from_parts, random_bits_mask, stripped_id_info,
    year_seconds_mask, years_mask,
};
use tni::Error;

#[test]
fn metadata_mask_correct_location() {
    let mask = metadata_mask(0);

    assert_eq!(mask.leading_zeros(), 48);
    assert_eq!(mask.trailing_zeros(), 63);
    assert_eq!(mask.count_ones(), 2);
}

#[test]
fn metadata_mask_bits() {
    assert_eq!(metadata_mask(0), (1u128 << 79) | (1u128 << 63));
    assert_eq!(metadata_mask(3), (1u128 << 79) | (1u128 << 63) | (3u128 << 60));
}

#[test]
fn name_map_size() {
    assert_eq!(
        CHAR_MAPPING.len(),
        (2u8.pow(CHAR_BIT_LENGTH as u32) - 1) as usize
    );
}

#[test]
fn name_mask_correct_location() {
    let mask = id_name_mask("zzzz");

    assert_eq!(mask.leading_zeros(), 0);
    assert_eq!(mask.leading_ones(), 20);

    assert_eq!(mask.trailing_zeros(), 108);
}

#[test]
fn name_mask_pads_short_names() {
    assert_eq!(id_name_mask("a"), 6u128 << 15 << 108);
    assert_eq!(id_name_mask("0z"), ((1u128 << 15) | (31u128 << 10)) << 108);
    assert_eq!(id_name_mask("test"), 0b11001_01010_11000_11001u128 << 108);
}

#[test]
fn name_map_sorts() {
    let mut entries = CHAR_MAPPING.iter();
    let mut last = entries.next().unwrap();

    for next in entries {
        assert!(last.0 < next.0);
        assert!(last.1 < next.1);

        last = next;
    }
}

#[test]
fn encode_char_looks_up_alphabet() {
    assert_eq!(encode_char('0'), Some(1));
    assert_eq!(encode_char('4'), Some(5));
    assert_eq!(encode_char('a'), Some(6));
    assert_eq!(encode_char('z'), Some(31));
    assert_eq!(encode_char('5'), None);
    assert_eq!(encode_char('A'), None);
    assert_eq!(encode_char('é'), None);
}

#[test]
fn year_mask_correct_location() {
    let mask = years_mask(u8::MAX);

    assert_eq!(mask.leading_zeros(), 20);
    assert_eq!(mask.trailing_zeros(), 100);
    assert_eq!(mask.count_ones(), 8);
}

#[test]
fn year_seconds_mask_correct_location() {
    let mask = year_seconds_mask(u32::MAX << 7 >> 7);

    assert_eq!(mask.leading_zeros(), 28);
    assert_eq!(mask.count_ones(), 25);
    assert_eq!(mask.trailing_zeros(), 71);
}

#[test]
fn year_seconds_mask_splits_value() {
    assert_eq!(year_seconds_mask(0b100001), (1u128 << 80) | (1u128 << 71));
    assert_eq!(year_seconds_mask(0), 0);
}

#[test]
fn random_bits_mask_correct_location() {
    let mask = random_bits_mask(u128::MAX);

    assert_eq!(mask.leading_zeros(), 57);
    assert_eq!(mask.trailing_zeros(), 0);
    assert_eq!(mask.count_ones(), 67);
}

#[test]
fn variant0_makes_correctly() {
    let name = "test";
    let years_since_unix_epoch = 0x42;
    let seconds_since_year_start = 0b00000001_00011000_00011000_00110001;
    let random = 0x00000000_0000_0071_0234_56789abcdeff;

    let output = make_from_parts(
        name,
        years_since_unix_epoch,
        seconds_since_year_start,
        random,
    );

    let name_section = 0b11001_01010_11000_11001u128 << 108;
    let years_section = 0x42u128 << 100;
    let year_seconds_section = 0b10001100000011000001u128 << 80;
    let year_seconds_section_2 = 0b10001u128 << 71;
    let meta_section = 0x00000000_0000_8000_8000_000000000000;

    assert_eq!(
        output,
        name_section
            | years_section
            | year_seconds_section
            | year_seconds_section_2
            | meta_section
            | random
    );
}

#[test]
fn packed_fields_read_back() {
    let seconds: u32 = 31_622_399;
    let id = make_from_parts("ab3", 200, seconds, u128::MAX);
    assert_eq!(id >> 108, (6 << 15) | (7 << 10) | (4 << 5));
    assert_eq!((id >> 100) & 0xff, 200);
    assert_eq!((((id >> 80) & 0xf_ffff) << 5) | ((id >> 71) & 31), seconds as u128);
    assert_eq!((id >> 76) & 0xf, 8);
    assert_eq!((id >> 62) & 3, 2);
    assert_eq!((id >> 60) & 3, 0);
    assert_eq!(id & 0x7f_0fff_ffff_ffff_ffff, 0x7f_0fff_ffff_ffff_ffff);
}

#[test]
fn later_seconds_pack_larger() {
    let mut last = make_from_parts("test", 55, 1000, u128::MAX);
    for k in 1..5u32 {
        let next = make_from_parts("test", 55, 1000 + k, 0);
        assert!(last < next);
        assert!(stripped_id_info(last) < stripped_id_info(next));
        last = next;
    }
    assert!(make_from_parts("test", 55, 31_622_399, u128::MAX) < make_from_parts("test", 56, 0, 0));
}

#[test]
fn stripped_id_info_drops_name_and_markers() {
    let id = make_from_parts("test", 0x42, 0b1_00011000_00011000_00110001, 0x71_0234_56789abcdeff);
    let expected = (0x42u128 << 94)
        | (0b10001100000011000001u128 << 74)
        | (0b10001u128 << 69)
        | (0x71u128 << 62)
        | 0x0234_56789abcdeffu128;
    assert_eq!(stripped_id_info(id), expected);
    assert!(stripped_id_info(u128::MAX) < 1u128 << 102);
}

#[test]
fn valid_names_pass() {
    assert!(compile_name_valid_check("a").is_ok());
    assert!(compile_name_valid_check("test").is_ok());
    assert!(compile_name_valid_check("04zz").is_ok());
}

#[test]
fn invalid_names_fail() {
    assert!(matches!(compile_name_valid_check(""), Err(Error::InvalidName)));
    assert!(matches!(compile_name_valid_check("tests"), Err(Error::InvalidName)));
    assert!(matches!(compile_name_valid_check("té"), Err(Error::InvalidName)));
    assert!(matches!(compile_name_valid_check("t5"), Err(Error::InvalidName)));
    assert!(matches!(compile_name_valid_check("Test"), Err(Error::InvalidName)));
}

use gimmick_table::bytes::{be_u32_at, read_c_string};

#[test]
fn big_endian_word_is_read_most_significant_byte_first() {
    let bytes = [0x12u8, 0x34, 0x56, 0x78];
    assert_eq!(be_u32_at(&bytes, 0), Some(0x12345678));
}

#[test]
fn big_endian_word_keeps_the_high_bit() {
    let bytes = [0x80u8, 0x83, 0xB4, 0x68, 0xFF, 0xFF, 0xFF, 0xFF];
    assert_eq!(be_u32_at(&bytes, 0), Some(0x8083B468));
    assert_eq!(be_u32_at(&bytes, 4), Some(0xFFFFFFFF));
    assert_eq!(be_u32_at(&bytes, 2), Some(0xB468FFFF));
}

#[test]
fn big_endian_word_of_small_values() {
    assert_eq!(be_u32_at(&[0, 0, 0, 0], 0), Some(0));
    assert_eq!(be_u32_at(&[0, 0, 0, 1], 0), Some(1));
    assert_eq!(be_u32_at(&[0, 0, 1, 0], 0), Some(0x100));
    assert_eq!(be_u32_at(&[0, 1, 0, 0], 0), Some(0x10000));
    assert_eq!(be_u32_at(&[1, 0, 0, 0], 0), Some(0x1000000));
}

#[test]
fn big_endian_word_needs_four_bytes() {
    let bytes = [1u8, 2, 3, 4, 5];
    assert_eq!(be_u32_at(&bytes, 1), Some(0x02030405));
    assert_eq!(be_u32_at(&bytes, 2), None);
    assert_eq!(be_u32_at(&bytes, 5), None);
    assert_eq!(be_u32_at(&bytes, 6), None);
    assert_eq!(be_u32_at(&bytes, usize::MAX), None);
    assert_eq!(be_u32_at(&[], 0), None);
    assert_eq!(be_u32_at(&[1, 2, 3], 0), None);
}

#[test]
fn string_stops_before_the_zero_byte() {
    let image = [b'a', b'b', b'c', 0, b'd', b'e', 0];
    assert_eq!(read_c_string(&image, 0), Some(b"abc".to_vec()));
    assert_eq!(read_c_string(&image, 1), Some(b"bc".to_vec()));
    assert_eq!(read_c_string(&image, 4), Some(b"de".to_vec()));
}

#[test]
fn string_that_starts_at_a_zero_byte_is_empty() {
    let image = [b'a', 0, 0, b'b'];
    assert_eq!(read_c_string(&image, 1), Some(Vec::new()));
    assert_eq!(read_c_string(&image, 2), Some(Vec::new()));
}

#[test]
fn string_without_terminator_runs_to_the_end() {
    let image = [0u8, b'x', b'y', b'z'];
    assert_eq!(read_c_string(&image, 1), Some(b"xyz".to_vec()));
    assert_eq!(read_c_string(&image, 3), Some(b"z".to_vec()));
}

#[test]
fn string_at_the_end_of_the_image_is_empty() {
    let image = [b'a', b'b'];
    assert_eq!(read_c_string(&image, 2), Some(Vec::new()));
    assert_eq!(read_c_string(&[], 0), Some(Vec::new()));
}

#[test]
fn string_past_the_end_of_the_image_is_refused() {
    let image = [b'a', b'b'];
    assert_eq!(read_c_string(&image, 3), None);
    assert_eq!(read_c_string(&image, usize::MAX), None);
    assert_eq!(read_c_string(&[], 1), None);
}

#[test]
fn string_keeps_bytes_above_ascii() {
    let image = [0x83u8, 0x65, 0xFF, 0x00, 0x41];
    assert_eq!(read_c_string(&image, 0), Some(vec![0x83, 0x65, 0xFF]));
}

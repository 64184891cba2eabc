use perfcnt::linux::perf_format::PerfError;
use perfcnt::linux::primitives::{
    count_ones, find_nul, i32_at, need, parse_c_string, read_bit, read_bytes, read_cstring, read_le_i32,
    read_le_u16, read_le_u32, read_le_u64, read_le_u8, u16_at, u32_at, u64_at, u8_at,
};

#[test]
fn le_u8_reads_one_byte() {
    let bytes = [0xab_u8, 0xcd];
    let (rest, v) = read_le_u8(&bytes).unwrap();
    assert_eq!(v, 0xab);
    assert_eq!(rest, &[0xcd]);
}

#[test]
fn le_u16_is_little_endian() {
    let bytes = [0x34_u8, 0x12, 0xff];
    let (rest, v) = read_le_u16(&bytes).unwrap();
    assert_eq!(v, 0x1234);
    assert_eq!(rest, &[0xff]);
}

#[test]
fn le_u32_is_little_endian() {
    let bytes = [0x78_u8, 0x56, 0x34, 0x12];
    let (rest, v) = read_le_u32(&bytes).unwrap();
    assert_eq!(v, 0x1234_5678);
    assert!(rest.is_empty());
}

#[test]
fn le_u64_is_little_endian() {
    let bytes = [0xef_u8, 0xcd, 0xab, 0x89, 0x67, 0x45, 0x23, 0x01, 0x99];
    let (rest, v) = read_le_u64(&bytes).unwrap();
    assert_eq!(v, 0x0123_4567_89ab_cdef);
    assert_eq!(rest, &[0x99]);
}

#[test]
fn le_u64_takes_the_highest_value() {
    let bytes = [0xff_u8; 8];
    assert_eq!(read_le_u64(&bytes).unwrap().1, u64::MAX);
}

#[test]
fn le_i32_is_twos_complement() {
    assert_eq!(read_le_i32(&[0xff, 0xff, 0xff, 0xff]).unwrap().1, -1);
    assert_eq!(read_le_i32(&[0x00, 0x00, 0x00, 0x80]).unwrap().1, i32::MIN);
    assert_eq!(read_le_i32(&[0xff, 0xff, 0xff, 0x7f]).unwrap().1, i32::MAX);
    assert_eq!(read_le_i32(&[0x11, 0x00, 0x00, 0x00]).unwrap().1, 17);
    assert_eq!(read_le_i32(&[0xfe, 0xff, 0xff, 0xff]).unwrap().1, -2);
}

#[test]
fn readers_at_a_position() {
    let bytes = [0_u8, 1, 2, 3, 4, 5, 6, 7, 8, 9, 0xff, 0xff, 0xff, 0xff];
    assert_eq!(u8_at(&bytes, 3), 3);
    assert_eq!(u16_at(&bytes, 1), 0x0201);
    assert_eq!(u32_at(&bytes, 2), 0x0504_0302);
    assert_eq!(u64_at(&bytes, 1), 0x0807_0605_0403_0201);
    assert_eq!(i32_at(&bytes, 10), -1);
}

#[test]
fn short_reads_say_what_was_needed() {
    assert_eq!(read_le_u8(&[]), Err(PerfError::Truncated { expected: 1, available: 0 }));
    assert_eq!(read_le_u16(&[1]), Err(PerfError::Truncated { expected: 2, available: 1 }));
    assert_eq!(read_le_u32(&[1, 2, 3]), Err(PerfError::Truncated { expected: 4, available: 3 }));
    assert_eq!(
        read_le_u64(&[1, 2, 3, 4, 5, 6, 7]),
        Err(PerfError::Truncated { expected: 8, available: 7 })
    );
    assert_eq!(read_le_i32(&[1, 2]), Err(PerfError::Truncated { expected: 4, available: 2 }));
}

#[test]
fn read_bytes_splits_the_input() {
    let bytes = [1_u8, 2, 3, 4, 5];
    let (rest, block) = read_bytes(&bytes, 2).unwrap();
    assert_eq!(block, &[1, 2]);
    assert_eq!(rest, &[3, 4, 5]);
    let (rest, block) = read_bytes(&bytes, 5).unwrap();
    assert_eq!(block, &bytes);
    assert!(rest.is_empty());
    let (rest, block) = read_bytes(&bytes, 0).unwrap();
    assert!(block.is_empty());
    assert_eq!(rest, &bytes);
}

#[test]
fn read_bytes_fails_on_a_short_input() {
    let bytes = [1_u8, 2, 3];
    assert_eq!(read_bytes(&bytes, 4), Err(PerfError::Truncated { expected: 4, available: 3 }));
}

#[test]
fn bits_are_counted_from_the_highest_bit() {
    let bytes = [0b1000_0001_u8, 0b0100_0000];
    assert!(read_bit(&bytes, 0));
    assert!(!read_bit(&bytes, 1));
    assert!(!read_bit(&bytes, 6));
    assert!(read_bit(&bytes, 7));
    assert!(!read_bit(&bytes, 8));
    assert!(read_bit(&bytes, 9));
    assert!(!read_bit(&bytes, 15));
}

#[test]
fn find_nul_gives_the_first_nul() {
    assert_eq!(find_nul(b"abc\0def\0"), 3);
    assert_eq!(find_nul(b"\0abc"), 0);
    assert_eq!(find_nul(b"abc"), 3);
    assert_eq!(find_nul(b""), 0);
}

#[test]
fn c_string_consumes_its_nul() {
    let (rest, bytes) = parse_c_string(b"a.out\0\0rest").unwrap();
    assert_eq!(bytes, b"a.out");
    assert_eq!(rest, b"\0rest");
}

#[test]
fn c_string_may_be_empty() {
    let (rest, bytes) = parse_c_string(b"\0x").unwrap();
    assert!(bytes.is_empty());
    assert_eq!(rest, b"x");
}

#[test]
fn c_string_needs_a_nul() {
    assert_eq!(parse_c_string(b"abc"), Err(PerfError::Truncated { expected: 1, available: 0 }));
    assert_eq!(parse_c_string(b""), Err(PerfError::Truncated { expected: 1, available: 0 }));
}

#[test]
fn cstring_is_decoded_as_text() {
    let (rest, text) = read_cstring(b"perf\0tail").unwrap();
    assert_eq!(text, "perf");
    assert_eq!(rest, b"tail");
}

#[test]
fn cstring_decodes_utf8() {
    let (_, text) = read_cstring("caf\u{e9} \u{4e2d}\0".as_bytes()).unwrap();
    assert_eq!(text, "caf\u{e9} \u{4e2d}");
    assert_eq!(text.chars().count(), 6);
}

#[test]
fn cstring_keeps_going_on_bytes_that_are_no_text() {
    let (rest, text) = read_cstring(&[b'a', 0xff, b'b', 0, b'c']).unwrap();
    assert_eq!(text, "a\u{fffd}b");
    assert_eq!(rest, b"c");
}

#[test]
fn count_ones_counts_the_set_bits() {
    assert_eq!(count_ones(0), 0);
    assert_eq!(count_ones(1), 1);
    assert_eq!(count_ones(0b1011), 3);
    assert_eq!(count_ones(0x8000_0000_0000_0000), 1);
    assert_eq!(count_ones(u64::MAX), 64);
    assert_eq!(count_ones(0xff00_ff00), 16);
}

#[test]
fn count_ones_agrees_with_the_standard_library() {
    let mut x: u64 = 0x9e37_79b9_7f4a_7c15;
    let mut i = 0;
    while i < 200 {
        assert_eq!(count_ones(x), x.count_ones() as usize);
        x = x.wrapping_mul(6364136223846793005).wrapping_add(1442695040888963407);
        i += 1;
    }
}

#[test]
fn need_asks_for_bytes_without_reading_them() {
    let bytes = [1_u8, 2, 3];
    assert_eq!(need(&bytes, 0), Ok(()));
    assert_eq!(need(&bytes, 3), Ok(()));
    assert_eq!(need(&bytes, 4), Err(PerfError::Truncated { expected: 4, available: 3 }));
    assert_eq!(need(&[], 1), Err(PerfError::Truncated { expected: 1, available: 0 }));
}

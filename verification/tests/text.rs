use srun::text::{contains_bytes, decimal_i32, decimal_u64, hex_lower};

#[test]
fn decimal_of_small_numbers() {
    assert_eq!(decimal_i32(0), "0");
    assert_eq!(decimal_i32(7), "7");
    assert_eq!(decimal_i32(12), "12");
    assert_eq!(decimal_i32(200), "200");
    assert_eq!(decimal_i32(-1), "-1");
    assert_eq!(decimal_i32(-305), "-305");
}

#[test]
fn decimal_at_the_limits() {
    assert_eq!(decimal_i32(i32::MAX), "2147483647");
    assert_eq!(decimal_i32(i32::MIN), "-2147483648");
    assert_eq!(decimal_u64(0), "0");
    assert_eq!(decimal_u64(1700000000), "1700000000");
    assert_eq!(decimal_u64(u64::MAX), "18446744073709551615");
}

#[test]
fn decimal_agrees_with_std() {
    for v in [-100000i32, -99, -10, -9, 9, 10, 99, 100, 101, 65535, 1000000] {
        assert_eq!(decimal_i32(v), v.to_string());
    }
}

#[test]
fn hex_is_lower_case_and_two_per_byte() {
    assert_eq!(hex_lower(&[]), "");
    assert_eq!(hex_lower(&[0x00]), "00");
    assert_eq!(hex_lower(&[0x0f, 0xf0]), "0ff0");
    assert_eq!(hex_lower(&[0xde, 0xad, 0xbe, 0xef]), "deadbeef");
    assert_eq!(hex_lower(&[0x12, 0x9a, 0xab, 0xff]), "129aabff");
}

#[test]
fn hex_of_every_byte() {
    for b in 0..=255u8 {
        assert_eq!(hex_lower(&[b]), format!("{:02x}", b));
    }
}

#[test]
fn search_finds_a_run_of_bytes() {
    assert!(contains_bytes(b"wlp3s0", b"wlp"));
    assert!(contains_bytes(b"wlp3s0", b"3s0"));
    assert!(contains_bytes(b"wlp3s0", b"p3"));
    assert!(contains_bytes(b"wlp3s0", b"wlp3s0"));
    assert!(!contains_bytes(b"wlp3s0", b"eth"));
    assert!(!contains_bytes(b"wlp3s0", b"wlp3s01"));
    assert!(!contains_bytes(b"wlp3s0", b"s3"));
}

#[test]
fn search_for_nothing_succeeds() {
    assert!(contains_bytes(b"eth0", b""));
    assert!(contains_bytes(b"", b""));
    assert!(!contains_bytes(b"", b"e"));
}

use rust_video_playground::decimal::{append_decimal, push_decimal, read_decimal};

fn digits(n: u64) -> Vec<u8> {
    let mut out = Vec::new();
    push_decimal(&mut out, n);
    out
}

fn text(n: u64) -> String {
    let mut out = String::new();
    append_decimal(&mut out, n);
    out
}

#[test]
fn numbers_are_written_without_leading_zeros() {
    assert_eq!(digits(0), b"0");
    assert_eq!(digits(7), b"7");
    assert_eq!(digits(10), b"10");
    assert_eq!(digits(255), b"255");
    assert_eq!(digits(1000), b"1000");
    assert_eq!(digits(4294967295), b"4294967295");
    assert_eq!(digits(u64::MAX), b"18446744073709551615");
}

#[test]
fn digits_follow_what_is_there() {
    let mut out = b"n=".to_vec();
    push_decimal(&mut out, 42);
    assert_eq!(out, b"n=42");
    let mut name = String::from("frame");
    append_decimal(&mut name, 12);
    assert_eq!(name, "frame12");
}

#[test]
fn text_and_bytes_agree() {
    for n in [0, 1, 9, 10, 99, 100, 12345, 1_000_000_007, u64::MAX] {
        assert_eq!(text(n).as_bytes(), &digits(n)[..]);
        assert_eq!(text(n), n.to_string());
    }
}

#[test]
fn a_number_is_read_up_to_the_first_other_byte() {
    assert_eq!(read_decimal(b"640 360", 0), Some((640, 3)));
    assert_eq!(read_decimal(b"640 360", 4), Some((360, 7)));
    assert_eq!(read_decimal(b"640 360", 1), Some((40, 3)));
    assert_eq!(read_decimal(b"0", 0), Some((0, 1)));
    assert_eq!(read_decimal(b"0\n", 0), Some((0, 1)));
    assert_eq!(read_decimal(b"x7/", 1), Some((7, 2)));
    assert_eq!(read_decimal(b"x7:", 1), Some((7, 2)));
    assert_eq!(read_decimal(b"18446744073709551615", 0), Some((u64::MAX, 20)));
}

#[test]
fn what_is_no_number_is_not_read() {
    assert_eq!(read_decimal(b"", 0), None);
    assert_eq!(read_decimal(b"12", 2), None);
    assert_eq!(read_decimal(b" 12", 0), None);
    assert_eq!(read_decimal(b"-1", 0), None);
    assert_eq!(read_decimal(b"00", 0), None);
    assert_eq!(read_decimal(b"012", 0), None);
    assert_eq!(read_decimal(b"18446744073709551616", 0), None);
    assert_eq!(read_decimal(b"99999999999999999999", 0), None);
    assert_eq!(read_decimal(b"184467440737095516150", 0), None);
}

#[test]
fn what_is_written_is_read_back() {
    for n in [0, 5, 10, 19, 100, 65535, 4294967296, u64::MAX - 1, u64::MAX] {
        let mut bytes = digits(n);
        let end = bytes.len();
        bytes.push(b' ');
        assert_eq!(read_decimal(&bytes, 0), Some((n, end)));
    }
}

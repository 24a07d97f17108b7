use scancodes::hex::hex_digits;

fn text(digits: Vec<char>) -> String {
    digits.into_iter().collect()
}

#[test]
fn zero_is_one_digit() {
    assert_eq!(hex_digits(0), vec!['0']);
}

#[test]
fn single_digits() {
    assert_eq!(text(hex_digits(1)), "1");
    assert_eq!(text(hex_digits(9)), "9");
    assert_eq!(text(hex_digits(10)), "a");
    assert_eq!(text(hex_digits(15)), "f");
}

#[test]
fn several_digits_most_significant_first() {
    assert_eq!(text(hex_digits(16)), "10");
    assert_eq!(text(hex_digits(255)), "ff");
    assert_eq!(text(hex_digits(256)), "100");
    assert_eq!(text(hex_digits(0x4e2d)), "4e2d");
    assert_eq!(text(hex_digits(0x1F600)), "1f600");
    assert_eq!(text(hex_digits(0x10FFFF)), "10ffff");
    assert_eq!(text(hex_digits(0xdead_beef)), "deadbeef");
    assert_eq!(text(hex_digits(u32::MAX)), "ffffffff");
}

#[test]
fn zero_digits_inside_and_at_the_end_are_kept() {
    assert_eq!(text(hex_digits(0x1000)), "1000");
    assert_eq!(text(hex_digits(0x10203)), "10203");
    assert_eq!(text(hex_digits(0xa0b0)), "a0b0");
}

#[test]
fn no_leading_zero() {
    for n in [1u32, 7, 15, 16, 17, 255, 4096, 0x4e2d, 0x10FFFF, u32::MAX] {
        assert_ne!(hex_digits(n)[0], '0');
    }
}

#[test]
fn agrees_with_the_standard_formatter() {
    let mut n: u32 = 0;
    loop {
        assert_eq!(text(hex_digits(n)), format!("{:x}", n));
        match n.checked_mul(3) {
            Some(m) => n = m + 1,
            None => break,
        }
    }
    for n in 0..5000u32 {
        assert_eq!(text(hex_digits(n)), format!("{:x}", n));
    }
}

#[test]
fn digits_denote_the_number() {
    for n in [0u32, 1, 15, 16, 0x4e2d, 0x10FFFF, 0xdead_beef, u32::MAX] {
        let written = text(hex_digits(n));
        assert_eq!(u32::from_str_radix(&written, 16), Ok(n));
    }
}

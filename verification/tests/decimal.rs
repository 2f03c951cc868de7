use panic_semihosting::decimal::decimal_string;

#[test]
fn zero_is_a_single_digit() {
    assert_eq!(decimal_string(0), "0");
}

#[test]
fn every_single_digit_renders_as_itself() {
    let expected = ["0", "1", "2", "3", "4", "5", "6", "7", "8", "9"];
    for (n, text) in expected.iter().enumerate() {
        assert_eq!(decimal_string(n as u32), *text);
    }
}

#[test]
fn ten_is_the_first_two_digit_numeral() {
    assert_eq!(decimal_string(9), "9");
    assert_eq!(decimal_string(10), "10");
    assert_eq!(decimal_string(11), "11");
}

#[test]
fn inner_and_trailing_zeros_are_kept() {
    assert_eq!(decimal_string(100), "100");
    assert_eq!(decimal_string(1_000_000), "1000000");
    assert_eq!(decimal_string(10_203), "10203");
    assert_eq!(decimal_string(4_000_000_000), "4000000000");
}

#[test]
fn largest_number_renders_in_full() {
    assert_eq!(decimal_string(u32::MAX), "4294967295");
}

#[test]
fn numerals_agree_with_the_standard_rendering() {
    let samples: [u32; 12] = [
        0, 7, 42, 99, 101, 999, 1_000, 65_535, 65_536, 123_456_789, 2_147_483_648, 4_294_967_294,
    ];
    for n in samples {
        assert_eq!(decimal_string(n), format!("{}", n));
    }
}

#[test]
fn numerals_read_back_as_the_number() {
    let samples: [u32; 6] = [0, 5, 60, 705, 80_090, u32::MAX];
    for n in samples {
        let text = decimal_string(n);
        assert!(text.chars().all(|c| c.is_ascii_digit()));
        assert!(n == 0 || !text.starts_with('0'));
        assert_eq!(text.parse::<u32>(), Ok(n));
    }
}

#[test]
fn different_numbers_have_different_numerals() {
    assert_ne!(decimal_string(1), decimal_string(10));
    assert_ne!(decimal_string(12), decimal_string(21));
    assert_ne!(decimal_string(0), decimal_string(100));
}

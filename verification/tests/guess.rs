use guessing_game::guess::{digit_of, is_whitespace, parse_guess};

#[test]
fn plain_number_is_a_guess() {
    assert_eq!(parse_guess("12"), Some(12));
    assert_eq!(parse_guess("0"), Some(0));
    assert_eq!(parse_guess("100"), Some(100));
}

#[test]
fn line_ending_is_trimmed() {
    assert_eq!(parse_guess("12\n"), Some(12));
    assert_eq!(parse_guess("12\r\n"), Some(12));
    assert_eq!(parse_guess("  \t42  \n"), Some(42));
}

#[test]
fn other_white_space_is_trimmed() {
    assert_eq!(parse_guess("\u{3000}5\u{a0}"), Some(5));
    assert_eq!(parse_guess("\u{2003}77\u{85}\u{2028}"), Some(77));
    assert_eq!(parse_guess("\u{b}\u{c}9\u{1680}\u{205f}"), Some(9));
}

#[test]
fn plus_sign_is_taken() {
    assert_eq!(parse_guess("+7"), Some(7));
    assert_eq!(parse_guess(" +7\n"), Some(7));
    assert_eq!(parse_guess("+"), None);
    assert_eq!(parse_guess("++7"), None);
    assert_eq!(parse_guess("+ 7"), None);
    assert_eq!(parse_guess("7+"), None);
}

#[test]
fn minus_sign_is_refused() {
    assert_eq!(parse_guess("-1"), None);
    assert_eq!(parse_guess("-0"), None);
    assert_eq!(parse_guess("-"), None);
}

#[test]
fn leading_zeros_are_taken() {
    assert_eq!(parse_guess("007"), Some(7));
    assert_eq!(parse_guess("0000000000000000000000000000042"), Some(42));
    assert_eq!(parse_guess("00000000004294967295"), Some(4294967295));
}

#[test]
fn empty_line_is_no_guess() {
    assert_eq!(parse_guess(""), None);
    assert_eq!(parse_guess("\n"), None);
    assert_eq!(parse_guess("   \t \r\n"), None);
}

#[test]
fn words_are_no_guess() {
    assert_eq!(parse_guess("abc"), None);
    assert_eq!(parse_guess("abc\n"), None);
    assert_eq!(parse_guess("12abc"), None);
    assert_eq!(parse_guess("a12"), None);
    assert_eq!(parse_guess("1 2"), None);
    assert_eq!(parse_guess("12.5"), None);
    assert_eq!(parse_guess("1_000"), None);
    assert_eq!(parse_guess("0x10"), None);
    assert_eq!(parse_guess("\u{663}"), None);
    assert_eq!(parse_guess("\u{ff11}\u{ff12}"), None);
}

#[test]
fn largest_number_that_fits() {
    assert_eq!(parse_guess("4294967295"), Some(u32::MAX));
    assert_eq!(parse_guess("4294967296"), None);
    assert_eq!(parse_guess("4294967300"), None);
    assert_eq!(parse_guess("42949672950"), None);
    assert_eq!(parse_guess("99999999999999999999999999999999999999"), None);
    assert_eq!(parse_guess("4294967296x"), None);
}

#[test]
fn inner_white_space_is_not_trimmed() {
    assert_eq!(parse_guess("\u{200b}5"), None);
    assert_eq!(parse_guess("5\u{feff}"), None);
    assert_eq!(parse_guess("1\t2"), None);
}

#[test]
fn white_space_is_what_unicode_says() {
    let mut count: u32 = 0;
    for code in 0..=0x10FFFFu32 {
        if let Some(c) = char::from_u32(code) {
            assert_eq!(is_whitespace(c), c.is_whitespace(), "code point {:#x}", code);
            if is_whitespace(c) {
                count += 1;
            }
        }
    }
    assert_eq!(count, 25);
}

#[test]
fn digits_are_zero_to_nine() {
    for code in 0..=0x10FFFFu32 {
        if let Some(c) = char::from_u32(code) {
            let expected = if c.is_ascii_digit() { c.to_digit(10) } else { None };
            assert_eq!(digit_of(c), expected, "code point {:#x}", code);
        }
    }
    assert_eq!(digit_of('0'), Some(0));
    assert_eq!(digit_of('9'), Some(9));
    assert_eq!(digit_of('/'), None);
    assert_eq!(digit_of(':'), None);
}

#[test]
fn agrees_with_trim_and_parse() {
    let pieces = [
        "", " ", "\n", "\t", "+", "-", "0", "1", "9", "12", "100", "a", "x1", "\u{a0}", "\u{3000}",
        "4294967295", "4294967296", "00", ".", "_", "\u{85}", "\r\n", "65536",
    ];
    for a in pieces {
        for b in pieces {
            for c in pieces {
                let line = format!("{}{}{}", a, b, c);
                assert_eq!(parse_guess(&line), line.trim().parse::<u32>().ok(), "line {:?}", line);
            }
        }
    }
}

#[test]
fn every_number_up_to_a_thousand_reads_back() {
    for n in 0..=1000u32 {
        assert_eq!(parse_guess(&format!("{}\n", n)), Some(n));
    }
}

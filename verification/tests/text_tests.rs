use hayaku_ike::decimal::decimal_string;
use hayaku_ike::text::{byte_in_class, find_first, nth_token, parse_millionths, parse_u64, ByteClass};

#[test]
fn unsigned_integers_are_digits_with_an_optional_plus() {
    assert_eq!(parse_u64(b"0"), Some(0));
    assert_eq!(parse_u64(b"2048"), Some(2048));
    assert_eq!(parse_u64(b"+2048"), Some(2048));
    assert_eq!(parse_u64(b"0007"), Some(7));
    assert_eq!(parse_u64(b""), None);
    assert_eq!(parse_u64(b"+"), None);
    assert_eq!(parse_u64(b"++1"), None);
    assert_eq!(parse_u64(b"-1"), None);
    assert_eq!(parse_u64(b"12a"), None);
    assert_eq!(parse_u64(b"1 2"), None);
    assert_eq!(parse_u64(b"1.5"), None);
    assert_eq!(parse_u64(b"18446744073709551615"), Some(u64::MAX));
    assert_eq!(parse_u64(b"18446744073709551616"), None);
    assert_eq!(parse_u64(b"000000000000000000000000018446744073709551615"), Some(u64::MAX));
    assert_eq!(parse_u64(b"99999999999999999999999999"), None);
}

#[test]
fn integers_are_read_as_the_standard_library_reads_them() {
    for text in ["0", "17", "+17", "", "+", "-3", "0x10", "1_000", " 1", "18446744073709551615", "18446744073709551616"] {
        assert_eq!(parse_u64(text.as_bytes()), text.parse::<u64>().ok(), "{}", text);
    }
}

#[test]
fn decimals_are_read_in_millionths() {
    assert_eq!(parse_millionths(b"0.2"), Some(200_000));
    assert_eq!(parse_millionths(b"0.05"), Some(50_000));
    assert_eq!(parse_millionths(b"1"), Some(1_000_000));
    assert_eq!(parse_millionths(b"0"), Some(0));
    assert_eq!(parse_millionths(b"0.000001"), Some(1));
    assert_eq!(parse_millionths(b"0.0000019"), Some(1));
    assert_eq!(parse_millionths(b"007.5"), Some(7_500_000));
    assert_eq!(parse_millionths(b"7."), Some(7_000_000));
    assert_eq!(parse_millionths(b".75"), Some(750_000));
    assert_eq!(parse_millionths(b"."), None);
    assert_eq!(parse_millionths(b""), None);
    assert_eq!(parse_millionths(b"1..2"), None);
    assert_eq!(parse_millionths(b"1.2."), None);
    assert_eq!(parse_millionths(b"+1.2"), None);
    assert_eq!(parse_millionths(b"1,2"), None);
    assert_eq!(parse_millionths(b"1.2x"), None);
    assert_eq!(parse_millionths(b"x.2"), None);
    assert_eq!(parse_millionths(b"18446744073709.551615"), Some(u64::MAX));
    assert_eq!(parse_millionths(b"18446744073709.5516159"), Some(u64::MAX));
    assert_eq!(parse_millionths(b"18446744073709.551616"), None);
    assert_eq!(parse_millionths(b"18446744073710"), None);
}

#[test]
fn tokens_are_set_apart_by_white_space() {
    let text = b"  alpha\tbeta\r\n gamma ";
    assert_eq!(nth_token(text, 0), Some(&b"alpha"[..]));
    assert_eq!(nth_token(text, 1), Some(&b"beta"[..]));
    assert_eq!(nth_token(text, 2), Some(&b"gamma"[..]));
    assert_eq!(nth_token(text, 3), None);
    assert_eq!(nth_token(text, usize::MAX), None);
    assert_eq!(nth_token(b"", 0), None);
    assert_eq!(nth_token(b" \x0b\x0c ", 0), None);
    assert_eq!(nth_token(b"one", 0), Some(&b"one"[..]));
    assert_eq!(nth_token(b"one", 1), None);
}

#[test]
fn tokens_are_those_of_the_standard_library() {
    for text in ["a b c", "  lead", "trail  ", "\ttab\tbed\n", "x\x0by\x0cz", "", "   "] {
        for n in 0..4 {
            let expected = text.split_whitespace().nth(n).map(|t| t.as_bytes());
            assert_eq!(nth_token(text.as_bytes(), n), expected, "{:?} {}", text, n);
        }
    }
}

#[test]
fn scans_stop_at_the_first_byte_of_a_class() {
    let text = b"ab \n.c";
    assert_eq!(find_first(text, 0, ByteClass::Space), 2);
    assert_eq!(find_first(text, 2, ByteClass::Visible), 4);
    assert_eq!(find_first(text, 0, ByteClass::Newline), 3);
    assert_eq!(find_first(text, 0, ByteClass::Dot), 4);
    assert_eq!(find_first(text, 5, ByteClass::Dot), 6);
    assert_eq!(find_first(text, 6, ByteClass::Visible), 6);
    assert_eq!(find_first(text, 0, ByteClass::Visible), 0);
    assert_eq!(find_first(text, 7, ByteClass::Visible), 6);
    assert_eq!(find_first(text, usize::MAX, ByteClass::Space), 6);
    for b in 0u8..=255 {
        let space = b == b' ' || (9..=13).contains(&b);
        assert_eq!(byte_in_class(b, ByteClass::Space), space);
        assert_eq!(byte_in_class(b, ByteClass::Visible), !space);
        assert_eq!(byte_in_class(b, ByteClass::Newline), b == b'\n');
        assert_eq!(byte_in_class(b, ByteClass::Dot), b == b'.');
        if b < 128 {
            assert_eq!(space, (b as char).is_whitespace());
        }
    }
}

#[test]
fn integers_are_written_in_decimal() {
    assert_eq!(decimal_string(0), "0");
    assert_eq!(decimal_string(7), "7");
    assert_eq!(decimal_string(10), "10");
    assert_eq!(decimal_string(1_000_000), "1000000");
    assert_eq!(decimal_string(u64::MAX), "18446744073709551615");
    for n in [0u64, 9, 10, 99, 100, 12345, 9_999_999_999] {
        assert_eq!(decimal_string(n), n.to_string());
    }
    for d in 0u64..10 {
        assert_eq!(decimal_string(d), d.to_string());
    }
}

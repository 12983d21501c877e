use jodo::number::{decimal_text, parse_digits, parse_u32, parse_usize};

#[test]
fn parse_usize_reads_decimal_numbers() {
    assert_eq!(parse_usize("0"), Some(0));
    assert_eq!(parse_usize("42"), Some(42));
    assert_eq!(parse_usize("+42"), Some(42));
    assert_eq!(parse_usize("0042"), Some(42));
    assert_eq!(parse_usize(&usize::MAX.to_string()), Some(usize::MAX));
}

#[test]
fn parse_usize_refuses_everything_else() {
    assert_eq!(parse_usize(""), None);
    assert_eq!(parse_usize("+"), None);
    assert_eq!(parse_usize("-1"), None);
    assert_eq!(parse_usize("-0"), None);
    assert_eq!(parse_usize("1.5"), None);
    assert_eq!(parse_usize(" 1"), None);
    assert_eq!(parse_usize("1 "), None);
    assert_eq!(parse_usize("1a"), None);
    assert_eq!(parse_usize("++1"), None);
    assert_eq!(parse_usize("1+"), None);
    assert_eq!(parse_usize("1_000"), None);
    assert_eq!(parse_usize("0x10"), None);
    assert_eq!(parse_usize("\u{ff11}"), None);
    assert_eq!(parse_usize(&format!("{}0", usize::MAX)), None);
    assert_eq!(parse_usize(&format!("{}", usize::MAX as u128 + 1)), None);
}

#[test]
fn parse_usize_agrees_with_std() {
    for text in ["", "0", "7", "+7", "-7", "007", "7c", "+", "++", "18446744073709551615",
        "18446744073709551616", "99999999999999999999", "1 2", "\t1"]
    {
        assert_eq!(parse_usize(text), text.parse::<usize>().ok());
        assert_eq!(parse_u32(text), text.parse::<u32>().ok());
    }
}

#[test]
fn parse_u32_keeps_to_its_range() {
    assert_eq!(parse_u32("4294967295"), Some(u32::MAX));
    assert_eq!(parse_u32("4294967296"), None);
    assert_eq!(parse_u32("31"), Some(31));
}

#[test]
fn parse_digits_reads_a_part_of_the_text() {
    let text: Vec<char> = "ab123cd".chars().collect();
    assert_eq!(parse_digits(&text, 2, 5, 1000), Some(123));
    assert_eq!(parse_digits(&text, 2, 5, 123), Some(123));
    assert_eq!(parse_digits(&text, 2, 5, 122), None);
    assert_eq!(parse_digits(&text, 2, 6, 1000), None);
    assert_eq!(parse_digits(&text, 2, 2, 1000), None);
    assert_eq!(parse_digits(&text, 4, 5, 0), None);
    assert_eq!(parse_digits(&vec!['0'], 0, 1, 0), Some(0));
}

#[test]
fn decimal_text_writes_numbers() {
    assert_eq!(decimal_text(0), "0");
    assert_eq!(decimal_text(9), "9");
    assert_eq!(decimal_text(10), "10");
    assert_eq!(decimal_text(1234567890), "1234567890");
    assert_eq!(decimal_text(usize::MAX), usize::MAX.to_string());
    assert_eq!(parse_usize(&decimal_text(usize::MAX)), Some(usize::MAX));
}

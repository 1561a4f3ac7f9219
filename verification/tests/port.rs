use bucket_proxy::port::parse_port;

#[test]
fn parse_port_reads_plain_numbers() {
    assert_eq!(parse_port("8080"), Some(8080));
    assert_eq!(parse_port("80"), Some(80));
    assert_eq!(parse_port("1"), Some(1));
    assert_eq!(parse_port("443"), Some(443));
}

#[test]
fn parse_port_reads_the_ends_of_the_range() {
    assert_eq!(parse_port("0"), Some(0));
    assert_eq!(parse_port("65535"), Some(65535));
}

#[test]
fn parse_port_refuses_what_does_not_fit() {
    assert_eq!(parse_port("65536"), None);
    assert_eq!(parse_port("70000"), None);
    assert_eq!(parse_port("100000"), None);
    assert_eq!(parse_port("4294967296"), None);
    assert_eq!(parse_port("99999999999999999999999999"), None);
}

#[test]
fn parse_port_accepts_leading_zeros() {
    assert_eq!(parse_port("0080"), Some(80));
    assert_eq!(parse_port("000000000000000000000000065535"), Some(65535));
    assert_eq!(parse_port("00"), Some(0));
}

#[test]
fn parse_port_accepts_one_leading_plus() {
    assert_eq!(parse_port("+80"), Some(80));
    assert_eq!(parse_port("+0"), Some(0));
    assert_eq!(parse_port("+65535"), Some(65535));
    assert_eq!(parse_port("+65536"), None);
    assert_eq!(parse_port("++80"), None);
    assert_eq!(parse_port("80+"), None);
}

#[test]
fn parse_port_refuses_text_without_digits() {
    assert_eq!(parse_port(""), None);
    assert_eq!(parse_port("+"), None);
    assert_eq!(parse_port("-"), None);
    assert_eq!(parse_port("http"), None);
}

#[test]
fn parse_port_refuses_a_minus_sign() {
    assert_eq!(parse_port("-80"), None);
    assert_eq!(parse_port("-0"), None);
}

#[test]
fn parse_port_refuses_anything_around_the_digits() {
    assert_eq!(parse_port(" 80"), None);
    assert_eq!(parse_port("80 "), None);
    assert_eq!(parse_port("80\n"), None);
    assert_eq!(parse_port("8_0"), None);
    assert_eq!(parse_port("8.0"), None);
    assert_eq!(parse_port("0x50"), None);
    assert_eq!(parse_port("80a"), None);
    assert_eq!(parse_port("8/0"), None);
    assert_eq!(parse_port("8:0"), None);
}

#[test]
fn parse_port_refuses_digits_outside_ascii() {
    assert_eq!(parse_port("\u{663}"), None);
    assert_eq!(parse_port("\u{ff18}\u{ff10}"), None);
    assert_eq!(parse_port("8\u{660}"), None);
}

#[test]
fn parse_port_agrees_with_the_standard_library_on_numbers() {
    let mut n: u32 = 0;
    while n <= 70000 {
        let text = format!("{}", n);
        assert_eq!(parse_port(&text), text.parse::<u16>().ok(), "{:?}", text);
        n += 1;
    }
}

#[test]
fn parse_port_agrees_with_the_standard_library_on_odd_text() {
    let texts = [
        "", "+", "-", "+0", "-0", "+1", "-1", "++1", "+-1", "0", "00", "007", "65535", "65536", "065535",
        "0065536", "655350", " 1", "1 ", "1_000", "1e3", "0x10", "\u{661}", "12a", "a12", "+65535", "+65536",
        "18446744073709551616", "\t80", "8 0",
    ];
    for text in texts {
        assert_eq!(parse_port(text), text.parse::<u16>().ok(), "{:?}", text);
    }
}

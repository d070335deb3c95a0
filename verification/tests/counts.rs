use apicheck::count::{parse_count, render_count};

#[test]
fn parse_count_reads_plain_digits() {
    assert_eq!(parse_count("0"), Some(0));
    assert_eq!(parse_count("3"), Some(3));
    assert_eq!(parse_count("42"), Some(42));
    assert_eq!(parse_count("007"), Some(7));
    assert_eq!(parse_count("1234567890"), Some(1234567890));
}

#[test]
fn parse_count_takes_one_plus_sign() {
    assert_eq!(parse_count("+3"), Some(3));
    assert_eq!(parse_count("+0"), Some(0));
    assert_eq!(parse_count("++3"), None);
    assert_eq!(parse_count("+"), None);
    assert_eq!(parse_count("3+"), None);
}

#[test]
fn parse_count_refuses_everything_else() {
    assert_eq!(parse_count(""), None);
    assert_eq!(parse_count("-1"), None);
    assert_eq!(parse_count("-0"), None);
    assert_eq!(parse_count(" 3"), None);
    assert_eq!(parse_count("3 "), None);
    assert_eq!(parse_count("3.0"), None);
    assert_eq!(parse_count("1e3"), None);
    assert_eq!(parse_count("0x10"), None);
    assert_eq!(parse_count("1_000"), None);
    assert_eq!(parse_count("three"), None);
    assert_eq!(parse_count("\u{0663}"), None);
    assert_eq!(parse_count("1\u{00e9}"), None);
}

#[test]
fn parse_count_stops_at_the_largest_usize() {
    let max = usize::MAX.to_string();
    assert_eq!(parse_count(&max), Some(usize::MAX));
    let mut over = max.clone();
    over.push('0');
    assert_eq!(parse_count(&over), None);
    assert_eq!(parse_count("99999999999999999999999999999999999999999999"), None);
    let mut next = max.into_bytes();
    let last = next.len() - 1;
    next[last] += 1;
    assert_eq!(parse_count(std::str::from_utf8(&next).unwrap()), None);
}

#[test]
fn parse_count_agrees_with_the_standard_parser() {
    let samples = [
        "", "0", "1", "+1", "-1", "+", "-", "++1", "+-1", "00", "+00012", "12a", "a12", " 1",
        "1 ", "18446744073709551615", "18446744073709551616", "4294967295", "4294967296",
        "340282366920938463463374607431768211456", "\u{ff11}", "1\n",
    ];
    for s in samples {
        assert_eq!(parse_count(s), s.parse::<usize>().ok(), "for {:?}", s);
    }
}

#[test]
fn render_count_writes_decimal() {
    assert_eq!(render_count(0), "0");
    assert_eq!(render_count(7), "7");
    assert_eq!(render_count(10), "10");
    assert_eq!(render_count(12345), "12345");
    assert_eq!(render_count(1000000), "1000000");
    assert_eq!(render_count(usize::MAX), usize::MAX.to_string());
}

#[test]
fn render_count_is_what_debug_formatting_writes() {
    for n in [0usize, 1, 9, 10, 11, 99, 100, 101, 65535, 65536, usize::MAX - 1] {
        assert_eq!(render_count(n), format!("{:?}", n));
    }
}

#[test]
fn rendered_counts_read_back() {
    for n in [0usize, 5, 10, 190, 4096, usize::MAX] {
        assert_eq!(parse_count(&render_count(n)), Some(n));
    }
}

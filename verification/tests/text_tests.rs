use wasmcloud_installer::cli::parse_timeout;
use wasmcloud_installer::text::{i64_text, parse_u16, parse_u64, str_contains, u64_text};

const SAMPLES: &[&str] = &[
    "", "0", "7", "+7", "+", "-1", "-0", "01", "20", "24", "24+", " 24", "24 ", "1a", "65535", "65536",
    "99999", "18446744073709551615", "18446744073709551616", "000000000000000000000000042", "+0",
    "++1", "١", "३",
];

#[test]
fn parse_u16_agrees_with_std() {
    for s in SAMPLES {
        assert_eq!(parse_u16(s), s.parse::<u16>().ok(), "input {:?}", s);
    }
}

#[test]
fn parse_u64_agrees_with_std() {
    for s in SAMPLES {
        assert_eq!(parse_u64(s), s.parse::<u64>().ok(), "input {:?}", s);
    }
}

#[test]
fn decimal_text_agrees_with_display() {
    for n in [0u64, 1, 9, 10, 42, 300, 65535, 1_000_000, u64::MAX] {
        assert_eq!(u64_text(n), n.to_string());
    }
    for n in [0i64, -1, 1, -137, 137, i32::MIN as i64, i32::MAX as i64, i64::MIN, i64::MAX] {
        assert_eq!(i64_text(n), n.to_string());
    }
}

#[test]
fn contains_agrees_with_std() {
    let cases = [
        ("", ""),
        ("abc", ""),
        ("", "a"),
        ("unable to run auth exec: foo", "unable to run auth exec"),
        ("error: No such file or directory (os error 2)", "No such file or directory"),
        ("No such file", "No such file or directory"),
        ("aaab", "aab"),
        ("héllo wörld", "ö"),
    ];
    for (h, n) in cases {
        assert_eq!(str_contains(h, n), h.contains(n), "{:?} in {:?}", n, h);
    }
}

#[test]
fn timeout_argument_falls_back_to_300() {
    assert_eq!(parse_timeout("600"), 600);
    assert_eq!(parse_timeout("+45"), 45);
    assert_eq!(parse_timeout("ten"), 300);
    assert_eq!(parse_timeout(""), 300);
    assert_eq!(parse_timeout("-5"), 300);
    assert_eq!(parse_timeout("18446744073709551616"), 300);
}

use moisture_exporter::reading::{check_float_literal, trim_bytes, Reading};

fn accepts(line: &str) -> bool {
    Reading::parse(line.as_bytes()).is_some()
}

#[test]
fn accepts_simple_decimals() {
    for s in [
        "42.5", "13", "7", "0", "-3.5", "+4", ".5", "5.", "0.0", "1e3", "1E-3", "2.5e+10",
        "-2.5E2", "007", "3.1415926535",
    ] {
        assert!(accepts(s), "expected {s:?} to be accepted");
    }
}

#[test]
fn accepts_special_words() {
    for s in ["inf", "INF", "Inf", "-inf", "+inf", "infinity", "Infinity", "nan", "NaN", "NAN"] {
        assert!(accepts(s), "expected {s:?} to be accepted");
    }
}

#[test]
fn rejects_non_numeric() {
    for s in [
        "", " ", "ERROR", "abc", "+", "-", ".", "e5", "1e", "1e+", "--5", "4 2", "1.2.3",
        "0x10", "infx", "nanan", "in", "1,5", "5e5e5", "+-3", "1.5 volts",
    ] {
        assert!(!accepts(s), "expected {s:?} to be rejected");
    }
}

#[test]
fn trims_surrounding_whitespace() {
    assert_eq!(trim_bytes(b" 42.5 \n"), b"42.5".to_vec());
    assert_eq!(trim_bytes(b"\t 7\r\n"), b"7".to_vec());
    assert_eq!(trim_bytes(b"  \t \n"), b"".to_vec());
    assert_eq!(trim_bytes(b"a b"), b"a b".to_vec());
    let r = Reading::parse(b" 42.5 \n").unwrap();
    assert_eq!(r.bytes().as_slice(), b"42.5");
}

#[test]
fn agrees_with_std_float_parsing() {
    let cases = [
        "42.5", "13", "7", "0", "-0", "+0", ".5", "5.", "5.e2", "1.e4", ".5e1", "1e3",
        "1E3", "1e+3", "1e-3", "1e", "e1", ".e1", ".", "..", "1..2", "1.2.3", "+", "-",
        "++1", "--1", "+-1", "-+1", "1-", "1+", "inf", "infinity", "nan", "INF", "NaN",
        "INFINITY", "nAn", "-inf", "+infinity", "-nan", "infi", "infinit", "infinityy",
        "na", "nann", "i", "n", "", " ", "1 2", " 1", "1 ", "0x10", "1_000", "1,000",
        "12345678901234567890", "0.000000001", "9e999", "-9e-999", "00.00", "000",
        "+.e1", "-.", "+.5", "-5.", "e", "E", "1e1e1", "1.5e2.5", "NaN%", "inf8",
    ];
    for s in cases {
        let ours = check_float_literal(s.as_bytes());
        let std = s.parse::<f64>().is_ok();
        assert_eq!(ours, std, "disagreement with std on {s:?}");
    }
}

#[test]
fn agrees_with_std_after_trimming() {
    for s in [
        " 42.5\n", "\t13\r\n", "  ERROR \n", " in f ", "\n7\n", "   ", "- 5",
        "\u{A0}42.5\n", "\u{85}13", "\u{2003} 7 \u{3000}", "\u{1680}\u{2028}inf",
        "\u{202F}nan\u{205F}", "\u{200B}5", "\u{2009}9\u{2009}", "5\u{A0}5",
    ] {
        let ours = accepts(s);
        let std = s.trim().parse::<f64>().is_ok();
        assert_eq!(ours, std, "disagreement with std on {s:?}");
    }
}

#[test]
fn trim_agrees_with_std_trim() {
    for s in [
        " 42.5 ", "\u{A0}42.5\u{A0}", "\u{2003} 7 \u{3000}", "\u{85}13", "\u{1680}\u{2028}inf",
        "\u{202F}\u{205F}\u{2000}\u{200A}", "\u{200B}kept", "a\u{A0}b", "", "\t\r\n x \x0b\x0c",
        "\u{2028}\u{2029}mid\u{2029}",
    ] {
        assert_eq!(
            trim_bytes(s.as_bytes()),
            s.trim().as_bytes().to_vec(),
            "trim disagreement on {s:?}"
        );
    }
}

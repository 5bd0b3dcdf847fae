use moisture_exporter::cell::GaugeCell;

#[test]
fn gauge_starts_unset() {
    let cell = GaugeCell::new();
    assert!(cell.value_bytes().is_none());
}

#[test]
fn wellformed_line_overwrites() {
    let mut cell = GaugeCell::new();
    assert!(cell.process_line(b"42.5\n"));
    assert_eq!(cell.value_bytes().unwrap().as_slice(), b"42.5");
}

#[test]
fn non_numeric_line_leaves_gauge_unchanged() {
    let mut cell = GaugeCell::new();
    assert!(cell.process_line(b"7\n"));
    assert!(!cell.process_line(b"ERROR\n"));
    assert_eq!(cell.value_bytes().unwrap().as_slice(), b"7");
    assert!(!cell.process_line(b"\n"));
    assert_eq!(cell.value_bytes().unwrap().as_slice(), b"7");
}

#[test]
fn non_numeric_line_on_unset_gauge_keeps_it_unset() {
    let mut cell = GaugeCell::new();
    assert!(!cell.process_line(b"ERROR\n"));
    assert!(cell.value_bytes().is_none());
}

#[test]
fn unicode_whitespace_padding_is_trimmed() {
    let mut cell = GaugeCell::new();
    assert!(cell.process_line("\u{A0}42.5\n".as_bytes()));
    assert_eq!(cell.value_bytes().unwrap().as_slice(), b"42.5");
}

#[test]
fn last_accepted_line_wins() {
    let mut cell = GaugeCell::new();
    assert!(cell.process_line(b"1\n"));
    assert!(cell.process_line(b"2\n"));
    assert!(!cell.process_line(b"three\n"));
    assert_eq!(cell.value_bytes().unwrap().as_slice(), b"2");
}

use moisture_exporter::cell::GaugeCell;
use moisture_exporter::exposition::{metrics_body, respond};

const NAME: &[u8] = b"moisture";
const HELP: &[u8] = b"Soil Moisture";

fn body_text(cell: &GaugeCell) -> String {
    String::from_utf8(metrics_body(cell, NAME, HELP)).unwrap()
}

#[test]
fn body_exact_when_set() {
    let mut cell = GaugeCell::new();
    assert!(cell.process_line(b"42.5\n"));
    assert_eq!(
        body_text(&cell),
        "# HELP moisture Soil Moisture\n# TYPE moisture gauge\nmoisture 42.5\n"
    );
}

#[test]
fn body_shows_zero_when_never_set() {
    let cell = GaugeCell::new();
    let body = body_text(&cell);
    assert_eq!(
        body,
        "# HELP moisture Soil Moisture\n# TYPE moisture gauge\nmoisture 0\n"
    );
    assert!(body.contains("moisture 0"));
}

#[test]
fn response_status_and_content_type() {
    let cell = GaugeCell::new();
    let resp = respond(&cell, NAME, HELP);
    assert_eq!(resp.status, 200);
    assert_eq!(resp.content_type, "text/plain; version=0.0.4");
}

#[test]
fn responses_idempotent_without_new_input() {
    let mut cell = GaugeCell::new();
    assert!(cell.process_line(b"13\n"));
    let b1 = respond(&cell, NAME, HELP).body;
    let b2 = respond(&cell, NAME, HELP).body;
    let b3 = respond(&cell, NAME, HELP).body;
    assert_eq!(b1, b2);
    assert_eq!(b2, b3);
    assert!(String::from_utf8(b1).unwrap().contains("moisture 13"));
}

#[test]
fn scenario_error_line_then_value() {
    let mut cell = GaugeCell::new();
    assert!(!cell.process_line(b"ERROR\n"));
    assert!(cell.process_line(b"13\n"));
    assert!(body_text(&cell).contains("moisture 13"));
}

#[test]
fn noncanonical_line_exposed_canonically() {
    // The serial loop's policy: the verified parser accepts the line,
    // and the cell then holds the value's canonical rendering.
    let line = "007\n";
    assert!(moisture_exporter::reading::Reading::parse(line.as_bytes()).is_some());
    let v = line.trim().parse::<f64>().unwrap();
    let mut cell = GaugeCell::new();
    assert!(cell.process_line(v.to_string().as_bytes()));
    assert!(body_text(&cell).contains("moisture 7\n"));
}

#[test]
fn scenario_value_then_read_errors() {
    let mut cell = GaugeCell::new();
    assert!(cell.process_line(b"7\n"));
    // A read error hands the gauge no line at all: the value stays.
    assert!(body_text(&cell).contains("moisture 7"));
    assert!(body_text(&cell).contains("moisture 7"));
}

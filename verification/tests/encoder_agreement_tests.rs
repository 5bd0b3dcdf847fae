//! The library's exposition model against the real metrics encoder:
//! for readings whose text is already the canonical rendering of
//! their value, the two produce the same bytes.

use moisture_exporter::cell::GaugeCell;
use moisture_exporter::exposition::metrics_body;
use prometheus::{Encoder, Gauge, Registry, TextEncoder};

fn encoder_output(value: Option<f64>) -> Vec<u8> {
    let registry = Registry::new();
    let gauge = Gauge::new("moisture", "Soil Moisture").unwrap();
    registry.register(Box::new(gauge.clone())).unwrap();
    if let Some(v) = value {
        gauge.set(v);
    }
    let mut buffer = Vec::new();
    TextEncoder::new()
        .encode(&registry.gather(), &mut buffer)
        .unwrap();
    buffer
}

fn model_output(line: Option<&[u8]>) -> Vec<u8> {
    let mut cell = GaugeCell::new();
    if let Some(l) = line {
        assert!(cell.process_line(l));
    }
    metrics_body(&cell, b"moisture", b"Soil Moisture")
}

#[test]
fn agrees_with_encoder_on_canonical_values() {
    for s in ["42.5", "13", "7", "0.25", "-3.5", "1000"] {
        let value = s.parse::<f64>().unwrap();
        assert_eq!(
            model_output(Some(s.as_bytes())),
            encoder_output(Some(value)),
            "model and encoder disagree on {s:?}"
        );
    }
}

#[test]
fn agrees_with_encoder_on_canonicalized_input() {
    // The serial loop stores the canonical rendering of the parsed
    // value, so even a non-canonical line agrees byte-for-byte.
    for s in ["007", "1e3", "7.0", "+5", "4.50", "-0"] {
        let value = s.parse::<f64>().unwrap();
        let canonical = value.to_string();
        assert_eq!(
            model_output(Some(canonical.as_bytes())),
            encoder_output(Some(value)),
            "model and encoder disagree on {s:?}"
        );
    }
}

#[test]
fn agrees_with_encoder_when_never_set() {
    assert_eq!(model_output(None), encoder_output(None));
}

#[test]
fn content_type_matches_encoder() {
    let cell = GaugeCell::new();
    let resp = moisture_exporter::exposition::respond(&cell, b"moisture", b"Soil Moisture");
    assert_eq!(resp.content_type, TextEncoder::new().format_type());
}

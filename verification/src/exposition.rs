//! The metrics endpoint's answer: the text exposition of the gauge.
//!
//! A gauge named `name` with help text `help` is exposed as three
//! lines: a `# HELP` line, a `# TYPE` line naming the `gauge` kind,
//! and a sample line `name value`. A gauge that was never set is
//! exposed at its zero representation.

use vstd::prelude::*;
use crate::cell::{GaugeCell, run_lines, last_accepted};

verus! {

/// The bytes of `# HELP ` (with its trailing space).
pub open spec fn help_prefix() -> Seq<u8> {
    seq![35u8, 32u8, 72u8, 69u8, 76u8, 80u8, 32u8]
}

/// The bytes of `# TYPE ` (with its trailing space).
pub open spec fn type_prefix() -> Seq<u8> {
    seq![35u8, 32u8, 84u8, 89u8, 80u8, 69u8, 32u8]
}

/// The bytes of the word `gauge`.
pub open spec fn gauge_word() -> Seq<u8> {
    seq![103u8, 97u8, 117u8, 103u8, 101u8]
}

/// The space byte.
pub open spec fn sp() -> Seq<u8> {
    seq![32u8]
}

/// The line feed byte.
pub open spec fn nl() -> Seq<u8> {
    seq![10u8]
}

/// The text a never-set gauge shows: `0`.
pub open spec fn unset_value() -> Seq<u8> {
    seq![48u8]
}

/// The value text a gauge state shows: the held reading's text, or
/// the zero representation when no reading has arrived.
pub open spec fn gauge_value_text(g: Option<Seq<u8>>) -> Seq<u8> {
    match g {
        Some(t) => t,
        None => unset_value(),
    }
}

/// The full exposition of one gauge: its help line, its type line,
/// and its sample line.
pub open spec fn exposition(name: Seq<u8>, help: Seq<u8>, value: Seq<u8>) -> Seq<u8> {
    help_prefix() + name + sp() + help + nl() + type_prefix() + name + sp() + gauge_word() + nl()
        + name + sp() + value + nl()
}

/// The response body for a gauge state.
pub open spec fn metrics_body_spec(name: Seq<u8>, help: Seq<u8>, g: Option<Seq<u8>>) -> Seq<u8> {
    exposition(name, help, gauge_value_text(g))
}

/// The declared content type of the text exposition format.
pub open spec fn content_type_spec() -> Seq<char> {
    "text/plain; version=0.0.4"@
}

/// The HTTP status every metrics response carries.
pub const STATUS_OK: u16 = 200;

/// Appends all of `src` to `dst`.
fn push_all(dst: &mut Vec<u8>, src: &[u8])
    ensures
        final(dst)@ == old(dst)@ + src@,
{
    let n = src.len();
    let mut i: usize = 0;
    while i < n
        invariant
            i <= n,
            n == src@.len(),
            dst@ == old(dst)@ + src@.take(i as int),
        decreases n - i,
    {
        dst.push(src[i]);
        proof {
            assert(old(dst)@ + src@.take(i as int + 1) =~= (old(dst)@ + src@.take(i as int)).push(
                src@[i as int],
            ));
        }
        i = i + 1;
    }
    proof {
        assert(src@.take(n as int) =~= src@);
    }
}

/// Appends the `# HELP ` prefix to `dst`.
fn push_help_prefix(dst: &mut Vec<u8>)
    ensures
        final(dst)@ == old(dst)@ + help_prefix(),
{
    dst.push(35);
    dst.push(32);
    dst.push(72);
    dst.push(69);
    dst.push(76);
    dst.push(80);
    dst.push(32);
    proof {
        assert(dst@ =~= old(dst)@ + help_prefix());
    }
}

/// Appends the `# TYPE ` prefix to `dst`.
fn push_type_prefix(dst: &mut Vec<u8>)
    ensures
        final(dst)@ == old(dst)@ + type_prefix(),
{
    dst.push(35);
    dst.push(32);
    dst.push(84);
    dst.push(89);
    dst.push(80);
    dst.push(69);
    dst.push(32);
    proof {
        assert(dst@ =~= old(dst)@ + type_prefix());
    }
}

/// Appends the word `gauge` to `dst`.
fn push_gauge_word(dst: &mut Vec<u8>)
    ensures
        final(dst)@ == old(dst)@ + gauge_word(),
{
    dst.push(103);
    dst.push(97);
    dst.push(117);
    dst.push(103);
    dst.push(101);
    proof {
        assert(dst@ =~= old(dst)@ + gauge_word());
    }
}

/// One answer of the metrics endpoint.
pub struct MetricsResponse {
    /// Always `200`: the endpoint never reports an error.
    pub status: u16,
    /// The exposition format's declared content type.
    pub content_type: String,
    /// The text exposition of the gauge.
    pub body: Vec<u8>,
}

/// Builds the response body for the current gauge state.
pub fn metrics_body(cell: &GaugeCell, name: &[u8], help: &[u8]) -> (r: Vec<u8>)
    ensures
        r@ == metrics_body_spec(name@, help@, cell@),
{
    let mut out: Vec<u8> = Vec::new();
    push_help_prefix(&mut out);
    push_all(&mut out, name);
    out.push(32);
    push_all(&mut out, help);
    out.push(10);
    push_type_prefix(&mut out);
    push_all(&mut out, name);
    out.push(32);
    push_gauge_word(&mut out);
    out.push(10);
    push_all(&mut out, name);
    out.push(32);
    match cell.value_bytes() {
        Some(v) => push_all(&mut out, v.as_slice()),
        None => out.push(48),
    }
    out.push(10);
    proof {
        assert(out@ =~= metrics_body_spec(name@, help@, cell@));
    }
    out
}

/// Answers one metrics request: status 200, the declared content
/// type, and the exposition of the current gauge state. Every request
/// is answered alike, whatever its path.
pub fn respond(cell: &GaugeCell, name: &[u8], help: &[u8]) -> (r: MetricsResponse)
    ensures
        r.status == STATUS_OK,
        r.content_type@ == content_type_spec(),
        r.body@ == metrics_body_spec(name@, help@, cell@),
{
    MetricsResponse {
        status: STATUS_OK,
        content_type: String::from_str("text/plain; version=0.0.4"),
        body: metrics_body(cell, name, help),
    }
}

/// Idempotence: any two response bodies computed from the same gauge
/// state, with no write in between, are identical.
pub proof fn lemma_metrics_idempotent(
    g: Option<Seq<u8>>,
    name: Seq<u8>,
    help: Seq<u8>,
    b1: Seq<u8>,
    b2: Seq<u8>,
)
    requires
        b1 == metrics_body_spec(name, help, g),
        b2 == metrics_body_spec(name, help, g),
    ensures
        b1 == b2,
{
}

/// Read-after-write visibility: after any sequence of lines of which
/// at least one was accepted, the response body exposes the trimmed
/// text of the most recently accepted line.
pub proof fn lemma_response_shows_latest(
    g0: Option<Seq<u8>>,
    lines: Seq<Seq<u8>>,
    t: Seq<u8>,
    name: Seq<u8>,
    help: Seq<u8>,
)
    requires
        last_accepted(lines) == Some(t),
    ensures
        metrics_body_spec(name, help, run_lines(g0, lines)) == exposition(name, help, t),
{
    crate::cell::lemma_gauge_reflects_last_accepted(g0, lines);
}

/// The body ends with the sample line `name value` and a line feed:
/// what a reader of the response sees as the gauge's current value.
pub proof fn lemma_body_ends_with_sample(name: Seq<u8>, help: Seq<u8>, value: Seq<u8>)
    ensures
        exposition(name, help, value).skip(
            exposition(name, help, value).len() - (name.len() + value.len() + 2),
        ) =~= name + sp() + value + nl(),
{
}

} // verus!

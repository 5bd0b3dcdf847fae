//! The shared gauge cell: the holder of the most recent accepted
//! reading, written by the serial reader and read by the exporter.

use vstd::prelude::*;
use crate::reading::{Reading, is_float_literal, trimmed};

verus! {

/// What one incoming line does to the gauge: a well-formed line
/// overwrites the held value with its trimmed text, any other line
/// leaves the gauge as it was.
pub open spec fn step_line(g: Option<Seq<u8>>, line: Seq<u8>) -> Option<Seq<u8>> {
    if is_float_literal(trimmed(line)) {
        Some(trimmed(line))
    } else {
        g
    }
}

/// The gauge after a whole sequence of lines, applied in order.
pub open spec fn run_lines(g: Option<Seq<u8>>, lines: Seq<Seq<u8>>) -> Option<Seq<u8>>
    decreases lines.len(),
{
    if lines.len() == 0 {
        g
    } else {
        run_lines(step_line(g, lines[0]), lines.skip(1))
    }
}

/// The trimmed text of the last accepted line in `lines`, if any line
/// is accepted.
pub open spec fn last_accepted(lines: Seq<Seq<u8>>) -> Option<Seq<u8>>
    decreases lines.len(),
{
    if lines.len() == 0 {
        None
    } else {
        match last_accepted(lines.skip(1)) {
            Some(t) => Some(t),
            None => if is_float_literal(trimmed(lines[0])) {
                Some(trimmed(lines[0]))
            } else {
                None
            },
        }
    }
}

/// The gauge always reflects the last accepted line: after any
/// sequence of lines, the cell holds the trimmed text of the most
/// recent well-formed one, and keeps its starting value when no line
/// was well-formed.
pub proof fn lemma_gauge_reflects_last_accepted(g: Option<Seq<u8>>, lines: Seq<Seq<u8>>)
    ensures
        run_lines(g, lines) == match last_accepted(lines) {
            Some(t) => Some(t),
            None => g,
        },
    decreases lines.len(),
{
    if lines.len() > 0 {
        lemma_gauge_reflects_last_accepted(step_line(g, lines[0]), lines.skip(1));
    }
}

/// The holder of the most recent accepted reading. It starts unset
/// and is only ever overwritten, never accumulated.
pub struct GaugeCell {
    last: Option<Reading>,
}

impl View for GaugeCell {
    type V = Option<Seq<u8>>;

    closed spec fn view(&self) -> Option<Seq<u8>> {
        match self.last {
            Some(rd) => Some(rd@),
            None => None,
        }
    }
}

impl GaugeCell {
    /// A cell holds a well-formed reading or nothing.
    pub closed spec fn wf(&self) -> bool {
        match self.last {
            Some(rd) => rd.wf(),
            None => true,
        }
    }

    /// A fresh cell: no reading has arrived yet.
    pub fn new() -> (r: GaugeCell)
        ensures
            r@ is None,
            r.wf(),
    {
        GaugeCell { last: None }
    }

    /// Overwrites the cell with a reading.
    pub fn set(&mut self, rd: Reading)
        requires
            rd.wf(),
        ensures
            final(self)@ == Some(rd@),
            final(self).wf(),
    {
        self.last = Some(rd);
    }

    /// Feeds one line from the device to the gauge: a line whose
    /// trimmed text is a well-formed decimal literal overwrites the
    /// cell and is reported accepted; any other line leaves the cell
    /// unchanged.
    pub fn process_line(&mut self, line: &[u8]) -> (accepted: bool)
        requires
            old(self).wf(),
        ensures
            final(self).wf(),
            accepted == is_float_literal(trimmed(line@)),
            final(self)@ == step_line(old(self)@, line@),
            !accepted ==> final(self)@ == old(self)@,
    {
        match Reading::parse(line) {
            Some(rd) => {
                self.set(rd);
                true
            },
            None => false,
        }
    }

    /// The text of the held reading, if one has arrived.
    pub fn value_bytes(&self) -> (r: Option<&Vec<u8>>)
        ensures
            match r {
                Some(v) => self@ == Some(v@),
                None => self@ is None,
            },
    {
        match &self.last {
            Some(rd) => Some(rd.bytes()),
            None => None,
        }
    }
}

} // verus!

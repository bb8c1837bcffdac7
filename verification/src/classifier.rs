//! The line classifier: a pure mapping from one trimmed line of the
//! external tool's output to at most one recognized domain event.

use vstd::prelude::*;
use crate::text::{
    blank, contains_seq, contains_sub, extract_number, is_blank, spec_extract_number,
};

verus! {

/// The event a single output line stands for.
#[derive(Clone, Copy, Debug, PartialEq, Eq, Structural)]
pub enum LineEvent {
    /// The tool announced how many items it will fetch.
    CountDiscovered(u32),
    /// One item finished downloading.
    ItemCompleted,
    /// One item was skipped (already present).
    ItemSkipped,
    /// The tool is converting or post-processing.
    ConvertingNotice,
    /// The line carries no progress information.
    Ignore,
}

/// A discovery line: it either reports found songs or echoes the query
/// being processed.
pub open spec fn is_discovery(s: Seq<char>) -> bool {
    (contains_seq(s, "Found"@) && contains_seq(s, "song"@)) || contains_seq(
        s,
        "Processing query"@,
    )
}

/// The classification policy, first match wins, case-sensitive
/// substring tests. A discovery line with no parseable count is
/// dropped entirely (classified [`LineEvent::Ignore`]), as is a blank
/// line and anything unrecognized.
pub open spec fn spec_classify(s: Seq<char>) -> LineEvent {
    if is_blank(s) {
        LineEvent::Ignore
    } else if is_discovery(s) {
        match spec_extract_number(s) {
            Some(n) => LineEvent::CountDiscovered(n),
            None => LineEvent::Ignore,
        }
    } else if contains_seq(s, "Downloaded"@) {
        LineEvent::ItemCompleted
    } else if contains_seq(s, "Skipping"@) {
        LineEvent::ItemSkipped
    } else if contains_seq(s, "Converting"@) || contains_seq(s, "Processing"@) {
        LineEvent::ConvertingNotice
    } else {
        LineEvent::Ignore
    }
}

/// Classify one line of output. Pure and total: every line maps to
/// exactly one event, unrecognized ones to [`LineEvent::Ignore`].
pub fn classify(line: &str) -> (r: LineEvent)
    ensures
        r == spec_classify(line@),
{
    if blank(line) {
        return LineEvent::Ignore;
    }
    if (contains_sub(line, "Found") && contains_sub(line, "song")) || contains_sub(
        line,
        "Processing query",
    ) {
        match extract_number(line) {
            Some(n) => LineEvent::CountDiscovered(n),
            None => LineEvent::Ignore,
        }
    } else if contains_sub(line, "Downloaded") {
        LineEvent::ItemCompleted
    } else if contains_sub(line, "Skipping") {
        LineEvent::ItemSkipped
    } else if contains_sub(line, "Converting") || contains_sub(line, "Processing") {
        LineEvent::ConvertingNotice
    } else {
        LineEvent::Ignore
    }
}

} // verus!

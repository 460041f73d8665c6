//! The data model: source locations of parse-error nodes and the outcome of
//! scanning one file.

use vstd::prelude::*;

verus! {

/// A half-open region of the original text locating one parse-error node,
/// given both as byte offsets and as row/column positions.
#[derive(Clone, Copy, PartialEq, Eq, Structural, Debug)]
pub struct SourceRange {
    pub start_byte: usize,
    pub end_byte: usize,
    pub start_row: usize,
    pub start_column: usize,
    pub end_row: usize,
    pub end_column: usize,
}

/// The result of scanning one candidate file.
///
/// `Unreadable` means the contents could not be read or decoded: the file is
/// skipped, not reported as errored, but still counts toward the project's
/// total. `Errored` carries the ranges of the parse-error nodes, in the order
/// the structural query produced them; an empty list is possible when the
/// tree-level error flag is set but the query yields no match.
#[derive(Debug)]
pub enum FileOutcome {
    Unreadable,
    Clean,
    Errored(Vec<SourceRange>),
}

} // verus!

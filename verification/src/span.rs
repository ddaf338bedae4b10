use vstd::prelude::*;

verus! {

/// A source location, captured when the surrounding syntax was parsed and
/// carried as a plain line/column range so that diagnostics stay valid after
/// the syntax tree itself is gone.
///
/// Lines and columns follow the convention of the host tooling: lines start
/// at 1, columns at 0. A `Span` is pure data; the library only threads it
/// through to the diagnostic that points at the offending fragment.
#[derive(Clone, Copy, PartialEq, Eq, Structural, Debug)]
pub struct Span {
    pub start_line: usize,
    pub start_column: usize,
    pub end_line: usize,
    pub end_column: usize,
}

impl Span {
    pub fn new(start_line: usize, start_column: usize, end_line: usize, end_column: usize) -> (s: Span)
        ensures
            s == (Span { start_line, start_column, end_line, end_column }),
    {
        Span { start_line, start_column, end_line, end_column }
    }
}

} // verus!

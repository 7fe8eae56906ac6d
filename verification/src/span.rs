//! Source locations, kept as plain byte offsets. They carry no semantic
//! weight: diagnostics record them so a renderer can point at the offending
//! text.

use vstd::prelude::*;

verus! {

/// A region of source text.
#[derive(Clone, Copy, PartialEq, Eq, Structural, Debug)]
pub struct Span {
    pub start: usize,
    pub end: usize,
}

impl Span {
    /// A placeholder span for synthesized nodes.
    pub fn dummy() -> (s: Span)
        ensures
            s.start == 0 && s.end == 0,
    {
        Span { start: 0, end: 0 }
    }
}

} // verus!

//! Source spans: a character range within one named source file.

use vstd::prelude::*;

verus! {

/// A range within the source file at `path`.  Translation between the real
/// tree and the shadow tree changes only the path, never the range.
#[derive(Debug, Clone, PartialEq, Eq)]
pub struct Span {
    pub path: String,
    pub start: usize,
    pub end: usize,
}

impl Span {
    /// A well-formed span does not end before it starts.
    pub open spec fn wf(self) -> bool {
        self.start <= self.end
    }

    pub fn new(path: String, start: usize, end: usize) -> (r: Span)
        requires
            start <= end,
        ensures
            r.path == path && r.start == start && r.end == end,
            r.wf(),
    {
        Span { path, start, end }
    }

    /// The smallest span covering both `a` and `b`, which must lie in the
    /// same source file.
    pub fn join(a: &Span, b: &Span) -> (r: Span)
        requires
            a.path@ == b.path@,
        ensures
            r.path@ == a.path@,
            r.start == if a.start <= b.start {
                a.start
            } else {
                b.start
            },
            r.end == if a.end >= b.end {
                a.end
            } else {
                b.end
            },
            a.wf() && b.wf() ==> r.wf(),
    {
        let start: usize = if a.start <= b.start {
            a.start
        } else {
            b.start
        };
        let end: usize = if a.end >= b.end {
            a.end
        } else {
            b.end
        };
        Span { path: a.path.clone(), start, end }
    }
}

} // verus!

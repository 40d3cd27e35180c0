use vstd::prelude::*;

verus! {

/// A half-open byte range over source text.
///
/// `start` is the offset of the first byte covered, `end` the offset one past
/// the last. A span is a pure value: two spans with the same offsets are the
/// same span.
#[derive(Debug, Clone, Copy, PartialEq, Eq, Structural)]
pub struct Span {
    pub start: u32,
    pub end: u32,
}

impl Span {
    /// The covering range of two spans: least start, greatest end.
    pub open spec fn spec_union(self, other: Span) -> Span {
        Span {
            start: if self.start <= other.start {
                self.start
            } else {
                other.start
            },
            end: if self.end >= other.end {
                self.end
            } else {
                other.end
            },
        }
    }

    /// Combines two spans into the least span covering both.
    pub fn union(&self, other: &Span) -> (r: Span)
        ensures
            r == self.spec_union(*other),
    {
        Span {
            start: if self.start <= other.start {
                self.start
            } else {
                other.start
            },
            end: if self.end >= other.end {
                self.end
            } else {
                other.end
            },
        }
    }
}

} // verus!

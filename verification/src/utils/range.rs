//! Intervals of a source text.

use vstd::prelude::*;

verus! {

/// A half-open interval `[start, end)` of byte offsets into a source text.
#[derive(Debug, Clone, Copy, PartialEq, Eq, Structural)]
pub struct Range {
    pub start: usize,
    pub end: usize,
}

impl Range {
    /// An interval is ordered when it does not end before it starts.
    pub open spec fn ordered(self) -> bool {
        self.start <= self.end
    }

    /// `self` lies entirely before `other` in the text.
    pub open spec fn precedes(self, other: Range) -> bool {
        self.ordered() && self.end <= other.start && other.ordered()
    }

    /// Every offset of `other` is an offset of `self`.
    pub open spec fn covers(self, other: Range) -> bool {
        self.start <= other.start && other.end <= self.end
    }

    /// The interval from `start` to `end`. Nothing is checked: the interval
    /// is ordered where `start` is not behind `end`.
    pub fn new(start: usize, end: usize) -> (r: Range)
        ensures
            r == (Range { start, end }),
    {
        Range { start, end }
    }
}

impl Default for Range {
    fn default() -> (r: Range)
        ensures
            r == (Range { start: 0, end: 0 }),
    {
        Range { start: 0, end: 0 }
    }
}

/// The interval that `range_from` builds: from the start of `left` to the end of `right`.
pub open spec fn merged(left: Range, right: Range) -> Range {
    Range { start: left.start, end: right.end }
}

/// Spans two intervals, from where `left` starts to where `right` ends.
///
/// The caller is expected to pass `left` before `right` in source order;
/// nothing is checked and nothing is reordered.
pub fn range_from(left: &Range, right: &Range) -> (r: Range)
    ensures
        r == merged(*left, *right),
{
    Range::new(left.start, right.end)
}

/// Merging two intervals in source order yields an ordered interval that
/// starts with the first, ends with the second and covers both.
pub proof fn lemma_merged_in_order(a: Range, b: Range)
    requires
        a.start <= a.end <= b.start <= b.end,
    ensures
        merged(a, b) == (Range { start: a.start, end: b.end }),
        merged(a, b).ordered(),
        merged(a, b).covers(a),
        merged(a, b).covers(b),
{
}

} // verus!

//! The range type: a half-open interval of offsets that never decreases.

use crate::index::StrIndex;
use std::cmp::Ordering;
use std::ops::{Bound, Range, RangeBounds};
use vstd::prelude::*;
use vstd::std_specs::cmp::{PartialOrdIs, PartialOrdSpecImpl};

verus! {

/// The mathematical content of a range: the half-open interval
/// `start..end` of byte positions.
pub struct Span {
    pub start: nat,
    pub end: nat,
}

impl Span {
    /// The interval does not decrease.
    pub open spec fn valid(self) -> bool {
        self.start <= self.end
    }

    /// The number of positions in the interval.
    pub open spec fn len(self) -> nat {
        (self.end - self.start) as nat
    }

    /// The interval holds no position.
    pub open spec fn is_empty(self) -> bool {
        self.start == self.end
    }

    /// The position lies in the interval: the start does, the end does not.
    pub open spec fn contains_exclusive(self, point: nat) -> bool {
        self.start <= point < self.end
    }

    /// `other` lies within the interval; it may share its bounds.
    pub open spec fn contains(self, other: Span) -> bool {
        self.start <= other.start && other.end <= self.end
    }

    /// The two intervals share no position. Intervals that touch end to
    /// start are disjoint.
    pub open spec fn is_disjoint(self, other: Span) -> bool {
        self.end <= other.start || other.end <= self.start
    }

    /// The later of the two starts up to the earlier of the two ends, which
    /// may decrease.
    pub open spec fn overlap(self, other: Span) -> Span {
        Span {
            start: if self.start >= other.start {
                self.start
            } else {
                other.start
            },
            end: if self.end <= other.end {
                self.end
            } else {
                other.end
            },
        }
    }

    /// What both intervals cover, where they overlap or touch.
    pub open spec fn intersection(self, other: Span) -> Option<Span> {
        if self.overlap(other).start <= self.overlap(other).end {
            Some(self.overlap(other))
        } else {
            None
        }
    }

    /// What both intervals cover, where that is at least one position.
    pub open spec fn nonempty_intersection(self, other: Span) -> Option<Span> {
        if self.overlap(other).start < self.overlap(other).end {
            Some(self.overlap(other))
        } else {
            None
        }
    }

    /// The smallest interval that covers both, and so any gap between them.
    pub open spec fn merge(self, other: Span) -> Span {
        Span {
            start: if self.start <= other.start {
                self.start
            } else {
                other.start
            },
            end: if self.end >= other.end {
                self.end
            } else {
                other.end
            },
        }
    }
}

/// A range of a string, represented as a half-open range of `StrIndex`.
///
/// The range never decreases: `start <= end` holds of every value of
/// this type.
#[derive(Copy, Clone, Debug, PartialEq, Eq, Structural, Hash, Ord)]
pub struct StrRange {
    start: StrIndex,
    end: StrIndex,
}

impl View for StrRange {
    type V = Span;

    open spec fn view(&self) -> Span {
        Span { start: self.spec_start()@, end: self.spec_end()@ }
    }
}

/// The mathematical content of a range that may be absent.
pub open spec fn span_of(range: Option<StrRange>) -> Option<Span> {
    match range {
        Some(range) => Some(range@),
        None => None,
    }
}

impl StrRange {
    /// The start index, in specifications.
    pub closed spec fn spec_start(self) -> StrIndex {
        self.start
    }

    /// The end index, in specifications.
    pub closed spec fn spec_end(self) -> StrIndex {
        self.end
    }

    /// What holds of every `StrRange`: it does not decrease.
    #[verifier::type_invariant]
    pub open spec fn ordered(self) -> bool {
        self@.valid()
    }

    /// Two ranges are the same range exactly when they have the same
    /// bounds.
    pub proof fn lemma_view_injective(self, other: StrRange)
        ensures
            (self@ == other@) == (self == other),
    {
        self.start.lemma_view_injective(other.start);
        self.end.lemma_view_injective(other.end);
    }

    /// The range `range.start..range.end`.
    ///
    /// The bounds must not decrease.
    pub fn from(range: Range<StrIndex>) -> (built: StrRange)
        requires
            range.start@ <= range.end@,
        ensures
            built.spec_start() == range.start,
            built.spec_end() == range.end,
            built@ == (Span { start: range.start@, end: range.end@ }),
    {
        StrRange { start: range.start, end: range.end }
    }

    /// The range from the start of the string to `end`, that is `..end`.
    pub fn up_to(end: StrIndex) -> (built: StrRange)
        ensures
            built@ == (Span { start: 0, end: end@ }),
    {
        StrRange { start: StrIndex::from(0), end }
    }

    /// The (inclusive) start index of this range.
    #[verifier::when_used_as_spec(spec_start)]
    pub fn start(self) -> (start: StrIndex)
        ensures
            start == self.spec_start(),
            start@ <= self.spec_end()@,
    {
        proof {
            use_type_invariant(self);
        }
        self.start
    }

    /// The (exclusive) end index of this range.
    #[verifier::when_used_as_spec(spec_end)]
    pub fn end(self) -> (end: StrIndex)
        ensures
            end == self.spec_end(),
            self.spec_start()@ <= end@,
    {
        proof {
            use_type_invariant(self);
        }
        self.end
    }

    /// The length of this range.
    pub fn len(self) -> (len: StrIndex)
        ensures
            len@ == self@.len(),
    {
        self.end() - self.start()
    }

    /// Is this range a unit range?
    /// That is, does this range have equivalent start and end points?
    pub fn is_empty(self) -> (empty: bool)
        ensures
            empty == self@.is_empty(),
            empty == (self.spec_start() == self.spec_end()),
    {
        proof {
            self.start.lemma_view_injective(self.end);
        }
        self.start() == self.end()
    }

    /// A range with an adjusted start.
    ///
    /// The new start must not lie after the end.
    pub fn with_start(self, start: StrIndex) -> (moved: StrRange)
        requires
            start@ <= self@.end,
        ensures
            moved@ == (Span { start: start@, end: self@.end }),
    {
        StrRange::from(start..self.end())
    }

    /// A range with an adjusted end.
    ///
    /// The new end must not lie before the start.
    pub fn with_end(self, end: StrIndex) -> (moved: StrRange)
        requires
            self@.start <= end@,
        ensures
            moved@ == (Span { start: self@.start, end: end@ }),
    {
        StrRange::from(self.start()..end)
    }

    /// Are these ranges disjoint?
    ///
    /// Ranges that touch end to start are disjoint, as no byte is in both
    /// ranges.
    pub fn is_disjoint(self, other: StrRange) -> (disjoint: bool)
        ensures
            disjoint == self@.is_disjoint(other@),
    {
        self.end() <= other.start() || other.end() <= self.start()
    }

    /// Does this range contain `other`?
    ///
    /// `other` must be completely within `self`, but may share endpoints.
    pub fn contains(self, other: StrRange) -> (inside: bool)
        ensures
            inside == self@.contains(other@),
    {
        self.start() <= other.start() && other.end() <= self.end()
    }

    /// Does this range contain this index?
    ///
    /// This is an exclusive test: the end of the range is not in it.
    pub fn contains_exclusive(self, index: StrIndex) -> (inside: bool)
        ensures
            inside == self@.contains_exclusive(index@),
    {
        self.start() <= index && index < self.end()
    }

    /// The range that is both in `self` and `other`.
    ///
    /// Ranges that touch but do not overlap give the empty range at the
    /// point where they touch; ranges with a gap between them give `None`.
    pub fn intersection(self, other: StrRange) -> (common: Option<StrRange>)
        ensures
            span_of(common) == self@.intersection(other@),
    {
        let start = later(self.start(), other.start());
        let end = earlier(self.end(), other.end());
        if start <= end {
            Some(StrRange::from(start..end))
        } else {
            None
        }
    }

    /// Like `intersection`, but ranges that only touch give `None`.
    pub fn nonempty_intersection(self, other: StrRange) -> (common: Option<StrRange>)
        ensures
            span_of(common) == self@.nonempty_intersection(other@),
    {
        let start = later(self.start(), other.start());
        let end = earlier(self.end(), other.end());
        if start < end {
            Some(StrRange::from(start..end))
        } else {
            None
        }
    }

    /// The range that covers both `self` and `other`.
    ///
    /// It also covers any space between `self` and `other`.
    pub fn merge(self, other: StrRange) -> (cover: StrRange)
        ensures
            cover@ == self@.merge(other@),
    {
        let start = earlier(self.start(), other.start());
        let end = later(self.end(), other.end());
        StrRange::from(start..end)
    }
}

/// The smaller of two indices.
fn earlier(a: StrIndex, b: StrIndex) -> (least: StrIndex)
    ensures
        least == (if a@ <= b@ {
            a
        } else {
            b
        }),
{
    if a <= b {
        a
    } else {
        b
    }
}

/// The greater of two indices.
fn later(a: StrIndex, b: StrIndex) -> (greatest: StrIndex)
    ensures
        greatest == (if a@ >= b@ {
            a
        } else {
            b
        }),
{
    if a >= b {
        a
    } else {
        b
    }
}

impl Default for StrRange {
    /// The empty range at the start of a string.
    fn default() -> (range: StrRange)
        ensures
            range@ == (Span { start: 0, end: 0 }),
    {
        StrRange { start: StrIndex::from(0), end: StrIndex::from(0) }
    }
}

/// `std::ops::Bound`, an end of a range: a value that is part of the range,
/// a value that is not, or no bound at all.
#[verifier::external_type_specification]
#[verifier::reject_recursive_types(T)]
pub struct ExBound<T>(Bound<T>);

impl RangeBounds<StrIndex> for StrRange {
    /// The start of the range, which is part of it.
    fn start_bound(&self) -> (bound: Bound<&StrIndex>)
        ensures
            bound == Bound::Included(&self.spec_start()),
    {
        Bound::Included(&self.start)
    }

    /// The end of the range, which is not part of it.
    fn end_bound(&self) -> (bound: Bound<&StrIndex>)
        ensures
            bound == Bound::Excluded(&self.spec_end()),
    {
        Bound::Excluded(&self.end)
    }
}

impl PartialOrd for StrRange {
    /// Ranges are ordered by their starts, and by their ends where the
    /// starts are equal.
    fn partial_cmp(&self, other: &StrRange) -> (order: Option<Ordering>) {
        if self.start < other.start {
            Some(Ordering::Less)
        } else if self.start > other.start {
            Some(Ordering::Greater)
        } else if self.end < other.end {
            Some(Ordering::Less)
        } else if self.end > other.end {
            Some(Ordering::Greater)
        } else {
            Some(Ordering::Equal)
        }
    }
}

impl PartialOrdSpecImpl for StrRange {
    open spec fn obeys_partial_cmp_spec() -> bool {
        true
    }

    open spec fn partial_cmp_spec(&self, other: &StrRange) -> Option<Ordering> {
        if self@.start < other@.start {
            Some(Ordering::Less)
        } else if self@.start > other@.start {
            Some(Ordering::Greater)
        } else if self@.end < other@.end {
            Some(Ordering::Less)
        } else if self@.end > other@.end {
            Some(Ordering::Greater)
        } else {
            Some(Ordering::Equal)
        }
    }
}

/// Ranges compare by their starts, and by their ends where the starts are
/// equal; two ranges that each come no later than the other are the same
/// range.
pub proof fn lemma_order(a: StrRange, b: StrRange)
    ensures
        a.is_lt(&b) <==> a@.start < b@.start || (a@.start == b@.start && a@.end < b@.end),
        a.is_le(&b) <==> a@.start < b@.start || (a@.start == b@.start && a@.end <= b@.end),
        a.is_gt(&b) <==> b.is_lt(&a),
        a.is_ge(&b) <==> b.is_le(&a),
        a.is_le(&b) && b.is_le(&a) <==> a == b,
{
    a.lemma_view_injective(b);
}

/// A range built from bounds that do not decrease has these bounds, and
/// its length is their difference.
pub proof fn lemma_built_from_bounds(start: StrIndex, end: StrIndex, built: StrRange)
    requires
        start@ <= end@,
        built@ == (Span { start: start@, end: end@ }),
    ensures
        built.spec_start() == start,
        built.spec_end() == end,
        built@.len() == end@ - start@,
{
    built.spec_start().lemma_view_injective(start);
    built.spec_end().lemma_view_injective(end);
}

/// Disjointness does not depend on the order of the two ranges.
pub proof fn lemma_disjoint_symmetric(a: StrRange, b: StrRange)
    ensures
        a@.is_disjoint(b@) == b@.is_disjoint(a@),
{
}

/// A range is disjoint from itself exactly when it is empty.
pub proof fn lemma_disjoint_from_itself(a: StrRange)
    requires
        a@.valid(),
    ensures
        a@.is_disjoint(a@) == a@.is_empty(),
{
}

/// Every range contains itself.
pub proof fn lemma_contains_reflexive(a: StrRange)
    ensures
        a@.contains(a@),
{
}

/// A range that is not empty holds its start and does not hold its end.
pub proof fn lemma_bounds_exclusive(a: StrRange)
    requires
        a@.valid(),
        !a@.is_empty(),
    ensures
        a@.contains_exclusive(a@.start),
        !a@.contains_exclusive(a@.end),
{
}

/// Two ranges have an intersection unless there is a gap between them, and
/// it lies within both. Ranges that touch have the empty range at the point
/// where they touch.
pub proof fn lemma_intersection_exists(a: StrRange, b: StrRange)
    requires
        a@.valid(),
        b@.valid(),
    ensures
        a@.intersection(b@) is None <==> (a@.end < b@.start || b@.end < a@.start),
        a@.intersection(b@) matches Some(common) ==> common.valid() && a@.contains(common)
            && b@.contains(common),
        a@.end == b@.start ==> a@.intersection(b@) == Some(
            Span { start: a@.end, end: a@.end },
        ),
        a@.intersection(b@) == b@.intersection(a@),
{
}

/// Two ranges have a nonempty intersection exactly when their intersection
/// holds a position; it is then their intersection. Disjoint ranges have
/// none.
pub proof fn lemma_nonempty_intersection(a: StrRange, b: StrRange)
    requires
        a@.valid(),
        b@.valid(),
    ensures
        a@.nonempty_intersection(b@) is None <==> (a@.intersection(b@) matches Some(common)
            ==> common.is_empty()),
        a@.nonempty_intersection(b@) is Some ==> a@.nonempty_intersection(b@)
            == a@.intersection(b@),
        a@.is_disjoint(b@) ==> a@.nonempty_intersection(b@) is None,
{
}

/// The merge of two ranges is a range that contains both, and no smaller
/// range does.
pub proof fn lemma_merge_contains(a: StrRange, b: StrRange)
    requires
        a@.valid(),
        b@.valid(),
    ensures
        a@.merge(b@).valid(),
        a@.merge(b@).contains(a@),
        a@.merge(b@).contains(b@),
        forall|c: Span| c.contains(a@) && c.contains(b@) ==> #[trigger] c.contains(a@.merge(b@)),
{
}

/// Disjoint ranges share no position, and two ranges that are not empty
/// and share no position are disjoint.
pub proof fn lemma_disjoint_shares_no_position(a: StrRange, b: StrRange)
    requires
        a@.valid(),
        b@.valid(),
    ensures
        a@.is_disjoint(b@) ==> forall|p: nat|
            !(#[trigger] a@.contains_exclusive(p) && b@.contains_exclusive(p)),
        !a@.is_empty() && !b@.is_empty() && (forall|p: nat|
            !(#[trigger] a@.contains_exclusive(p) && b@.contains_exclusive(p)))
            ==> a@.is_disjoint(b@),
{
    if !a@.is_empty() && !b@.is_empty() && !a@.is_disjoint(b@) {
        let p = a@.overlap(b@).start;
        assert(a@.contains_exclusive(p) && b@.contains_exclusive(p));
    }
}

/// A range that contains another holds every position of it.
pub proof fn lemma_contains_every_position(a: StrRange, b: StrRange)
    requires
        a@.contains(b@),
    ensures
        forall|p: nat| #[trigger] b@.contains_exclusive(p) ==> a@.contains_exclusive(p),
{
}

/// The intersection of two ranges holds the positions that both hold, and
/// no others.
pub proof fn lemma_intersection_positions(a: StrRange, b: StrRange)
    requires
        a@.valid(),
        b@.valid(),
    ensures
        a@.intersection(b@) matches Some(common) ==> forall|p: nat| #[trigger]
            common.contains_exclusive(p) <==> a@.contains_exclusive(p) && b@.contains_exclusive(p),
        a@.intersection(b@) is None ==> forall|p: nat|
            !(#[trigger] a@.contains_exclusive(p) && b@.contains_exclusive(p)),
{
}

} // verus!

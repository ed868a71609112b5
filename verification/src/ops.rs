//! The operators: `+` and `-` on indices, and slicing a string by a range.
//!
//! Both arithmetic operators wrap at the 32-bit boundary. Where a sum or a
//! difference may leave the domain, use `checked_add` and `checked_sub`.

use crate::index::StrIndex;
use crate::range::{Span, StrRange};
use std::ops::{Add, AddAssign, Index, Sub, SubAssign};
use vstd::prelude::*;
use vstd::std_specs::convert::FromSpec;
use vstd::std_specs::ops::{AddSpecImpl, SubSpecImpl};
use vstd::string::StringSliceAdditionalSpecFns;
use vstd::utf8::*;

verus! {

/// The sum of two offsets, wrapped into the 32-bit domain.
pub open spec fn wrapped_sum(a: nat, b: nat) -> nat {
    if a + b > u32::MAX {
        (a + b - 0x1_0000_0000) as nat
    } else {
        a + b
    }
}

/// The difference of two offsets, wrapped into the 32-bit domain.
pub open spec fn wrapped_difference(a: nat, b: nat) -> nat {
    if a < b {
        (a - b + 0x1_0000_0000) as nat
    } else {
        (a - b) as nat
    }
}

/// Where a sum or a difference stays in the 32-bit domain, the operators
/// give it unchanged; and subtracting what was added gives back the first
/// offset, wrapped or not.
pub proof fn lemma_wrapping(a: StrIndex, b: StrIndex)
    ensures
        a@ + b@ <= u32::MAX ==> wrapped_sum(a@, b@) == a@ + b@,
        b@ <= a@ ==> wrapped_difference(a@, b@) == a@ - b@,
        wrapped_sum(a@, b@) <= u32::MAX,
        wrapped_difference(a@, b@) <= u32::MAX,
        wrapped_difference(wrapped_sum(a@, b@), b@) == a@,
        wrapped_sum(wrapped_difference(a@, b@), b@) == a@,
{
}

impl Add<StrIndex> for StrIndex {
    type Output = StrIndex;

    /// The sum, wrapped at the 32-bit boundary.
    fn add(self, rhs: StrIndex) -> (result: StrIndex)
        ensures
            result@ == wrapped_sum(self@, rhs@),
    {
        StrIndex::from(u32::from(self).wrapping_add(u32::from(rhs)))
    }
}

impl AddSpecImpl<StrIndex> for StrIndex {
    open spec fn obeys_add_spec() -> bool {
        true
    }

    open spec fn add_req(self, rhs: StrIndex) -> bool {
        true
    }

    open spec fn add_spec(self, rhs: StrIndex) -> StrIndex {
        StrIndex::from_spec(wrapped_sum(self@, rhs@) as u32)
    }
}

impl Add<StrIndex> for &StrIndex {
    type Output = StrIndex;

    /// The sum, wrapped at the 32-bit boundary.
    fn add(self, rhs: StrIndex) -> (result: StrIndex)
        ensures
            result@ == wrapped_sum(self@, rhs@),
    {
        StrIndex::from(u32::from(*self).wrapping_add(u32::from(rhs)))
    }
}

impl AddSpecImpl<StrIndex> for &StrIndex {
    open spec fn obeys_add_spec() -> bool {
        true
    }

    open spec fn add_req(self, rhs: StrIndex) -> bool {
        true
    }

    open spec fn add_spec(self, rhs: StrIndex) -> StrIndex {
        StrIndex::from_spec(wrapped_sum(self@, rhs@) as u32)
    }
}

impl Add<&StrIndex> for StrIndex {
    type Output = StrIndex;

    /// The sum, wrapped at the 32-bit boundary.
    fn add(self, rhs: &StrIndex) -> (result: StrIndex)
        ensures
            result@ == wrapped_sum(self@, rhs@),
    {
        StrIndex::from(u32::from(self).wrapping_add(u32::from(*rhs)))
    }
}

impl AddSpecImpl<&StrIndex> for StrIndex {
    open spec fn obeys_add_spec() -> bool {
        true
    }

    open spec fn add_req(self, rhs: &StrIndex) -> bool {
        true
    }

    open spec fn add_spec(self, rhs: &StrIndex) -> StrIndex {
        StrIndex::from_spec(wrapped_sum(self@, rhs@) as u32)
    }
}

impl Add<&StrIndex> for &StrIndex {
    type Output = StrIndex;

    /// The sum, wrapped at the 32-bit boundary.
    fn add(self, rhs: &StrIndex) -> (result: StrIndex)
        ensures
            result@ == wrapped_sum(self@, rhs@),
    {
        StrIndex::from(u32::from(*self).wrapping_add(u32::from(*rhs)))
    }
}

impl AddSpecImpl<&StrIndex> for &StrIndex {
    open spec fn obeys_add_spec() -> bool {
        true
    }

    open spec fn add_req(self, rhs: &StrIndex) -> bool {
        true
    }

    open spec fn add_spec(self, rhs: &StrIndex) -> StrIndex {
        StrIndex::from_spec(wrapped_sum(self@, rhs@) as u32)
    }
}

impl Sub<StrIndex> for StrIndex {
    type Output = StrIndex;

    /// The difference, wrapped at the 32-bit boundary.
    fn sub(self, rhs: StrIndex) -> (result: StrIndex)
        ensures
            result@ == wrapped_difference(self@, rhs@),
    {
        StrIndex::from(u32::from(self).wrapping_sub(u32::from(rhs)))
    }
}

impl SubSpecImpl<StrIndex> for StrIndex {
    open spec fn obeys_sub_spec() -> bool {
        true
    }

    open spec fn sub_req(self, rhs: StrIndex) -> bool {
        true
    }

    open spec fn sub_spec(self, rhs: StrIndex) -> StrIndex {
        StrIndex::from_spec(wrapped_difference(self@, rhs@) as u32)
    }
}

impl Sub<StrIndex> for &StrIndex {
    type Output = StrIndex;

    /// The difference, wrapped at the 32-bit boundary.
    fn sub(self, rhs: StrIndex) -> (result: StrIndex)
        ensures
            result@ == wrapped_difference(self@, rhs@),
    {
        StrIndex::from(u32::from(*self).wrapping_sub(u32::from(rhs)))
    }
}

impl SubSpecImpl<StrIndex> for &StrIndex {
    open spec fn obeys_sub_spec() -> bool {
        true
    }

    open spec fn sub_req(self, rhs: StrIndex) -> bool {
        true
    }

    open spec fn sub_spec(self, rhs: StrIndex) -> StrIndex {
        StrIndex::from_spec(wrapped_difference(self@, rhs@) as u32)
    }
}

impl Sub<&StrIndex> for StrIndex {
    type Output = StrIndex;

    /// The difference, wrapped at the 32-bit boundary.
    fn sub(self, rhs: &StrIndex) -> (result: StrIndex)
        ensures
            result@ == wrapped_difference(self@, rhs@),
    {
        StrIndex::from(u32::from(self).wrapping_sub(u32::from(*rhs)))
    }
}

impl SubSpecImpl<&StrIndex> for StrIndex {
    open spec fn obeys_sub_spec() -> bool {
        true
    }

    open spec fn sub_req(self, rhs: &StrIndex) -> bool {
        true
    }

    open spec fn sub_spec(self, rhs: &StrIndex) -> StrIndex {
        StrIndex::from_spec(wrapped_difference(self@, rhs@) as u32)
    }
}

impl Sub<&StrIndex> for &StrIndex {
    type Output = StrIndex;

    /// The difference, wrapped at the 32-bit boundary.
    fn sub(self, rhs: &StrIndex) -> (result: StrIndex)
        ensures
            result@ == wrapped_difference(self@, rhs@),
    {
        StrIndex::from(u32::from(*self).wrapping_sub(u32::from(*rhs)))
    }
}

impl SubSpecImpl<&StrIndex> for &StrIndex {
    open spec fn obeys_sub_spec() -> bool {
        true
    }

    open spec fn sub_req(self, rhs: &StrIndex) -> bool {
        true
    }

    open spec fn sub_spec(self, rhs: &StrIndex) -> StrIndex {
        StrIndex::from_spec(wrapped_difference(self@, rhs@) as u32)
    }
}

impl AddAssign<StrIndex> for StrIndex {
    /// Replaces the index by the sum, wrapped at the 32-bit boundary.
    fn add_assign(&mut self, rhs: StrIndex)
        ensures
            final(self)@ == wrapped_sum(old(self)@, rhs@),
    {
        *self = *self + rhs;
    }
}

impl AddAssign<&StrIndex> for StrIndex {
    /// Replaces the index by the sum, wrapped at the 32-bit boundary.
    fn add_assign(&mut self, rhs: &StrIndex)
        ensures
            final(self)@ == wrapped_sum(old(self)@, rhs@),
    {
        *self = *self + rhs;
    }
}

impl SubAssign<StrIndex> for StrIndex {
    /// Replaces the index by the difference, wrapped at the 32-bit boundary.
    fn sub_assign(&mut self, rhs: StrIndex)
        ensures
            final(self)@ == wrapped_difference(old(self)@, rhs@),
    {
        *self = *self - rhs;
    }
}

impl SubAssign<&StrIndex> for StrIndex {
    /// Replaces the index by the difference, wrapped at the 32-bit boundary.
    fn sub_assign(&mut self, rhs: &StrIndex)
        ensures
            final(self)@ == wrapped_difference(old(self)@, rhs@),
    {
        *self = *self - rhs;
    }
}

/// The interval can slice a text with these bytes: it does not decrease,
/// it ends within them, and both of its bounds fall between two characters.
pub open spec fn slices(bytes: Seq<u8>, span: Span) -> bool {
    &&& span.start <= span.end <= bytes.len()
    &&& is_char_boundary(bytes, span.start as int)
    &&& is_char_boundary(bytes, span.end as int)
}

/// Where a range can slice a text, its start falls between two characters
/// of the part before its end, too.
proof fn lemma_boundary_in_prefix(bytes: Seq<u8>, start: int, end: int)
    requires
        valid_utf8(bytes),
        0 <= start <= end <= bytes.len(),
        is_char_boundary(bytes, start),
        is_char_boundary(bytes, end),
    ensures
        valid_utf8(bytes.subrange(0, end)),
        is_char_boundary(bytes.subrange(0, end), start),
{
    let head = bytes.subrange(0, end);
    valid_utf8_split(bytes, end);
    if start == end {
        is_char_boundary_start_end_of_seq(head);
    } else {
        is_char_boundary_iff_not_is_continuation_byte(bytes, start);
        is_char_boundary_iff_not_is_continuation_byte(head, start);
    }
}

/// Can `range` slice `text`? It can where it ends within the text and both
/// of its bounds fall between two characters.
pub fn can_slice(text: &str, range: StrRange) -> (can: bool)
    ensures
        can == slices(text.spec_bytes(), range@),
{
    let start = range.start().to_usize();
    let end = range.end().to_usize();
    end <= text.as_bytes().len() && text.is_char_boundary(start) && text.is_char_boundary(end)
}

/// The part of `text` that `range` covers, counted in bytes.
///
/// The range must be one that can slice the text.
pub fn slice(text: &str, range: StrRange) -> (part: &str)
    requires
        slices(text.spec_bytes(), range@),
    ensures
        part.spec_bytes() == text.spec_bytes().subrange(
            range@.start as int,
            range@.end as int,
        ),
        part@ == decode_utf8(
            text.spec_bytes().subrange(range@.start as int, range@.end as int),
        ),
{
    let start = range.start().to_usize();
    let end = range.end().to_usize();
    proof {
        encode_utf8_valid_utf8(text@);
        lemma_boundary_in_prefix(text.spec_bytes(), start as int, end as int);
    }
    let (head, _) = text.split_at(end);
    let (_, part) = head.split_at(start);
    proof {
        encode_utf8_decode_utf8(part@);
    }
    part
}

impl Index<StrRange> for str {
    type Output = str;

    /// The part of the string that the range covers, counted in bytes.
    fn index(&self, index: StrRange) -> (part: &str)
        ensures
            part.spec_bytes() == self.spec_bytes().subrange(
                index@.start as int,
                index@.end as int,
            ),
    {
        slice(self, index)
    }
}

impl vstd::std_specs::core::IndexSpecImpl<StrRange> for str {
    open spec fn index_req(&self, index: &StrRange) -> bool {
        slices(self.spec_bytes(), index@)
    }
}

impl Index<StrRange> for String {
    type Output = str;

    /// The part of the string that the range covers, counted in bytes.
    fn index(&self, index: StrRange) -> (part: &str)
        ensures
            part.spec_bytes() == encode_utf8(self@).subrange(
                index@.start as int,
                index@.end as int,
            ),
    {
        slice(self.as_str(), index)
    }
}

impl vstd::std_specs::core::IndexSpecImpl<StrRange> for String {
    open spec fn index_req(&self, index: &StrRange) -> bool {
        slices(encode_utf8(self@), index@)
    }
}

} // verus!

//! The offset type: a byte position in a string, held in 32 bits.

use crate::range::{Span, StrRange};
use std::cmp::Ordering;
use std::num::TryFromIntError;
use vstd::prelude::*;
use vstd::std_specs::cmp::{PartialOrdIs, PartialOrdSpecImpl};
use vstd::std_specs::convert::{FromSpec, FromSpecImpl, TryFromSpecImpl};
use vstd::string::StringSliceAdditionalSpecFns;
use vstd::utf8::encode_scalar;

verus! {

/// An index into a string.
///
/// The index is stored as a 32 bit integer, so it addresses texts shorter
/// than 4 GiB.
#[derive(Copy, Clone, Debug, PartialEq, Eq, Structural, Hash, Ord)]
pub struct StrIndex {
    raw: u32,
}

impl StrIndex {
    /// The stored integer.
    pub closed spec fn raw(self) -> u32 {
        self.raw
    }

    /// Two indices are the same index exactly when they are at the same
    /// offset.
    pub proof fn lemma_view_injective(self, other: StrIndex)
        ensures
            (self@ == other@) == (self == other),
    {
    }

    /// Indices compare as their offsets do, and two indices that each come
    /// no later than the other are the same index.
    pub proof fn lemma_order(self, other: StrIndex)
        ensures
            self.is_lt(&other) <==> self@ < other@,
            self.is_le(&other) <==> self@ <= other@,
            self.is_gt(&other) <==> self@ > other@,
            self.is_ge(&other) <==> self@ >= other@,
            self.is_le(&other) && other.is_le(&self) <==> self == other,
    {
    }

    /// The index that `from` makes of an integer is at that offset.
    pub proof fn lemma_from_spec(raw: u32)
        ensures
            <StrIndex as FromSpec<u32>>::from_spec(raw)@ == raw,
    {
    }

    /// Index equal to the number of bytes that this `char` takes in UTF-8.
    pub fn from_char_len(c: char) -> (len: StrIndex)
        ensures
            len@ == encode_scalar(c as u32).len(),
            1 <= len@ <= 4,
    {
        let code = c as u32;
        let raw: u32 = if code < 0x80 {
            1
        } else if code < 0x800 {
            2
        } else if code < 0x1_0000 {
            3
        } else {
            4
        };
        StrIndex { raw }
    }

    /// Index equal to the length of this string in bytes.
    ///
    /// The string must be shorter than `u32::MAX` bytes.
    pub fn from_str_len(s: &str) -> (len: StrIndex)
        requires
            s.spec_bytes().len() < u32::MAX,
        ensures
            len@ == s.spec_bytes().len(),
    {
        StrIndex { raw: s.len() as u32 }
    }

    /// This index as a raw `usize`.
    pub fn to_usize(self) -> (raw: usize)
        ensures
            raw == self@,
    {
        self.raw as usize
    }

    /// Checked integer addition: `None` when the sum leaves the 32-bit
    /// domain.
    pub fn checked_add(self, rhs: StrIndex) -> (sum: Option<StrIndex>)
        ensures
            sum is Some <==> self@ + rhs@ <= u32::MAX,
            sum matches Some(index) ==> index@ == self@ + rhs@,
    {
        match self.raw.checked_add(rhs.raw) {
            Some(raw) => Some(StrIndex { raw }),
            None => None,
        }
    }

    /// Checked integer subtraction: `None` when `rhs` is the greater.
    pub fn checked_sub(self, rhs: StrIndex) -> (difference: Option<StrIndex>)
        ensures
            difference is Some <==> rhs@ <= self@,
            difference matches Some(index) ==> index@ == self@ - rhs@,
    {
        match self.raw.checked_sub(rhs.raw) {
            Some(raw) => Some(StrIndex { raw }),
            None => None,
        }
    }

    /// A range starting at this index, `len` bytes long.
    ///
    /// The end of the range, `self + len`, must be in the 32-bit domain.
    pub fn range_for(self, len: StrIndex) -> (range: StrRange)
        requires
            self@ + len@ <= u32::MAX,
        ensures
            range@ == (Span { start: self@, end: self@ + len@ }),
    {
        StrRange::from(self..self + len)
    }

    /// A range from this index to another.
    ///
    /// `end` must not lie before this index.
    pub fn range_to(self, end: StrIndex) -> (range: StrRange)
        requires
            self@ <= end@,
        ensures
            range@ == (Span { start: self@, end: end@ }),
    {
        StrRange::from(self..end)
    }

    /// The empty range at this index.
    pub fn as_unit_range(self) -> (range: StrRange)
        ensures
            range@ == (Span { start: self@, end: self@ }),
    {
        StrRange::from(self..self)
    }
}

impl View for StrIndex {
    type V = nat;

    /// The offset as a natural number, never above `u32::MAX`.
    open spec fn view(&self) -> nat {
        self.raw() as nat
    }
}

impl Default for StrIndex {
    /// The index at the start of a string.
    fn default() -> (index: StrIndex)
        ensures
            index@ == 0,
    {
        StrIndex { raw: 0 }
    }
}

impl From<u32> for StrIndex {
    /// The index at this offset.
    fn from(raw: u32) -> (index: StrIndex)
        ensures
            index@ == raw,
    {
        StrIndex { raw }
    }
}

impl FromSpecImpl<u32> for StrIndex {
    open spec fn obeys_from_spec() -> bool {
        true
    }

    closed spec fn from_spec(raw: u32) -> StrIndex {
        StrIndex { raw }
    }
}

impl From<StrIndex> for u32 {
    /// The offset as a plain integer.
    fn from(index: StrIndex) -> (raw: u32)
        ensures
            raw == index@,
    {
        index.raw
    }
}

impl FromSpecImpl<StrIndex> for u32 {
    open spec fn obeys_from_spec() -> bool {
        true
    }

    open spec fn from_spec(index: StrIndex) -> u32 {
        index.raw()
    }
}

impl From<StrIndex> for usize {
    /// The offset as a `usize`.
    fn from(index: StrIndex) -> (raw: usize)
        ensures
            raw == index@,
    {
        index.raw as usize
    }
}

impl FromSpecImpl<StrIndex> for usize {
    open spec fn obeys_from_spec() -> bool {
        true
    }

    open spec fn from_spec(index: StrIndex) -> usize {
        index.raw() as usize
    }
}

impl TryFrom<usize> for StrIndex {
    type Error = TryFromIntError;

    /// The index at this offset, where the offset is in the 32-bit domain.
    fn try_from(raw: usize) -> (index: Result<StrIndex, TryFromIntError>)
        ensures
            index is Ok <==> raw <= u32::MAX,
            index matches Ok(found) ==> found@ == raw,
    {
        match u32::try_from(raw) {
            Ok(raw) => Ok(StrIndex { raw }),
            Err(error) => Err(error),
        }
    }
}

impl TryFromSpecImpl<usize> for StrIndex {
    open spec fn obeys_try_from_spec() -> bool {
        true
    }

    closed spec fn try_from_spec(raw: usize) -> Result<StrIndex, TryFromIntError> {
        if raw <= u32::MAX {
            Ok(StrIndex { raw: raw as u32 })
        } else {
            Err(arbitrary())
        }
    }
}

impl PartialOrd for StrIndex {
    /// Indices are ordered as their integers are.
    fn partial_cmp(&self, other: &StrIndex) -> (order: Option<Ordering>) {
        if self.raw < other.raw {
            Some(Ordering::Less)
        } else if self.raw == other.raw {
            Some(Ordering::Equal)
        } else {
            Some(Ordering::Greater)
        }
    }
}

impl PartialOrdSpecImpl for StrIndex {
    open spec fn obeys_partial_cmp_spec() -> bool {
        true
    }

    open spec fn partial_cmp_spec(&self, other: &StrIndex) -> Option<Ordering> {
        if self@ < other@ {
            Some(Ordering::Less)
        } else if self@ == other@ {
            Some(Ordering::Equal)
        } else {
            Some(Ordering::Greater)
        }
    }
}

} // verus!

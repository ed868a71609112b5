//! The logical encoding of indices and ranges, and its decoding.
//!
//! A range is written as two named fields, `start` and `end`. It is read
//! back from a keyed form (fields by name, in any order) or from a
//! positional form (`start`, then `end`). What is read comes from outside,
//! so the order of the two bounds is checked on every path, and a pair that
//! decreases is reported as an error, never built.

use crate::fmt::{decimal, decimal_text, span_text};
use crate::index::StrIndex;
use crate::range::{Span, StrRange};
use vstd::prelude::*;
use vstd::string::*;
use vstd::utf8::*;

verus! {

/// The name under which an index is tagged.
pub const INDEX_NAME: &'static str = "StrIndex";

/// The name of the aggregate in which a range is written.
pub const RANGE_NAME: &'static str = "StrRange";

/// The names of the fields of a range, in the order in which they are
/// written.
pub const RANGE_FIELDS: [&'static str; 2] = ["start", "end"];

/// One of the two fields of an encoded range.
#[derive(Copy, Clone, Debug, PartialEq, Eq, Structural, Hash)]
pub enum RangeField {
    Start,
    End,
}

/// Why a range could not be decoded.
#[derive(Debug, PartialEq, Eq)]
pub enum DecodeError {
    /// The positional form ended before the element at this position.
    InvalidLength(usize),
    /// The keyed form held a field with this name, which is neither
    /// `start` nor `end`.
    UnknownField(String),
    /// The keyed form held this field twice.
    DuplicateField(RangeField),
    /// The keyed form ended without this field.
    MissingField(RangeField),
    /// The decoded bounds decrease.
    InvalidRange { start: StrIndex, end: StrIndex },
}

/// The mathematical content of a [`DecodeError`].
pub enum Fault {
    InvalidLength(nat),
    UnknownField(Seq<char>),
    DuplicateField(RangeField),
    MissingField(RangeField),
    InvalidRange { start: nat, end: nat },
}

impl View for DecodeError {
    type V = Fault;

    open spec fn view(&self) -> Fault {
        match *self {
            DecodeError::InvalidLength(position) => Fault::InvalidLength(position as nat),
            DecodeError::UnknownField(name) => Fault::UnknownField(name@),
            DecodeError::DuplicateField(field) => Fault::DuplicateField(field),
            DecodeError::MissingField(field) => Fault::MissingField(field),
            DecodeError::InvalidRange { start, end } => Fault::InvalidRange {
                start: start@,
                end: end@,
            },
        }
    }
}

impl Fault {
    /// The error as text.
    pub open spec fn message(self) -> Seq<char> {
        match self {
            Fault::InvalidLength(position) => "invalid length "@ + decimal(position)
                + ", expected struct StrRange"@,
            Fault::UnknownField(name) => "unknown field `"@ + name
                + "`, expected `start` or `end`"@,
            Fault::DuplicateField(field) => "duplicate field `"@ + field.spec_name() + "`"@,
            Fault::MissingField(field) => "missing field `"@ + field.spec_name() + "`"@,
            Fault::InvalidRange { start, end } => "invalid string range "@ + span_text(
                Span { start, end },
            ),
        }
    }
}

impl DecodeError {
    /// The error as text. Bounds that decrease read
    /// `invalid string range {start}..{end}`.
    pub fn message(&self) -> (text: String)
        ensures
            text@ == self@.message(),
    {
        match self {
            DecodeError::InvalidLength(position) => {
                "invalid length ".to_owned().concat(decimal_text(*position as u64).as_str()).concat(
                    ", expected struct StrRange",
                )
            },
            DecodeError::UnknownField(name) => {
                "unknown field `".to_owned().concat(name.as_str()).concat(
                    "`, expected `start` or `end`",
                )
            },
            DecodeError::DuplicateField(field) => {
                "duplicate field `".to_owned().concat(field.name()).concat("`")
            },
            DecodeError::MissingField(field) => {
                "missing field `".to_owned().concat(field.name()).concat("`")
            },
            DecodeError::InvalidRange { start, end } => {
                let text = "invalid string range ".to_owned().concat(
                    start.to_string().as_str(),
                ).concat("..").concat(end.to_string().as_str());
                proof {
                    reveal_strlit("..");
                }
                text
            },
        }
    }
}

/// The text that `String::from_utf8_lossy` makes of these bytes.
pub uninterp spec fn lossy_text(bytes: Seq<u8>) -> Seq<char>;

/// Calls `String::from_utf8_lossy` and takes the text it returns as an
/// owned string. The text depends on the bytes alone; of bytes that are
/// valid UTF-8 it is the text they encode. Bytes that are not are replaced
/// by U+FFFD in a way that is not spelled out here.
#[verifier::external_body]
fn lossy_name(bytes: &[u8]) -> (name: String)
    ensures
        name@ == lossy_text(bytes@),
        valid_utf8(bytes@) ==> name@ == decode_utf8(bytes@),
{
    String::from_utf8_lossy(bytes).into_owned()
}

impl RangeField {
    /// The name under which the field is written.
    pub open spec fn spec_name(self) -> Seq<char> {
        match self {
            RangeField::Start => seq!['s', 't', 'a', 'r', 't'],
            RangeField::End => seq!['e', 'n', 'd'],
        }
    }

    /// The UTF-8 bytes of the field's name.
    pub open spec fn spec_name_bytes(self) -> Seq<u8> {
        match self {
            RangeField::Start => seq![0x73u8, 0x74u8, 0x61u8, 0x72u8, 0x74u8],
            RangeField::End => seq![0x65u8, 0x6eu8, 0x64u8],
        }
    }

    /// The field that these bytes name, if they name one.
    pub open spec fn of_bytes(bytes: Seq<u8>) -> Option<RangeField> {
        if bytes == RangeField::Start.spec_name_bytes() {
            Some(RangeField::Start)
        } else if bytes == RangeField::End.spec_name_bytes() {
            Some(RangeField::End)
        } else {
            None
        }
    }

    /// The field that this text names, if it names one.
    pub open spec fn of_name(name: Seq<char>) -> Option<RangeField> {
        if name == RangeField::Start.spec_name() {
            Some(RangeField::Start)
        } else if name == RangeField::End.spec_name() {
            Some(RangeField::End)
        } else {
            None
        }
    }

    /// A text names a field exactly when its UTF-8 bytes do.
    pub proof fn lemma_name_bytes(name: Seq<char>)
        ensures
            RangeField::of_name(name) == RangeField::of_bytes(encode_utf8(name)),
            RangeField::Start.spec_name_bytes() == encode_utf8(RangeField::Start.spec_name()),
            RangeField::End.spec_name_bytes() == encode_utf8(RangeField::End.spec_name()),
    {
        let start = RangeField::Start.spec_name();
        let end = RangeField::End.spec_name();
        is_ascii_chars_encode_utf8(start);
        is_ascii_chars_encode_utf8(end);
        assert(encode_utf8(start) =~= RangeField::Start.spec_name_bytes());
        assert(encode_utf8(end) =~= RangeField::End.spec_name_bytes());
        encode_utf8_decode_utf8(name);
        encode_utf8_decode_utf8(start);
        encode_utf8_decode_utf8(end);
    }

    /// The listed names are the names of the two fields.
    pub proof fn lemma_listed_names()
        ensures
            RANGE_FIELDS@.len() == 2,
            RANGE_FIELDS@[0]@ == RangeField::Start.spec_name(),
            RANGE_FIELDS@[1]@ == RangeField::End.spec_name(),
    {
        reveal_strlit("start");
        reveal_strlit("end");
    }

    /// The name under which the field is written.
    pub fn name(self) -> (text: &'static str)
        ensures
            text@ == self.spec_name(),
    {
        match self {
            RangeField::Start => {
                proof {
                    reveal_strlit("start");
                }
                "start"
            },
            RangeField::End => {
                proof {
                    reveal_strlit("end");
                }
                "end"
            },
        }
    }

    /// Tells which field these bytes name.
    fn classify(bytes: &[u8]) -> (found: Option<RangeField>)
        ensures
            found == RangeField::of_bytes(bytes@),
    {
        if bytes.len() == 5 && bytes[0] == 0x73 && bytes[1] == 0x74 && bytes[2] == 0x61
            && bytes[3] == 0x72 && bytes[4] == 0x74 {
            assert(bytes@ =~= RangeField::Start.spec_name_bytes());
            Some(RangeField::Start)
        } else if bytes.len() == 3 && bytes[0] == 0x65 && bytes[1] == 0x6e && bytes[2] == 0x64 {
            assert(bytes@ =~= RangeField::End.spec_name_bytes());
            Some(RangeField::End)
        } else {
            None
        }
    }

    /// Reads a field's name given as bytes. Bytes that name no field are
    /// reported with the text that a lossy UTF-8 decoding makes of them.
    pub fn from_bytes(bytes: &[u8]) -> (found: Result<RangeField, DecodeError>)
        ensures
            match RangeField::of_bytes(bytes@) {
                Some(field) => found == Ok::<RangeField, DecodeError>(field),
                None => found matches Err(e) && e@ == Fault::UnknownField(lossy_text(bytes@)),
            },
            valid_utf8(bytes@) && found is Err ==> found->Err_0@ == Fault::UnknownField(
                decode_utf8(bytes@),
            ),
    {
        match RangeField::classify(bytes) {
            Some(field) => Ok(field),
            None => Err(DecodeError::UnknownField(lossy_name(bytes))),
        }
    }

    /// Reads a field's name. Any other name is reported as an unknown field.
    pub fn from_name(name: &str) -> (found: Result<RangeField, DecodeError>)
        ensures
            match RangeField::of_name(name@) {
                Some(field) => found == Ok::<RangeField, DecodeError>(field),
                None => found matches Err(e) && e@ == Fault::UnknownField(name@),
            },
    {
        proof {
            RangeField::lemma_name_bytes(name@);
        }
        match RangeField::classify(name.as_bytes()) {
            Some(field) => Ok(field),
            None => Err(DecodeError::UnknownField(name.to_owned())),
        }
    }
}

/// An index as it is written: one 32-bit integer, either under the name
/// of the index type or bare.
#[derive(Copy, Clone, Debug, PartialEq, Eq, Structural, Hash)]
pub enum IndexForm {
    Tagged(u32),
    Bare(u32),
}

impl IndexForm {
    /// The offset that the form holds.
    pub open spec fn value(self) -> nat {
        match self {
            IndexForm::Tagged(raw) => raw as nat,
            IndexForm::Bare(raw) => raw as nat,
        }
    }
}

impl DeepView for IndexForm {
    type V = IndexForm;

    open spec fn deep_view(&self) -> IndexForm {
        *self
    }
}

/// The form in which an index at this offset is written.
pub open spec fn index_form(offset: nat) -> IndexForm {
    IndexForm::Tagged(offset as u32)
}

/// Writes an index: its integer, under the name of the index type.
pub fn encode_index(index: StrIndex) -> (form: IndexForm)
    ensures
        form == index_form(index@),
{
    IndexForm::Tagged(u32::from(index))
}

/// Reads an index, from the tagged form or from a bare integer.
pub fn decode_index(form: IndexForm) -> (index: StrIndex)
    ensures
        index@ == form.value(),
{
    match form {
        IndexForm::Tagged(raw) => StrIndex::from(raw),
        IndexForm::Bare(raw) => StrIndex::from(raw),
    }
}

/// What decoding makes of two bounds: their range, unless they decrease.
pub open spec fn checked(start: nat, end: nat) -> Result<Span, Fault> {
    if start <= end {
        Ok(Span { start, end })
    } else {
        Err(Fault::InvalidRange { start, end })
    }
}

/// The mathematical content of a decoding result.
pub open spec fn outcome(result: Result<StrRange, DecodeError>) -> Result<Span, Fault> {
    match result {
        Ok(range) => Ok(range@),
        Err(error) => Err(error@),
    }
}

/// Builds the range of two decoded bounds after checking their order.
/// Bounds that decrease are an error: they are never made into a range.
pub fn check_order(start: StrIndex, end: StrIndex) -> (result: Result<StrRange, DecodeError>)
    ensures
        outcome(result) == checked(start@, end@),
{
    if start <= end {
        Ok(StrRange::from(start..end))
    } else {
        Err(DecodeError::InvalidRange { start, end })
    }
}

/// What a positional form decodes to: the range of its first two
/// elements, `start` then `end`. A form that ends before one of them is
/// an error that names the position of the missing element.
pub open spec fn positional(items: Seq<IndexForm>) -> Result<Span, Fault> {
    if items.len() == 0 {
        Err(Fault::InvalidLength(0))
    } else if items.len() == 1 {
        Err(Fault::InvalidLength(1))
    } else {
        checked(items[0].value(), items[1].value())
    }
}

/// Takes the element read at `position` of a positional form, or reports
/// that the form ended there.
pub fn required(found: Option<StrIndex>, position: usize) -> (result: Result<
    StrIndex,
    DecodeError,
>)
    ensures
        match found {
            Some(index) => result == Ok::<StrIndex, DecodeError>(index),
            None => result matches Err(e) && e@ == Fault::InvalidLength(position as nat),
        },
{
    match found {
        Some(index) => Ok(index),
        None => Err(DecodeError::InvalidLength(position)),
    }
}

/// The element at `position`, decoded, if the form reaches that far.
fn element(items: &[IndexForm], position: usize) -> (found: Option<StrIndex>)
    ensures
        found is Some <==> position < items@.len(),
        found is Some ==> found->0@ == items@[position as int].value(),
{
    if position < items.len() {
        Some(decode_index(items[position]))
    } else {
        None
    }
}

/// Decodes a range from its positional form.
///
/// Only the first two elements are read; whether more may follow is for
/// the format to say.
pub fn decode_positional(items: &[IndexForm]) -> (result: Result<StrRange, DecodeError>)
    ensures
        outcome(result) == positional(items@),
{
    let start = match required(element(items, 0), 0) {
        Ok(index) => index,
        Err(error) => {
            return Err(error);
        },
    };
    let end = match required(element(items, 1), 1) {
        Ok(index) => index,
        Err(error) => {
            return Err(error);
        },
    };
    check_order(start, end)
}

/// The mathematical content of a [`RangeDraft`]: the bounds read so far.
pub struct Draft {
    pub start: Option<nat>,
    pub end: Option<nat>,
}

impl Draft {
    /// The draft in which no field has been read.
    pub open spec fn empty() -> Draft {
        Draft { start: None, end: None }
    }

    /// What has been read for a field.
    pub open spec fn get(self, field: RangeField) -> Option<nat> {
        match field {
            RangeField::Start => self.start,
            RangeField::End => self.end,
        }
    }

    /// The draft after a value has been read for a field.
    pub open spec fn set(self, field: RangeField, value: nat) -> Draft {
        match field {
            RangeField::Start => Draft { start: Some(value), end: self.end },
            RangeField::End => Draft { start: self.start, end: Some(value) },
        }
    }

    /// What the draft amounts to once the form has ended: an error that
    /// names the first field still missing, `start` before `end`, else the
    /// checked range of the two bounds.
    pub open spec fn finish(self) -> Result<Span, Fault> {
        match (self.start, self.end) {
            (None, _) => Err(Fault::MissingField(RangeField::Start)),
            (Some(_), None) => Err(Fault::MissingField(RangeField::End)),
            (Some(start), Some(end)) => checked(start, end),
        }
    }
}

/// What the rest of a keyed form decodes to, given what was read before it.
///
/// The entries are taken in order. The first entry whose name is unknown,
/// or whose field was read before, ends the decoding with that error.
pub open spec fn keyed_from(entries: Seq<(Seq<char>, IndexForm)>, draft: Draft) -> Result<
    Span,
    Fault,
>
    decreases entries.len(),
{
    if entries.len() == 0 {
        draft.finish()
    } else {
        match RangeField::of_name(entries[0].0) {
            None => Err(Fault::UnknownField(entries[0].0)),
            Some(field) => if draft.get(field) is Some {
                Err(Fault::DuplicateField(field))
            } else {
                keyed_from(entries.drop_first(), draft.set(field, entries[0].1.value()))
            },
        }
    }
}

/// What a keyed form decodes to.
pub open spec fn keyed(entries: Seq<(Seq<char>, IndexForm)>) -> Result<Span, Fault> {
    keyed_from(entries, Draft::empty())
}

/// The fields of a range read so far from a keyed form.
pub struct RangeDraft {
    pub start: Option<StrIndex>,
    pub end: Option<StrIndex>,
}

impl View for RangeDraft {
    type V = Draft;

    open spec fn view(&self) -> Draft {
        Draft {
            start: match self.start {
                Some(index) => Some(index@),
                None => None,
            },
            end: match self.end {
                Some(index) => Some(index@),
                None => None,
            },
        }
    }
}

impl RangeDraft {
    /// A draft with no field read.
    pub fn new() -> (draft: RangeDraft)
        ensures
            draft@ == Draft::empty(),
    {
        RangeDraft { start: None, end: None }
    }

    /// Checks, before its value is read, that a field has not been read
    /// before.
    pub fn vacant(&self, field: RangeField) -> (result: Result<(), DecodeError>)
        ensures
            result is Ok <==> self@.get(field) is None,
            result matches Err(e) ==> e@ == Fault::DuplicateField(field),
    {
        let taken = match field {
            RangeField::Start => self.start.is_some(),
            RangeField::End => self.end.is_some(),
        };
        if taken {
            Err(DecodeError::DuplicateField(field))
        } else {
            Ok(())
        }
    }

    /// Records the value read for a field.
    pub fn put(&mut self, field: RangeField, value: StrIndex)
        ensures
            final(self)@ == old(self)@.set(field, value@),
    {
        match field {
            RangeField::Start => {
                self.start = Some(value);
            },
            RangeField::End => {
                self.end = Some(value);
            },
        }
    }

    /// Ends the decoding: both fields must have been read, and their
    /// order is checked.
    pub fn finish(self) -> (result: Result<StrRange, DecodeError>)
        ensures
            outcome(result) == self@.finish(),
    {
        let start = match self.start {
            Some(index) => index,
            None => {
                return Err(DecodeError::MissingField(RangeField::Start));
            },
        };
        let end = match self.end {
            Some(index) => index,
            None => {
                return Err(DecodeError::MissingField(RangeField::End));
            },
        };
        check_order(start, end)
    }
}

/// Decodes a range from its keyed form: pairs of a field's name and its
/// value, in any order.
pub fn decode_keyed(entries: &[(String, IndexForm)]) -> (result: Result<StrRange, DecodeError>)
    ensures
        outcome(result) == keyed(entries.deep_view()),
{
    let ghost all = entries.deep_view();
    let mut draft = RangeDraft::new();
    let mut position: usize = 0;
    assert(all.skip(0) == all);
    while position < entries.len()
        invariant
            position <= entries.len(),
            all == entries.deep_view(),
            all.len() == entries.len(),
            keyed(all) == keyed_from(all.skip(position as int), draft@),
        decreases entries.len() - position,
    {
        assert(all.skip(position as int).drop_first() == all.skip(position + 1));
        let field = match RangeField::from_name(entries[position].0.as_str()) {
            Ok(field) => field,
            Err(error) => {
                return Err(error);
            },
        };
        match draft.vacant(field) {
            Ok(()) => {},
            Err(error) => {
                return Err(error);
            },
        }
        draft.put(field, decode_index(entries[position].1));
        position += 1;
    }
    draft.finish()
}

/// The positional form in which a range is written: `start`, then `end`.
pub open spec fn positional_form(span: Span) -> Seq<IndexForm> {
    seq![index_form(span.start), index_form(span.end)]
}

/// The keyed form in which a range is written: the field `start`, then
/// the field `end`.
pub open spec fn keyed_form(span: Span) -> Seq<(Seq<char>, IndexForm)> {
    seq![
        (RangeField::Start.spec_name(), index_form(span.start)),
        (RangeField::End.spec_name(), index_form(span.end)),
    ]
}

/// Writes a range in its positional form.
pub fn encode_positional(range: StrRange) -> (items: Vec<IndexForm>)
    ensures
        items@ == positional_form(range@),
{
    let mut items = Vec::new();
    items.push(encode_index(range.start()));
    items.push(encode_index(range.end()));
    items
}

/// Writes a range in its keyed form.
pub fn encode_keyed(range: StrRange) -> (entries: Vec<(&'static str, IndexForm)>)
    ensures
        entries.deep_view() == keyed_form(range@),
{
    let mut entries = Vec::new();
    entries.push((RangeField::Start.name(), encode_index(range.start())));
    entries.push((RangeField::End.name(), encode_index(range.end())));
    entries
}

/// An index that is written and read back is the index that was written.
pub proof fn lemma_index_round_trip(index: StrIndex, decoded: StrIndex)
    requires
        decoded@ == index_form(index@).value(),
    ensures
        decoded == index,
{
    decoded.lemma_view_injective(index);
}

/// A range that is written in positional form and read back is the range
/// that was written.
pub proof fn lemma_positional_round_trip(range: StrRange, decoded: Result<StrRange, DecodeError>)
    requires
        range@.valid(),
        outcome(decoded) == positional(positional_form(range@)),
    ensures
        positional(positional_form(range@)) == Ok::<Span, Fault>(range@),
        decoded == Ok::<StrRange, DecodeError>(range),
{
    decoded->Ok_0.lemma_view_injective(range);
}

/// A range that is written in keyed form and read back is the range that
/// was written, and so is one whose two fields were written in the other
/// order.
pub proof fn lemma_keyed_round_trip(range: StrRange, decoded: Result<StrRange, DecodeError>)
    requires
        range@.valid(),
        outcome(decoded) == keyed(keyed_form(range@)) || outcome(decoded) == keyed(
            keyed_form(range@).reverse(),
        ),
    ensures
        keyed(keyed_form(range@)) == Ok::<Span, Fault>(range@),
        keyed(keyed_form(range@).reverse()) == Ok::<Span, Fault>(range@),
        decoded == Ok::<StrRange, DecodeError>(range),
{
    reveal_with_fuel(keyed_from, 3);
    decoded->Ok_0.lemma_view_injective(range);
}

/// Bounds that decrease are rejected by both forms, with an error that
/// holds the two bounds as they were read and whose text is
/// `invalid string range `, the start, two dots and the end.
pub proof fn lemma_decreasing_rejected(start: IndexForm, end: IndexForm)
    requires
        start.value() > end.value(),
    ensures
        positional(seq![start, end]) == Err::<Span, Fault>(
            Fault::InvalidRange { start: start.value(), end: end.value() },
        ),
        keyed(seq![(RangeField::Start.spec_name(), start), (RangeField::End.spec_name(), end)])
            == Err::<Span, Fault>(Fault::InvalidRange { start: start.value(), end: end.value() }),
        (Fault::InvalidRange { start: start.value(), end: end.value() }).message()
            == "invalid string range "@ + decimal(start.value()) + seq!['.', '.'] + decimal(
            end.value(),
        ),
{
    reveal_with_fuel(keyed_from, 3);
}

/// The two bounds that a keyed form holds, where it holds exactly the two
/// fields, once each and in either order.
pub open spec fn keyed_bounds(entries: Seq<(Seq<char>, IndexForm)>) -> Option<(nat, nat)> {
    if entries.len() != 2 {
        None
    } else if RangeField::of_name(entries[0].0) == Some(RangeField::Start) && RangeField::of_name(
        entries[1].0,
    ) == Some(RangeField::End) {
        Some((entries[0].1.value(), entries[1].1.value()))
    } else if RangeField::of_name(entries[0].0) == Some(RangeField::End) && RangeField::of_name(
        entries[1].0,
    ) == Some(RangeField::Start) {
        Some((entries[1].1.value(), entries[0].1.value()))
    } else {
        None
    }
}

/// A keyed form decodes to a range exactly when it holds the two fields,
/// once each and in either order, with bounds that do not decrease; the
/// range is then the one between these bounds.
pub proof fn lemma_keyed_accepts(entries: Seq<(Seq<char>, IndexForm)>)
    ensures
        keyed(entries) is Ok <==> (keyed_bounds(entries) matches Some(bounds) && bounds.0
            <= bounds.1),
        keyed(entries) matches Ok(span) ==> keyed_bounds(entries) == Some((span.start, span.end)),
{
    reveal_with_fuel(keyed_from, 4);
}

/// Whatever a decoding returns as a range does not decrease.
pub proof fn lemma_decoded_valid(items: Seq<IndexForm>, entries: Seq<(Seq<char>, IndexForm)>)
    ensures
        positional(items) matches Ok(span) ==> span.valid(),
        keyed(entries) matches Ok(span) ==> span.valid(),
{
    lemma_keyed_from_valid(entries, Draft::empty());
}

/// The rest of a keyed form, too, decodes to no range that decreases.
proof fn lemma_keyed_from_valid(entries: Seq<(Seq<char>, IndexForm)>, draft: Draft)
    ensures
        keyed_from(entries, draft) matches Ok(span) ==> span.valid(),
    decreases entries.len(),
{
    if entries.len() > 0 {
        match RangeField::of_name(entries[0].0) {
            None => {},
            Some(field) => {
                lemma_keyed_from_valid(
                    entries.drop_first(),
                    draft.set(field, entries[0].1.value()),
                );
            },
        }
    }
}

} // verus!

//! The codec driven by a real structured-data framework: serde's traits are
//! implemented for two local wrappers, and every decision is taken by the
//! library.

use serde::de::{Deserialize, Deserializer, Error, Expected, MapAccess, SeqAccess, Visitor};
use serde::ser::{Serialize, SerializeStruct, Serializer};
use serde_test::{assert_de_tokens, assert_de_tokens_error, assert_tokens, Token};
use std::fmt;
use str_index::codec::{
    check_order, decode_index, encode_index, encode_keyed, required, DecodeError, IndexForm,
    RangeDraft, RangeField, INDEX_NAME, RANGE_FIELDS, RANGE_NAME,
};
use str_index::{StrIndex, StrRange};

#[derive(Debug, PartialEq)]
struct WireIndex(StrIndex);

#[derive(Debug, PartialEq)]
struct WireRange(StrRange);

struct WireField(RangeField);

fn refuse<E: Error>(error: DecodeError, expected: &dyn Expected) -> E {
    match error {
        DecodeError::InvalidLength(position) => E::invalid_length(position, expected),
        DecodeError::UnknownField(name) => E::unknown_field(&name, &RANGE_FIELDS),
        DecodeError::DuplicateField(field) => E::duplicate_field(field.name()),
        DecodeError::MissingField(field) => E::missing_field(field.name()),
        DecodeError::InvalidRange { .. } => E::custom(error.message()),
    }
}

fn write_index<S: Serializer>(form: IndexForm, serializer: S) -> Result<S::Ok, S::Error> {
    match form {
        IndexForm::Tagged(raw) => serializer.serialize_newtype_struct(INDEX_NAME, &raw),
        IndexForm::Bare(raw) => serializer.serialize_u32(raw),
    }
}

struct WireForm(IndexForm);

impl Serialize for WireForm {
    fn serialize<S: Serializer>(&self, serializer: S) -> Result<S::Ok, S::Error> {
        write_index(self.0, serializer)
    }
}

impl Serialize for WireIndex {
    fn serialize<S: Serializer>(&self, serializer: S) -> Result<S::Ok, S::Error> {
        write_index(encode_index(self.0), serializer)
    }
}

struct TaggedVisitor;

impl<'de> Visitor<'de> for TaggedVisitor {
    type Value = WireIndex;

    fn expecting(&self, f: &mut fmt::Formatter<'_>) -> fmt::Result {
        f.write_str("u32")
    }

    fn visit_u32<E: Error>(self, v: u32) -> Result<WireIndex, E> {
        Ok(WireIndex(decode_index(IndexForm::Tagged(v))))
    }
}

struct IndexVisitor;

impl<'de> Visitor<'de> for IndexVisitor {
    type Value = WireIndex;

    fn expecting(&self, f: &mut fmt::Formatter<'_>) -> fmt::Result {
        f.write_str("u32")
    }

    fn visit_u32<E: Error>(self, v: u32) -> Result<WireIndex, E> {
        Ok(WireIndex(decode_index(IndexForm::Bare(v))))
    }

    fn visit_newtype_struct<D: Deserializer<'de>>(self, d: D) -> Result<WireIndex, D::Error> {
        d.deserialize_u32(TaggedVisitor)
    }
}

impl<'de> Deserialize<'de> for WireIndex {
    fn deserialize<D: Deserializer<'de>>(deserializer: D) -> Result<Self, D::Error> {
        deserializer.deserialize_newtype_struct(INDEX_NAME, IndexVisitor)
    }
}

struct FieldVisitor;

impl<'de> Visitor<'de> for FieldVisitor {
    type Value = WireField;

    fn expecting(&self, f: &mut fmt::Formatter<'_>) -> fmt::Result {
        f.write_str("`start` or `end`")
    }

    fn visit_str<E: Error>(self, value: &str) -> Result<WireField, E> {
        match RangeField::from_name(value) {
            Ok(field) => Ok(WireField(field)),
            Err(error) => Err(refuse(error, &self)),
        }
    }

    fn visit_bytes<E: Error>(self, value: &[u8]) -> Result<WireField, E> {
        match RangeField::from_bytes(value) {
            Ok(field) => Ok(WireField(field)),
            Err(error) => Err(refuse(error, &self)),
        }
    }
}

impl<'de> Deserialize<'de> for WireField {
    fn deserialize<D: Deserializer<'de>>(deserializer: D) -> Result<Self, D::Error> {
        deserializer.deserialize_identifier(FieldVisitor)
    }
}

impl Serialize for WireRange {
    fn serialize<S: Serializer>(&self, serializer: S) -> Result<S::Ok, S::Error> {
        let entries = encode_keyed(self.0);
        let mut s = serializer.serialize_struct(RANGE_NAME, entries.len())?;
        for (name, form) in entries {
            s.serialize_field(name, &WireForm(form))?;
        }
        s.end()
    }
}

struct RangeVisitor;

impl<'de> Visitor<'de> for RangeVisitor {
    type Value = WireRange;

    fn expecting(&self, f: &mut fmt::Formatter<'_>) -> fmt::Result {
        f.write_str("struct StrRange")
    }

    fn visit_seq<A: SeqAccess<'de>>(self, mut seq: A) -> Result<WireRange, A::Error> {
        let first = seq.next_element::<WireIndex>()?.map(|index| index.0);
        let start = required(first, 0).map_err(|error| refuse(error, &self))?;
        let second = seq.next_element::<WireIndex>()?.map(|index| index.0);
        let end = required(second, 1).map_err(|error| refuse(error, &self))?;
        match check_order(start, end) {
            Ok(range) => Ok(WireRange(range)),
            Err(error) => Err(refuse(error, &self)),
        }
    }

    fn visit_map<A: MapAccess<'de>>(self, mut map: A) -> Result<WireRange, A::Error> {
        let mut draft = RangeDraft::new();
        while let Some(WireField(field)) = map.next_key()? {
            draft.vacant(field).map_err(|error| refuse(error, &self))?;
            let WireIndex(value) = map.next_value()?;
            draft.put(field, value);
        }
        match draft.finish() {
            Ok(range) => Ok(WireRange(range)),
            Err(error) => Err(refuse(error, &self)),
        }
    }
}

impl<'de> Deserialize<'de> for WireRange {
    fn deserialize<D: Deserializer<'de>>(deserializer: D) -> Result<Self, D::Error> {
        deserializer.deserialize_struct(RANGE_NAME, &RANGE_FIELDS, RangeVisitor)
    }
}

#[test]
fn str_index() {
    assert_tokens(
        &WireIndex(StrIndex::from(0)),
        &[Token::NewtypeStruct { name: "StrIndex" }, Token::U32(0)],
    );
    assert_de_tokens(&WireIndex(StrIndex::from(0)), &[Token::U32(0)])
}

#[test]
fn str_range() {
    let range = WireRange(StrRange::from(StrIndex::from(0)..StrIndex::from(10)));
    assert_tokens(
        &range,
        &[
            Token::Struct {
                name: "StrRange",
                len: 2,
            },
            Token::Str("start"),
            Token::NewtypeStruct { name: "StrIndex" },
            Token::U32(0),
            Token::Str("end"),
            Token::NewtypeStruct { name: "StrIndex" },
            Token::U32(10),
            Token::StructEnd,
        ],
    );
    assert_de_tokens(
        &range,
        &[
            Token::Map { len: Some(2) },
            Token::Str("start"),
            Token::U32(0),
            Token::Str("end"),
            Token::U32(10),
            Token::MapEnd,
        ],
    );
    assert_de_tokens(
        &range,
        &[
            Token::Seq { len: Some(2) },
            Token::U32(0),
            Token::U32(10),
            Token::SeqEnd,
        ],
    );

    assert_de_tokens_error::<WireRange>(
        &[
            Token::Seq { len: Some(2) },
            Token::U32(10),
            Token::U32(0),
            Token::SeqEnd,
        ],
        "invalid string range 10..0",
    );
    assert_de_tokens_error::<WireRange>(
        &[
            Token::Struct {
                name: "StrRange",
                len: 2,
            },
            Token::Str("start"),
            Token::U32(10),
            Token::Str("end"),
            Token::U32(0),
            Token::StructEnd,
        ],
        "invalid string range 10..0",
    );
}

#[test]
fn serde_range_fields_in_either_order() {
    let range = WireRange(StrRange::from(StrIndex::from(3)..StrIndex::from(8)));
    assert_de_tokens(
        &range,
        &[
            Token::Map { len: Some(2) },
            Token::Str("end"),
            Token::U32(8),
            Token::Str("start"),
            Token::U32(3),
            Token::MapEnd,
        ],
    );
}

#[test]
fn serde_range_field_names_as_bytes() {
    let range = WireRange(StrRange::from(StrIndex::from(3)..StrIndex::from(8)));
    assert_de_tokens(
        &range,
        &[
            Token::Map { len: Some(2) },
            Token::Bytes(b"start"),
            Token::U32(3),
            Token::Bytes(b"end"),
            Token::U32(8),
            Token::MapEnd,
        ],
    );
}

#[test]
fn serde_range_errors_use_the_library_messages() {
    assert_de_tokens_error::<WireRange>(
        &[Token::Seq { len: Some(0) }, Token::SeqEnd],
        &DecodeError::InvalidLength(0).message(),
    );
    assert_de_tokens_error::<WireRange>(
        &[Token::Seq { len: Some(1) }, Token::U32(4), Token::SeqEnd],
        &DecodeError::InvalidLength(1).message(),
    );
    assert_de_tokens_error::<WireRange>(
        &[Token::Map { len: Some(0) }, Token::MapEnd],
        &DecodeError::MissingField(RangeField::Start).message(),
    );
    assert_de_tokens_error::<WireRange>(
        &[
            Token::Map { len: Some(1) },
            Token::Str("start"),
            Token::U32(1),
            Token::MapEnd,
        ],
        &DecodeError::MissingField(RangeField::End).message(),
    );
    assert_de_tokens_error::<WireRange>(
        &[
            Token::Map { len: Some(2) },
            Token::Str("start"),
            Token::U32(1),
            Token::Str("start"),
        ],
        &DecodeError::DuplicateField(RangeField::Start).message(),
    );
    assert_de_tokens_error::<WireRange>(
        &[Token::Map { len: Some(1) }, Token::Str("middle")],
        &DecodeError::UnknownField(String::from("middle")).message(),
    );
    assert_de_tokens_error::<WireRange>(
        &[Token::Map { len: Some(1) }, Token::Bytes(b"mid\xffdle")],
        &DecodeError::UnknownField(String::from("mid\u{fffd}dle")).message(),
    );
}

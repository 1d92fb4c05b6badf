//! The canonical encoding of a node's content.
//!
//! The content of a node is a sequence of fields. The encoding of the content
//! is the concatenation of the encodings of its fields, in order. A field is
//! encoded as one tag byte that tells the kind of field, followed by:
//!
//! | field     | tag | after the tag                                          |
//! |-----------|-----|--------------------------------------------------------|
//! | `Absent`  | 0   | nothing                                                |
//! | `Choice`  | 1   | the number of the alternative, one byte                |
//! | `Flag`    | 2   | 1 for true, 0 for false                                |
//! | `Integer` | 3   | 1 if negative, else 0; then the magnitude (see below)  |
//! | `Text`    | 4   | the length of the UTF-8 text, then the text            |
//! | `Id`      | 5   | the 32 bytes of the hash                               |
//! | `Json`    | 6   | the length of the compact JSON text, then the text     |
//! | `Link`    | 7   | the length of the URL's UTF-8 text, then the text      |
//! | `Count`   | 8   | the number                                             |
//!
//! Lengths, counts and magnitudes are eight bytes, least significant first.
//! The magnitude of an integer `v` is `v` where `v` is not negative and
//! `-(v + 1)` where it is.

use vstd::bytes::{spec_u64_to_le_bytes, u64_to_le_bytes};
use vstd::prelude::*;
use vstd::utf8::encode_utf8;

use crate::error::GraphError;
use serde_json::Value;
use url::Url;

verus! {

/// `serde_json::Error`: why a value could not be serialized.
#[verifier::external_type_specification]
#[verifier::external_body]
pub struct ExJsonError(serde_json::Error);

/// What `serde_json::to_vec` makes of a value: its compact JSON text, or
/// nothing where the value cannot be serialized.
pub uninterp spec fn json_encoding(value: Value) -> Option<Seq<u8>>;

/// Whether the value can be serialized.
pub open spec fn json_encodes(value: Value) -> bool {
    json_encoding(value) is Some
}

/// The compact JSON text of a value; empty where the value cannot be
/// serialized.
pub open spec fn json_bytes(value: Value) -> Seq<u8> {
    match json_encoding(value) {
        Some(bytes) => bytes,
        None => Seq::empty(),
    }
}

/// The text of a URL, as `Url::as_str` returns it.
pub uninterp spec fn url_text(link: Url) -> Seq<char>;

/// Calls `serde_json::to_vec`. Whether it succeeds, and the bytes that it
/// returns where it does, depend on the value alone.
#[verifier::external_body]
fn json_to_vec(value: &Value) -> (serialized: Result<Vec<u8>, serde_json::Error>)
    ensures
        match serialized {
            Ok(bytes) => json_encoding(*value) == Some(bytes@),
            Err(_) => json_encoding(*value) is None,
        },
{
    serde_json::to_vec(value)
}

/// Calls `Url::as_str`, which returns the serialization that the URL holds.
#[verifier::external_body]
fn url_as_str(link: &Url) -> (text: &str)
    ensures
        text@ == url_text(*link),
{
    link.as_str()
}

/// One field of a node's content.
pub enum Field {
    /// An optional field that is not set.
    Absent,
    /// One alternative of a closed set, by its number.
    Choice(u8),
    Flag(bool),
    Integer(i64),
    Text(Seq<char>),
    Id(crate::hash::Hash),
    Json(Value),
    Link(Url),
    /// How many child hashes follow.
    Count(u64),
}

/// The encoding of a length-prefixed byte string.
pub open spec fn sized(bytes: Seq<u8>) -> Seq<u8> {
    spec_u64_to_le_bytes(bytes.len() as u64) + bytes
}

/// The encoding of one field.
pub open spec fn field_bytes(field: Field) -> Seq<u8> {
    match field {
        Field::Absent => seq![0u8],
        Field::Choice(number) => seq![1u8, number],
        Field::Flag(flag) => seq![2u8, if flag { 1u8 } else { 0u8 }],
        Field::Integer(value) => if value >= 0 {
            seq![3u8, 0u8] + spec_u64_to_le_bytes(value as u64)
        } else {
            seq![3u8, 1u8] + spec_u64_to_le_bytes((-(value + 1)) as u64)
        },
        Field::Text(text) => seq![4u8] + sized(encode_utf8(text)),
        Field::Id(hash) => seq![5u8] + hash@,
        Field::Json(value) => seq![6u8] + sized(json_bytes(value)),
        Field::Link(link) => seq![7u8] + sized(encode_utf8(url_text(link))),
        Field::Count(number) => seq![8u8] + spec_u64_to_le_bytes(number),
    }
}

/// The encoding of a sequence of fields: the encodings of the fields, one
/// after the other.
pub open spec fn fields_bytes(fields: Seq<Field>) -> Seq<u8>
    decreases fields.len(),
{
    if fields.len() == 0 {
        Seq::empty()
    } else {
        fields_bytes(fields.drop_last()) + field_bytes(fields.last())
    }
}

/// Whether the field can be encoded: every field can, but for a JSON value
/// that cannot be serialized.
pub open spec fn field_encodes(field: Field) -> bool {
    field matches Field::Json(value) ==> json_encodes(value)
}

/// Whether every one of the fields can be encoded.
pub open spec fn all_encode(fields: Seq<Field>) -> bool {
    forall|k: int| 0 <= k < fields.len() ==> field_encodes(#[trigger] fields[k])
}

/// The field of an optional text.
pub open spec fn optional_text(text: Option<String>) -> Field {
    match text {
        Some(inner) => Field::Text(inner@),
        None => Field::Absent,
    }
}

/// The field of an optional integer.
pub open spec fn optional_integer(value: Option<i64>) -> Field {
    match value {
        Some(inner) => Field::Integer(inner),
        None => Field::Absent,
    }
}

/// The field of an optional flag.
pub open spec fn optional_flag(flag: Option<bool>) -> Field {
    match flag {
        Some(inner) => Field::Flag(inner),
        None => Field::Absent,
    }
}

/// The field of an optional hash.
pub open spec fn optional_id(id: Option<crate::hash::Hash>) -> Field {
    match id {
        Some(inner) => Field::Id(inner),
        None => Field::Absent,
    }
}

/// The field of an optional JSON value.
pub open spec fn optional_json(value: Option<Value>) -> Field {
    match value {
        Some(inner) => Field::Json(inner),
        None => Field::Absent,
    }
}

/// The field of an optional link.
pub open spec fn optional_link(link: Option<Url>) -> Field {
    match link {
        Some(inner) => Field::Link(inner),
        None => Field::Absent,
    }
}

/// Appends `data` to `out`.
fn append(out: &mut Vec<u8>, data: &[u8])
    ensures
        final(out)@ == old(out)@ + data@,
{
    let mut i: usize = 0;
    while i < data.len()
        invariant
            i <= data@.len(),
            out@ == old(out)@ + data@.take(i as int),
        decreases data@.len() - i,
    {
        out.push(data[i]);
        i += 1;
        assert(data@.take(i as int) == data@.take(i - 1).push(data@[i - 1]));
    }
    assert(data@.take(data@.len() as int) == data@);
}

/// Appends a length-prefixed byte string to `out`.
fn append_sized(out: &mut Vec<u8>, data: &[u8])
    ensures
        final(out)@ == old(out)@ + sized(data@),
{
    let length = u64_to_le_bytes(data.len() as u64);
    append(out, length.as_slice());
    append(out, data);
    assert(out@ == old(out)@ + sized(data@));
}

/// Writes the canonical encoding of a node's content, field by field.
pub struct ContentWriter {
    bytes: Vec<u8>,
    fields: Ghost<Seq<Field>>,
}

impl ContentWriter {
    /// The fields written so far, in order.
    pub closed spec fn fields(&self) -> Seq<Field> {
        self.fields@
    }

    /// The bytes written so far.
    pub closed spec fn bytes(&self) -> Seq<u8> {
        self.bytes@
    }

    /// Whether the bytes written so far are the encoding of the fields
    /// written so far.
    pub open spec fn wf(&self) -> bool {
        self.bytes() == fields_bytes(self.fields())
    }

    /// What the writer holds once `field` has been written after `before`.
    pub open spec fn follows(&self, before: &Self, field: Field) -> bool {
        &&& self.wf()
        &&& self.fields() == before.fields().push(field)
    }

    /// A writer that has written nothing.
    pub fn new() -> (writer: Self)
        ensures
            writer.wf(),
            writer.fields() == Seq::<Field>::empty(),
    {
        ContentWriter { bytes: Vec::new(), fields: Ghost(Seq::empty()) }
    }

    /// Records that the bytes appended since `before` encode `field`.
    proof fn lemma_push(before: Seq<Field>, field: Field)
        ensures
            fields_bytes(before.push(field)) == fields_bytes(before) + field_bytes(field),
    {
        assert(before.push(field).drop_last() == before);
    }

    /// Writes a field that is not set.
    pub fn absent(&mut self)
        requires
            old(self).wf(),
        ensures
            final(self).follows(old(self), Field::Absent),
    {
        self.bytes.push(0u8);
        proof {
            Self::lemma_push(self.fields@, Field::Absent);
            self.fields = Ghost(self.fields@.push(Field::Absent));
            assert(self.bytes@ == old(self).bytes@ + seq![0u8]);
        }
    }

    /// Writes the number of an alternative.
    pub fn choice(&mut self, number: u8)
        requires
            old(self).wf(),
        ensures
            final(self).follows(old(self), Field::Choice(number)),
    {
        self.bytes.push(1u8);
        self.bytes.push(number);
        proof {
            Self::lemma_push(self.fields@, Field::Choice(number));
            self.fields = Ghost(self.fields@.push(Field::Choice(number)));
            assert(self.bytes@ == old(self).bytes@ + seq![1u8, number]);
        }
    }

    /// Writes a flag.
    pub fn flag(&mut self, flag: bool)
        requires
            old(self).wf(),
        ensures
            final(self).follows(old(self), Field::Flag(flag)),
    {
        let byte: u8 = if flag {
            1u8
        } else {
            0u8
        };
        self.bytes.push(2u8);
        self.bytes.push(byte);
        proof {
            Self::lemma_push(self.fields@, Field::Flag(flag));
            self.fields = Ghost(self.fields@.push(Field::Flag(flag)));
            assert(self.bytes@ == old(self).bytes@ + seq![2u8, byte]);
        }
    }

    /// Writes an integer.
    pub fn integer(&mut self, value: i64)
        requires
            old(self).wf(),
        ensures
            final(self).follows(old(self), Field::Integer(value)),
    {
        self.bytes.push(3u8);
        if value >= 0 {
            self.bytes.push(0u8);
            let magnitude = u64_to_le_bytes(value as u64);
            append(&mut self.bytes, magnitude.as_slice());
            assert(self.bytes@ == old(self).bytes@ + (seq![3u8, 0u8] + spec_u64_to_le_bytes(
                value as u64,
            )));
        } else {
            self.bytes.push(1u8);
            let magnitude = u64_to_le_bytes((-(value + 1)) as u64);
            append(&mut self.bytes, magnitude.as_slice());
            assert(self.bytes@ == old(self).bytes@ + (seq![3u8, 1u8] + spec_u64_to_le_bytes(
                (-(value + 1)) as u64,
            )));
        }
        proof {
            Self::lemma_push(self.fields@, Field::Integer(value));
            self.fields = Ghost(self.fields@.push(Field::Integer(value)));
        }
    }

    /// Writes a text.
    pub fn text(&mut self, text: &str)
        requires
            old(self).wf(),
        ensures
            final(self).follows(old(self), Field::Text(text@)),
    {
        self.bytes.push(4u8);
        append_sized(&mut self.bytes, text.as_bytes());
        proof {
            Self::lemma_push(self.fields@, Field::Text(text@));
            self.fields = Ghost(self.fields@.push(Field::Text(text@)));
            assert(self.bytes@ == old(self).bytes@ + (seq![4u8] + sized(encode_utf8(text@))));
        }
    }

    /// Writes a hash.
    pub fn id(&mut self, hash: &crate::hash::Hash)
        requires
            old(self).wf(),
        ensures
            final(self).follows(old(self), Field::Id(*hash)),
    {
        self.bytes.push(5u8);
        append(&mut self.bytes, hash.as_bytes().as_slice());
        proof {
            Self::lemma_push(self.fields@, Field::Id(*hash));
            self.fields = Ghost(self.fields@.push(Field::Id(*hash)));
            assert(self.bytes@ == old(self).bytes@ + (seq![5u8] + hash@));
        }
    }

    /// Writes a JSON value whose serialization has already been attempted:
    /// the value is written where that succeeded, and nothing is written
    /// where it failed.
    pub fn json_serialized(
        &mut self,
        value: &Value,
        serialized: Result<Vec<u8>, serde_json::Error>,
    ) -> (result: Result<(), GraphError>)
        requires
            old(self).wf(),
            serialized matches Ok(bytes) ==> json_encoding(*value) == Some(bytes@),
        ensures
            match serialized {
                Ok(_) => result is Ok && final(self).follows(old(self), Field::Json(*value)),
                Err(_) => result == Err::<(), GraphError>(GraphError::JsonEncoding) && *final(self)
                    == *old(self),
            },
    {
        match serialized {
            Ok(bytes) => {
                self.bytes.push(6u8);
                append_sized(&mut self.bytes, bytes.as_slice());
                proof {
                    Self::lemma_push(self.fields@, Field::Json(*value));
                    self.fields = Ghost(self.fields@.push(Field::Json(*value)));
                    assert(self.bytes@ == old(self).bytes@ + (seq![6u8] + sized(
                        json_bytes(*value),
                    )));
                }
                Ok(())
            },
            Err(_) => Err(GraphError::JsonEncoding),
        }
    }

    /// Writes a JSON value. The value is serialized first; if it cannot be,
    /// nothing is written.
    pub fn json(&mut self, value: &Value) -> (result: Result<(), GraphError>)
        requires
            old(self).wf(),
        ensures
            result is Ok <==> json_encodes(*value),
            match result {
                Ok(_) => final(self).follows(old(self), Field::Json(*value)),
                Err(error) => error == GraphError::JsonEncoding && *final(self) == *old(self),
            },
    {
        let serialized = json_to_vec(value);
        self.json_serialized(value, serialized)
    }

    /// Writes a link.
    pub fn link(&mut self, link: &Url)
        requires
            old(self).wf(),
        ensures
            final(self).follows(old(self), Field::Link(*link)),
    {
        self.bytes.push(7u8);
        append_sized(&mut self.bytes, url_as_str(link).as_bytes());
        proof {
            Self::lemma_push(self.fields@, Field::Link(*link));
            self.fields = Ghost(self.fields@.push(Field::Link(*link)));
            assert(self.bytes@ == old(self).bytes@ + (seq![7u8] + sized(
                encode_utf8(url_text(*link)),
            )));
        }
    }

    /// Writes a count.
    pub fn count(&mut self, number: u64)
        requires
            old(self).wf(),
        ensures
            final(self).follows(old(self), Field::Count(number)),
    {
        self.bytes.push(8u8);
        let encoded = u64_to_le_bytes(number);
        append(&mut self.bytes, encoded.as_slice());
        proof {
            Self::lemma_push(self.fields@, Field::Count(number));
            self.fields = Ghost(self.fields@.push(Field::Count(number)));
            assert(self.bytes@ == old(self).bytes@ + (seq![8u8] + spec_u64_to_le_bytes(number)));
        }
    }

    /// Writes an optional text.
    pub fn optional_text(&mut self, text: &Option<String>)
        requires
            old(self).wf(),
        ensures
            final(self).follows(old(self), optional_text(*text)),
    {
        match text {
            Some(inner) => self.text(inner.as_str()),
            None => self.absent(),
        }
    }

    /// Writes an optional integer.
    pub fn optional_integer(&mut self, value: Option<i64>)
        requires
            old(self).wf(),
        ensures
            final(self).follows(old(self), optional_integer(value)),
    {
        match value {
            Some(inner) => self.integer(inner),
            None => self.absent(),
        }
    }

    /// Writes an optional flag.
    pub fn optional_flag(&mut self, flag: Option<bool>)
        requires
            old(self).wf(),
        ensures
            final(self).follows(old(self), optional_flag(flag)),
    {
        match flag {
            Some(inner) => self.flag(inner),
            None => self.absent(),
        }
    }

    /// Writes an optional hash.
    pub fn optional_id(&mut self, id: &Option<crate::hash::Hash>)
        requires
            old(self).wf(),
        ensures
            final(self).follows(old(self), optional_id(*id)),
    {
        match id {
            Some(inner) => self.id(inner),
            None => self.absent(),
        }
    }

    /// Writes an optional JSON value. If the value cannot be serialized,
    /// nothing is written.
    pub fn optional_json(&mut self, value: &Option<Value>) -> (result: Result<(), GraphError>)
        requires
            old(self).wf(),
        ensures
            result is Ok <==> field_encodes(optional_json(*value)),
            match result {
                Ok(_) => final(self).follows(old(self), optional_json(*value)),
                Err(error) => error == GraphError::JsonEncoding && *final(self) == *old(self),
            },
    {
        match value {
            Some(inner) => self.json(inner),
            None => {
                self.absent();
                Ok(())
            },
        }
    }

    /// Writes an optional link.
    pub fn optional_link(&mut self, link: &Option<Url>)
        requires
            old(self).wf(),
        ensures
            final(self).follows(old(self), optional_link(*link)),
    {
        match link {
            Some(inner) => self.link(inner),
            None => self.absent(),
        }
    }

    /// The bytes that were written.
    pub fn finish(self) -> (bytes: Vec<u8>)
        requires
            self.wf(),
        ensures
            bytes@ == fields_bytes(self.fields()),
    {
        self.bytes
    }
}

} // verus!

//! Values on the wire: what a value serializes to in a format, and what a
//! payload deserializes to.

use crate::binary::{bool_bytes, read_bool, read_string, string_bytes};
use crate::json::{
    document_text, json_bool, json_document, json_null, json_string, JsonDocument,
    JsonDocumentView, JsonValue, JsonValueView,
};
use vstd::prelude::*;

verus! {

/// The textual format, in which field names are on the wire.
pub struct Json;

/// The compact binary format, in which fields go by position.
pub struct Borsh;

/// A value that can be serialized in `Format`.
pub trait ToBytes<Format> {
    /// The payload of the value; `None` where it has none in this format.
    spec fn wire(&self) -> Option<Seq<u8>>;

    /// Serializes the value.
    fn to_bytes(&self) -> (r: Option<Vec<u8>>)
        ensures
            r is Some <==> self.wire() is Some,
            r matches Some(bytes) ==> Some(bytes@) == self.wire(),
    ;
}

/// A value that can be deserialized from `Format`.
pub trait FromBytes<Format>: Sized + View {
    /// The value that `bytes` hold; `None` where they hold none of this
    /// type.
    spec fn parsed(bytes: Seq<u8>) -> Option<Self::V>;

    /// Deserializes a value from the whole of `bytes`.
    fn from_bytes(bytes: &[u8]) -> (r: Option<Self>)
        ensures
            r is Some <==> Self::parsed(bytes@) is Some,
            r matches Some(value) ==> Some(value@) == Self::parsed(bytes@),
    ;
}

/// The value that was read, where nothing is left after it.
pub open spec fn whole<T>(read: Option<(T, Seq<u8>)>) -> Option<T> {
    match read {
        Some((value, rest)) => if rest.len() == 0 {
            Some(value)
        } else {
            None
        },
        None => None,
    }
}

impl ToBytes<Borsh> for bool {
    open spec fn wire(&self) -> Option<Seq<u8>> {
        Some(bool_bytes(*self))
    }

    fn to_bytes(&self) -> (r: Option<Vec<u8>>) {
        let mut out: Vec<u8> = Vec::new();
        crate::binary::put_bool(&mut out, *self);
        Some(out)
    }
}

impl FromBytes<Borsh> for bool {
    open spec fn parsed(bytes: Seq<u8>) -> Option<bool> {
        whole(read_bool(bytes))
    }

    fn from_bytes(bytes: &[u8]) -> (r: Option<Self>) {
        assert(bytes@.skip(0) == bytes@);
        match crate::binary::take_bool(bytes, 0) {
            Some((b, next)) => if next == bytes.len() {
                Some(b)
            } else {
                None
            },
            None => None,
        }
    }
}

impl ToBytes<Json> for bool {
    open spec fn wire(&self) -> Option<Seq<u8>> {
        Some(json_bool(*self))
    }

    fn to_bytes(&self) -> (r: Option<Vec<u8>>) {
        let mut out: Vec<u8> = Vec::new();
        crate::json::put_bool(&mut out, *self);
        Some(out)
    }
}

impl FromBytes<Json> for bool {
    open spec fn parsed(bytes: Seq<u8>) -> Option<bool> {
        match json_document(bytes) {
            Some(JsonDocumentView::Value(JsonValueView::Bool(b))) => Some(b),
            _ => None,
        }
    }

    fn from_bytes(bytes: &[u8]) -> (r: Option<Self>) {
        match crate::json::read_document(bytes) {
            Some(JsonDocument::Value(JsonValue::Bool(b))) => Some(b),
            _ => None,
        }
    }
}

impl ToBytes<Borsh> for String {
    open spec fn wire(&self) -> Option<Seq<u8>> {
        string_bytes(self@)
    }

    fn to_bytes(&self) -> (r: Option<Vec<u8>>) {
        let mut out: Vec<u8> = Vec::new();
        if crate::binary::put_string(&mut out, self.as_str()) {
            Some(out)
        } else {
            None
        }
    }
}

impl FromBytes<Borsh> for String {
    open spec fn parsed(bytes: Seq<u8>) -> Option<Seq<char>> {
        whole(read_string(bytes))
    }

    fn from_bytes(bytes: &[u8]) -> (r: Option<Self>) {
        assert(bytes@.skip(0) == bytes@);
        match crate::binary::take_string(bytes, 0) {
            Some((s, next)) => if next == bytes.len() {
                Some(s)
            } else {
                None
            },
            None => None,
        }
    }
}

impl ToBytes<Json> for String {
    open spec fn wire(&self) -> Option<Seq<u8>> {
        Some(json_string(self@))
    }

    fn to_bytes(&self) -> (r: Option<Vec<u8>>) {
        let mut out: Vec<u8> = Vec::new();
        crate::json::put_string(&mut out, self.as_str());
        Some(out)
    }
}

impl FromBytes<Json> for String {
    open spec fn parsed(bytes: Seq<u8>) -> Option<Seq<char>> {
        match json_document(bytes) {
            Some(JsonDocumentView::Value(JsonValueView::Text(s))) => Some(s),
            _ => None,
        }
    }

    fn from_bytes(bytes: &[u8]) -> (r: Option<Self>) {
        match crate::json::read_document(bytes) {
            Some(JsonDocument::Value(JsonValue::Text(s))) => Some(s),
            _ => None,
        }
    }
}

impl ToBytes<Borsh> for () {
    open spec fn wire(&self) -> Option<Seq<u8>> {
        Some(Seq::empty())
    }

    fn to_bytes(&self) -> (r: Option<Vec<u8>>) {
        Some(Vec::new())
    }
}

impl FromBytes<Borsh> for () {
    open spec fn parsed(bytes: Seq<u8>) -> Option<()> {
        if bytes.len() == 0 {
            Some(())
        } else {
            None
        }
    }

    fn from_bytes(bytes: &[u8]) -> (r: Option<Self>) {
        if bytes.len() == 0 {
            Some(())
        } else {
            None
        }
    }
}

impl ToBytes<Json> for () {
    open spec fn wire(&self) -> Option<Seq<u8>> {
        Some(json_null())
    }

    fn to_bytes(&self) -> (r: Option<Vec<u8>>) {
        let mut out: Vec<u8> = Vec::new();
        crate::json::put_null(&mut out);
        Some(out)
    }
}

impl FromBytes<Json> for () {
    open spec fn parsed(bytes: Seq<u8>) -> Option<()> {
        match json_document(bytes) {
            Some(JsonDocumentView::Value(JsonValueView::Null)) => Some(()),
            _ => None,
        }
    }

    fn from_bytes(bytes: &[u8]) -> (r: Option<Self>) {
        match crate::json::read_document(bytes) {
            Some(JsonDocument::Value(JsonValue::Null)) => Some(()),
            _ => None,
        }
    }
}

impl ToBytes<Json> for JsonDocument {
    open spec fn wire(&self) -> Option<Seq<u8>> {
        document_text(self@)
    }

    fn to_bytes(&self) -> (r: Option<Vec<u8>>) {
        crate::json::write_document(self)
    }
}

impl FromBytes<Json> for JsonDocument {
    open spec fn parsed(bytes: Seq<u8>) -> Option<JsonDocumentView> {
        json_document(bytes)
    }

    fn from_bytes(bytes: &[u8]) -> (r: Option<Self>) {
        crate::json::read_document(bytes)
    }
}

/// The container of a method's return value. On the wire it is the value
/// it holds and nothing else.
#[derive(Debug, PartialEq, Eq)]
pub struct Return<T>(pub T);

impl<Format, T: ToBytes<Format>> ToBytes<Format> for Return<T> {
    open spec fn wire(&self) -> Option<Seq<u8>> {
        self.0.wire()
    }

    fn to_bytes(&self) -> (r: Option<Vec<u8>>) {
        self.0.to_bytes()
    }
}

/// The return container is transparent: in every format it serializes to
/// exactly what the value in it serializes to.
pub proof fn lemma_return_is_transparent<Format, T: ToBytes<Format>>(value: T)
    ensures
        <Return<T> as ToBytes<Format>>::wire(&Return(value)) == <T as ToBytes<Format>>::wire(
            &value,
        ),
{
}

/// In the binary format a `bool` that was serialized deserializes to
/// itself.
pub proof fn lemma_bool_round_trip_binary(value: bool)
    ensures
        <bool as ToBytes<Borsh>>::wire(&value) matches Some(bytes) && <bool as FromBytes<
            Borsh,
        >>::parsed(bytes) == Some(value),
{
    crate::binary::lemma_read_written_bool(value, Seq::empty());
    assert(bool_bytes(value) + Seq::<u8>::empty() == bool_bytes(value));
}

/// In the binary format a string that was serialized deserializes to
/// itself.
pub proof fn lemma_string_round_trip_binary(value: String)
    ensures
        <String as ToBytes<Borsh>>::wire(&value) matches Some(bytes) ==> <String as FromBytes<
            Borsh,
        >>::parsed(bytes) == Some(value@),
{
    if string_bytes(value@) is Some {
        let bytes = string_bytes(value@).unwrap();
        crate::binary::lemma_read_written_string(value@, Seq::empty());
        assert(bytes + Seq::<u8>::empty() == bytes);
    }
}

} // verus!

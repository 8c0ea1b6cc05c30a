//! The textual format: JSON. Documents are parsed, and strings written, by
//! `serde_json`; what this module adds is the reading of a member by its
//! name and the writing of a document around its strings.

use near_sdk::serde_json::Value;
use vstd::prelude::*;
use vstd::string::StringExecFns;

verus! {

/// A JSON value as far as this library reads it: a string or a boolean in
/// full, of anything else its kind.
#[derive(Debug, PartialEq, Eq)]
pub enum JsonValue {
    Null,
    Bool(bool),
    Number,
    Text(String),
    Array,
    Object,
}

/// What a `JsonValue` holds.
pub enum JsonValueView {
    Null,
    Bool(bool),
    Number,
    Text(Seq<char>),
    Array,
    Object,
}

impl View for JsonValue {
    type V = JsonValueView;

    open spec fn view(&self) -> JsonValueView {
        match *self {
            JsonValue::Null => JsonValueView::Null,
            JsonValue::Bool(b) => JsonValueView::Bool(b),
            JsonValue::Number => JsonValueView::Number,
            JsonValue::Text(s) => JsonValueView::Text(s@),
            JsonValue::Array => JsonValueView::Array,
            JsonValue::Object => JsonValueView::Object,
        }
    }
}

/// A member of a JSON object.
#[derive(Debug, PartialEq, Eq)]
pub struct JsonMember {
    pub key: String,
    pub value: JsonValue,
}

/// What a `JsonMember` holds.
pub struct JsonMemberView {
    pub key: Seq<char>,
    pub value: JsonValueView,
}

impl View for JsonMember {
    type V = JsonMemberView;

    open spec fn view(&self) -> JsonMemberView {
        JsonMemberView { key: self.key@, value: self.value@ }
    }
}

/// A JSON document: an object with its members, or a value of another
/// kind.
#[derive(Debug, PartialEq, Eq)]
pub enum JsonDocument {
    Object(Vec<JsonMember>),
    Value(JsonValue),
}

/// What a `JsonDocument` holds.
pub enum JsonDocumentView {
    Object(Seq<JsonMemberView>),
    Value(JsonValueView),
}

/// What each of `members` holds, in order.
pub open spec fn members_view(members: Seq<JsonMember>) -> Seq<JsonMemberView> {
    members.map_values(|m: JsonMember| m@)
}

impl View for JsonDocument {
    type V = JsonDocumentView;

    open spec fn view(&self) -> JsonDocumentView {
        match *self {
            JsonDocument::Object(members) => JsonDocumentView::Object(members_view(members@)),
            JsonDocument::Value(value) => JsonDocumentView::Value(value@),
        }
    }
}

/// The document that the JSON text `text` holds; `None` where `text` is
/// not one JSON value.
pub uninterp spec fn json_document(text: Seq<u8>) -> Option<JsonDocumentView>;

/// The JSON text of the string `s`, quoted and escaped.
pub uninterp spec fn json_string(s: Seq<char>) -> Seq<u8>;

/// `serde_json::from_slice` at `serde_json::Value`: parses `text` as one
/// JSON value. The members of an object come without their nesting: each is
/// told apart by its kind, and only a string or a boolean keeps what it
/// holds.
#[verifier::external_body]
fn parse_document(text: &[u8]) -> (r: Option<JsonDocument>)
    ensures
        r is Some <==> json_document(text@) is Some,
        r matches Some(document) ==> Some(document@) == json_document(text@),
{
    let kind = |v: Value| match v {
        Value::Null => JsonValue::Null,
        Value::Bool(b) => JsonValue::Bool(b),
        Value::Number(_) => JsonValue::Number,
        Value::String(s) => JsonValue::Text(s),
        Value::Array(_) => JsonValue::Array,
        Value::Object(_) => JsonValue::Object,
    };
    let member = |(key, v): (String, Value)| JsonMember { key, value: kind(v) };
    match near_sdk::serde_json::from_slice::<Value>(text).ok()? {
        Value::Object(m) => Some(JsonDocument::Object(m.into_iter().map(member).collect())),
        v => Some(JsonDocument::Value(kind(v))),
    }
}

/// `serde_json::to_vec` at `str`: the JSON text of `s`. Writing a string
/// does not fail.
#[verifier::external_body]
fn write_string(s: &str) -> (r: Vec<u8>)
    ensures
        r@ == json_string(s@),
{
    near_sdk::serde_json::to_vec(s).unwrap()
}

/// The byte that opens an object.
pub const OPEN_BRACE: u8 = 0x7b;

/// The byte that closes an object.
pub const CLOSE_BRACE: u8 = 0x7d;

/// The byte between a member's name and its value.
pub const COLON: u8 = 0x3a;

/// The byte between two members.
pub const COMMA: u8 = 0x2c;

/// The JSON text of `b`: the word `true` or the word `false`.
pub open spec fn json_bool(b: bool) -> Seq<u8> {
    if b {
        seq![0x74u8, 0x72u8, 0x75u8, 0x65u8]
    } else {
        seq![0x66u8, 0x61u8, 0x6cu8, 0x73u8, 0x65u8]
    }
}

/// The JSON text of the unit value: the word `null`.
pub open spec fn json_null() -> Seq<u8> {
    seq![0x6eu8, 0x75u8, 0x6cu8, 0x6cu8]
}

/// The JSON text of `value`, where all that it holds is known: a number,
/// an array and a nested object have none.
pub open spec fn value_text(value: JsonValueView) -> Option<Seq<u8>> {
    match value {
        JsonValueView::Null => Some(json_null()),
        JsonValueView::Bool(b) => Some(json_bool(b)),
        JsonValueView::Text(s) => Some(json_string(s)),
        _ => None,
    }
}

/// The JSON text of a member: its name, a colon, and the text of its
/// value.
pub open spec fn member_text(member: JsonMemberView) -> Option<Seq<u8>> {
    match value_text(member.value) {
        Some(text) => Some(json_string(member.key) + seq![COLON] + text),
        None => None,
    }
}

/// The texts of `members` with a comma between each two, where each
/// member has a text.
pub open spec fn members_text(members: Seq<JsonMemberView>) -> Option<Seq<u8>>
    decreases members.len(),
{
    if members.len() == 0 {
        Some(Seq::empty())
    } else {
        match (members_text(members.drop_last()), member_text(members.last())) {
            (Some(before), Some(last)) => if members.len() == 1 {
                Some(last)
            } else {
                Some(before + seq![COMMA] + last)
            },
            _ => None,
        }
    }
}

/// The JSON text of `document`, where all that it holds is known.
pub open spec fn document_text(document: JsonDocumentView) -> Option<Seq<u8>> {
    match document {
        JsonDocumentView::Value(value) => value_text(value),
        JsonDocumentView::Object(members) => match members_text(members) {
            Some(text) => Some(seq![OPEN_BRACE] + text + seq![CLOSE_BRACE]),
            None => None,
        },
    }
}

/// The value of the first of `members` named `key`.
pub open spec fn member_value(members: Seq<JsonMemberView>, key: Seq<char>) -> Option<
    JsonValueView,
>
    decreases members.len(),
{
    if members.len() == 0 {
        None
    } else if members[0].key == key {
        Some(members[0].value)
    } else {
        member_value(members.drop_first(), key)
    }
}

/// The string that the member `key` of `members` holds, where there is
/// such a member and it holds a string.
pub open spec fn text_member(members: Seq<JsonMemberView>, key: Seq<char>) -> Option<Seq<char>> {
    match member_value(members, key) {
        Some(JsonValueView::Text(s)) => Some(s),
        _ => None,
    }
}

/// The boolean that the member `key` of `members` holds, where there is
/// such a member and it holds a boolean.
pub open spec fn bool_member(members: Seq<JsonMemberView>, key: Seq<char>) -> Option<bool> {
    match member_value(members, key) {
        Some(JsonValueView::Bool(b)) => Some(b),
        _ => None,
    }
}

/// Parses `text` as one JSON document.
pub fn read_document(text: &[u8]) -> (r: Option<JsonDocument>)
    ensures
        r is Some <==> json_document(text@) is Some,
        r matches Some(document) ==> Some(document@) == json_document(text@),
{
    parse_document(text)
}

/// Finds the first of `members` named `key`.
pub fn find_member<'a>(members: &'a Vec<JsonMember>, key: &str) -> (r: Option<&'a JsonValue>)
    ensures
        r is Some <==> member_value(members_view(members@), key@) is Some,
        r matches Some(value) ==> member_value(members_view(members@), key@) == Some(value@),
{
    let ghost all = members_view(members@);
    let wanted = String::from_str(key);
    let mut i: usize = 0;
    assert(all.skip(0) == all);
    while i < members.len()
        invariant
            i <= members.len(),
            wanted@ == key@,
            all == members_view(members@),
            member_value(all, key@) == member_value(all.skip(i as int), key@),
        decreases members.len() - i,
    {
        assert(all.skip(i as int).drop_first() == all.skip(i as int + 1));
        assert(all.skip(i as int)[0] == members@[i as int]@);
        if members[i].key == wanted {
            return Some(&members[i].value);
        }
        i += 1;
    }
    None
}

/// Reads the string that the member `key` holds.
pub fn read_text_member(members: &Vec<JsonMember>, key: &str) -> (r: Option<String>)
    ensures
        r is Some <==> text_member(members_view(members@), key@) is Some,
        r matches Some(s) ==> text_member(members_view(members@), key@) == Some(s@),
{
    match find_member(members, key) {
        Some(JsonValue::Text(s)) => Some(s.clone()),
        _ => None,
    }
}

/// Reads the boolean that the member `key` holds.
pub fn read_bool_member(members: &Vec<JsonMember>, key: &str) -> (r: Option<bool>)
    ensures
        r == bool_member(members_view(members@), key@),
{
    match find_member(members, key) {
        Some(JsonValue::Bool(b)) => Some(*b),
        _ => None,
    }
}

/// Appends the JSON text of `b`.
pub fn put_bool(out: &mut Vec<u8>, b: bool)
    ensures
        final(out)@ == old(out)@ + json_bool(b),
{
    if b {
        out.push(0x74u8);
        out.push(0x72u8);
        out.push(0x75u8);
        out.push(0x65u8);
    } else {
        out.push(0x66u8);
        out.push(0x61u8);
        out.push(0x6cu8);
        out.push(0x73u8);
        out.push(0x65u8);
    }
}

/// Appends the JSON text of the unit value.
pub fn put_null(out: &mut Vec<u8>)
    ensures
        final(out)@ == old(out)@ + json_null(),
{
    out.push(0x6eu8);
    out.push(0x75u8);
    out.push(0x6cu8);
    out.push(0x6cu8);
}

/// Appends the JSON text of the string `s`.
pub fn put_string(out: &mut Vec<u8>, s: &str)
    ensures
        final(out)@ == old(out)@ + json_string(s@),
{
    let mut text = write_string(s);
    out.append(&mut text);
}

/// Appends the JSON text of `value`, where it has one, and says whether it
/// did.
pub fn put_value(out: &mut Vec<u8>, value: &JsonValue) -> (written: bool)
    ensures
        written <==> value_text(value@) is Some,
        written ==> final(out)@ == old(out)@ + value_text(value@).unwrap(),
        !written ==> final(out)@ == old(out)@,
{
    match value {
        JsonValue::Null => {
            put_null(out);
            true
        },
        JsonValue::Bool(b) => {
            put_bool(out, *b);
            true
        },
        JsonValue::Text(s) => {
            put_string(out, s.as_str());
            true
        },
        _ => false,
    }
}

/// The JSON text of `document`, where it has one.
pub fn write_document(document: &JsonDocument) -> (r: Option<Vec<u8>>)
    ensures
        r is Some <==> document_text(document@) is Some,
        r matches Some(text) ==> Some(text@) == document_text(document@),
{
    let mut out: Vec<u8> = Vec::new();
    match document {
        JsonDocument::Value(value) => {
            if put_value(&mut out, value) {
                Some(out)
            } else {
                None
            }
        },
        JsonDocument::Object(members) => {
            let ghost all = members_view(members@);
            out.push(OPEN_BRACE);
            let mut i: usize = 0;
            while i < members.len()
                invariant
                    i <= members.len(),
                    all == members_view(members@),
                    document@ == JsonDocumentView::Object(all),
                    members_text(all.take(i as int)) is Some,
                    out@ == seq![OPEN_BRACE] + members_text(all.take(i as int)).unwrap(),
                decreases members.len() - i,
            {
                let ghost before = all.take(i as int);
                let ghost after = all.take(i as int + 1);
                assert(after.drop_last() == before);
                assert(after.last() == members@[i as int]@);
                if i > 0 {
                    out.push(COMMA);
                }
                put_string(&mut out, members[i].key.as_str());
                out.push(COLON);
                if !put_value(&mut out, &members[i].value) {
                    proof {
                        assert(all[i as int] == members@[i as int]@);
                        lemma_members_text_needs_each(all, i as int);
                    }
                    return None;
                }
                assert(out@ == seq![OPEN_BRACE] + members_text(after).unwrap());
                i += 1;
            }
            assert(all.take(members.len() as int) == all);
            out.push(CLOSE_BRACE);
            Some(out)
        },
    }
}

/// Members have a text only where each of them has one.
proof fn lemma_members_text_needs_each(members: Seq<JsonMemberView>, i: int)
    requires
        0 <= i < members.len(),
        member_text(members[i]) is None,
    ensures
        members_text(members) is None,
    decreases members.len(),
{
    if i < members.len() - 1 {
        lemma_members_text_needs_each(members.drop_last(), i);
    }
}

} // verus!

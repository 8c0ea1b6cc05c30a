//! The argument type, the return type and the binding of
//! `Message::method_b`.

use crate::binary::{bool_bytes, read_bool, read_string, string_bytes};
use crate::dispatch::{called_in, dispatched, CallContext};
use crate::error::DispatchError;
use crate::json::{
    bool_member, document_text, json_document, text_member, JsonDocument, JsonDocumentView,
    JsonMember, JsonMemberView, JsonValue, JsonValueView,
};
use crate::message::Message;
use crate::wire::{Borsh, FromBytes, Json, ToBytes};
use core::marker::PhantomData;
use vstd::prelude::*;
use vstd::string::StringExecFns;

verus! {

/// The arguments of `method_b`.
#[derive(Debug, PartialEq, Eq)]
pub struct Args {
    pub my_string: String,
    pub my_bool: bool,
}

/// What an `Args` holds.
pub struct ArgsView {
    pub my_string: Seq<char>,
    pub my_bool: bool,
}

impl View for Args {
    type V = ArgsView;

    open spec fn view(&self) -> ArgsView {
        ArgsView { my_string: self.my_string@, my_bool: self.my_bool }
    }
}

/// `method_b` returns a `bool`.
pub type Return = crate::wire::Return<bool>;

/// The binding of `method_b` for the receiver `State`.
pub struct CalledIn<State> {
    _trait_param: (),
    _method_param: (),
    _state_param: PhantomData<State>,
}

/// The JSON document that stands for `args`: an object with one member for
/// each field, named as the field is.
pub open spec fn document(args: ArgsView) -> JsonDocumentView {
    JsonDocumentView::Object(
        seq![
            JsonMemberView { key: "my_string"@, value: JsonValueView::Text(args.my_string) },
            JsonMemberView { key: "my_bool"@, value: JsonValueView::Bool(args.my_bool) },
        ],
    )
}

/// The arguments that `document` stands for: each field from the member of
/// its name. Other members are passed over.
pub open spec fn from_document(document: JsonDocumentView) -> Option<ArgsView> {
    match document {
        JsonDocumentView::Object(members) => match (
            text_member(members, "my_string"@),
            bool_member(members, "my_bool"@),
        ) {
            (Some(my_string), Some(my_bool)) => Some(ArgsView { my_string, my_bool }),
            _ => None,
        },
        _ => None,
    }
}

/// The document that arguments are written as is read as those arguments.
pub proof fn lemma_args_round_trip_document(args: ArgsView)
    ensures
        from_document(document(args)) == Some(args),
{
    reveal_strlit("my_string");
    reveal_strlit("my_bool");
    assert("my_string"@.len() != "my_bool"@.len());
    let members = document(args)->Object_0;
    let rest = members.drop_first();
    assert(rest[0] == members[1]);
    assert(crate::json::member_value(rest, "my_bool"@) == Some(members[1].value));
    assert(crate::json::member_value(members, "my_bool"@) == Some(members[1].value));
    assert(crate::json::member_value(members, "my_string"@) == Some(members[0].value));
}

impl FromBytes<Json> for Args {
    open spec fn parsed(bytes: Seq<u8>) -> Option<ArgsView> {
        match json_document(bytes) {
            Some(document) => from_document(document),
            None => None,
        }
    }

    fn from_bytes(bytes: &[u8]) -> (r: Option<Self>) {
        match crate::json::read_document(bytes) {
            Some(JsonDocument::Object(members)) => {
                let my_string = crate::json::read_text_member(&members, "my_string");
                let my_bool = crate::json::read_bool_member(&members, "my_bool");
                match (my_string, my_bool) {
                    (Some(my_string), Some(my_bool)) => Some(Args { my_string, my_bool }),
                    _ => None,
                }
            },
            _ => None,
        }
    }
}

impl ToBytes<Json> for Args {
    open spec fn wire(&self) -> Option<Seq<u8>> {
        document_text(document(self@))
    }

    fn to_bytes(&self) -> (r: Option<Vec<u8>>) {
        let mut members: Vec<JsonMember> = Vec::new();
        members.push(
            JsonMember {
                key: String::from_str("my_string"),
                value: JsonValue::Text(self.my_string.clone()),
            },
        );
        members.push(
            JsonMember { key: String::from_str("my_bool"), value: JsonValue::Bool(self.my_bool) },
        );
        let written = JsonDocument::Object(members);
        assert(written@ == document(self@)) by {
            assert(crate::json::members_view(members@) == seq![
                JsonMemberView { key: "my_string"@, value: JsonValueView::Text(self.my_string@) },
                JsonMemberView { key: "my_bool"@, value: JsonValueView::Bool(self.my_bool) },
            ]);
        }
        crate::json::write_document(&written)
    }
}

/// The arguments at the front of `bytes`, field after field, and the bytes
/// after them.
pub open spec fn read_args(bytes: Seq<u8>) -> Option<(ArgsView, Seq<u8>)> {
    match read_string(bytes) {
        Some((my_string, rest)) => match read_bool(rest) {
            Some((my_bool, rest)) => Some((ArgsView { my_string, my_bool }, rest)),
            None => None,
        },
        None => None,
    }
}

impl FromBytes<Borsh> for Args {
    open spec fn parsed(bytes: Seq<u8>) -> Option<ArgsView> {
        crate::wire::whole(read_args(bytes))
    }

    fn from_bytes(bytes: &[u8]) -> (r: Option<Self>) {
        assert(bytes@.skip(0) == bytes@);
        match crate::binary::take_string(bytes, 0) {
            Some((my_string, next)) => match crate::binary::take_bool(bytes, next) {
                Some((my_bool, next)) => if next == bytes.len() {
                    Some(Args { my_string, my_bool })
                } else {
                    None
                },
                None => None,
            },
            None => None,
        }
    }
}

impl ToBytes<Borsh> for Args {
    open spec fn wire(&self) -> Option<Seq<u8>> {
        match string_bytes(self.my_string@) {
            Some(text) => Some(text + bool_bytes(self.my_bool)),
            None => None,
        }
    }

    fn to_bytes(&self) -> (r: Option<Vec<u8>>) {
        let mut out: Vec<u8> = Vec::new();
        if crate::binary::put_string(&mut out, self.my_string.as_str()) {
            crate::binary::put_bool(&mut out, self.my_bool);
            Some(out)
        } else {
            None
        }
    }
}

/// In the binary format, arguments that were serialized deserialize to
/// themselves.
pub proof fn lemma_args_round_trip_binary(args: Args)
    ensures
        <Args as ToBytes<Borsh>>::wire(&args) matches Some(bytes) ==> <Args as FromBytes<
            Borsh,
        >>::parsed(bytes) == Some(args@),
{
    if string_bytes(args.my_string@) is Some {
        let flag = bool_bytes(args.my_bool);
        crate::binary::lemma_read_written_string(args.my_string@, flag);
        crate::binary::lemma_read_written_bool(args.my_bool, Seq::empty());
        assert(flag + Seq::<u8>::empty() == flag);
    }
}

/// What a call of `method_b` through its binding may do: what the method
/// may do, and the value that it returned is the one to emit.
pub open spec fn called<State: Message>(
    pre: State,
    args: ArgsView,
    post: State,
    ret: Option<Return>,
) -> bool {
    ret matches Some(value) && State::method_b_post(
        pre,
        args.my_string,
        args.my_bool,
        post,
        value.0,
    )
}

impl<ArgsFormat, ReturnFormat, State: Message> crate::dispatch::CalledIn<
    ArgsFormat,
    ReturnFormat,
> for CalledIn<State> where Args: FromBytes<ArgsFormat>, Return: ToBytes<ReturnFormat> {
    type State = State;

    type Args = Args;

    type Return = Return;

    open spec fn method_post(pre: State, args: ArgsView, post: State, ret: Option<Return>) -> bool {
        called(pre, args, post, ret)
    }

    fn method_wrapper(state: &mut State, args: Args) -> (ret: Option<Return>) {
        let res = state.method_b(args.my_string, args.my_bool);
        Some(crate::wire::Return(res))
    }
}

impl<State: Message> CalledIn<State> {
    /// Serves one call of the method in the context `ctx`, in the textual
    /// format.
    pub fn exposed_called_in(ctx: &mut CallContext<State>) -> (r: Result<(), DispatchError>)
        ensures
            dispatched::<Json, Json, Self>(*old(ctx), *final(ctx), r),
    {
        called_in::<Json, Json, Self>(ctx)
    }
}

} // verus!

//! The argument type, the return type and the binding of
//! `Message::method_a`.

use crate::binary::{read_string, string_bytes};
use crate::dispatch::{called_in, dispatched, CallContext};
use crate::error::DispatchError;
use crate::json::{
    document_text, json_document, text_member, JsonDocument, JsonDocumentView, JsonMember,
    JsonMemberView, JsonValue, JsonValueView,
};
use crate::message::Message;
use crate::wire::{whole, Borsh, FromBytes, Json, ToBytes};
use core::marker::PhantomData;
use vstd::prelude::*;
use vstd::string::StringExecFns;

verus! {

/// The arguments of `method_a`.
#[derive(Debug, PartialEq, Eq)]
pub struct Args {
    pub my_string: String,
}

/// What an `Args` holds.
pub struct ArgsView {
    pub my_string: Seq<char>,
}

impl View for Args {
    type V = ArgsView;

    open spec fn view(&self) -> ArgsView {
        ArgsView { my_string: self.my_string@ }
    }
}

/// `method_a` returns nothing.
pub type Return = crate::wire::Return<()>;

/// The binding of `method_a` for the receiver `State`.
pub struct CalledIn<State> {
    _trait_param: (),
    _method_param: (),
    _state_param: PhantomData<State>,
}

/// The JSON document that stands for `args`: an object with one member for
/// each field, named as the field is.
pub open spec fn document(args: ArgsView) -> JsonDocumentView {
    JsonDocumentView::Object(
        seq![
            JsonMemberView { key: "my_string"@, value: JsonValueView::Text(args.my_string) },
        ],
    )
}

/// The arguments that `document` stands for: each field from the member of
/// its name. Other members are passed over.
pub open spec fn from_document(document: JsonDocumentView) -> Option<ArgsView> {
    match document {
        JsonDocumentView::Object(members) => match text_member(members, "my_string"@) {
            Some(my_string) => Some(ArgsView { my_string }),
            None => None,
        },
        _ => None,
    }
}

/// The document that arguments are written as is read as those arguments.
pub proof fn lemma_args_round_trip_document(args: ArgsView)
    ensures
        from_document(document(args)) == Some(args),
{
    reveal_with_fuel(crate::json::member_value, 2);
}

impl FromBytes<Json> for Args {
    open spec fn parsed(bytes: Seq<u8>) -> Option<ArgsView> {
        match json_document(bytes) {
            Some(document) => from_document(document),
            None => None,
        }
    }

    fn from_bytes(bytes: &[u8]) -> (r: Option<Self>) {
        match crate::json::read_document(bytes) {
            Some(JsonDocument::Object(members)) => {
                match crate::json::read_text_member(&members, "my_string") {
                    Some(my_string) => Some(Args { my_string }),
                    None => None,
                }
            },
            _ => None,
        }
    }
}

impl ToBytes<Json> for Args {
    open spec fn wire(&self) -> Option<Seq<u8>> {
        document_text(document(self@))
    }

    fn to_bytes(&self) -> (r: Option<Vec<u8>>) {
        let mut members: Vec<JsonMember> = Vec::new();
        members.push(
            JsonMember {
                key: String::from_str("my_string"),
                value: JsonValue::Text(self.my_string.clone()),
            },
        );
        let written = JsonDocument::Object(members);
        assert(written@ == document(self@)) by {
            assert(crate::json::members_view(members@) == seq![
                JsonMemberView { key: "my_string"@, value: JsonValueView::Text(self.my_string@) },
            ]);
        }
        crate::json::write_document(&written)
    }
}

impl FromBytes<Borsh> for Args {
    open spec fn parsed(bytes: Seq<u8>) -> Option<ArgsView> {
        match whole(read_string(bytes)) {
            Some(my_string) => Some(ArgsView { my_string }),
            None => None,
        }
    }

    fn from_bytes(bytes: &[u8]) -> (r: Option<Self>) {
        assert(bytes@.skip(0) == bytes@);
        match crate::binary::take_string(bytes, 0) {
            Some((my_string, next)) => if next == bytes.len() {
                Some(Args { my_string })
            } else {
                None
            },
            None => None,
        }
    }
}

impl ToBytes<Borsh> for Args {
    open spec fn wire(&self) -> Option<Seq<u8>> {
        string_bytes(self.my_string@)
    }

    fn to_bytes(&self) -> (r: Option<Vec<u8>>) {
        let mut out: Vec<u8> = Vec::new();
        if crate::binary::put_string(&mut out, self.my_string.as_str()) {
            Some(out)
        } else {
            None
        }
    }
}

/// In the binary format, arguments that were serialized deserialize to
/// themselves.
pub proof fn lemma_args_round_trip_binary(args: Args)
    ensures
        <Args as ToBytes<Borsh>>::wire(&args) matches Some(bytes) ==> <Args as FromBytes<
            Borsh,
        >>::parsed(bytes) == Some(args@),
{
    if string_bytes(args.my_string@) is Some {
        let bytes = string_bytes(args.my_string@).unwrap();
        crate::binary::lemma_read_written_string(args.my_string@, Seq::empty());
        assert(bytes + Seq::<u8>::empty() == bytes);
    }
}

/// What a call of `method_a` through its binding may do: what the method
/// may do, and no value is returned.
pub open spec fn called<State: Message>(
    pre: State,
    args: ArgsView,
    post: State,
    ret: Option<Return>,
) -> bool {
    State::method_a_post(pre, args.my_string, post) && ret is None
}

impl<ArgsFormat, ReturnFormat, State: Message> crate::dispatch::CalledIn<
    ArgsFormat,
    ReturnFormat,
> for CalledIn<State> where Args: FromBytes<ArgsFormat>, Return: ToBytes<ReturnFormat> {
    type State = State;

    type Args = Args;

    type Return = Return;

    open spec fn method_post(pre: State, args: ArgsView, post: State, ret: Option<Return>) -> bool {
        called(pre, args, post, ret)
    }

    fn method_wrapper(state: &mut State, args: Args) -> (ret: Option<Return>) {
        state.method_a(args.my_string);
        None
    }
}

impl<State: Message> CalledIn<State> {
    /// Serves one call of the method in the context `ctx`, in the textual
    /// format.
    pub fn exposed_called_in(ctx: &mut CallContext<State>) -> (r: Result<(), DispatchError>)
        ensures
            dispatched::<Json, Json, Self>(*old(ctx), *final(ctx), r),
    {
        called_in::<Json, Json, Self>(ctx)
    }
}

} // verus!

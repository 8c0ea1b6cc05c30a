//! The dispatch runtime: the contract between a binding and its entry
//! point, and the one operation that serves a call.
//!
//! A call is served in this order: the input is read and deserialized into
//! the arguments; the state is loaded; the method runs; its value, if it
//! gave one, is serialized and written as the call's result. A failure at
//! any step aborts the call before anything is written.

use crate::error::DispatchError;
use crate::wire::{FromBytes, ToBytes};
use vstd::prelude::*;

verus! {

/// One thing that was asked of the host in the course of a call.
#[derive(Clone, Copy, Debug, PartialEq, Eq, Structural)]
pub enum HostCall {
    /// The input buffer was read.
    ReadInput,
    /// The state was loaded.
    LoadState,
    /// The output buffer was written.
    WriteOutput,
    /// The call was aborted.
    Abort(DispatchError),
}

/// What the host provides for one call, and what it gets back: the
/// context that is threaded through an entry point.
pub struct CallContext<State> {
    /// The input buffer of the call.
    pub input: Vec<u8>,
    /// Before the call, the state that the host has to load, if it has
    /// one; after a call that succeeded, the state that the host persists.
    pub state: Option<State>,
    /// The output buffer of the call; `None` as long as nothing was
    /// written to it.
    pub output: Option<Vec<u8>>,
    /// What was asked of the host so far, in order.
    pub trace: Vec<HostCall>,
}

impl<State> CallContext<State> {
    /// The context of a call that has not begun.
    pub fn new(input: Vec<u8>, state: Option<State>) -> (r: Self)
        ensures
            r.input == input,
            r.state == state,
            r.output is None,
            r.trace@ == Seq::<HostCall>::empty(),
    {
        CallContext { input, state, output: None, trace: Vec::new() }
    }
}

/// The binding of one interface method: the types of its state, its
/// arguments and its return value, each with its format, and the wrapper
/// that maps the arguments onto the call of the method.
pub trait CalledIn<ArgsFormat, ReturnFormat>: Sized {
    /// The receiver of the method.
    type State;

    /// The arguments of the method.
    type Args: FromBytes<ArgsFormat>;

    /// The value that the method returns.
    type Return: ToBytes<ReturnFormat>;

    /// What the method may do: from the state `pre` and the arguments
    /// `args` it may leave the state `post` and return `ret`. A binding
    /// that says nothing allows anything.
    open spec fn method_post(
        pre: Self::State,
        args: <Self::Args as View>::V,
        post: Self::State,
        ret: Option<Self::Return>,
    ) -> bool {
        true
    }

    /// Calls the method with the fields of `args`. `None` says that there
    /// is no value to emit, `Some` holds the value to serialize.
    fn method_wrapper(state: &mut Self::State, args: Self::Args) -> (ret: Option<Self::Return>)
        ensures
            Self::method_post(*old(state), args@, *final(state), ret),
    ;
}

/// The call was aborted for `why` after `calls`: nothing was written.
pub open spec fn aborted<State>(
    pre: CallContext<State>,
    post: CallContext<State>,
    r: Result<(), DispatchError>,
    calls: Seq<HostCall>,
    why: DispatchError,
) -> bool {
    &&& r == Err::<(), DispatchError>(why)
    &&& post.output == pre.output
    &&& post.trace@ == pre.trace@ + calls + seq![HostCall::Abort(why)]
}

/// What is handed to the host for the value `ret` that the wrapper
/// returned: nothing where there is no value, else the payload of the
/// value, or the failure to serialize it.
pub open spec fn return_payload<Format, Return: ToBytes<Format>>(ret: Option<Return>) -> Result<
    Option<Seq<u8>>,
    DispatchError,
> {
    match ret {
        None => Ok(None),
        Some(value) => match value.wire() {
            Some(bytes) => Ok(Some(bytes)),
            None => Err(DispatchError::ReturnSerializationFailed),
        },
    }
}

/// `r` hands over `payload`: the same bytes, or the same failure.
pub open spec fn hands_over(
    r: Result<Option<Vec<u8>>, DispatchError>,
    payload: Result<Option<Seq<u8>>, DispatchError>,
) -> bool {
    match payload {
        Ok(None) => r matches Ok(None),
        Ok(Some(bytes)) => r matches Ok(Some(written)) && written@ == bytes,
        Err(why) => r matches Err(e) && e == why,
    }
}

/// The method ran from the state `pre` with `args`, left the state `post`
/// and returned `ret`, and `r` hands over what `ret` serializes to.
pub open spec fn ran<ArgsFormat, ReturnFormat, B: CalledIn<ArgsFormat, ReturnFormat>>(
    pre: B::State,
    args: <B::Args as View>::V,
    post: B::State,
    ret: Option<B::Return>,
    r: Result<Option<Vec<u8>>, DispatchError>,
) -> bool {
    &&& B::method_post(pre, args, post, ret)
    &&& hands_over(r, return_payload::<ReturnFormat, B::Return>(ret))
}

/// The call went on after the method left the state `next` and returned
/// `ret`.
pub open spec fn concluded<Format, State, Return: ToBytes<Format>>(
    pre: CallContext<State>,
    post: CallContext<State>,
    r: Result<(), DispatchError>,
    next: State,
    ret: Option<Return>,
) -> bool {
    match return_payload::<Format, Return>(ret) {
        Ok(None) => {
            &&& r is Ok
            &&& post.state == Some(next)
            &&& post.output == pre.output
            &&& post.trace@ == pre.trace@ + seq![HostCall::ReadInput, HostCall::LoadState]
        },
        Ok(Some(bytes)) => {
            &&& r is Ok
            &&& post.state == Some(next)
            &&& post.output matches Some(written) && written@ == bytes
            &&& post.trace@ == pre.trace@ + seq![
                HostCall::ReadInput,
                HostCall::LoadState,
                HostCall::WriteOutput,
            ]
        },
        Err(why) => {
            &&& aborted(pre, post, r, seq![HostCall::ReadInput, HostCall::LoadState], why)
            &&& post.state is None
        },
    }
}

/// One call of the method that `B` binds was served: `pre` is the context
/// before the call, `post` the context after it, `r` what the entry point
/// reports.
pub open spec fn dispatched<ArgsFormat, ReturnFormat, B: CalledIn<ArgsFormat, ReturnFormat>>(
    pre: CallContext<B::State>,
    post: CallContext<B::State>,
    r: Result<(), DispatchError>,
) -> bool {
    &&& post.input == pre.input
    &&& match B::Args::parsed(pre.input@) {
        None => {
            &&& aborted(
                pre,
                post,
                r,
                seq![HostCall::ReadInput],
                DispatchError::ArgsDeserializationFailed,
            )
            &&& post.state == pre.state
        },
        Some(args) => match pre.state {
            None => {
                &&& aborted(
                    pre,
                    post,
                    r,
                    seq![HostCall::ReadInput, HostCall::LoadState],
                    DispatchError::StateLoadFailed,
                )
                &&& post.state is None
            },
            Some(state) => exists|next: B::State, ret: Option<B::Return>|
                {
                    &&& #[trigger] B::method_post(state, args, next, ret)
                    &&& concluded::<ReturnFormat, B::State, B::Return>(pre, post, r, next, ret)
                },
        },
    }
}

/// What was asked of the host in the course of the call that led from
/// `pre` to `post`.
pub open spec fn calls_of<State>(pre: CallContext<State>, post: CallContext<State>) -> Seq<
    HostCall,
> {
    post.trace@.skip(pre.trace@.len() as int)
}

/// Input that does not parse as the arguments of the method aborts the
/// call at once: the state is not loaded and nothing is written.
pub proof fn lemma_malformed_input_aborts_first<
    ArgsFormat,
    ReturnFormat,
    B: CalledIn<ArgsFormat, ReturnFormat>,
>(pre: CallContext<B::State>, post: CallContext<B::State>, r: Result<(), DispatchError>)
    requires
        dispatched::<ArgsFormat, ReturnFormat, B>(pre, post, r),
        B::Args::parsed(pre.input@) is None,
    ensures
        r == Err::<(), DispatchError>(DispatchError::ArgsDeserializationFailed),
        post.state == pre.state,
        post.output == pre.output,
        !calls_of(pre, post).contains(HostCall::LoadState),
        !calls_of(pre, post).contains(HostCall::WriteOutput),
{
    let calls = seq![
        HostCall::ReadInput,
        HostCall::Abort(DispatchError::ArgsDeserializationFailed),
    ];
    assert(calls_of(pre, post) == calls);
}

/// Where the wrapper of the method returns no value, the call writes
/// nothing: the output buffer is as it was.
pub proof fn lemma_no_value_writes_nothing<
    ArgsFormat,
    ReturnFormat,
    B: CalledIn<ArgsFormat, ReturnFormat>,
>(pre: CallContext<B::State>, post: CallContext<B::State>, r: Result<(), DispatchError>)
    requires
        dispatched::<ArgsFormat, ReturnFormat, B>(pre, post, r),
        forall|
            state: B::State,
            args: <B::Args as View>::V,
            next: B::State,
            ret: Option<B::Return>,
        | #[trigger]
            B::method_post(state, args, next, ret) ==> ret is None,
    ensures
        post.output == pre.output,
        !calls_of(pre, post).contains(HostCall::WriteOutput),
{
    match B::Args::parsed(pre.input@) {
        None => {
            assert(calls_of(pre, post) == seq![
                HostCall::ReadInput,
                HostCall::Abort(DispatchError::ArgsDeserializationFailed),
            ]);
        },
        Some(args) => match pre.state {
            None => {
                assert(calls_of(pre, post) == seq![
                    HostCall::ReadInput,
                    HostCall::LoadState,
                    HostCall::Abort(DispatchError::StateLoadFailed),
                ]);
            },
            Some(state) => {
                assert(calls_of(pre, post) == seq![HostCall::ReadInput, HostCall::LoadState]);
            },
        },
    }
}

/// Where the wrapper of the method returns the value `value`, the call
/// writes exactly what `value` serializes to, or is aborted where `value`
/// cannot be serialized.
pub proof fn lemma_value_is_written<
    ArgsFormat,
    ReturnFormat,
    B: CalledIn<ArgsFormat, ReturnFormat>,
>(
    pre: CallContext<B::State>,
    post: CallContext<B::State>,
    r: Result<(), DispatchError>,
    value: B::Return,
)
    requires
        dispatched::<ArgsFormat, ReturnFormat, B>(pre, post, r),
        B::Args::parsed(pre.input@) is Some,
        pre.state is Some,
        forall|next: B::State, ret: Option<B::Return>| #[trigger]
            B::method_post(pre.state->0, B::Args::parsed(pre.input@)->0, next, ret) ==> ret
                == Some(value),
    ensures
        match value.wire() {
            Some(bytes) => {
                &&& r is Ok
                &&& post.output matches Some(written) && written@ == bytes
            },
            None => {
                &&& r == Err::<(), DispatchError>(DispatchError::ReturnSerializationFailed)
                &&& post.output == pre.output
            },
        },
{
}

/// Serializes what the wrapper returned. Where it returned no value,
/// there is nothing to write; where it returned one, its payload is what
/// is written.
pub fn encode_return<Format, Return: ToBytes<Format>>(ret: &Option<Return>) -> (r: Result<
    Option<Vec<u8>>,
    DispatchError,
>)
    ensures
        hands_over(r, return_payload::<Format, Return>(*ret)),
{
    match ret {
        None => Ok(None),
        Some(value) => match value.to_bytes() {
            Some(bytes) => Ok(Some(bytes)),
            None => Err(DispatchError::ReturnSerializationFailed),
        },
    }
}

/// What the host is to do once it has handed over the input.
pub enum AfterInput<Args> {
    /// Load the state, and hand it over together with these arguments.
    LoadState(Args),
    /// Abort the call.
    Abort(DispatchError),
}

/// What the host is to do once it has handed over the state.
pub enum AfterState<State> {
    /// Write `output`, where there is one, as the result of the call, and
    /// persist `state`.
    Complete { state: State, output: Option<Vec<u8>> },
    /// Abort the call.
    Abort(DispatchError),
}

/// What follows from `r`, which the method handed over when it left the
/// state `post`.
pub open spec fn following<State>(
    post: State,
    r: Result<Option<Vec<u8>>, DispatchError>,
) -> AfterState<State> {
    match r {
        Ok(output) => AfterState::Complete { state: post, output },
        Err(why) => AfterState::Abort(why),
    }
}

/// The step after the input was read: the arguments are deserialized, and
/// the state is asked for only where they were.
pub fn on_input<ArgsFormat, ReturnFormat, B: CalledIn<ArgsFormat, ReturnFormat>>(
    input: &[u8],
) -> (next: AfterInput<B::Args>)
    ensures
        match B::Args::parsed(input@) {
            Some(args) => next matches AfterInput::LoadState(read) && read@ == args,
            None => next matches AfterInput::Abort(why) && why
                == DispatchError::ArgsDeserializationFailed,
        },
{
    match B::Args::from_bytes(input) {
        Some(args) => AfterInput::LoadState(args),
        None => AfterInput::Abort(DispatchError::ArgsDeserializationFailed),
    }
}

/// The step after the state was loaded: where there is a state, the
/// method runs on it and what it returned is serialized.
pub fn on_state<ArgsFormat, ReturnFormat, B: CalledIn<ArgsFormat, ReturnFormat>>(
    args: B::Args,
    state: Option<B::State>,
) -> (next: AfterState<B::State>)
    ensures
        match state {
            Some(loaded) => exists|
                post: B::State,
                ret: Option<B::Return>,
                r: Result<Option<Vec<u8>>, DispatchError>,
            |
                {
                    &&& #[trigger] ran::<ArgsFormat, ReturnFormat, B>(loaded, args@, post, ret, r)
                    &&& next == following(post, r)
                },
            None => next matches AfterState::Abort(why) && why == DispatchError::StateLoadFailed,
        },
{
    match state {
        Some(state) => {
            let ghost loaded = state;
            let ghost arguments = args@;
            let mut state = state;
            let ret = B::method_wrapper(&mut state, args);
            let r = encode_return::<ReturnFormat, B::Return>(&ret);
            assert(ran::<ArgsFormat, ReturnFormat, B>(loaded, arguments, state, ret, r));
            match r {
                Ok(output) => AfterState::Complete { state, output },
                Err(why) => AfterState::Abort(why),
            }
        },
        None => AfterState::Abort(DispatchError::StateLoadFailed),
    }
}

/// Serves one call of the method that `B` binds, in the context `ctx`.
///
/// Input that does not parse as the arguments aborts the call before the
/// state is loaded. A method that returns no value leaves the output
/// buffer as it was; one that returns a value has exactly the payload of
/// that value written. An aborted call has written nothing, and hands no
/// state back to be persisted once the state was loaded.
pub fn called_in<ArgsFormat, ReturnFormat, B: CalledIn<ArgsFormat, ReturnFormat>>(
    ctx: &mut CallContext<B::State>,
) -> (r: Result<(), DispatchError>)
    ensures
        dispatched::<ArgsFormat, ReturnFormat, B>(*old(ctx), *final(ctx), r),
{
    ctx.trace.push(HostCall::ReadInput);
    let args = match on_input::<ArgsFormat, ReturnFormat, B>(ctx.input.as_slice()) {
        AfterInput::LoadState(args) => args,
        AfterInput::Abort(why) => {
            ctx.trace.push(HostCall::Abort(why));
            assert(ctx.trace@ == old(ctx).trace@ + seq![HostCall::ReadInput] + seq![
                HostCall::Abort(why),
            ]);
            return Err(why);
        },
    };
    ctx.trace.push(HostCall::LoadState);
    assert(ctx.trace@ == old(ctx).trace@ + seq![HostCall::ReadInput, HostCall::LoadState]);
    let ghost arguments = args@;
    let next = on_state::<ArgsFormat, ReturnFormat, B>(args, ctx.state.take());
    proof {
        if old(ctx).state is Some {
            let loaded = old(ctx).state->0;
            let (post, ret, handed) = choose|
                post: B::State,
                ret: Option<B::Return>,
                handed: Result<Option<Vec<u8>>, DispatchError>,
            |
                {
                    &&& #[trigger] ran::<ArgsFormat, ReturnFormat, B>(
                        loaded,
                        arguments,
                        post,
                        ret,
                        handed,
                    )
                    &&& next == following(post, handed)
                };
            assert(B::method_post(loaded, arguments, post, ret));
        }
    }
    match next {
        AfterState::Complete { state, output } => {
            match output {
                Some(bytes) => {
                    ctx.trace.push(HostCall::WriteOutput);
                    assert(ctx.trace@ == old(ctx).trace@ + seq![
                        HostCall::ReadInput,
                        HostCall::LoadState,
                        HostCall::WriteOutput,
                    ]);
                    ctx.output = Some(bytes);
                },
                None => {},
            }
            ctx.state = Some(state);
            Ok(())
        },
        AfterState::Abort(why) => {
            ctx.trace.push(HostCall::Abort(why));
            assert(ctx.trace@ == old(ctx).trace@ + seq![HostCall::ReadInput, HostCall::LoadState]
                + seq![HostCall::Abort(why)]);
            Err(why)
        },
    }
}

} // verus!

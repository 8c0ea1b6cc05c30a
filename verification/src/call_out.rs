//! The boundary towards a remote interface: the payload of an outgoing
//! call, and the value that comes back. How the call is sent and when it
//! completes is the transport's concern.

use crate::wire::{FromBytes, ToBytes};
use vstd::prelude::*;
use vstd::string::StringExecFns;

verus! {

/// A call of a remote method, ready to be sent.
#[derive(Debug, PartialEq, Eq)]
pub struct OutboundCall {
    /// The method that is called.
    pub target: String,
    /// The serialized arguments.
    pub payload: Vec<u8>,
}

/// The remote call gave no value of the expected type.
#[derive(Clone, Copy, Debug, PartialEq, Eq, Structural)]
pub struct CallFailed;

/// Builds the call of the remote method `method_name` with `args`,
/// serialized in `Format`. There is no call where the arguments have no
/// payload in that format.
pub fn build_call<Format, Args: ToBytes<Format>>(method_name: &str, args: &Args) -> (r: Option<
    OutboundCall,
>)
    ensures
        r is Some <==> args.wire() is Some,
        r matches Some(call) ==> call.target@ == method_name@ && Some(call.payload@) == args.wire(),
{
    match args.to_bytes() {
        Some(payload) => Some(OutboundCall { target: String::from_str(method_name), payload }),
        None => None,
    }
}

/// Reads the value that a remote call returned from the payload that came
/// back.
pub fn parse_result<Format, Return: FromBytes<Format>>(bytes: &[u8]) -> (r: Result<
    Return,
    CallFailed,
>)
    ensures
        r is Ok <==> Return::parsed(bytes@) is Some,
        r matches Ok(value) ==> Some(value@) == Return::parsed(bytes@),
{
    match Return::from_bytes(bytes) {
        Some(value) => Ok(value),
        None => Err(CallFailed),
    }
}

} // verus!

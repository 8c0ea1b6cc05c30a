//! Interface stub compiler: from a description of a callable interface to the
//! argument, return and binding types of each method, and the runtime contract
//! that ties such a binding to an externally callable entry point.

pub mod artifacts;
pub mod binary;
pub mod call_out;
pub mod descriptor;
pub mod dispatch;
pub mod error;
pub mod generator;
pub mod generics;
pub mod json;
pub mod message;
pub mod message_concrete;
pub mod wire;

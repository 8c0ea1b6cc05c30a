//! The failures of generation and of dispatch.

use vstd::prelude::*;

verus! {

/// Why no artifacts were generated for a method.
///
/// A generation failure concerns one method only and leaves nothing behind
/// for it.
#[derive(Clone, Copy, Debug, PartialEq, Eq, Structural)]
pub enum GenerationError {
    /// Two generic parameters of the trait and the method share a name.
    DuplicateParameterName,
    /// An argument is bound by a pattern that cannot become a field.
    UnsupportedArgumentPattern,
    /// The method names a serialization format that is not known.
    MissingSerializerFormat,
}

/// Why a call was aborted.
///
/// An aborted call has written nothing to the output buffer.
#[derive(Clone, Copy, Debug, PartialEq, Eq, Structural)]
pub enum DispatchError {
    /// The input does not parse as the arguments of the method.
    ArgsDeserializationFailed,
    /// The value that the method returned cannot be serialized.
    ReturnSerializationFailed,
    /// The host has no state to load.
    StateLoadFailed,
}

} // verus!

//! Error types of the note subsystem. All failures in this library are
//! structural validation failures raised synchronously at construction or
//! deserialization time; nothing is retried and nothing is silently defaulted.

use vstd::prelude::*;

verus! {

/// Failure of a structural validity check while constructing a note or one of
/// its parts.
#[derive(Clone, Copy, Debug, PartialEq, Eq, Structural)]
pub enum NoteError {
    /// The input list passed to `NoteInputs::new` exceeds the protocol bound.
    TooManyInputs,
    /// The asset list passed to `NoteAssets::new` exceeds the protocol bound.
    TooManyAssets,
    /// The asset list passed to `NoteAssets::new` holds the same asset word twice.
    DuplicateAsset,
    /// A value that must be a canonical field element is not below the field
    /// modulus.
    NotAFieldElement,
    /// The compiled script code is too long for the wire format's 32-bit
    /// length prefix.
    ScriptTooLong,
    /// A network-execution tag was requested for an account whose state is not
    /// tracked on chain.
    NetworkAccountNotOnChain,
    /// The tag's high bits restrict the note to public visibility, but a
    /// non-public note type was requested.
    PublicOnlyTag,
}

/// Failure while decoding a serialized value.
#[derive(Clone, Copy, Debug, PartialEq, Eq, Structural)]
pub enum DeserializationError {
    /// The byte stream ended before the value was complete.
    UnexpectedEnd,
    /// A field holds a value outside its admissible range; the offending value
    /// is carried for diagnostics.
    InvalidValue(u64),
    /// Bytes were left over after the value was complete.
    TrailingBytes,
}

/// Failure of a signature request against an authenticator.
#[derive(Clone, Copy, Debug, PartialEq, Eq, Structural)]
pub enum AuthenticationError {
    /// The requested public key is not among the authenticator's keys.
    UnknownKey,
    /// The authenticator declined to sign (the rejecting authenticator always
    /// answers this way).
    RejectedSignature,
}

} // verus!

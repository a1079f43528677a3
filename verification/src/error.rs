//! The failures of a call. Each belongs to one request; none of them ends a
//! channel or a server.

use crate::compression::CompressionError;
use vstd::prelude::*;

verus! {

/// What kind of failure a server reports.
#[derive(Clone, Copy, Debug, PartialEq, Eq, Hash, Structural)]
pub enum ErrorKind {
    /// What the request names does not exist.
    NotFound,
    /// The caller may not do what it asked for.
    PermissionDenied,
    /// The request holds something the operation cannot take.
    InvalidInput,
    /// The request could not be read.
    InvalidData,
    /// The operation ran out of time.
    TimedOut,
    /// Anything else.
    Other,
}

/// A failure that a request hook or an operation reports. It reaches the
/// caller as it was made.
#[derive(Clone, Debug, PartialEq, Eq)]
pub struct ServerError {
    /// The kind of failure.
    pub kind: ErrorKind,
    /// What went wrong, in words.
    pub detail: String,
}

/// Why a call did not yield a response from the operation.
#[derive(Clone, Debug, PartialEq, Eq)]
pub enum RpcError {
    /// The connection failed.
    Transport,
    /// A message could not be read; the messages after it are not affected.
    Serialization,
    /// A message was compressed with an algorithm that is not known here.
    UnsupportedAlgorithm(u8),
    /// The channel had been closed before the message was sent.
    ChannelClosed,
    /// The deadline passed before the operation was done.
    DeadlineExceeded,
    /// A request hook or the operation itself refused.
    Server(ServerError),
}

/// The failure of a call in which a failure of the compression layer ends:
/// an unknown algorithm keeps its tag, and whatever else went wrong with the
/// bytes of a message counts as a failure to serialize.
pub open spec fn compression_failure(error: CompressionError) -> RpcError {
    match error {
        CompressionError::UnsupportedAlgorithm(tag) => RpcError::UnsupportedAlgorithm(tag),
        CompressionError::Malformed => RpcError::Serialization,
        CompressionError::Compressor => RpcError::Serialization,
    }
}

impl RpcError {
    /// The failure of a call in which a failure of the compression layer
    /// ends.
    pub fn from_compression(error: CompressionError) -> (failure: RpcError)
        ensures
            failure == compression_failure(error),
    {
        match error {
            CompressionError::UnsupportedAlgorithm(tag) => RpcError::UnsupportedAlgorithm(tag),
            CompressionError::Malformed => RpcError::Serialization,
            CompressionError::Compressor => RpcError::Serialization,
        }
    }
}

impl ServerError {
    /// A failure of the kind `kind` with the description `detail`.
    pub fn new(kind: ErrorKind, detail: String) -> (error: Self)
        ensures
            error.kind == kind,
            error.detail == detail,
    {
        ServerError { kind, detail }
    }
}

} // verus!

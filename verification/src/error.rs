//! The task-level error taxonomy, and the lower-layer error kinds that feed
//! into it.  Every fatal outcome of a task run is one of these.

use vstd::prelude::*;

verus! {

/// Failure of the link/transport layer beneath the engine.
#[derive(Copy, Clone, PartialEq, Eq, Structural, Debug)]
pub enum LinkError {
    /// The underlying I/O path failed.
    Io,
    /// A link frame could not be assembled from the byte stream.
    BadFrame,
}

/// Failure to decode a response header or an object payload region.
#[derive(Copy, Clone, PartialEq, Eq, Structural, Debug)]
pub enum ParseError {
    /// Fewer bytes remained than the field or object run requires.
    InsufficientBytes,
    /// The fragment's function code is not a response function.
    UnexpectedFunction,
    /// An octet-data object declared a zero-length variation.
    ZeroLengthOctetData,
}

/// The task's own handler rejected the shape or content of a response that
/// was otherwise well-formed.
#[derive(Copy, Clone, PartialEq, Eq, Structural, Debug)]
pub enum ResponseError {
    /// The response carried object headers the task did not expect.
    UnexpectedObjectHeaders,
}

/// The terminal failure of one task run.
#[derive(Copy, Clone, PartialEq, Eq, Structural, Debug)]
pub enum TaskError {
    /// A lower-layer read or frame-assembly failure.
    Lower(LinkError),
    /// A successfully received response whose content could not be decoded.
    MalformedResponse(ParseError),
    /// The task's handler rejected the response.
    BadResponse(ResponseError),
    /// A non-FIR fragment arrived before any FIR fragment was accepted.
    NeverReceivedFir,
    /// A FIR fragment arrived after a fragment was already accepted.
    UnexpectedFir,
    /// The echoed sequence number does not match the last issued value.
    BadSequence,
    /// A non-read response spanned more than one fragment.
    MultiFragmentResponse,
    /// No fragment arrived before the per-fragment deadline.
    ResponseTimeout,
    /// A request or confirmation could not be transmitted.
    WriteError,
}

impl From<LinkError> for TaskError {
    fn from(err: LinkError) -> (r: Self) {
        TaskError::Lower(err)
    }
}

impl vstd::std_specs::convert::FromSpecImpl<LinkError> for TaskError {
    open spec fn obeys_from_spec() -> bool {
        true
    }

    open spec fn from_spec(err: LinkError) -> Self {
        TaskError::Lower(err)
    }
}

impl From<ParseError> for TaskError {
    fn from(err: ParseError) -> (r: Self) {
        TaskError::MalformedResponse(err)
    }
}

impl vstd::std_specs::convert::FromSpecImpl<ParseError> for TaskError {
    open spec fn obeys_from_spec() -> bool {
        true
    }

    open spec fn from_spec(err: ParseError) -> Self {
        TaskError::MalformedResponse(err)
    }
}

impl From<ResponseError> for TaskError {
    fn from(err: ResponseError) -> (r: Self) {
        TaskError::BadResponse(err)
    }
}

impl vstd::std_specs::convert::FromSpecImpl<ResponseError> for TaskError {
    open spec fn obeys_from_spec() -> bool {
        true
    }

    open spec fn from_spec(err: ResponseError) -> Self {
        TaskError::BadResponse(err)
    }
}

} // verus!

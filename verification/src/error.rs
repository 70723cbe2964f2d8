//! What can go wrong with one message.

use vstd::prelude::*;

verus! {

/// The part of a JSON value that keeps it from being an envelope.
#[derive(Debug, Clone, Copy, PartialEq, Eq)]
pub enum EnvelopeError {
    /// The value is not a JSON object.
    NotAnObject,
    /// `src` is missing or is not a string.
    Src,
    /// `dest` is missing or is not a string.
    Dest,
    /// `body` is missing or is not an object.
    Body,
    /// `body.type` is missing or is not a string.
    Type,
    /// `body.msg_id` is there and is neither null nor an unsigned integer
    /// that fits `usize`.
    MsgId,
    /// `body.in_reply_to` is there and is neither null nor an unsigned
    /// integer that fits `usize`.
    InReplyTo,
}

/// Why a line or a request got no reply.
#[derive(Debug, Clone, Copy, PartialEq, Eq)]
pub enum RouterError {
    /// The line is not JSON text.
    MalformedLine,
    /// The line is JSON, but not an envelope.
    Envelope(EnvelopeError),
    /// No handler is registered for the request's type tag.
    NoHandler,
    /// The request's payload fields do not decode into the handler's request type.
    PayloadDecode,
    /// The handler's answer does not encode to a JSON object.
    PayloadEncode,
    /// The reply cannot be written as one line of JSON text.
    Unprintable,
}

} // verus!

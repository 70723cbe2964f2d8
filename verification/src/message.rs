//! Envelopes: the wire message with open payload fields, and the typed message
//! that a handler sees.

use vstd::prelude::*;
use crate::json::{object_entries, JsonEntries, JsonObject};

verus! {

/// A message as it stands on the wire.
#[derive(Debug, PartialEq)]
pub struct RawMessage {
    pub src: String,
    pub dest: String,
    pub body: RawBody,
}

/// The body of a wire message: the two optional ids, the type tag, and every
/// other field of the body object as payload.
#[derive(Debug, PartialEq)]
pub struct RawBody {
    pub msg_id: Option<usize>,
    pub in_reply_to: Option<usize>,
    pub msg_type: String,
    pub payload: JsonObject,
}

/// A message whose payload has been decoded into `T`.
#[derive(Debug, PartialEq, Clone)]
pub struct Message<T> {
    pub src: String,
    pub dest: String,
    pub body: Body<T>,
}

/// The body of a typed message.
#[derive(Debug, PartialEq, Clone)]
pub struct Body<T> {
    pub msg_id: Option<usize>,
    pub in_reply_to: Option<usize>,
    pub payload: T,
}

/// The mathematical content of a [`RawBody`].
pub struct RawBodyView {
    pub msg_id: Option<usize>,
    pub in_reply_to: Option<usize>,
    pub msg_type: Seq<char>,
    pub payload: JsonEntries,
}

/// The mathematical content of a [`RawMessage`].
pub struct RawMessageView {
    pub src: Seq<char>,
    pub dest: Seq<char>,
    pub body: RawBodyView,
}

impl View for RawBody {
    type V = RawBodyView;

    open spec fn view(&self) -> RawBodyView {
        RawBodyView {
            msg_id: self.msg_id,
            in_reply_to: self.in_reply_to,
            msg_type: self.msg_type@,
            payload: object_entries(self.payload),
        }
    }
}

impl View for RawMessage {
    type V = RawMessageView;

    open spec fn view(&self) -> RawMessageView {
        RawMessageView { src: self.src@, dest: self.dest@, body: self.body@ }
    }
}

impl Clone for RawBody {
    fn clone(&self) -> (res: Self)
        ensures
            res == *self,
    {
        RawBody {
            msg_id: self.msg_id,
            in_reply_to: self.in_reply_to,
            msg_type: self.msg_type.clone(),
            payload: self.payload.clone(),
        }
    }
}

impl Clone for RawMessage {
    fn clone(&self) -> (res: Self)
        ensures
            res == *self,
    {
        RawMessage { src: self.src.clone(), dest: self.dest.clone(), body: self.body.clone() }
    }
}

/// A result with its value taken by its content.
pub open spec fn viewed<T: View, E>(res: Result<T, E>) -> Result<T::V, E> {
    match res {
        Ok(value) => Ok(value@),
        Err(error) => Err(error),
    }
}

impl<T> Message<T> {
    /// The typed message for a wire message and its decoded payload: addresses
    /// and ids are those of the wire message.
    pub fn from_raw(raw: RawMessage, payload: T) -> (message: Message<T>)
        ensures
            message == (Message {
                src: raw.src,
                dest: raw.dest,
                body: Body { msg_id: raw.body.msg_id, in_reply_to: raw.body.in_reply_to, payload },
            }),
    {
        Message {
            src: raw.src,
            dest: raw.dest,
            body: Body {
                msg_id: raw.body.msg_id,
                in_reply_to: raw.body.in_reply_to,
                payload,
            },
        }
    }
}

/// The reply to `request` that carries `payload` under the tag `response_tag`:
/// the addresses change places, the reply refers to the request's id and has
/// no id of its own.
pub open spec fn reply_view(
    request: RawMessageView,
    response_tag: Seq<char>,
    payload: JsonEntries,
) -> RawMessageView {
    RawMessageView {
        src: request.dest,
        dest: request.src,
        body: RawBodyView {
            msg_id: None,
            in_reply_to: request.body.msg_id,
            msg_type: response_tag,
            payload,
        },
    }
}

/// Builds the reply envelope for a request from the encoded response payload.
/// The reply refers to a request exactly where the request has an id.
pub fn reply_to(request: &RawMessage, response_tag: &str, payload: JsonObject) -> (reply:
    RawMessage)
    ensures
        reply@ == reply_view(request@, response_tag@, object_entries(payload)),
        reply.body.payload == payload,
        reply.body.in_reply_to is None <==> request.body.msg_id is None,
{
    RawMessage {
        src: request.dest.clone(),
        dest: request.src.clone(),
        body: RawBody {
            msg_id: None,
            in_reply_to: request.body.msg_id,
            msg_type: response_tag.to_owned(),
            payload,
        },
    }
}

} // verus!

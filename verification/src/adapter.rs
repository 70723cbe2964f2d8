//! The adapter that lets a typed handler answer a wire message.
//!
//! A handler is a function from the node state and a typed message to a typed
//! answer. It never sees addresses being swapped or ids being set: the adapter
//! decodes the request's payload, calls the handler, encodes the answer and
//! builds the reply envelope round it.
//!
//! What a handler and a payload type return is theirs to decide, so the
//! contracts here are relations: they say of a result that it is one of the
//! outcomes that the calls made allow.

use vstd::prelude::*;
use core::marker::PhantomData;
use crate::error::RouterError;
use crate::json::{json_shape, JsonObject};
use crate::message::{reply_to, reply_view, viewed, Body, Message, RawMessage, RawMessageView};
use crate::payload::{fields_of, is_object, Payload};

verus! {

/// The typed message that a handler gets for a wire message and its decoded
/// payload.
pub open spec fn typed_message<T>(request: RawMessage, payload: T) -> Message<T> {
    Message {
        src: request.src,
        dest: request.dest,
        body: Body {
            msg_id: request.body.msg_id,
            in_reply_to: request.body.in_reply_to,
            payload,
        },
    }
}

/// `res` is what an encoded answer gives for `request`: the reply that carries
/// the answer's fields under `response_tag`, and `PayloadEncode` where the
/// answer was not encoded or is no object.
pub open spec fn answers(
    request: RawMessageView,
    response_tag: Seq<char>,
    encoded: Option<serde_json::Value>,
    res: Result<RawMessage, RouterError>,
) -> bool {
    match res {
        Ok(reply) => is_object(encoded) && reply@ == reply_view(
            request,
            response_tag,
            json_shape(encoded->0)->Object_0,
        ),
        Err(error) => error == RouterError::PayloadEncode && !is_object(encoded),
    }
}

/// The reply to `request` for an encoded answer.
pub fn answer(
    request: &RawMessage,
    response_tag: &str,
    encoded: Option<serde_json::Value>,
) -> (res: Result<RawMessage, RouterError>)
    ensures
        answers(request@, response_tag@, encoded, res),
        res is Ok <==> is_object(encoded),
{
    match fields_of(encoded) {
        Ok(fields) => Ok(reply_to(request, response_tag, fields)),
        Err(error) => Err(error),
    }
}

/// `res` is an outcome of calling `handler` on the decoded `payload` of
/// `request`: the handler returned an answer for the typed message and
/// `state`, the answer was encoded, and `res` is what the encoded answer
/// gives.
pub open spec fn handles<S, T, Q: Payload, F: Fn(S, Message<T>) -> Q>(
    handler: F,
    response_tag: Seq<char>,
    state: S,
    request: RawMessage,
    payload: T,
    res: Result<RawMessage, RouterError>,
) -> bool {
    exists|reply_payload: Q, encoded: Option<serde_json::Value>|
        call_ensures(handler, (state, typed_message(request, payload)), reply_payload)
            && #[trigger] call_ensures(Q::encode, (reply_payload,), encoded) && answers(
            request@,
            response_tag,
            encoded,
            res,
        )
}

/// `res` is an outcome of handing `request` to `handler`: `PayloadDecode`
/// where the payload fields did not decode into `T`, and else an outcome of
/// calling the handler on the decoded payload.
pub open spec fn responds<S, T: Payload, Q: Payload, F: Fn(S, Message<T>) -> Q>(
    handler: F,
    response_tag: Seq<char>,
    state: S,
    request: RawMessage,
    res: Result<RawMessage, RouterError>,
) -> bool {
    exists|decoded: Option<T>| #[trigger]
        call_ensures(T::decode, (&request.body.payload,), decoded) && match decoded {
            None => res == Err::<RawMessage, RouterError>(RouterError::PayloadDecode),
            Some(payload) => handles(handler, response_tag, state, request, payload, res),
        }
}

/// Lets a typed handler answer one wire message: decodes the payload, calls
/// the handler, encodes its answer and builds the reply envelope.
pub fn respond<S, T: Payload, Q: Payload, F: Fn(S, Message<T>) -> Q>(
    handler: &F,
    response_tag: &str,
    state: S,
    request: RawMessage,
) -> (res: Result<RawMessage, RouterError>)
    requires
        forall|message: Message<T>| call_requires(*handler, (state, message)),
    ensures
        responds(*handler, response_tag@, state, request, res),
        res matches Err(error) ==> error == RouterError::PayloadDecode || error
            == RouterError::PayloadEncode,
{
    let decoded = T::decode(&request.body.payload);
    assert(call_ensures(T::decode, (&request.body.payload,), decoded));
    match decoded {
        None => Err(RouterError::PayloadDecode),
        Some(payload) => {
            let reply_base = request.clone();
            let ghost given = request;
            let message = Message::from_raw(request, payload);
            let reply_payload = handler(state, message);
            let encoded = reply_payload.encode();
            assert(call_ensures(Q::encode, (reply_payload,), encoded));
            let res = answer(&reply_base, response_tag, encoded);
            assert(handles(*handler, response_tag@, state, given, payload, res));
            res
        },
    }
}

/// A handler behind one signature: wire message in, wire message out.
pub(crate) trait Adapter<S> {
    /// `res` is an outcome of handing `request` to the handler with `state`.
    spec fn outcome(
        &self,
        state: S,
        request: RawMessage,
        res: Result<RawMessage, RouterError>,
    ) -> bool;

    /// Hands `request` to the handler. The error, if there is one, is the
    /// handler's: it is not `NoHandler`.
    fn call(&self, state: S, request: RawMessage) -> (res: Result<RawMessage, RouterError>)
        ensures
            self.outcome(state, request, res),
            res != Err::<RawMessage, RouterError>(RouterError::NoHandler),
    ;
}

/// A typed handler that may be called with every state and every message,
/// together with the tag of its answers.
#[verifier::reject_recursive_types(S)]
#[verifier::reject_recursive_types(T)]
#[verifier::reject_recursive_types(Q)]
#[verifier::reject_recursive_types(F)]
pub(crate) struct Typed<S, T, Q, F: Fn(S, Message<T>) -> Q> {
    handler: F,
    response_tag: String,
    types: PhantomData<(S, T, Q)>,
}

impl<S, T, Q, F: Fn(S, Message<T>) -> Q> Typed<S, T, Q, F> {
    #[verifier::type_invariant]
    spec fn total(self) -> bool {
        forall|state: S, message: Message<T>| call_requires(self.handler, (state, message))
    }

    /// The handler.
    pub(crate) closed spec fn handler(self) -> F {
        self.handler
    }

    /// The tag of the handler's answers.
    pub(crate) closed spec fn response_tag(self) -> Seq<char> {
        self.response_tag@
    }

    pub(crate) fn new(handler: F, response_tag: &str) -> (typed: Self)
        requires
            forall|state: S, message: Message<T>| call_requires(handler, (state, message)),
        ensures
            typed.handler() == handler,
            typed.response_tag() == response_tag@,
    {
        Typed { handler, response_tag: response_tag.to_owned(), types: PhantomData }
    }
}

impl<S, T: Payload, Q: Payload, F: Fn(S, Message<T>) -> Q> Adapter<S> for Typed<S, T, Q, F> {
    open spec fn outcome(
        &self,
        state: S,
        request: RawMessage,
        res: Result<RawMessage, RouterError>,
    ) -> bool {
        responds(self.handler(), self.response_tag(), state, request, res)
    }

    fn call(&self, state: S, request: RawMessage) -> (res: Result<RawMessage, RouterError>) {
        proof {
            use_type_invariant(self);
        }
        respond(&self.handler, self.response_tag.as_str(), state, request)
    }
}

/// The handler's answer is decided by the state and the message it gets.
pub open spec fn is_pure<S, T, Q, F: Fn(S, Message<T>) -> Q>(handler: F) -> bool {
    forall|state: S, message: Message<T>, first: Q, second: Q|
        #![trigger
            call_ensures(handler, (state, message), first),
            call_ensures(handler, (state, message), second)
        ]
        call_ensures(handler, (state, message), first) && call_ensures(
            handler,
            (state, message),
            second,
        ) ==> first == second
}

/// What `T::decode` returns is decided by the fields it gets.
pub open spec fn decode_is_function<T: Payload>() -> bool {
    forall|fields: &JsonObject, first: Option<T>, second: Option<T>|
        #![trigger
            call_ensures(T::decode, (fields,), first),
            call_ensures(T::decode, (fields,), second)
        ]
        call_ensures(T::decode, (fields,), first) && call_ensures(T::decode, (fields,), second)
            ==> first == second
}

/// What `Q::encode` returns is decided by the value it gets.
pub open spec fn encode_is_function<Q: Payload>() -> bool {
    forall|payload: Q, first: Option<serde_json::Value>, second: Option<serde_json::Value>|
        #![trigger
            call_ensures(Q::encode, (payload,), first),
            call_ensures(Q::encode, (payload,), second)
        ]
        call_ensures(Q::encode, (payload,), first) && call_ensures(Q::encode, (payload,), second)
            ==> first == second
}

/// Handing the same request to the same handler with the same state gives the
/// same outcome, where the handler is pure and the payload types decode and
/// encode as functions.
pub proof fn lemma_equal_inputs_equal_outcomes<
    S,
    T: Payload,
    Q: Payload,
    F: Fn(S, Message<T>) -> Q,
>(
    handler: F,
    response_tag: Seq<char>,
    state: S,
    request: RawMessage,
    first: Result<RawMessage, RouterError>,
    second: Result<RawMessage, RouterError>,
)
    requires
        is_pure(handler),
        decode_is_function::<T>(),
        encode_is_function::<Q>(),
        responds(handler, response_tag, state, request, first),
        responds(handler, response_tag, state, request, second),
    ensures
        viewed(first) == viewed(second),
{
    let decoded_first = choose|decoded: Option<T>| #[trigger]
        call_ensures(T::decode, (&request.body.payload,), decoded) && match decoded {
            None => first == Err::<RawMessage, RouterError>(RouterError::PayloadDecode),
            Some(payload) => handles(handler, response_tag, state, request, payload, first),
        };
    let decoded_second = choose|decoded: Option<T>| #[trigger]
        call_ensures(T::decode, (&request.body.payload,), decoded) && match decoded {
            None => second == Err::<RawMessage, RouterError>(RouterError::PayloadDecode),
            Some(payload) => handles(handler, response_tag, state, request, payload, second),
        };
    assert(decoded_first == decoded_second);
    if let Some(payload) = decoded_first {
        let message = typed_message(request, payload);
        let (answer_first, encoded_first) = choose|
            reply_payload: Q,
            encoded: Option<serde_json::Value>,
        |
            call_ensures(handler, (state, message), reply_payload) && #[trigger] call_ensures(
                Q::encode,
                (reply_payload,),
                encoded,
            ) && answers(request@, response_tag, encoded, first);
        let (answer_second, encoded_second) = choose|
            reply_payload: Q,
            encoded: Option<serde_json::Value>,
        |
            call_ensures(handler, (state, message), reply_payload) && #[trigger] call_ensures(
                Q::encode,
                (reply_payload,),
                encoded,
            ) && answers(request@, response_tag, encoded, second);
        assert(answer_first == answer_second);
        assert(encoded_first == encoded_second);
    }
}

} // verus!

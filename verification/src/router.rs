//! The dispatch table: one handler for each request tag.

use vstd::prelude::*;
use vstd::hash_map::StringHashMap;
use crate::adapter::{responds, Adapter, Typed};
use crate::codec::{decode_line, encode_line, is_line_of, is_one_line, line_envelope};
use crate::error::RouterError;
use crate::message::{Message, RawMessage};
use crate::payload::Payload;

verus! {

/// One entry of the dispatch table: a handler behind the one signature that
/// the table knows, wire message in and wire message out.
#[verifier::reject_recursive_types(S)]
pub struct Route<S> {
    adapter: Box<dyn Adapter<S>>,
}

impl<S: 'static> Route<S> {
    /// `res` is an outcome of handing `request` to the route's handler with
    /// `state`.
    pub closed spec fn outcome(
        self,
        state: S,
        request: RawMessage,
        res: Result<RawMessage, RouterError>,
    ) -> bool {
        self.adapter.outcome(state, request, res)
    }

    /// The route answers as `handler` does, under `response_tag`.
    pub open spec fn runs<T: Payload, Q: Payload, F: Fn(S, Message<T>) -> Q>(
        self,
        handler: F,
        response_tag: Seq<char>,
    ) -> bool {
        forall|state: S, request: RawMessage, res: Result<RawMessage, RouterError>|
            #[trigger] self.outcome(state, request, res) <==> responds(
                handler,
                response_tag,
                state,
                request,
                res,
            )
    }

    /// The route for a typed handler whose answers go out under `response_tag`.
    pub fn new<T: Payload + 'static, Q: Payload + 'static, F: Fn(S, Message<T>) -> Q + 'static>(
        handler: F,
        response_tag: &str,
    ) -> (route: Route<S>)
        requires
            forall|state: S, message: Message<T>| call_requires(handler, (state, message)),
        ensures
            route.runs(handler, response_tag@),
    {
        let typed = Typed::new(handler, response_tag);
        Route { adapter: Box::new(typed) }
    }

    /// Hands `request` to the route's handler. The error, if there is one, is
    /// the handler's: it is not `NoHandler`.
    pub fn call(&self, state: S, request: RawMessage) -> (res: Result<RawMessage, RouterError>)
        ensures
            self.outcome(state, request, res),
            res != Err::<RawMessage, RouterError>(RouterError::NoHandler),
    {
        self.adapter.call(state, request)
    }
}

/// The dispatch table from request tag to handler, with the node state that
/// every handler call receives.
#[verifier::reject_recursive_types(S)]
pub struct Router<S = ()> {
    table: StringHashMap<Route<S>>,
    state: S,
}

/// What serving a sequence of lines gave: the reply lines in the order of the
/// input, and the error that ended it, if one did.
#[derive(Debug)]
pub struct Served {
    pub replies: Vec<String>,
    pub failure: Option<RouterError>,
}

impl<S> Router<S> {
    /// The table: the route of each registered request tag.
    pub closed spec fn routes(self) -> Map<Seq<char>, Route<S>> {
        self.table@
    }

    /// The node state.
    pub closed spec fn state(self) -> S {
        self.state
    }
}

impl<S: Clone + Send + Sync + 'static> Router<S> {
    /// `after` is `self` with `handler` registered for `request_tag`: the tag
    /// has a route that answers as `handler` does under `response_tag`, every
    /// other tag has the route it had, and the state is the same.
    pub open spec fn with_handler<T: Payload, Q: Payload, F: Fn(S, Message<T>) -> Q>(
        self,
        after: Self,
        request_tag: Seq<char>,
        response_tag: Seq<char>,
        handler: F,
    ) -> bool {
        &&& after.routes().contains_key(request_tag)
        &&& after.routes()[request_tag].runs(handler, response_tag)
        &&& after.routes() == self.routes().insert(request_tag, after.routes()[request_tag])
        &&& after.state() == self.state()
    }

    /// `res` is an outcome of dispatching `request`: `NoHandler` where its
    /// tag has no route, and else an outcome of that route's handler, called
    /// with a clone of the node state.
    pub open spec fn dispatches(
        self,
        request: RawMessage,
        res: Result<RawMessage, RouterError>,
    ) -> bool {
        let tag = request.body.msg_type@;
        if self.routes().contains_key(tag) {
            exists|state: S|
                cloned(self.state(), state) && #[trigger] self.routes()[tag].outcome(
                    state,
                    request,
                    res,
                )
        } else {
            res == Err::<RawMessage, RouterError>(RouterError::NoHandler)
        }
    }

    /// `res` is an outcome of serving one line: the line is read as an
    /// envelope, the envelope is dispatched, and the reply is written as a
    /// line. The first step that fails gives the error.
    pub open spec fn handles_line(self, line: Seq<char>, res: Result<String, RouterError>) -> bool {
        match line_envelope(line) {
            Err(error) => res == Err::<String, RouterError>(error),
            Ok(envelope) => exists|request: RawMessage, reply: Result<RawMessage, RouterError>|
                request@ == envelope && #[trigger] self.dispatches(request, reply) && match reply {
                    Err(error) => res == Err::<String, RouterError>(error),
                    Ok(message) => is_line_of(message@, res),
                },
        }
    }

    /// A router without handlers.
    pub fn new(state: S) -> (router: Self)
        ensures
            router.routes() == Map::<Seq<char>, Route<S>>::empty(),
            router.state() == state,
    {
        Router { table: StringHashMap::new(), state }
    }

    /// Registers `handler` for the requests tagged `request_tag`; its answers
    /// go out under `response_tag`. A handler that the tag had is replaced.
    pub fn register_as<
        T: Payload + 'static,
        Q: Payload + 'static,
        F: Fn(S, Message<T>) -> Q + 'static,
    >(&mut self, request_tag: &str, response_tag: &str, handler: F)
        requires
            forall|state: S, message: Message<T>| call_requires(handler, (state, message)),
        ensures
            old(self).with_handler(*final(self), request_tag@, response_tag@, handler),
    {
        let route = Route::new(handler, response_tag);
        self.table.insert(request_tag.to_owned(), route);
    }

    /// Registers `handler` for the requests tagged `T::tag()`; its answers go
    /// out under `Q::tag()`. A handler that the tag had is replaced.
    pub fn register<
        T: Payload + 'static,
        Q: Payload + 'static,
        F: Fn(S, Message<T>) -> Q + 'static,
    >(&mut self, handler: F)
        requires
            forall|state: S, message: Message<T>| call_requires(handler, (state, message)),
        ensures
            exists|request_tag: &'static str, response_tag: &'static str|
                #[trigger] call_ensures(T::tag, (), request_tag) && #[trigger] call_ensures(
                    Q::tag,
                    (),
                    response_tag,
                ) && old(self).with_handler(*final(self), request_tag@, response_tag@, handler),
    {
        let request_tag = T::tag();
        let response_tag = Q::tag();
        assert(call_ensures(T::tag, (), request_tag));
        assert(call_ensures(Q::tag, (), response_tag));
        self.register_as(request_tag, response_tag, handler);
    }

    /// Hands a request to the handler registered for its tag and returns the
    /// handler's reply. `NoHandler` comes exactly where the tag has no handler.
    pub fn send(&self, request: RawMessage) -> (res: Result<RawMessage, RouterError>)
        ensures
            self.dispatches(request, res),
            !self.routes().contains_key(request.body.msg_type@) <==> res == Err::<
                RawMessage,
                RouterError,
            >(RouterError::NoHandler),
    {
        match self.table.get(request.body.msg_type.as_str()) {
            None => Err(RouterError::NoHandler),
            Some(route) => {
                let state = self.state.clone();
                let res = route.call(state, request);
                assert(self.routes()[request.body.msg_type@].outcome(state, request, res));
                res
            },
        }
    }

    /// Serves one line of input: the reply line, without its line break.
    pub fn handle_line(&self, line: &str) -> (res: Result<String, RouterError>)
        ensures
            self.handles_line(line@, res),
            res matches Ok(text) ==> is_one_line(text@),
    {
        match decode_line(line) {
            Err(error) => Err(error),
            Ok(request) => {
                let ghost given = request;
                let reply = self.send(request);
                let res = match reply {
                    Err(error) => Err(error),
                    Ok(message) => encode_line(&message),
                };
                assert(given@ == line_envelope(line@)->Ok_0 && self.dispatches(given, reply));
                res
            },
        }
    }

    /// Serves the lines in order, one reply line for each, until the input
    /// ends or a line fails.
    pub fn serve(&self, lines: &Vec<String>) -> (served: Served)
        ensures
            served.replies.len() <= lines.len(),
            served.failure is None <==> served.replies.len() == lines.len(),
            forall|i: int|
                0 <= i < served.replies.len() ==> self.handles_line(
                    lines[i]@,
                    Ok(#[trigger] served.replies[i]),
                ),
            forall|i: int|
                0 <= i < served.replies.len() ==> is_one_line(#[trigger] served.replies[i]@),
            served.failure is Some ==> self.handles_line(
                lines[served.replies.len() as int]@,
                Err(served.failure->0),
            ),
    {
        let mut replies: Vec<String> = Vec::new();
        let mut index: usize = 0;
        while index < lines.len()
            invariant
                index <= lines.len(),
                replies.len() == index,
                forall|i: int|
                    0 <= i < replies.len() ==> self.handles_line(
                        lines[i]@,
                        Ok(#[trigger] replies[i]),
                    ),
                forall|i: int| 0 <= i < replies.len() ==> is_one_line(#[trigger] replies[i]@),
            decreases lines.len() - index,
        {
            match self.handle_line(lines[index].as_str()) {
                Ok(reply) => {
                    replies.push(reply);
                },
                Err(error) => {
                    return Served { replies, failure: Some(error) };
                },
            }
            index = index + 1;
        }
        Served { replies, failure: None }
    }
}

/// The later of two registrations for one tag is the one that answers: after
/// `first` and then `second` were registered for `request_tag`, every outcome
/// of dispatching a request with that tag is an outcome of `second`, and the
/// other tags have the routes they had at the start.
pub proof fn lemma_last_registration_wins<
    S: Clone + Send + Sync + 'static,
    T1: Payload,
    Q1: Payload,
    F1: Fn(S, Message<T1>) -> Q1,
    T2: Payload,
    Q2: Payload,
    F2: Fn(S, Message<T2>) -> Q2,
>(
    start: Router<S>,
    middle: Router<S>,
    end: Router<S>,
    request_tag: Seq<char>,
    first_tag: Seq<char>,
    first: F1,
    second_tag: Seq<char>,
    second: F2,
    request: RawMessage,
    res: Result<RawMessage, RouterError>,
)
    requires
        start.with_handler(middle, request_tag, first_tag, first),
        middle.with_handler(end, request_tag, second_tag, second),
        request.body.msg_type@ == request_tag,
        end.dispatches(request, res),
    ensures
        start.with_handler(end, request_tag, second_tag, second),
        exists|state: S|
            cloned(end.state(), state) && #[trigger] responds(
                second,
                second_tag,
                state,
                request,
                res,
            ),
{
    assert(end.routes() =~= start.routes().insert(request_tag, end.routes()[request_tag]));
    let state = choose|state: S|
        cloned(end.state(), state) && #[trigger] end.routes()[request_tag].outcome(
            state,
            request,
            res,
        );
    assert(responds(second, second_tag, state, request, res));
}

/// A request whose tag has no route gets `NoHandler` and nothing else,
/// whatever routes the other tags have.
pub proof fn lemma_no_route_no_reply<S: Clone + Send + Sync + 'static>(
    router: Router<S>,
    request: RawMessage,
    res: Result<RawMessage, RouterError>,
)
    requires
        !router.routes().contains_key(request.body.msg_type@),
        router.dispatches(request, res),
    ensures
        res == Err::<RawMessage, RouterError>(RouterError::NoHandler),
{
}

} // verus!

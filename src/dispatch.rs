//! Dispatch of requests to handlers, and the responses they produce.
use vstd::prelude::*;
use vstd::string::*;
use crate::json::{JsonValue, spec_get, text};
use crate::message::{
    Request, RequestId, Inbound, Notification, classify, spec_classify, params_of, decode_request,
    is_notification_shaped,
};
use crate::router::{Router, Method};

verus! {

/// The code of a call that no handler answers.
pub const INVALID_CALL_CODE: i64 = -1;

/// A structured error that a handler returns.
#[derive(Debug, PartialEq, Eq)]
pub struct HandlerError {
    pub code: i64,
    pub message: String,
}

/// How a handler call ended.
#[derive(Debug, PartialEq, Eq)]
pub enum Outcome {
    /// The handler returned a value; a null value asks for no response.
    Value(JsonValue),
    /// The handler returned a structured error.
    Error(HandlerError),
    /// The call failed before the handler could answer (its params did not decode).
    Failed,
}

/// What a response carries.
#[derive(Debug, PartialEq, Eq)]
pub enum ResponseBody {
    Result(JsonValue),
    /// A handler's own error, passed on as it is.
    Error(HandlerError),
    /// The call reached no handler: code -1, "Invalid json-rpc call".
    InvalidCall,
}

/// A response to the request with the same `id`.
#[derive(Debug, PartialEq, Eq)]
pub struct Response {
    pub id: RequestId,
    pub body: ResponseBody,
}

/// What the dispatcher does with a request.
#[derive(Debug, PartialEq, Eq)]
pub enum Route {
    /// Answer at once without calling a handler.
    Reply(Response),
    /// Call `method` with `params`, then hand its outcome to `complete`.
    Invoke { id: RequestId, method: Method, params: Option<JsonValue> },
}

/// What the engine does with one inbound value.
#[derive(Debug, PartialEq, Eq)]
pub enum Step {
    /// Run a notification's hook; nothing is written.
    Notify(Notification),
    /// Follow the route of a request.
    Dispatch(Route),
    /// Nothing at all.
    Drop,
}

/// The method and params that a request addresses: a `tools/call` envelope
/// `{name, arguments}` stands for a call of `name` with `arguments`.
pub open spec fn effective_call(req: Request) -> Option<(Seq<char>, Option<JsonValue>)> {
    if req.method@ == "tools/call"@ {
        match req.params {
            Some(p) => match spec_get(p, "name"@) {
                Some(JsonValue::Str(name)) => Some((name@, params_of(spec_get(p, "arguments"@)))),
                _ => None,
            },
            None => None,
        }
    } else {
        Some((req.method@, req.params))
    }
}

/// The route of a request through `router`.
pub open spec fn spec_route(router: Router, req: Request) -> Route {
    match effective_call(req) {
        Some((name, params)) => match router.spec_lookup(name) {
            Some(m) => Route::Invoke { id: req.id, method: m, params },
            None => Route::Reply(Response { id: req.id, body: ResponseBody::InvalidCall }),
        },
        None => Route::Reply(Response { id: req.id, body: ResponseBody::InvalidCall }),
    }
}

/// The response, if any, to the request `id` whose handler ended with `outcome`.
pub open spec fn spec_complete(id: RequestId, outcome: Outcome) -> Option<Response> {
    match outcome {
        Outcome::Value(JsonValue::Null) => None,
        Outcome::Value(v) => Some(Response { id, body: ResponseBody::Result(v) }),
        Outcome::Error(e) => Some(Response { id, body: ResponseBody::Error(e) }),
        Outcome::Failed => Some(Response { id, body: ResponseBody::InvalidCall }),
    }
}

/// Routes a request: an unknown method is answered with the invalid-call
/// error; a known one is handed to its handler.
pub fn route(router: &Router, req: Request) -> (r: Route)
    ensures
        r == spec_route(*router, req),
{
    let Request { id, method, params } = req;
    let call: Option<(String, Option<JsonValue>)> = if method == text("tools/call") {
        match params {
            Some(p) => {
                let name = match p.get("name") {
                    Some(JsonValue::Str(n)) => Some(n.clone()),
                    _ => None,
                };
                match name {
                    Some(n) => {
                        let args = match p.take("arguments") {
                            Some(JsonValue::Null) => None,
                            a => a,
                        };
                        Some((n, args))
                    },
                    None => None,
                }
            },
            None => None,
        }
    } else {
        Some((method, params))
    };
    match call {
        Some((name, params)) => match router.lookup(&name) {
            Some(m) => Route::Invoke { id, method: m, params },
            None => Route::Reply(Response { id, body: ResponseBody::InvalidCall }),
        },
        None => Route::Reply(Response { id, body: ResponseBody::InvalidCall }),
    }
}

/// The response to a handled request; a null result is answered with nothing.
pub fn complete(id: RequestId, outcome: Outcome) -> (r: Option<Response>)
    ensures
        r == spec_complete(id, outcome),
{
    match outcome {
        Outcome::Value(JsonValue::Null) => None,
        Outcome::Value(v) => Some(Response { id, body: ResponseBody::Result(v) }),
        Outcome::Error(e) => Some(Response { id, body: ResponseBody::Error(e) }),
        Outcome::Failed => Some(Response { id, body: ResponseBody::InvalidCall }),
    }
}

/// What the engine does with one inbound value.
pub open spec fn spec_step(router: Router, v: JsonValue) -> Step {
    match spec_classify(v) {
        Inbound::Notification(n) => Step::Notify(n),
        Inbound::Request(q) => Step::Dispatch(spec_route(router, q)),
        Inbound::Dropped => Step::Drop,
    }
}

/// Classifies one inbound value and, for a request, routes it.
pub fn step(router: &Router, v: JsonValue) -> (r: Step)
    ensures
        r == spec_step(*router, v),
{
    match classify(v) {
        Inbound::Notification(n) => Step::Notify(n),
        Inbound::Request(q) => Step::Dispatch(route(router, q)),
        Inbound::Dropped => Step::Drop,
    }
}

/// The outcome of a handler that returns a JSON value or an error.
pub fn outcome_of(r: Result<JsonValue, HandlerError>) -> (o: Outcome)
    ensures
        o == (match r {
            Ok(v) => Outcome::Value(v),
            Err(e) => Outcome::Error(e),
        }),
{
    match r {
        Ok(v) => Outcome::Value(v),
        Err(e) => Outcome::Error(e),
    }
}

/// A well-formed request is answered exactly once, under its own `id`:
/// at once where no handler takes it, else from its handler's outcome,
/// whenever that outcome is not a null value.
pub proof fn lemma_request_answered_once(router: Router, v: JsonValue, outcome: Outcome)
    requires
        decode_request(v) is Some,
        !(outcome matches Outcome::Value(JsonValue::Null)),
    ensures
        match spec_step(router, v) {
            Step::Dispatch(Route::Reply(resp)) => resp.id == decode_request(v)->Some_0.id,
            Step::Dispatch(Route::Invoke { id, .. }) => id == decode_request(v)->Some_0.id
                && spec_complete(id, outcome) is Some
                && spec_complete(id, outcome)->Some_0.id == id,
            _ => false,
        },
{
}

/// A notification is never answered.
pub proof fn lemma_notification_unanswered(router: Router, v: JsonValue)
    requires
        is_notification_shaped(v),
    ensures
        spec_step(router, v) is Notify,
{
}

/// A `tools/call` envelope `{name, arguments}` is routed exactly as a direct
/// call of `name` with `arguments` under the same `id`.
pub proof fn lemma_tools_call_transparent(
    router: Router,
    id: RequestId,
    params: JsonValue,
    name: String,
    arguments: JsonValue,
    envelope: Request,
    direct: Request,
)
    requires
        envelope.id == id,
        envelope.method@ == "tools/call"@,
        envelope.params == Some(params),
        spec_get(params, "name"@) == Some(JsonValue::Str(name)),
        spec_get(params, "arguments"@) == Some(arguments),
        !(arguments is Null),
        direct.id == id,
        direct.method == name,
        direct.params == Some(arguments),
        name@ != "tools/call"@,
    ensures
        spec_route(router, envelope) == spec_route(router, direct),
{
}

/// A call of a method that no handler takes is answered with the
/// invalid-call error under its own `id`.
pub proof fn lemma_unknown_method(router: Router, req: Request)
    requires
        req.method@ != "tools/call"@,
        router.spec_lookup(req.method@) is None,
    ensures
        spec_route(router, req) == Route::Reply(Response { id: req.id, body: ResponseBody::InvalidCall }),
{
}

/// A null result is answered with nothing, while an error is answered.
pub proof fn lemma_null_result_unanswered(id: RequestId, e: HandlerError)
    ensures
        spec_complete(id, Outcome::Value(JsonValue::Null)) is None,
        spec_complete(id, Outcome::Error(e)) == Some(Response { id, body: ResponseBody::Error(e) }),
{
}

} // verus!

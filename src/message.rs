//! Classification of inbound JSON values into requests and notifications.
use vstd::prelude::*;
use vstd::string::*;
use crate::json::{JsonValue, spec_get, text};

verus! {

/// The identifier of a request, echoed verbatim in its response.
#[derive(Debug, PartialEq, Eq, Clone)]
pub enum RequestId {
    Number(String),
    Str(String),
}

/// A call that expects a response.
#[derive(Debug, PartialEq, Eq)]
pub struct Request {
    pub id: RequestId,
    pub method: String,
    pub params: Option<JsonValue>,
}

/// What `notifications/cancelled` carries.
#[derive(Debug, PartialEq, Eq)]
pub struct CancelledNotification {
    pub request_id: Option<RequestId>,
    pub reason: Option<String>,
}

/// A call that expects no response.
#[derive(Debug, PartialEq, Eq)]
pub enum Notification {
    Initialized,
    Cancelled(CancelledNotification),
    /// A notification of a method that has no hook, or none at all.
    Ignored,
}

/// What one inbound value is.
#[derive(Debug, PartialEq, Eq)]
pub enum Inbound {
    Notification(Notification),
    Request(Request),
    /// A value that is neither: it is dropped without a response.
    Dropped,
}

impl RequestId {
    /// The JSON form of the identifier.
    pub open spec fn spec_json(self) -> JsonValue {
        match self {
            RequestId::Number(n) => JsonValue::Number(n),
            RequestId::Str(s) => JsonValue::Str(s),
        }
    }

    /// The JSON form of the identifier.
    pub fn to_json(self) -> (r: JsonValue)
        ensures
            r == self.spec_json(),
    {
        match self {
            RequestId::Number(n) => JsonValue::Number(n),
            RequestId::Str(s) => JsonValue::Str(s),
        }
    }
}

/// The identifier that a JSON value denotes: a string or a number.
pub open spec fn id_of(v: JsonValue) -> Option<RequestId> {
    match v {
        JsonValue::Number(n) => Some(RequestId::Number(n)),
        JsonValue::Str(s) => Some(RequestId::Str(s)),
        _ => None,
    }
}

/// The `params` of a call: an absent or null field means none.
pub open spec fn params_of(p: Option<JsonValue>) -> Option<JsonValue> {
    match p {
        Some(JsonValue::Null) => None,
        _ => p,
    }
}

/// An object without an `id` is a notification.
pub open spec fn is_notification_shaped(v: JsonValue) -> bool {
    v is Object && spec_get(v, "id"@) is None
}

/// The request that `v` encodes: an object whose `id` is a string or a
/// number and whose `method` is a string. Other members, `jsonrpc` among
/// them, are not looked at.
pub open spec fn decode_request(v: JsonValue) -> Option<Request> {
    match (spec_get(v, "id"@), spec_get(v, "method"@)) {
        (Some(i), Some(JsonValue::Str(m))) => match id_of(i) {
            Some(id) => Some(Request { id, method: m, params: params_of(spec_get(v, "params"@)) }),
            None => None,
        },
        _ => None,
    }
}

/// The notification that a notification-shaped `v` is.
pub open spec fn decode_notification(v: JsonValue) -> Notification {
    match spec_get(v, "method"@) {
        Some(JsonValue::Str(m)) => if m@ == "notifications/initialized"@ {
            Notification::Initialized
        } else if m@ == "notifications/cancelled"@ {
            Notification::Cancelled(decode_cancelled(spec_get(v, "params"@)))
        } else {
            Notification::Ignored
        },
        _ => Notification::Ignored,
    }
}

/// The fields of a cancellation that its `params` hold.
pub open spec fn decode_cancelled(p: Option<JsonValue>) -> CancelledNotification {
    match p {
        Some(v) => CancelledNotification {
            request_id: match spec_get(v, "requestId"@) {
                Some(i) => id_of(i),
                None => None,
            },
            reason: match spec_get(v, "reason"@) {
                Some(JsonValue::Str(s)) => Some(s),
                _ => None,
            },
        },
        None => CancelledNotification { request_id: None, reason: None },
    }
}

/// What an inbound value is.
pub open spec fn spec_classify(v: JsonValue) -> Inbound {
    if is_notification_shaped(v) {
        Inbound::Notification(decode_notification(v))
    } else {
        match decode_request(v) {
            Some(q) => Inbound::Request(q),
            None => Inbound::Dropped,
        }
    }
}

fn id_from(v: &JsonValue) -> (r: Option<RequestId>)
    ensures
        r == id_of(*v),
{
    match v {
        JsonValue::Number(n) => Some(RequestId::Number(n.clone())),
        JsonValue::Str(s) => Some(RequestId::Str(s.clone())),
        _ => None,
    }
}

fn str_from(v: Option<&JsonValue>) -> (r: Option<String>)
    ensures
        r == (match v {
            Some(JsonValue::Str(s)) => Some(*s),
            _ => None::<String>,
        }),
{
    match v {
        Some(JsonValue::Str(s)) => Some(s.clone()),
        _ => None,
    }
}

fn cancelled_from(p: Option<&JsonValue>) -> (r: CancelledNotification)
    ensures
        r == decode_cancelled(match p {
            Some(v) => Some(*v),
            None => None,
        }),
{
    match p {
        Some(v) => {
            let request_id = match v.get("requestId") {
                Some(i) => id_from(i),
                None => None,
            };
            CancelledNotification { request_id, reason: str_from(v.get("reason")) }
        },
        None => CancelledNotification { request_id: None, reason: None },
    }
}

/// Tells a notification from a request; a value that is neither is dropped.
pub fn classify(v: JsonValue) -> (r: Inbound)
    ensures
        r == spec_classify(v),
{
    if v.is_object() && !v.has_field("id") {
        let n = match str_from(v.get("method")) {
            Some(m) => if m == text("notifications/initialized") {
                Notification::Initialized
            } else if m == text("notifications/cancelled") {
                Notification::Cancelled(cancelled_from(v.get("params")))
            } else {
                Notification::Ignored
            },
            None => Notification::Ignored,
        };
        return Inbound::Notification(n);
    }
    let id = match v.get("id") {
        Some(i) => id_from(i),
        None => None,
    };
    let method = str_from(v.get("method"));
    match (id, method) {
        (Some(id), Some(method)) => {
            let params = match v.take("params") {
                Some(JsonValue::Null) => None,
                p => p,
            };
            Inbound::Request(Request { id, method, params })
        },
        _ => Inbound::Dropped,
    }
}

} // verus!

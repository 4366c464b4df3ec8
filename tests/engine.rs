use mcp_mutinynet::cli::{display_info, Args, Listing};
use mcp_mutinynet::dispatch::{
    complete, outcome_of, route, step, HandlerError, Outcome, Response, ResponseBody, Route, Step,
};
use mcp_mutinynet::encode::int_to_text;
use mcp_mutinynet::json::JsonValue;
use mcp_mutinynet::lifecycle::ShutdownLatch;
use mcp_mutinynet::params::{parse_u64, uri_param};
use mcp_mutinynet::message::{classify, CancelledNotification, Inbound, Notification, Request, RequestId};
use mcp_mutinynet::protocol::{
    initialize, local_outcome, ping, prompts_get, resource_read, resources_list, roots_list, tools_list,
};
use mcp_mutinynet::router::{build_rpc_router, Method};
use mcp_mutinynet::token::{get_bearer_token, get_bearer_token_location, trim_trailing, write_bearer_token};
use mcp_mutinynet::tools::{
    address_paid, invoice_paid, login, login_poll_continues, login_poll_step, PollAction, pay_mutinynet_address,
    pay_mutinynet_invoice, payment_failure, reply_action, send_amount, CallToolResultContent,
    DeviceLogin, LightningResponse, OnChainResponse, PayAddressRequest, PayInvoiceRequest, PayStep,
    ReplyAction,
};

fn s(x: &str) -> JsonValue {
    JsonValue::Str(x.to_string())
}

fn n(x: &str) -> JsonValue {
    JsonValue::Number(x.to_string())
}

fn obj(fields: Vec<(&str, JsonValue)>) -> JsonValue {
    JsonValue::Object(fields.into_iter().map(|(k, v)| (k.to_string(), v)).collect())
}

fn device() -> DeviceLogin {
    DeviceLogin {
        device_code: "dc".to_string(),
        user_code: "ABCD-1234".to_string(),
        verification_uri: "https://github.com/login/device".to_string(),
        expires_in: 900,
        interval: 5,
    }
}

fn login_json() -> JsonValue {
    login(Some(&device())).unwrap().to_json()
}

#[test]
fn ping_line_is_answered_with_empty_result() {
    let router = build_rpc_router();
    let line = obj(vec![("jsonrpc", s("2.0")), ("id", n("1")), ("method", s("ping"))]);
    let (id, method) = match step(&router, line) {
        Step::Dispatch(Route::Invoke { id, method, params }) => {
            assert_eq!(params, None);
            (id, method)
        }
        other => panic!("unexpected step {:?}", other),
    };
    assert_eq!(method, Method::Ping);
    let resp = complete(id, Outcome::Value(ping())).unwrap();
    assert_eq!(
        resp.to_json(),
        obj(vec![("jsonrpc", s("2.0")), ("id", n("1")), ("result", obj(vec![]))])
    );
}

#[test]
fn unauthenticated_address_payment_becomes_login() {
    let router = build_rpc_router();
    let args = || obj(vec![("address", s("tb1...")), ("amount", n("2000000"))]);
    let line = obj(vec![
        ("jsonrpc", s("2.0")),
        ("id", n("2")),
        ("method", s("tools/call")),
        ("params", obj(vec![("name", s("pay_mutinynet_address")), ("arguments", args())])),
    ]);
    match step(&router, line) {
        Step::Dispatch(Route::Invoke { id, method, params }) => {
            assert_eq!(id, RequestId::Number("2".to_string()));
            assert_eq!(method, Method::PayMutinynetAddress);
            assert_eq!(params, Some(args()));
        }
        other => panic!("unexpected step {:?}", other),
    }
    let req = PayAddressRequest { address: "tb1...".to_string(), amount: Some(2_000_000) };
    assert_eq!(pay_mutinynet_address(&req, None), PayStep::Login);
    let resp = complete(RequestId::Number("2".to_string()), Outcome::Value(login_json())).unwrap();
    match resp.body {
        ResponseBody::Result(v) => assert_eq!(v, login_json()),
        other => panic!("unexpected body {:?}", other),
    }
}

#[test]
fn unknown_method_gets_invalid_call_error() {
    let router = build_rpc_router();
    let line = obj(vec![("jsonrpc", s("2.0")), ("id", s("abc")), ("method", s("nope"))]);
    let resp = match step(&router, line) {
        Step::Dispatch(Route::Reply(r)) => r,
        other => panic!("unexpected step {:?}", other),
    };
    assert_eq!(resp.id, RequestId::Str("abc".to_string()));
    assert_eq!(resp.body, ResponseBody::InvalidCall);
    assert_eq!(
        resp.to_json(),
        obj(vec![
            ("jsonrpc", s("2.0")),
            ("id", s("abc")),
            ("error", obj(vec![("code", n("-1")), ("message", s("Invalid json-rpc call"))])),
        ])
    );
}

#[test]
fn unknown_tool_in_envelope_gets_invalid_call_error() {
    let router = build_rpc_router();
    let req = Request {
        id: RequestId::Number("9".to_string()),
        method: "tools/call".to_string(),
        params: Some(obj(vec![("name", s("nothing"))])),
    };
    assert_eq!(
        route(&router, req),
        Route::Reply(Response { id: RequestId::Number("9".to_string()), body: ResponseBody::InvalidCall })
    );
    let bad = Request { id: RequestId::Number("9".to_string()), method: "tools/call".to_string(), params: None };
    assert_eq!(
        route(&router, bad),
        Route::Reply(Response { id: RequestId::Number("9".to_string()), body: ResponseBody::InvalidCall })
    );
}

#[test]
fn null_result_is_not_answered() {
    assert_eq!(complete(RequestId::Number("3".to_string()), Outcome::Value(JsonValue::Null)), None);
    let e = HandlerError { code: -32602, message: "Prompt not found".to_string() };
    assert_eq!(
        complete(RequestId::Number("3".to_string()), Outcome::Error(e)),
        Some(Response {
            id: RequestId::Number("3".to_string()),
            body: ResponseBody::Error(HandlerError { code: -32602, message: "Prompt not found".to_string() }),
        })
    );
}

#[test]
fn failed_call_gets_invalid_call_error() {
    let resp = complete(RequestId::Number("4".to_string()), Outcome::Failed).unwrap();
    assert_eq!(resp.body, ResponseBody::InvalidCall);
}

#[test]
fn every_request_gets_one_response_with_its_id() {
    let router = build_rpc_router();
    for (m, id) in [("ping", RequestId::Number("7".to_string())), ("initialize", RequestId::Str("x".to_string())), ("missing", RequestId::Number("8".to_string()))] {
        let line = obj(vec![("id", id.clone().to_json()), ("method", s(m))]);
        match step(&router, line) {
            Step::Dispatch(Route::Reply(r)) => assert_eq!(r.id, id),
            Step::Dispatch(Route::Invoke { id: rid, .. }) => {
                let r = complete(rid, Outcome::Value(ping())).unwrap();
                assert_eq!(r.id, id);
            }
            other => panic!("unexpected step {:?}", other),
        }
    }
}

#[test]
fn notifications_are_not_answered() {
    let router = build_rpc_router();
    let init = obj(vec![("jsonrpc", s("2.0")), ("method", s("notifications/initialized"))]);
    assert_eq!(step(&router, init), Step::Notify(Notification::Initialized));
    let cancel = obj(vec![
        ("method", s("notifications/cancelled")),
        ("params", obj(vec![("requestId", n("5")), ("reason", s("user"))])),
    ]);
    assert_eq!(
        step(&router, cancel),
        Step::Notify(Notification::Cancelled(CancelledNotification {
            request_id: Some(RequestId::Number("5".to_string())),
            reason: Some("user".to_string()),
        }))
    );
    let other = obj(vec![("method", s("ping"))]);
    assert_eq!(step(&router, other), Step::Notify(Notification::Ignored));
    assert_eq!(step(&router, obj(vec![])), Step::Notify(Notification::Ignored));
}

#[test]
fn malformed_values_are_dropped() {
    assert_eq!(classify(JsonValue::Array(vec![])), Inbound::Dropped);
    assert_eq!(classify(n("1")), Inbound::Dropped);
    assert_eq!(classify(obj(vec![("id", n("1"))])), Inbound::Dropped);
    assert_eq!(classify(obj(vec![("id", JsonValue::Null), ("method", s("ping"))])), Inbound::Dropped);
    assert_eq!(classify(obj(vec![("id", n("1")), ("method", n("2"))])), Inbound::Dropped);
}

#[test]
fn null_params_mean_none() {
    let v = obj(vec![("id", n("1")), ("method", s("ping")), ("params", JsonValue::Null)]);
    assert_eq!(
        classify(v),
        Inbound::Request(Request { id: RequestId::Number("1".to_string()), method: "ping".to_string(), params: None })
    );
}

#[test]
fn tools_call_login_matches_direct_login() {
    let router = build_rpc_router();
    let envelope = obj(vec![
        ("id", n("6")),
        ("method", s("tools/call")),
        ("params", obj(vec![("name", s("login")), ("arguments", obj(vec![]))])),
    ]);
    let direct = obj(vec![("id", n("6")), ("method", s("login")), ("params", obj(vec![]))]);
    let a = step(&router, envelope);
    assert_eq!(a, step(&router, direct));
    assert_eq!(
        a,
        Step::Dispatch(Route::Invoke {
            id: RequestId::Number("6".to_string()),
            method: Method::Login,
            params: Some(obj(vec![])),
        })
    );
}

#[test]
fn registry_binds_every_method() {
    let router = build_rpc_router();
    let expect = [
        ("initialize", Method::Initialize),
        ("ping", Method::Ping),
        ("logging/setLevel", Method::LoggingSetLevel),
        ("roots/list", Method::RootsList),
        ("prompts/list", Method::PromptsList),
        ("prompts/get", Method::PromptsGet),
        ("resources/list", Method::ResourcesList),
        ("resources/read", Method::ResourcesRead),
        ("tools/list", Method::ToolsList),
        ("login", Method::Login),
        ("pay_mutinynet_invoice", Method::PayMutinynetInvoice),
        ("pay_mutinynet_address", Method::PayMutinynetAddress),
    ];
    for (name, m) in expect {
        assert_eq!(router.lookup(&name.to_string()), Some(m));
    }
    assert_eq!(router.lookup(&"tools/call".to_string()), None);
}

#[test]
fn unauthenticated_invoice_payment_becomes_login() {
    let req = PayInvoiceRequest { invoice: "lntbs1".to_string() };
    assert_eq!(pay_mutinynet_invoice(&req, None), PayStep::Login);
    let t = "tok".to_string();
    assert_eq!(
        pay_mutinynet_invoice(&req, Some(&t)),
        PayStep::Send { authorization: "Bearer tok".to_string() }
    );
    assert_eq!(reply_action(401), ReplyAction::Relogin);
}

#[test]
fn address_amount_rules() {
    let t = "tok".to_string();
    let none = PayAddressRequest { address: "tb1q".to_string(), amount: None };
    assert_eq!(send_amount(&none), 5_000);
    assert_eq!(pay_mutinynet_address(&none, Some(&t)), PayStep::Send { authorization: "Bearer tok".to_string() });
    let max = PayAddressRequest { address: "tb1q".to_string(), amount: Some(100_000) };
    assert_eq!(pay_mutinynet_address(&max, Some(&t)), PayStep::Send { authorization: "Bearer tok".to_string() });
    let high = PayAddressRequest { address: "tb1q".to_string(), amount: Some(100_001) };
    match pay_mutinynet_address(&high, Some(&t)) {
        PayStep::Refuse(r) => {
            assert!(r.is_error);
            assert_eq!(
                r.content,
                vec![CallToolResultContent::Text {
                    text: "Amount is too high, max send amount is 1,000,000 sats".to_string()
                }]
            );
        }
        other => panic!("unexpected step {:?}", other),
    }
}

#[test]
fn reply_statuses() {
    assert_eq!(reply_action(200), ReplyAction::Decode);
    assert_eq!(reply_action(299), ReplyAction::Decode);
    assert_eq!(reply_action(401), ReplyAction::Relogin);
    assert_eq!(reply_action(500), ReplyAction::Report);
    assert_eq!(reply_action(199), ReplyAction::Report);
}

#[test]
fn payment_results_and_errors() {
    let e = payment_failure(&"500 Internal Server Error".to_string(), Some(&"boom".to_string()));
    assert_eq!(e, HandlerError { code: -32603, message: "Error (500 Internal Server Error): boom".to_string() });
    let e = payment_failure(&"500 Internal Server Error".to_string(), None);
    assert_eq!(e.message, "Error decoding text");
    let ok = invoice_paid(Some(&LightningResponse { payment_hash: "ff00".to_string() })).unwrap();
    assert_eq!(ok.content, vec![CallToolResultContent::Text { text: "Payment success! Preimage: ff00".to_string() }]);
    assert!(!ok.is_error);
    let ok = address_paid(Some(&OnChainResponse { txid: "abcd".to_string() })).unwrap();
    assert_eq!(ok.content, vec![CallToolResultContent::Text { text: "Payment success! Transaction id: abcd".to_string() }]);
    let bad = address_paid(None).unwrap_err();
    assert_eq!(bad, HandlerError { code: -32603, message: "Error decoding response".to_string() });
    assert_eq!(outcome_of(Err(bad)), Outcome::Error(HandlerError { code: -32603, message: "Error decoding response".to_string() }));
}

#[test]
fn login_instructions_and_polling() {
    let r = login(Some(&device())).unwrap();
    assert!(!r.is_error);
    assert_eq!(
        r.content,
        vec![CallToolResultContent::Text {
            text: "Open this url: https://github.com/login/device and enter the code: ABCD-1234 to login".to_string()
        }]
    );
    assert_eq!(login(None).unwrap_err(), HandlerError { code: -32603, message: "Internal error".to_string() });
    assert!(login_poll_continues(909, &device()));
    assert!(!login_poll_continues(910, &device()));
    let mut forever = device();
    forever.expires_in = u64::MAX;
    assert!(login_poll_continues(u64::MAX, &forever));
}

#[test]
fn tool_result_json() {
    let j = login_json();
    let text = "Open this url: https://github.com/login/device and enter the code: ABCD-1234 to login";
    assert_eq!(
        j,
        obj(vec![
            ("content", JsonValue::Array(vec![obj(vec![("type", s("text")), ("text", s(text))])])),
            ("isError", JsonValue::Bool(false)),
        ])
    );
}

#[test]
fn token_round_trip() {
    let t = "gho_abc123".to_string();
    assert_eq!(get_bearer_token(Some(&write_bearer_token(&t))), Some(t.clone()));
    let trailing = format!("{}\n\t ", t);
    assert_eq!(get_bearer_token(Some(&write_bearer_token(&trailing))), Some(t.clone()));
    let leading = format!("  {}\n", t);
    assert_eq!(get_bearer_token(Some(&write_bearer_token(&leading))), Some(format!("  {}", t)));
    assert_eq!(get_bearer_token(Some(&" a".to_string())), Some(" a".to_string()));
    assert_eq!(get_bearer_token(None), None);
    assert_eq!(get_bearer_token(Some(&"".to_string())), Some("".to_string()));
}

#[test]
fn trim_follows_unicode_white_space() {
    assert_eq!(trim_trailing("\u{3000}\u{a0} a b \u{2028}\u{a0}"), "\u{3000}\u{a0} a b");
    assert_eq!(trim_trailing("   "), "");
    assert_eq!(trim_trailing("x"), "x");
}

#[test]
fn token_location_under_home() {
    assert_eq!(get_bearer_token_location(&"/root".to_string()), "/root/.config/mcp/mutinynet/gh-token");
    assert_eq!(get_bearer_token_location(&"/root/".to_string()), "/root/.config/mcp/mutinynet/gh-token");
    assert_eq!(get_bearer_token_location(&"".to_string()), ".config/mcp/mutinynet/gh-token");
}

#[test]
fn shutdown_hook_runs_once() {
    let mut latch = ShutdownLatch::new();
    assert!(latch.on_signal());
    assert!(!latch.on_signal());
    assert!(!latch.on_signal());
}

#[test]
fn decimal_text() {
    assert_eq!(int_to_text(0), "0");
    assert_eq!(int_to_text(-1), "-1");
    assert_eq!(int_to_text(-32603), "-32603");
    assert_eq!(int_to_text(1234567), "1234567");
    assert_eq!(int_to_text(i64::MIN), "-9223372036854775808");
    assert_eq!(int_to_text(i64::MAX), "9223372036854775807");
}

#[test]
fn handler_error_is_passed_on_verbatim() {
    let resp = complete(RequestId::Str("q".to_string()), outcome_of(prompts_get())).unwrap();
    assert_eq!(
        resp.to_json(),
        obj(vec![
            ("jsonrpc", s("2.0")),
            ("id", s("q")),
            ("error", obj(vec![("code", n("-32602")), ("message", s("Prompt not found"))])),
        ])
    );
}

#[test]
fn protocol_results() {
    assert_eq!(
        initialize(),
        obj(vec![
            ("protocolVersion", s("2024-11-05")),
            ("capabilities", obj(vec![("prompts", obj(vec![])), ("tools", obj(vec![]))])),
            ("serverInfo", obj(vec![("name", s("mcp-mutinynet")), ("version", s("0.1.0"))])),
        ])
    );
    assert_eq!(
        roots_list(),
        obj(vec![(
            "roots",
            JsonValue::Array(vec![obj(vec![
                ("name", s("my project")),
                ("url", s("file:///home/user/projects/my-project")),
            ])])
        )])
    );
    assert_eq!(
        resource_read("file:///t".to_string(), true),
        obj(vec![(
            "content",
            obj(vec![("uri", s("file:///t")), ("mimeType", s("text/plain")), ("text", s("true"))])
        )])
    );
}

#[test]
fn tools_are_listed_in_order() {
    let j = tools_list();
    let tools = match j {
        JsonValue::Object(mut f) => match f.remove(0).1 {
            JsonValue::Array(a) => a,
            other => panic!("unexpected {:?}", other),
        },
        other => panic!("unexpected {:?}", other),
    };
    let names: Vec<JsonValue> = tools
        .into_iter()
        .map(|t| match t {
            JsonValue::Object(mut f) => f.remove(0).1,
            other => other,
        })
        .collect();
    assert_eq!(names, vec![s("login"), s("pay_mutinynet_invoice"), s("pay_mutinynet_address")]);
}

#[test]
fn resource_uri_is_normalised() {
    let j = resources_list(&"/home/a b/gh-token".to_string()).unwrap();
    let expected_uri = "file:///home/a%20b/gh-token";
    match j {
        JsonValue::Object(mut f) => match f.remove(0).1 {
            JsonValue::Array(mut a) => match a.remove(0) {
                JsonValue::Object(mut r) => assert_eq!(r.remove(0).1, s(expected_uri)),
                other => panic!("unexpected {:?}", other),
            },
            other => panic!("unexpected {:?}", other),
        },
        other => panic!("unexpected {:?}", other),
    }
}

#[test]
fn listings_follow_flags() {
    let none = Args { resources: false, prompts: false, tools: false, mcp: false, json: false };
    assert!(!none.is_args_available());
    assert_eq!(display_info(&none), vec![Listing::Usage]);
    let all = Args { resources: true, prompts: true, tools: true, mcp: false, json: true };
    assert_eq!(display_info(&all), vec![Listing::PromptsJson, Listing::ResourcesJson, Listing::ToolsJson]);
    let text = Args { resources: false, prompts: false, tools: true, mcp: false, json: false };
    assert_eq!(display_info(&text), vec![Listing::ToolsText]);
}

#[test]
fn decimal_parsing() {
    assert_eq!(parse_u64("0"), Some(0));
    assert_eq!(parse_u64("2000000"), Some(2_000_000));
    assert_eq!(parse_u64("18446744073709551615"), Some(u64::MAX));
    assert_eq!(parse_u64("18446744073709551616"), None);
    assert_eq!(parse_u64("99999999999999999999x"), None);
    assert_eq!(parse_u64(""), None);
    assert_eq!(parse_u64("-5"), None);
    assert_eq!(parse_u64("2000000.0"), None);
}

#[test]
fn tool_parameters_decode() {
    let p = obj(vec![("address", s("tb1q")), ("amount", n("2000000"))]);
    assert_eq!(
        PayAddressRequest::from_params(Some(&p)),
        Some(PayAddressRequest { address: "tb1q".to_string(), amount: Some(2_000_000) })
    );
    let p = obj(vec![("address", s("tb1q")), ("amount", JsonValue::Null)]);
    assert_eq!(
        PayAddressRequest::from_params(Some(&p)),
        Some(PayAddressRequest { address: "tb1q".to_string(), amount: None })
    );
    let p = obj(vec![("address", s("tb1q")), ("amount", n("-3"))]);
    assert_eq!(PayAddressRequest::from_params(Some(&p)), None);
    assert_eq!(PayAddressRequest::from_params(None), None);
    let p = obj(vec![("invoice", s("lntbs1"))]);
    assert_eq!(
        PayInvoiceRequest::from_params(Some(&p)),
        Some(PayInvoiceRequest { invoice: "lntbs1".to_string() })
    );
    assert_eq!(PayInvoiceRequest::from_params(Some(&obj(vec![]))), None);
    assert_eq!(uri_param(Some(&obj(vec![("uri", s("file:///t"))]))), Some("file:///t".to_string()));
    assert_eq!(uri_param(Some(&obj(vec![("uri", n("1"))]))), None);
}

#[test]
fn notification_to_client() {
    let j = mcp_mutinynet::protocol::notify("notifications/message", None);
    assert_eq!(
        j,
        obj(vec![("jsonrpc", s("2.0")), ("method", s("notifications/message")), ("params", JsonValue::Null)])
    );
    let j = mcp_mutinynet::protocol::notify("x", Some(obj(vec![("a", n("1"))])));
    assert_eq!(j, obj(vec![("jsonrpc", s("2.0")), ("method", s("x")), ("params", obj(vec![("a", n("1"))]))]));
}

#[test]
fn empty_results() {
    assert_eq!(mcp_mutinynet::protocol::logging_set_level(), obj(vec![]));
    assert_eq!(
        mcp_mutinynet::protocol::prompts_list(),
        obj(vec![("prompts", JsonValue::Array(vec![]))])
    );
}

#[test]
fn login_poller_steps() {
    let d = device();
    assert_eq!(login_poll_step(3, &d, Some("tok".to_string())), PollAction::Store("tok".to_string()));
    assert_eq!(login_poll_step(2000, &d, Some("tok".to_string())), PollAction::Store("tok".to_string()));
    assert_eq!(login_poll_step(909, &d, None), PollAction::Sleep(5));
    assert_eq!(login_poll_step(910, &d, None), PollAction::Stop);
}

#[test]
fn local_methods_are_answered_without_io() {
    expect_local(Method::Ping, Some(Outcome::Value(obj(vec![]))));
    expect_local(Method::LoggingSetLevel, Some(Outcome::Value(obj(vec![]))));
    expect_local(Method::Initialize, Some(Outcome::Value(initialize())));
    expect_local(Method::RootsList, Some(Outcome::Value(roots_list())));
    expect_local(Method::ToolsList, Some(Outcome::Value(tools_list())));
    expect_local(
        Method::PromptsGet,
        Some(Outcome::Error(HandlerError { code: -32602, message: "Prompt not found".to_string() })),
    );
    expect_local(Method::Login, None);
    expect_local(Method::ResourcesList, None);
    expect_local(Method::ResourcesRead, None);
    expect_local(Method::PayMutinynetInvoice, None);
    expect_local(Method::PayMutinynetAddress, None);
}

fn expect_local(m: Method, expected: Option<Outcome>) {
    assert_eq!(local_outcome(m), expected);
}

//! The tools: their descriptors, and the decisions of the login and
//! payment handlers around the calls they make to remote services.
use vstd::prelude::*;
use vstd::string::*;
use crate::json::text;
use crate::dispatch::HandlerError;

verus! {

/// The code of a handler error that a failed remote call produces.
pub const INTERNAL_ERROR_CODE: i64 = -32603;

/// Amount in satoshis sent to an address when the request names none.
pub const DEFAULT_SEND_SATS: u64 = 5_000;

/// Largest amount in satoshis sent to an address.
pub const MAX_SEND_SATS: u64 = 100_000;

/// Seconds that the login poller keeps going after the device code expires.
pub const LOGIN_GRACE_SECS: u64 = 10;

/// One item of a tool's result.
#[derive(Debug, PartialEq, Eq)]
pub enum CallToolResultContent {
    Text { text: String },
}

/// The result of a tool call.
#[derive(Debug, PartialEq, Eq)]
pub struct CallToolResult {
    pub is_error: bool,
    pub content: Vec<CallToolResultContent>,
}

/// The result of a tool call, or the error it returns.
pub type ToolResult = Result<CallToolResult, HandlerError>;

/// The parameters of `login`: none.
#[derive(Debug, PartialEq, Eq)]
pub struct LoginRequest {}

/// The parameters of `pay_mutinynet_invoice`.
#[derive(Debug, PartialEq, Eq)]
pub struct PayInvoiceRequest {
    pub invoice: String,
}

/// What the faucet answers to a paid invoice.
#[derive(Debug, PartialEq, Eq)]
pub struct LightningResponse {
    pub payment_hash: String,
}

/// The parameters of `pay_mutinynet_address`.
#[derive(Debug, PartialEq, Eq)]
pub struct PayAddressRequest {
    pub address: String,
    pub amount: Option<u64>,
}

/// What the faucet answers to a payment to an address.
#[derive(Debug, PartialEq, Eq)]
pub struct OnChainResponse {
    pub txid: String,
}

/// What the authorization endpoint answers to a device-code request.
#[derive(Debug, PartialEq, Eq)]
pub struct DeviceLogin {
    pub device_code: String,
    pub user_code: String,
    pub verification_uri: String,
    pub expires_in: u64,
    pub interval: u64,
}

/// What the login poller does after one attempt to obtain the token.
#[derive(Debug, PartialEq, Eq)]
pub enum PollAction {
    /// Give up: the device code has expired.
    Stop,
    /// Store this token, replacing any earlier one, and stop.
    Store(String),
    /// Wait this many seconds before the next attempt.
    Sleep(u64),
}

/// What a payment handler does next.
#[derive(Debug, PartialEq, Eq)]
pub enum PayStep {
    /// No usable token: answer with the login flow.
    Login,
    /// The request is refused with this result, without a remote call.
    Refuse(CallToolResult),
    /// Send the payment with this `Authorization` header value.
    Send { authorization: String },
}

/// What a payment handler does with the status of the faucet's answer.
#[derive(PartialEq, Eq, Structural, Debug, Clone, Copy)]
pub enum ReplyAction {
    /// A success status: decode the body.
    Decode,
    /// The token was refused: answer with the login flow.
    Relogin,
    /// Any other status: report it with the body's text.
    Report,
}

/// `r` is a result with the single text `t`.
pub open spec fn is_text_result(r: CallToolResult, is_error: bool, t: Seq<char>) -> bool {
    &&& r.is_error == is_error
    &&& r.content@.len() == 1
    &&& r.content@[0]->Text_text@ == t
}

/// `e` is the internal error with message `m`.
pub open spec fn is_internal_error(e: HandlerError, m: Seq<char>) -> bool {
    e.code == -32603 && e.message@ == m
}

/// A result with the single text `t`.
pub fn text_result(is_error: bool, t: String) -> (r: CallToolResult)
    ensures
        is_text_result(r, is_error, t@),
{
    let mut content: Vec<CallToolResultContent> = Vec::new();
    content.push(CallToolResultContent::Text { text: t });
    CallToolResult { is_error, content }
}

fn internal_error(m: &str) -> (r: HandlerError)
    ensures
        is_internal_error(r, m@),
{
    HandlerError { code: INTERNAL_ERROR_CODE, message: text(m) }
}

/// The instructions that a login answers with.
pub open spec fn login_text(uri: Seq<char>, code: Seq<char>) -> Seq<char> {
    "Open this url: "@ + uri + " and enter the code: "@ + code + " to login"@
}

/// Answers a login with instructions for the device code that the
/// authorization endpoint gave, or with an internal error where it gave none.
pub fn login(device: Option<&DeviceLogin>) -> (r: ToolResult)
    ensures
        match device {
            Some(d) => r is Ok && is_text_result(r->Ok_0, false, login_text(d.verification_uri@, d.user_code@)),
            None => r is Err && is_internal_error(r->Err_0, "Internal error"@),
        },
{
    match device {
        Some(d) => {
            let mut t = text("Open this url: ");
            t.append(d.verification_uri.as_str());
            t.append(" and enter the code: ");
            t.append(d.user_code.as_str());
            t.append(" to login");
            Ok(text_result(false, t))
        },
        None => Err(internal_error("Internal error")),
    }
}

/// Whether the login poller keeps polling after `elapsed` seconds: it stops
/// once the device code has been expired for the grace period.
pub fn login_poll_continues(elapsed: u64, device: &DeviceLogin) -> (r: bool)
    ensures
        r == (elapsed < device.expires_in + 10),
{
    if device.expires_in > u64::MAX - LOGIN_GRACE_SECS {
        true
    } else {
        elapsed < device.expires_in + LOGIN_GRACE_SECS
    }
}

/// Decides the login poller's next move after `elapsed` seconds, where this
/// round's attempt obtained `token` or nothing: a token is stored; otherwise
/// the poller waits the interval that the endpoint asked for, until the
/// device code has been expired for the grace period.
pub fn login_poll_step(elapsed: u64, device: &DeviceLogin, token: Option<String>) -> (r: PollAction)
    ensures
        r == (match token {
            Some(t) => PollAction::Store(t),
            None => if elapsed < device.expires_in + 10 {
                PollAction::Sleep(device.interval)
            } else {
                PollAction::Stop
            },
        }),
{
    match token {
        Some(t) => PollAction::Store(t),
        None => if login_poll_continues(elapsed, device) {
            PollAction::Sleep(device.interval)
        } else {
            PollAction::Stop
        },
    }
}

/// The `Authorization` header value for `token`.
pub fn bearer(token: &String) -> (r: String)
    ensures
        r@ == "Bearer "@ + token@,
{
    let mut h = text("Bearer ");
    h.append(token.as_str());
    h
}

/// Decides a payment to an invoice: without a token it becomes a login.
pub fn pay_mutinynet_invoice(req: &PayInvoiceRequest, token: Option<&String>) -> (r: PayStep)
    ensures
        match token {
            None => r is Login,
            Some(t) => r is Send && r->authorization@ == "Bearer "@ + t@,
        },
{
    match token {
        None => PayStep::Login,
        Some(t) => PayStep::Send { authorization: bearer(t) },
    }
}

/// The amount that a payment to an address sends.
pub open spec fn address_sats(req: PayAddressRequest) -> u64 {
    match req.amount {
        Some(a) => a,
        None => 5_000,
    }
}

/// The amount that a payment to an address sends.
pub fn send_amount(req: &PayAddressRequest) -> (r: u64)
    ensures
        r == address_sats(*req),
{
    match req.amount {
        Some(a) => a,
        None => DEFAULT_SEND_SATS,
    }
}

/// Decides a payment to an address: without a token it becomes a login;
/// with one, an amount over the maximum is refused.
pub fn pay_mutinynet_address(req: &PayAddressRequest, token: Option<&String>) -> (r: PayStep)
    ensures
        match token {
            None => r is Login,
            Some(t) => if address_sats(*req) > 100_000 {
                r is Refuse && is_text_result(
                    r->Refuse_0,
                    true,
                    "Amount is too high, max send amount is 1,000,000 sats"@,
                )
            } else {
                r is Send && r->authorization@ == "Bearer "@ + t@
            },
        },
{
    match token {
        None => PayStep::Login,
        Some(t) => {
            if send_amount(req) > MAX_SEND_SATS {
                PayStep::Refuse(
                    text_result(true, text("Amount is too high, max send amount is 1,000,000 sats")),
                )
            } else {
                PayStep::Send { authorization: bearer(t) }
            }
        },
    }
}

/// What to do with the faucet's answer, by its HTTP status.
pub fn reply_action(status: u16) -> (r: ReplyAction)
    ensures
        r == (if 200 <= status < 300 {
            ReplyAction::Decode
        } else if status == 401 {
            ReplyAction::Relogin
        } else {
            ReplyAction::Report
        }),
{
    if 200 <= status && status < 300 {
        ReplyAction::Decode
    } else if status == 401 {
        ReplyAction::Relogin
    } else {
        ReplyAction::Report
    }
}

/// The error for a request that could not be sent.
pub fn request_failed() -> (r: HandlerError)
    ensures
        is_internal_error(r, "Error making request"@),
{
    internal_error("Error making request")
}

/// The error that reports a failure status `status` (as it is displayed)
/// with the answer's text, or that the text could not be read.
pub fn payment_failure(status: &String, body: Option<&String>) -> (r: HandlerError)
    ensures
        match body {
            Some(b) => is_internal_error(r, "Error ("@ + status@ + "): "@ + b@),
            None => is_internal_error(r, "Error decoding text"@),
        },
{
    match body {
        Some(b) => {
            let mut m = text("Error (");
            m.append(status.as_str());
            m.append("): ");
            m.append(b.as_str());
            HandlerError { code: INTERNAL_ERROR_CODE, message: m }
        },
        None => internal_error("Error decoding text"),
    }
}

/// The result of a paid invoice, or the error for an answer that did not decode.
pub fn invoice_paid(resp: Option<&LightningResponse>) -> (r: ToolResult)
    ensures
        match resp {
            Some(p) => r is Ok && is_text_result(r->Ok_0, false, "Payment success! Preimage: "@ + p.payment_hash@),
            None => r is Err && is_internal_error(r->Err_0, "Error decoding response"@),
        },
{
    match resp {
        Some(p) => {
            let mut t = text("Payment success! Preimage: ");
            t.append(p.payment_hash.as_str());
            Ok(text_result(false, t))
        },
        None => Err(internal_error("Error decoding response")),
    }
}

/// The result of a payment to an address, or the error for an answer that did not decode.
pub fn address_paid(resp: Option<&OnChainResponse>) -> (r: ToolResult)
    ensures
        match resp {
            Some(p) => r is Ok && is_text_result(r->Ok_0, false, "Payment success! Transaction id: "@ + p.txid@),
            None => r is Err && is_internal_error(r->Err_0, "Error decoding response"@),
        },
{
    match resp {
        Some(p) => {
            let mut t = text("Payment success! Transaction id: ");
            t.append(p.txid.as_str());
            Ok(text_result(false, t))
        },
        None => Err(internal_error("Error decoding response")),
    }
}

} // verus!

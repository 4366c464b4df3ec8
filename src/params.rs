//! Decoding of the tools' parameters from their JSON form.
use vstd::prelude::*;
use vstd::string::*;
use crate::json::{JsonValue, spec_get};
use crate::tools::{PayInvoiceRequest, PayAddressRequest};

verus! {

/// Whether `c` is a decimal digit.
pub open spec fn is_digit(c: char) -> bool {
    '0' <= c && c <= '9'
}

/// The value of a string of decimal digits.
pub open spec fn digits_value(s: Seq<char>) -> nat
    decreases s.len(),
{
    if s.len() == 0 {
        0
    } else {
        digits_value(s.drop_last()) * 10 + ((s.last() as u32) - 48) as nat
    }
}

/// The unsigned 64-bit integer that `s` writes in decimal digits.
pub open spec fn spec_parse_u64(s: Seq<char>) -> Option<u64> {
    if s.len() > 0 && (forall|i: int| 0 <= i < s.len() ==> is_digit(#[trigger] s[i]))
        && digits_value(s) <= u64::MAX {
        Some(digits_value(s) as u64)
    } else {
        None
    }
}

proof fn lemma_digits_value_grows(s: Seq<char>, k: int)
    requires
        0 <= k <= s.len(),
        forall|i: int| 0 <= i < s.len() ==> is_digit(#[trigger] s[i]),
    ensures
        digits_value(s.take(k)) <= digits_value(s),
    decreases s.len(),
{
    if k < s.len() {
        assert(s.drop_last().take(k) =~= s.take(k));
        lemma_digits_value_grows(s.drop_last(), k);
    } else {
        assert(s.take(k) =~= s);
    }
}

/// Reads an unsigned 64-bit integer written in decimal digits.
pub fn parse_u64(s: &str) -> (r: Option<u64>)
    ensures
        r == spec_parse_u64(s@),
{
    let n = s.unicode_len();
    if n == 0 {
        return None;
    }
    let mut acc: u64 = 0;
    let mut i: usize = 0;
    while i < n
        invariant
            n == s@.len(),
            i <= n,
            acc as nat == digits_value(s@.take(i as int)),
            forall|j: int| 0 <= j < i ==> is_digit(#[trigger] s@[j]),
        decreases n - i,
    {
        let c = s.get_char(i);
        if !('0' <= c && c <= '9') {
            return None;
        }
        let d: u64 = (c as u32 - 48) as u64;
        assert(s@.take(i + 1).drop_last() =~= s@.take(i as int));
        if acc > (u64::MAX - d) / 10 {
            proof {
                if forall|j: int| 0 <= j < s@.len() ==> is_digit(#[trigger] s@[j]) {
                    lemma_digits_value_grows(s@, i + 1);
                }
            }
            return None;
        }
        assert(acc * 10 + d <= u64::MAX) by (nonlinear_arith)
            requires
                acc <= (u64::MAX - d) / 10,
                d <= 9,
        ;
        acc = acc * 10 + d;
        i = i + 1;
    }
    assert(s@.take(n as int) =~= s@);
    Some(acc)
}

/// The parameters of `pay_mutinynet_invoice` that `p` holds: a string `invoice`.
pub open spec fn spec_invoice_params(p: Option<JsonValue>) -> Option<PayInvoiceRequest> {
    match p {
        Some(v) => match spec_get(v, "invoice"@) {
            Some(JsonValue::Str(i)) => Some(PayInvoiceRequest { invoice: i }),
            _ => None,
        },
        None => None,
    }
}

/// The parameters of `pay_mutinynet_address` that `p` holds: a string
/// `address`, and an `amount` that is absent, null, or an unsigned integer.
pub open spec fn spec_address_params(p: Option<JsonValue>) -> Option<PayAddressRequest> {
    match p {
        Some(v) => match spec_get(v, "address"@) {
            Some(JsonValue::Str(a)) => match spec_get(v, "amount"@) {
                None => Some(PayAddressRequest { address: a, amount: None }),
                Some(JsonValue::Null) => Some(PayAddressRequest { address: a, amount: None }),
                Some(JsonValue::Number(t)) => match spec_parse_u64(t@) {
                    Some(n) => Some(PayAddressRequest { address: a, amount: Some(n) }),
                    None => None,
                },
                _ => None,
            },
            _ => None,
        },
        None => None,
    }
}

/// The `uri` that the parameters of `resources/read` hold.
pub open spec fn spec_uri_param(p: Option<JsonValue>) -> Option<Seq<char>> {
    match p {
        Some(v) => match spec_get(v, "uri"@) {
            Some(JsonValue::Str(u)) => Some(u@),
            _ => None,
        },
        None => None,
    }
}

impl PayInvoiceRequest {
    /// Decodes the parameters of `pay_mutinynet_invoice`.
    pub fn from_params(p: Option<&JsonValue>) -> (r: Option<PayInvoiceRequest>)
        ensures
            r == spec_invoice_params(match p {
                Some(v) => Some(*v),
                None => None,
            }),
    {
        match p {
            Some(v) => match v.get("invoice") {
                Some(JsonValue::Str(i)) => Some(PayInvoiceRequest { invoice: i.clone() }),
                _ => None,
            },
            None => None,
        }
    }
}

impl PayAddressRequest {
    /// Decodes the parameters of `pay_mutinynet_address`.
    pub fn from_params(p: Option<&JsonValue>) -> (r: Option<PayAddressRequest>)
        ensures
            r == spec_address_params(match p {
                Some(v) => Some(*v),
                None => None,
            }),
    {
        match p {
            Some(v) => match v.get("address") {
                Some(JsonValue::Str(a)) => match v.get("amount") {
                    None => Some(PayAddressRequest { address: a.clone(), amount: None }),
                    Some(JsonValue::Null) => Some(PayAddressRequest { address: a.clone(), amount: None }),
                    Some(JsonValue::Number(t)) => match parse_u64(t.as_str()) {
                        Some(n) => Some(PayAddressRequest { address: a.clone(), amount: Some(n) }),
                        None => None,
                    },
                    _ => None,
                },
                _ => None,
            },
            None => None,
        }
    }
}

/// Decodes the `uri` of the parameters of `resources/read`.
pub fn uri_param(p: Option<&JsonValue>) -> (r: Option<String>)
    ensures
        match r {
            Some(u) => spec_uri_param(match p {
                Some(v) => Some(*v),
                None => None,
            }) == Some(u@),
            None => spec_uri_param(match p {
                Some(v) => Some(*v),
                None => None,
            }) is None,
        },
{
    match p {
        Some(v) => match v.get("uri") {
            Some(JsonValue::Str(u)) => Some(u.clone()),
            _ => None,
        },
        None => None,
    }
}

} // verus!

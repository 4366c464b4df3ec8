//! The JSON form of responses and of integers.
use vstd::prelude::*;
use vstd::string::*;
use crate::json::{JsonValue, text};
use crate::dispatch::{Response, ResponseBody, INVALID_CALL_CODE};

verus! {

/// The decimal digit `d`, for `d` below ten.
pub open spec fn digit(d: int) -> char {
    seq!['0', '1', '2', '3', '4', '5', '6', '7', '8', '9'][d]
}

/// The decimal text of `n`, without leading zeros.
pub open spec fn nat_text(n: nat) -> Seq<char>
    decreases n,
{
    if n < 10 {
        seq![digit(n as int)]
    } else {
        nat_text(n / 10) + seq![digit((n % 10) as int)]
    }
}

/// The decimal text of `n`, with a minus sign where it is negative.
pub open spec fn int_text(n: int) -> Seq<char> {
    if n < 0 {
        seq!['-'] + nat_text((-n) as nat)
    } else {
        nat_text(n as nat)
    }
}

fn digit_str(d: u64) -> (r: &'static str)
    requires
        d < 10,
    ensures
        r@ == seq![digit(d as int)],
{
    proof {
        reveal_strlit("0");
        reveal_strlit("1");
        reveal_strlit("2");
        reveal_strlit("3");
        reveal_strlit("4");
        reveal_strlit("5");
        reveal_strlit("6");
        reveal_strlit("7");
        reveal_strlit("8");
        reveal_strlit("9");
    }
    match d {
        0 => "0",
        1 => "1",
        2 => "2",
        3 => "3",
        4 => "4",
        5 => "5",
        6 => "6",
        7 => "7",
        8 => "8",
        _ => "9",
    }
}

fn push_digits(n: u64, out: &mut String)
    ensures
        final(out)@ == old(out)@ + nat_text(n as nat),
    decreases n,
{
    if n >= 10 {
        push_digits(n / 10, out);
    }
    out.append(digit_str(n % 10));
    proof {
        assert(final(out)@ =~= old(out)@ + nat_text(n as nat));
    }
}

/// The decimal text of `n`.
pub fn int_to_text(n: i64) -> (r: String)
    ensures
        r@ == int_text(n as int),
{
    let mut out = String::new();
    if n < 0 {
        out.append("-");
        let m: u64 = (0i128 - n as i128) as u64;
        push_digits(m, &mut out);
        proof {
            reveal_strlit("-");
            assert(out@ =~= int_text(n as int));
        }
    } else {
        push_digits(n as u64, &mut out);
        proof {
            assert(out@ =~= int_text(n as int));
        }
    }
    out
}

/// `j` is the object `{"code": code, "message": message}`.
pub open spec fn is_error_json(j: JsonValue, code: int, message: Seq<char>) -> bool {
    &&& j is Object
    &&& j->Object_0@.len() == 2
    &&& j->Object_0@[0].0@ == "code"@
    &&& j->Object_0@[0].1 is Number
    &&& j->Object_0@[0].1->Number_0@ == int_text(code)
    &&& j->Object_0@[1].0@ == "message"@
    &&& j->Object_0@[1].1 is Str
    &&& j->Object_0@[1].1->Str_0@ == message
}

/// `j` is the envelope of `resp`: `{"jsonrpc": "2.0", "id": .., "result": ..}`,
/// or `{"jsonrpc": "2.0", "id": .., "error": {"code": .., "message": ..}}`.
pub open spec fn is_response_json(resp: Response, j: JsonValue) -> bool {
    &&& j is Object
    &&& j->Object_0@.len() == 3
    &&& j->Object_0@[0].0@ == "jsonrpc"@
    &&& j->Object_0@[0].1 is Str
    &&& j->Object_0@[0].1->Str_0@ == "2.0"@
    &&& j->Object_0@[1].0@ == "id"@
    &&& j->Object_0@[1].1 == resp.id.spec_json()
    &&& match resp.body {
        ResponseBody::Result(v) => j->Object_0@[2].0@ == "result"@ && j->Object_0@[2].1 == v,
        ResponseBody::Error(e) => j->Object_0@[2].0@ == "error"@
            && is_error_json(j->Object_0@[2].1, e.code as int, e.message@),
        ResponseBody::InvalidCall => j->Object_0@[2].0@ == "error"@
            && is_error_json(j->Object_0@[2].1, -1, "Invalid json-rpc call"@),
    }
}

fn error_json(code: i64, message: String) -> (r: JsonValue)
    ensures
        is_error_json(r, code as int, message@),
{
    let mut fields: Vec<(String, JsonValue)> = Vec::new();
    fields.push((text("code"), JsonValue::Number(int_to_text(code))));
    fields.push((text("message"), JsonValue::Str(message)));
    JsonValue::Object(fields)
}

impl Response {
    /// The JSON envelope of the response.
    pub fn to_json(self) -> (r: JsonValue)
        ensures
            is_response_json(self, r),
    {
        let Response { id, body } = self;
        let mut fields: Vec<(String, JsonValue)> = Vec::new();
        fields.push((text("jsonrpc"), JsonValue::Str(text("2.0"))));
        fields.push((text("id"), id.to_json()));
        match body {
            ResponseBody::Result(v) => fields.push((text("result"), v)),
            ResponseBody::Error(e) => fields.push((text("error"), error_json(e.code, e.message))),
            ResponseBody::InvalidCall => fields.push(
                (text("error"), error_json(INVALID_CALL_CODE, text("Invalid json-rpc call"))),
            ),
        }
        JsonValue::Object(fields)
    }
}

} // verus!

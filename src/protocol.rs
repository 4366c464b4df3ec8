//! The results of the protocol methods and of `tools/list`.
use vstd::prelude::*;
use vstd::string::*;
use crate::json::{JsonValue, text, string, pair, empty_object, is_object_of, is_array_of, key_at, str_at, entry};
use crate::dispatch::{HandlerError, Outcome, outcome_of};
use crate::router::{Method, tool_method, lemma_method_names_distinct};
use crate::tools::{CallToolResult, CallToolResultContent};

verus! {

/// `r` is the result of `initialize`.
pub open spec fn is_initialize_result(r: JsonValue) -> bool {
    &&& is_object_of(r, 3)
    &&& str_at(r, 0, "protocolVersion"@, "2024-11-05"@)
    &&& key_at(r, 1, "capabilities"@)
    &&& is_object_of(entry(r, 1).1, 2)
    &&& key_at(entry(r, 1).1, 0, "prompts"@)
    &&& is_object_of(entry(entry(r, 1).1, 0).1, 0)
    &&& key_at(entry(r, 1).1, 1, "tools"@)
    &&& is_object_of(entry(entry(r, 1).1, 1).1, 0)
    &&& key_at(r, 2, "serverInfo"@)
    &&& is_object_of(entry(r, 2).1, 2)
    &&& str_at(entry(r, 2).1, 0, "name"@, "mcp-mutinynet"@)
    &&& str_at(entry(r, 2).1, 1, "version"@, "0.1.0"@)
}

/// The result of `initialize`: protocol version, capabilities, server identity.
pub fn initialize() -> (r: JsonValue)
    ensures
        is_initialize_result(r),
{
    let mut caps: Vec<(String, JsonValue)> = Vec::new();
    caps.push(pair("prompts", empty_object()));
    caps.push(pair("tools", empty_object()));
    let mut info: Vec<(String, JsonValue)> = Vec::new();
    info.push(pair("name", string("mcp-mutinynet")));
    info.push(pair("version", string("0.1.0")));
    let mut fields: Vec<(String, JsonValue)> = Vec::new();
    fields.push(pair("protocolVersion", string("2024-11-05")));
    fields.push(pair("capabilities", JsonValue::Object(caps)));
    fields.push(pair("serverInfo", JsonValue::Object(info)));
    JsonValue::Object(fields)
}

/// The result of `ping`: an empty object.
pub fn ping() -> (r: JsonValue)
    ensures
        is_object_of(r, 0),
{
    empty_object()
}

/// The result of `logging/setLevel`: an empty object.
pub fn logging_set_level() -> (r: JsonValue)
    ensures
        is_object_of(r, 0),
{
    empty_object()
}

/// `r` is the result of `roots/list`.
pub open spec fn is_roots_list(r: JsonValue) -> bool {
    &&& is_object_of(r, 1)
    &&& key_at(r, 0, "roots"@)
    &&& is_array_of(entry(r, 0).1, 1)
    &&& is_object_of(entry(r, 0).1->Array_0@[0], 2)
    &&& str_at(entry(r, 0).1->Array_0@[0], 0, "name"@, "my project"@)
    &&& str_at(entry(r, 0).1->Array_0@[0], 1, "url"@, "file:///home/user/projects/my-project"@)
}

/// The result of `roots/list`: the one root of the project.
pub fn roots_list() -> (r: JsonValue)
    ensures
        is_roots_list(r),
{
    let mut root: Vec<(String, JsonValue)> = Vec::new();
    root.push(pair("name", string("my project")));
    root.push(pair("url", string("file:///home/user/projects/my-project")));
    let mut roots: Vec<JsonValue> = Vec::new();
    roots.push(JsonValue::Object(root));
    let mut fields: Vec<(String, JsonValue)> = Vec::new();
    fields.push(pair("roots", JsonValue::Array(roots)));
    JsonValue::Object(fields)
}

/// `r` is the result of `prompts/list`.
pub open spec fn is_prompts_list(r: JsonValue) -> bool {
    &&& is_object_of(r, 1)
    &&& key_at(r, 0, "prompts"@)
    &&& is_array_of(entry(r, 0).1, 0)
}

/// The result of `prompts/list`: no prompts.
pub fn prompts_list() -> (r: JsonValue)
    ensures
        is_prompts_list(r),
{
    let mut fields: Vec<(String, JsonValue)> = Vec::new();
    fields.push(pair("prompts", JsonValue::Array(Vec::new())));
    JsonValue::Object(fields)
}

/// The answer to `prompts/get`: no prompt is found.
pub fn prompts_get() -> (r: Result<JsonValue, HandlerError>)
    ensures
        r is Err,
        r->Err_0.code == -32602,
        r->Err_0.message@ == "Prompt not found"@,
{
    Err(HandlerError { code: -32602, message: text("Prompt not found") })
}

/// What `url::Url::parse` makes of a string: the URL's serialization, or
/// nothing where the string is not an absolute URL.
pub uninterp spec fn url_serialization(s: Seq<char>) -> Option<Seq<char>>;

/// Relies on url::Url::parse, and on `String::from(Url)` for its
/// serialization; both depend on the input alone.
#[verifier::external_body]
fn parse_url(s: &str) -> (r: Option<String>)
    ensures
        match r {
            Some(u) => url_serialization(s@) == Some(u@),
            None => url_serialization(s@) is None,
        },
{
    match url::Url::parse(s) {
        Ok(u) => Some(String::from(u)),
        Err(_) => None,
    }
}

/// `r` lists the token file at the URL `uri`.
pub open spec fn is_resources_listing(r: JsonValue, uri: Seq<char>) -> bool {
    &&& is_object_of(r, 1)
    &&& key_at(r, 0, "resources"@)
    &&& is_array_of(entry(r, 0).1, 1)
    &&& is_object_of(entry(r, 0).1->Array_0@[0], 4)
    &&& str_at(entry(r, 0).1->Array_0@[0], 0, "uri"@, uri)
    &&& str_at(entry(r, 0).1->Array_0@[0], 1, "name"@, "github bearer token available"@)
    &&& str_at(
        entry(r, 0).1->Array_0@[0],
        2,
        "description"@,
        "The github bearer token will be available if the user is logged in"@,
    )
    &&& str_at(entry(r, 0).1->Array_0@[0], 3, "mimeType"@, "text/plain"@)
}

/// The result of `resources/list` for the token file at the URL `uri`.
pub fn resources_listing(uri: String) -> (r: JsonValue)
    ensures
        is_resources_listing(r, uri@),
{
    let mut res: Vec<(String, JsonValue)> = Vec::new();
    res.push(pair("uri", JsonValue::Str(uri)));
    res.push(pair("name", string("github bearer token available")));
    res.push(
        pair(
            "description",
            string("The github bearer token will be available if the user is logged in"),
        ),
    );
    res.push(pair("mimeType", string("text/plain")));
    let mut list: Vec<JsonValue> = Vec::new();
    list.push(JsonValue::Object(res));
    let mut fields: Vec<(String, JsonValue)> = Vec::new();
    fields.push(pair("resources", JsonValue::Array(list)));
    JsonValue::Object(fields)
}

/// The result of `resources/list` for the token file at path `location`:
/// its `file://` URL is listed; a path that makes no URL is an internal error.
pub fn resources_list(location: &String) -> (r: Result<JsonValue, HandlerError>)
    ensures
        match url_serialization("file://"@ + location@) {
            Some(u) => r is Ok && is_resources_listing(r->Ok_0, u),
            None => r is Err && r->Err_0.code == -32603 && r->Err_0.message@ == "Internal error"@,
        },
{
    let mut s = text("file://");
    s.append(location.as_str());
    match parse_url(s.as_str()) {
        Some(u) => Ok(resources_listing(u)),
        None => Err(HandlerError { code: -32603, message: text("Internal error") }),
    }
}

/// The result of `resources/read` of `uri`: whether a token is stored.
pub fn resource_read(uri: String, has_token: bool) -> (r: JsonValue)
    ensures
        is_object_of(r, 1),
        key_at(r, 0, "content"@),
        is_object_of(entry(r, 0).1, 3),
        str_at(entry(r, 0).1, 0, "uri"@, uri@),
        str_at(entry(r, 0).1, 1, "mimeType"@, "text/plain"@),
        str_at(entry(r, 0).1, 2, "text"@, if has_token { "true"@ } else { "false"@ }),
{
    let mut c: Vec<(String, JsonValue)> = Vec::new();
    c.push(pair("uri", JsonValue::Str(uri)));
    c.push(pair("mimeType", string("text/plain")));
    c.push(pair("text", string(if has_token { "true" } else { "false" })));
    let mut fields: Vec<(String, JsonValue)> = Vec::new();
    fields.push(pair("content", JsonValue::Object(c)));
    JsonValue::Object(fields)
}

/// The names of the tools that `tools/list` declares, in order.
pub open spec fn tool_names() -> Seq<Seq<char>> {
    seq!["login"@, "pay_mutinynet_invoice"@, "pay_mutinynet_address"@]
}

/// The descriptions of the tools that `tools/list` declares, in order.
pub open spec fn tool_descriptions() -> Seq<Seq<char>> {
    seq![
        "Authorizes the user so they can use the functionality of the mutinynet MCP server."@,
        "Pays the given mutinynet invoice"@,
        "Pays the given mutinynet address"@,
    ]
}

/// The properties (name, type, description) of the tools' input schemas, in order.
pub open spec fn tool_properties() -> Seq<Seq<(Seq<char>, Seq<char>, Seq<char>)>> {
    seq![
        seq![],
        seq![("invoice"@, "string"@, "Mutinynet invoice to pay"@)],
        seq![
            ("address"@, "string"@, "Mutinynet address to pay"@),
            (
                "amount"@,
                "number"@,
                "The amount in satoshis to pay the address, if none is given 5k sats will be used"@,
            ),
        ],
    ]
}

/// The required parameters of the tools, in order.
pub open spec fn tool_required() -> Seq<Seq<Seq<char>>> {
    seq![seq![], seq!["invoice"@], seq!["address"@]]
}

/// `s` is an input schema of type "object" with the properties `props`
/// (name, type, description) and the required names `req`.
pub open spec fn is_schema(
    s: JsonValue,
    props: Seq<(Seq<char>, Seq<char>, Seq<char>)>,
    req: Seq<Seq<char>>,
) -> bool {
    &&& is_object_of(s, 3)
    &&& str_at(s, 0, "type"@, "object"@)
    &&& key_at(s, 1, "properties"@)
    &&& is_object_of(entry(s, 1).1, props.len() as int)
    &&& forall|k: int| 0 <= k < props.len() ==> {
        &&& key_at(entry(s, 1).1, k, props[k].0)
        &&& is_object_of(#[trigger] entry(entry(s, 1).1, k).1, 2)
        &&& str_at(entry(entry(s, 1).1, k).1, 0, "type"@, props[k].1)
        &&& str_at(entry(entry(s, 1).1, k).1, 1, "description"@, props[k].2)
    }
    &&& key_at(s, 2, "required"@)
    &&& is_array_of(entry(s, 2).1, req.len() as int)
    &&& forall|k: int| 0 <= k < req.len() ==> {
        &&& (#[trigger] entry(s, 2).1->Array_0@[k]) is Str
        &&& entry(s, 2).1->Array_0@[k]->Str_0@ == req[k]
    }
}

fn property(name: &str, kind: &str, description: &str) -> (r: (String, JsonValue))
    ensures
        r.0@ == name@,
        is_object_of(r.1, 2),
        str_at(r.1, 0, "type"@, kind@),
        str_at(r.1, 1, "description"@, description@),
{
    let mut p: Vec<(String, JsonValue)> = Vec::new();
    p.push(pair("type", string(kind)));
    p.push(pair("description", string(description)));
    pair(name, JsonValue::Object(p))
}

fn tool(name: &str, description: &str, properties: Vec<(String, JsonValue)>, required: Vec<JsonValue>) -> (r: JsonValue)
    ensures
        is_object_of(r, 3),
        str_at(r, 0, "name"@, name@),
        str_at(r, 1, "description"@, description@),
        key_at(r, 2, "inputSchema"@),
        is_object_of(entry(r, 2).1, 3),
        str_at(entry(r, 2).1, 0, "type"@, "object"@),
        entry(entry(r, 2).1, 1).0@ == "properties"@,
        entry(entry(r, 2).1, 1).1 == JsonValue::Object(properties),
        entry(entry(r, 2).1, 2).0@ == "required"@,
        entry(entry(r, 2).1, 2).1 == JsonValue::Array(required),
{
    let mut schema: Vec<(String, JsonValue)> = Vec::new();
    schema.push(pair("type", string("object")));
    schema.push(pair("properties", JsonValue::Object(properties)));
    schema.push(pair("required", JsonValue::Array(required)));
    let mut t: Vec<(String, JsonValue)> = Vec::new();
    t.push(pair("name", string(name)));
    t.push(pair("description", string(description)));
    t.push(pair("inputSchema", JsonValue::Object(schema)));
    JsonValue::Object(t)
}

/// `r` is the result of `tools/list`.
pub open spec fn is_tools_list(r: JsonValue) -> bool {
    &&& is_object_of(r, 1)
    &&& key_at(r, 0, "tools"@)
    &&& is_array_of(entry(r, 0).1, 3)
    &&& forall|i: int| 0 <= i < 3 ==> {
        &&& str_at(#[trigger] entry(r, 0).1->Array_0@[i], 0, "name"@, tool_names()[i])
        &&& str_at(entry(r, 0).1->Array_0@[i], 1, "description"@, tool_descriptions()[i])
        &&& is_object_of(entry(r, 0).1->Array_0@[i], 3)
        &&& key_at(entry(r, 0).1->Array_0@[i], 2, "inputSchema"@)
        &&& is_schema(entry(entry(r, 0).1->Array_0@[i], 2).1, tool_properties()[i], tool_required()[i])
    }
}

/// The result of `tools/list`: a descriptor for each tool.
pub fn tools_list() -> (r: JsonValue)
    ensures
        is_tools_list(r),
{
    let login = tool(
        "login",
        "Authorizes the user so they can use the functionality of the mutinynet MCP server.",
        Vec::new(),
        Vec::new(),
    );
    let mut invoice_props: Vec<(String, JsonValue)> = Vec::new();
    invoice_props.push(property("invoice", "string", "Mutinynet invoice to pay"));
    let mut invoice_req: Vec<JsonValue> = Vec::new();
    invoice_req.push(string("invoice"));
    let invoice = tool("pay_mutinynet_invoice", "Pays the given mutinynet invoice", invoice_props, invoice_req);
    let mut address_props: Vec<(String, JsonValue)> = Vec::new();
    address_props.push(property("address", "string", "Mutinynet address to pay"));
    address_props.push(
        property(
            "amount",
            "number",
            "The amount in satoshis to pay the address, if none is given 5k sats will be used",
        ),
    );
    let mut address_req: Vec<JsonValue> = Vec::new();
    address_req.push(string("address"));
    let address = tool("pay_mutinynet_address", "Pays the given mutinynet address", address_props, address_req);
    proof {
        assert(is_schema(entry(login, 2).1, tool_properties()[0], tool_required()[0]));
        assert(is_schema(entry(invoice, 2).1, tool_properties()[1], tool_required()[1]));
        assert(is_schema(entry(address, 2).1, tool_properties()[2], tool_required()[2]));
    }
    let mut tools: Vec<JsonValue> = Vec::new();
    tools.push(login);
    tools.push(invoice);
    tools.push(address);
    let mut fields: Vec<(String, JsonValue)> = Vec::new();
    fields.push(pair("tools", JsonValue::Array(tools)));
    JsonValue::Object(fields)
}

/// Every tool that `tools/list` declares is bound in the registry.
pub proof fn lemma_listed_tools_registered(i: int)
    requires
        0 <= i < tool_names().len(),
    ensures
        tool_method(tool_names()[i]) is Some,
{
    lemma_method_names_distinct();
}

/// A notification to the client.
pub fn notify(method: &str, params: Option<JsonValue>) -> (r: JsonValue)
    ensures
        is_object_of(r, 3),
        str_at(r, 0, "jsonrpc"@, "2.0"@),
        str_at(r, 1, "method"@, method@),
        key_at(r, 2, "params"@),
        entry(r, 2).1 == (match params {
            Some(p) => p,
            None => JsonValue::Null,
        }),
{
    let p = match params {
        Some(p) => p,
        None => JsonValue::Null,
    };
    let mut fields: Vec<(String, JsonValue)> = Vec::new();
    fields.push(pair("jsonrpc", string("2.0")));
    fields.push(pair("method", JsonValue::Str(text(method))));
    fields.push(pair("params", p));
    JsonValue::Object(fields)
}

impl CallToolResult {
    /// The JSON form: `{"content": [{"type": "text", "text": ..}, ..], "isError": ..}`.
    pub fn to_json(self) -> (r: JsonValue)
        ensures
            is_object_of(r, 2),
            key_at(r, 0, "content"@),
            is_array_of(entry(r, 0).1, self.content@.len() as int),
            forall|i: int| 0 <= i < self.content@.len() ==> {
                &&& is_object_of(#[trigger] entry(r, 0).1->Array_0@[i], 2)
                &&& str_at(entry(r, 0).1->Array_0@[i], 0, "type"@, "text"@)
                &&& str_at(entry(r, 0).1->Array_0@[i], 1, "text"@, self.content@[i]->Text_text@)
            },
            key_at(r, 1, "isError"@),
            entry(r, 1).1 == JsonValue::Bool(self.is_error),
    {
        let CallToolResult { is_error, content } = self;
        let ghost items = content@;
        let mut content = content;
        let mut out: Vec<JsonValue> = Vec::new();
        let mut i: usize = 0;
        let n = content.len();
        while i < n
            invariant
                n == items.len(),
                i <= n,
                content@ == items.subrange(i as int, n as int),
                out@.len() == i,
                forall|j: int| 0 <= j < i ==> {
                    &&& is_object_of(#[trigger] out@[j], 2)
                    &&& str_at(out@[j], 0, "type"@, "text"@)
                    &&& str_at(out@[j], 1, "text"@, items[j]->Text_text@)
                },
            decreases n - i,
        {
            let item = content.remove(0);
            let CallToolResultContent::Text { text: t } = item;
            let mut c: Vec<(String, JsonValue)> = Vec::new();
            c.push(pair("type", string("text")));
            c.push(pair("text", JsonValue::Str(t)));
            out.push(JsonValue::Object(c));
            proof {
                assert(content@ =~= items.subrange(i + 1, n as int));
            }
            i = i + 1;
        }
        let mut fields: Vec<(String, JsonValue)> = Vec::new();
        fields.push(pair("content", JsonValue::Array(out)));
        fields.push(pair("isError", JsonValue::Bool(is_error)));
        JsonValue::Object(fields)
    }
}

/// The outcome of a method that needs neither parameters nor the outside
/// world; `None` for the methods that do.
pub fn local_outcome(method: Method) -> (r: Option<Outcome>)
    ensures
        match method {
            Method::Initialize => r matches Some(Outcome::Value(v)) && is_initialize_result(v),
            Method::Ping | Method::LoggingSetLevel => r matches Some(Outcome::Value(v)) && is_object_of(v, 0),
            Method::RootsList => r matches Some(Outcome::Value(v)) && is_roots_list(v),
            Method::PromptsList => r matches Some(Outcome::Value(v)) && is_prompts_list(v),
            Method::PromptsGet => r matches Some(Outcome::Error(e))
                && e.code == -32602 && e.message@ == "Prompt not found"@,
            Method::ToolsList => r matches Some(Outcome::Value(v)) && is_tools_list(v),
            _ => r is None,
        },
{
    match method {
        Method::Initialize => Some(Outcome::Value(initialize())),
        Method::Ping => Some(Outcome::Value(ping())),
        Method::LoggingSetLevel => Some(Outcome::Value(logging_set_level())),
        Method::RootsList => Some(Outcome::Value(roots_list())),
        Method::PromptsList => Some(Outcome::Value(prompts_list())),
        Method::PromptsGet => Some(outcome_of(prompts_get())),
        Method::ToolsList => Some(Outcome::Value(tools_list())),
        _ => None,
    }
}

} // verus!

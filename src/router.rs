//! The handler registry: method names bound to the server's handlers.
use vstd::prelude::*;
use vstd::string::*;

verus! {

/// The handlers that a method name can be bound to.
#[derive(Clone, Copy, PartialEq, Eq, Structural, Debug)]
pub enum Method {
    Initialize,
    Ping,
    LoggingSetLevel,
    RootsList,
    PromptsList,
    PromptsGet,
    ResourcesList,
    ResourcesRead,
    ToolsList,
    Login,
    PayMutinynetInvoice,
    PayMutinynetAddress,
}

/// The handler of the last of the first `n` bindings whose name is `name`.
pub open spec fn find_route(routes: Seq<(String, Method)>, name: Seq<char>, n: int) -> Option<Method>
    decreases n,
{
    if n <= 0 || n > routes.len() {
        None
    } else if routes[n - 1].0@ == name {
        Some(routes[n - 1].1)
    } else {
        find_route(routes, name, n - 1)
    }
}

proof fn lemma_find_route_prefix(a: Seq<(String, Method)>, b: Seq<(String, Method)>, name: Seq<char>, n: int)
    requires
        0 <= n <= a.len(),
        n <= b.len(),
        forall|j: int| 0 <= j < n ==> a[j] == b[j],
    ensures
        find_route(a, name, n) == find_route(b, name, n),
    decreases n,
{
    if n > 0 {
        lemma_find_route_prefix(a, b, name, n - 1);
    }
}

/// Bindings collected before the registry is sealed; a later binding of a
/// name replaces an earlier one.
pub struct RouterBuilder {
    routes: Vec<(String, Method)>,
}

/// The sealed registry.
pub struct Router {
    routes: Vec<(String, Method)>,
}

impl RouterBuilder {
    /// The handler bound to `name`.
    pub closed spec fn spec_lookup(&self, name: Seq<char>) -> Option<Method> {
        find_route(self.routes@, name, self.routes@.len() as int)
    }

    /// A builder with no bindings.
    pub fn new() -> (r: RouterBuilder)
        ensures
            forall|k: Seq<char>| r.spec_lookup(k) is None,
    {
        RouterBuilder { routes: Vec::new() }
    }

    /// Binds `name` to `method`.
    pub fn append(self, name: &str, method: Method) -> (r: RouterBuilder)
        ensures
            forall|k: Seq<char>| #[trigger] r.spec_lookup(k)
                == if k == name@ { Some(method) } else { self.spec_lookup(k) },
    {
        let mut routes = self.routes;
        let ghost old_routes = routes@;
        routes.push((String::from_str(name), method));
        proof {
            assert forall|k: Seq<char>| find_route(routes@, k, routes@.len() as int)
                == if k == name@ { Some(method) } else { find_route(old_routes, k, old_routes.len() as int) } by {
                lemma_find_route_prefix(routes@, old_routes, k, old_routes.len() as int);
            }
        }
        RouterBuilder { routes }
    }

    /// Seals the registry.
    pub fn build(self) -> (r: Router)
        ensures
            forall|k: Seq<char>| #[trigger] r.spec_lookup(k) == self.spec_lookup(k),
    {
        Router { routes: self.routes }
    }
}

impl Router {
    /// The handler bound to `name`.
    pub closed spec fn spec_lookup(&self, name: Seq<char>) -> Option<Method> {
        find_route(self.routes@, name, self.routes@.len() as int)
    }

    /// The handler bound to `name`, if any.
    pub fn lookup(&self, name: &String) -> (r: Option<Method>)
        ensures
            r == self.spec_lookup(name@),
    {
        let mut n: usize = self.routes.len();
        while n > 0
            invariant
                n <= self.routes@.len(),
                self.spec_lookup(name@) == find_route(self.routes@, name@, n as int),
            decreases n,
        {
            if self.routes[n - 1].0 == *name {
                return Some(self.routes[n - 1].1);
            }
            n = n - 1;
        }
        None
    }
}

/// The method names that the server binds differ from one another.
pub proof fn lemma_method_names_distinct()
    ensures
        "initialize"@ != "ping"@,
        "initialize"@ != "logging/setLevel"@,
        "initialize"@ != "roots/list"@,
        "initialize"@ != "prompts/list"@,
        "initialize"@ != "prompts/get"@,
        "initialize"@ != "resources/list"@,
        "initialize"@ != "resources/read"@,
        "initialize"@ != "tools/list"@,
        "initialize"@ != "login"@,
        "initialize"@ != "pay_mutinynet_invoice"@,
        "initialize"@ != "pay_mutinynet_address"@,
        "ping"@ != "logging/setLevel"@,
        "ping"@ != "roots/list"@,
        "ping"@ != "prompts/list"@,
        "ping"@ != "prompts/get"@,
        "ping"@ != "resources/list"@,
        "ping"@ != "resources/read"@,
        "ping"@ != "tools/list"@,
        "ping"@ != "login"@,
        "ping"@ != "pay_mutinynet_invoice"@,
        "ping"@ != "pay_mutinynet_address"@,
        "logging/setLevel"@ != "roots/list"@,
        "logging/setLevel"@ != "prompts/list"@,
        "logging/setLevel"@ != "prompts/get"@,
        "logging/setLevel"@ != "resources/list"@,
        "logging/setLevel"@ != "resources/read"@,
        "logging/setLevel"@ != "tools/list"@,
        "logging/setLevel"@ != "login"@,
        "logging/setLevel"@ != "pay_mutinynet_invoice"@,
        "logging/setLevel"@ != "pay_mutinynet_address"@,
        "roots/list"@ != "prompts/list"@,
        "roots/list"@ != "prompts/get"@,
        "roots/list"@ != "resources/list"@,
        "roots/list"@ != "resources/read"@,
        "roots/list"@ != "tools/list"@,
        "roots/list"@ != "login"@,
        "roots/list"@ != "pay_mutinynet_invoice"@,
        "roots/list"@ != "pay_mutinynet_address"@,
        "prompts/list"@ != "prompts/get"@,
        "prompts/list"@ != "resources/list"@,
        "prompts/list"@ != "resources/read"@,
        "prompts/list"@ != "tools/list"@,
        "prompts/list"@ != "login"@,
        "prompts/list"@ != "pay_mutinynet_invoice"@,
        "prompts/list"@ != "pay_mutinynet_address"@,
        "prompts/get"@ != "resources/list"@,
        "prompts/get"@ != "resources/read"@,
        "prompts/get"@ != "tools/list"@,
        "prompts/get"@ != "login"@,
        "prompts/get"@ != "pay_mutinynet_invoice"@,
        "prompts/get"@ != "pay_mutinynet_address"@,
        "resources/list"@ != "resources/read"@,
        "resources/list"@ != "tools/list"@,
        "resources/list"@ != "login"@,
        "resources/list"@ != "pay_mutinynet_invoice"@,
        "resources/list"@ != "pay_mutinynet_address"@,
        "resources/read"@ != "tools/list"@,
        "resources/read"@ != "login"@,
        "resources/read"@ != "pay_mutinynet_invoice"@,
        "resources/read"@ != "pay_mutinynet_address"@,
        "tools/list"@ != "login"@,
        "tools/list"@ != "pay_mutinynet_invoice"@,
        "tools/list"@ != "pay_mutinynet_address"@,
        "login"@ != "pay_mutinynet_invoice"@,
        "login"@ != "pay_mutinynet_address"@,
        "pay_mutinynet_invoice"@ != "pay_mutinynet_address"@,
{
    reveal_strlit("initialize");
    reveal_strlit("ping");
    reveal_strlit("logging/setLevel");
    reveal_strlit("roots/list");
    reveal_strlit("prompts/list");
    reveal_strlit("prompts/get");
    reveal_strlit("resources/list");
    reveal_strlit("resources/read");
    reveal_strlit("tools/list");
    reveal_strlit("login");
    reveal_strlit("pay_mutinynet_invoice");
    reveal_strlit("pay_mutinynet_address");
    assert("initialize"@.len() != "ping"@.len());
    assert("initialize"@.len() != "logging/setLevel"@.len());
    assert("initialize"@[0] != "roots/list"@[0]);
    assert("initialize"@.len() != "prompts/list"@.len());
    assert("initialize"@.len() != "prompts/get"@.len());
    assert("initialize"@.len() != "resources/list"@.len());
    assert("initialize"@.len() != "resources/read"@.len());
    assert("initialize"@[0] != "tools/list"@[0]);
    assert("initialize"@.len() != "login"@.len());
    assert("initialize"@.len() != "pay_mutinynet_invoice"@.len());
    assert("initialize"@.len() != "pay_mutinynet_address"@.len());
    assert("ping"@.len() != "logging/setLevel"@.len());
    assert("ping"@.len() != "roots/list"@.len());
    assert("ping"@.len() != "prompts/list"@.len());
    assert("ping"@.len() != "prompts/get"@.len());
    assert("ping"@.len() != "resources/list"@.len());
    assert("ping"@.len() != "resources/read"@.len());
    assert("ping"@.len() != "tools/list"@.len());
    assert("ping"@.len() != "login"@.len());
    assert("ping"@.len() != "pay_mutinynet_invoice"@.len());
    assert("ping"@.len() != "pay_mutinynet_address"@.len());
    assert("logging/setLevel"@.len() != "roots/list"@.len());
    assert("logging/setLevel"@.len() != "prompts/list"@.len());
    assert("logging/setLevel"@.len() != "prompts/get"@.len());
    assert("logging/setLevel"@.len() != "resources/list"@.len());
    assert("logging/setLevel"@.len() != "resources/read"@.len());
    assert("logging/setLevel"@.len() != "tools/list"@.len());
    assert("logging/setLevel"@.len() != "login"@.len());
    assert("logging/setLevel"@.len() != "pay_mutinynet_invoice"@.len());
    assert("logging/setLevel"@.len() != "pay_mutinynet_address"@.len());
    assert("roots/list"@.len() != "prompts/list"@.len());
    assert("roots/list"@.len() != "prompts/get"@.len());
    assert("roots/list"@.len() != "resources/list"@.len());
    assert("roots/list"@.len() != "resources/read"@.len());
    assert("roots/list"@[0] != "tools/list"@[0]);
    assert("roots/list"@.len() != "login"@.len());
    assert("roots/list"@.len() != "pay_mutinynet_invoice"@.len());
    assert("roots/list"@.len() != "pay_mutinynet_address"@.len());
    assert("prompts/list"@.len() != "prompts/get"@.len());
    assert("prompts/list"@.len() != "resources/list"@.len());
    assert("prompts/list"@.len() != "resources/read"@.len());
    assert("prompts/list"@.len() != "tools/list"@.len());
    assert("prompts/list"@.len() != "login"@.len());
    assert("prompts/list"@.len() != "pay_mutinynet_invoice"@.len());
    assert("prompts/list"@.len() != "pay_mutinynet_address"@.len());
    assert("prompts/get"@.len() != "resources/list"@.len());
    assert("prompts/get"@.len() != "resources/read"@.len());
    assert("prompts/get"@.len() != "tools/list"@.len());
    assert("prompts/get"@.len() != "login"@.len());
    assert("prompts/get"@.len() != "pay_mutinynet_invoice"@.len());
    assert("prompts/get"@.len() != "pay_mutinynet_address"@.len());
    assert("resources/list"@[10] != "resources/read"@[10]);
    assert("resources/list"@.len() != "tools/list"@.len());
    assert("resources/list"@.len() != "login"@.len());
    assert("resources/list"@.len() != "pay_mutinynet_invoice"@.len());
    assert("resources/list"@.len() != "pay_mutinynet_address"@.len());
    assert("resources/read"@.len() != "tools/list"@.len());
    assert("resources/read"@.len() != "login"@.len());
    assert("resources/read"@.len() != "pay_mutinynet_invoice"@.len());
    assert("resources/read"@.len() != "pay_mutinynet_address"@.len());
    assert("tools/list"@.len() != "login"@.len());
    assert("tools/list"@.len() != "pay_mutinynet_invoice"@.len());
    assert("tools/list"@.len() != "pay_mutinynet_address"@.len());
    assert("login"@.len() != "pay_mutinynet_invoice"@.len());
    assert("login"@.len() != "pay_mutinynet_address"@.len());
    assert("pay_mutinynet_invoice"@[14] != "pay_mutinynet_address"@[14]);
}

/// The handler that the server binds to each method name.
pub open spec fn server_method(name: Seq<char>) -> Option<Method> {
    if name == "initialize"@ {
        Some(Method::Initialize)
    } else if name == "ping"@ {
        Some(Method::Ping)
    } else if name == "logging/setLevel"@ {
        Some(Method::LoggingSetLevel)
    } else if name == "roots/list"@ {
        Some(Method::RootsList)
    } else if name == "prompts/list"@ {
        Some(Method::PromptsList)
    } else if name == "prompts/get"@ {
        Some(Method::PromptsGet)
    } else if name == "resources/list"@ {
        Some(Method::ResourcesList)
    } else if name == "resources/read"@ {
        Some(Method::ResourcesRead)
    } else {
        tool_method(name)
    }
}

/// The handler that the tool group binds to each method name.
pub open spec fn tool_method(name: Seq<char>) -> Option<Method> {
    if name == "tools/list"@ {
        Some(Method::ToolsList)
    } else if name == "login"@ {
        Some(Method::Login)
    } else if name == "pay_mutinynet_invoice"@ {
        Some(Method::PayMutinynetInvoice)
    } else if name == "pay_mutinynet_address"@ {
        Some(Method::PayMutinynetAddress)
    } else {
        None
    }
}

/// Adds the tool methods to `builder`.
pub fn register_tools(builder: RouterBuilder) -> (r: RouterBuilder)
    ensures
        forall|k: Seq<char>| #[trigger] r.spec_lookup(k)
            == if tool_method(k) is Some { tool_method(k) } else { builder.spec_lookup(k) },
{
    let b1 = builder.append("tools/list", Method::ToolsList);
    let b2 = b1.append("login", Method::Login);
    let b3 = b2.append("pay_mutinynet_invoice", Method::PayMutinynetInvoice);
    let b4 = b3.append("pay_mutinynet_address", Method::PayMutinynetAddress);
    proof {
        lemma_method_names_distinct();
        assert forall|k: Seq<char>| #[trigger] b4.spec_lookup(k)
            == if tool_method(k) is Some { tool_method(k) } else { builder.spec_lookup(k) } by {
            assert(b4.spec_lookup(k) == if k == "pay_mutinynet_address"@ { Some(Method::PayMutinynetAddress) } else { b3.spec_lookup(k) });
            assert(b3.spec_lookup(k) == if k == "pay_mutinynet_invoice"@ { Some(Method::PayMutinynetInvoice) } else { b2.spec_lookup(k) });
            assert(b2.spec_lookup(k) == if k == "login"@ { Some(Method::Login) } else { b1.spec_lookup(k) });
            assert(b1.spec_lookup(k) == if k == "tools/list"@ { Some(Method::ToolsList) } else { builder.spec_lookup(k) });
        }
    }
    b4
}

/// The server's registry: the protocol methods and the tools.
pub fn build_rpc_router() -> (r: Router)
    ensures
        forall|k: Seq<char>| #[trigger] r.spec_lookup(k) == server_method(k),
{
    let b0 = RouterBuilder::new();
    let b1 = b0.append("initialize", Method::Initialize);
    let b2 = b1.append("ping", Method::Ping);
    let b3 = b2.append("logging/setLevel", Method::LoggingSetLevel);
    let b4 = b3.append("roots/list", Method::RootsList);
    let b5 = b4.append("prompts/list", Method::PromptsList);
    let b6 = b5.append("prompts/get", Method::PromptsGet);
    let b7 = b6.append("resources/list", Method::ResourcesList);
    let b8 = b7.append("resources/read", Method::ResourcesRead);
    let builder = register_tools(b8);
    proof {
        lemma_method_names_distinct();
        assert forall|k: Seq<char>| #[trigger] builder.spec_lookup(k) == server_method(k) by {
            assert(b8.spec_lookup(k) == if k == "resources/read"@ { Some(Method::ResourcesRead) } else { b7.spec_lookup(k) });
            assert(b7.spec_lookup(k) == if k == "resources/list"@ { Some(Method::ResourcesList) } else { b6.spec_lookup(k) });
            assert(b6.spec_lookup(k) == if k == "prompts/get"@ { Some(Method::PromptsGet) } else { b5.spec_lookup(k) });
            assert(b5.spec_lookup(k) == if k == "prompts/list"@ { Some(Method::PromptsList) } else { b4.spec_lookup(k) });
            assert(b4.spec_lookup(k) == if k == "roots/list"@ { Some(Method::RootsList) } else { b3.spec_lookup(k) });
            assert(b3.spec_lookup(k) == if k == "logging/setLevel"@ { Some(Method::LoggingSetLevel) } else { b2.spec_lookup(k) });
            assert(b2.spec_lookup(k) == if k == "ping"@ { Some(Method::Ping) } else { b1.spec_lookup(k) });
            assert(b1.spec_lookup(k) == if k == "initialize"@ { Some(Method::Initialize) } else { b0.spec_lookup(k) });
        }
    }
    builder.build()
}

} // verus!

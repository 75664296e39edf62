//! The API's routing table: which routes the service documents, which named
//! handlers it registers, and how an incoming method and path pick a
//! handler.  Executing a handler (an async closure over live services) is
//! the caller's business; the table itself is plain data with exact
//! contracts.

use vstd::prelude::*;
use vstd::string::StringExecFns;

use crate::text::str_eq;

verus! {

/// Documentation of one route: where it lives and what it does.
#[derive(Debug)]
pub struct RouteMetadata {
    pub path: String,
    pub method: String,
    pub protocol: String,
    pub description: String,
}

impl RouteMetadata {
    /// A route at `path`, reached by `method` over `protocol`.
    pub fn new(path: String, method: String, protocol: String) -> (r: RouteMetadata)
        ensures
            r.path == path,
            r.method == method,
            r.protocol == protocol,
            r.description@.len() == 0,
    {
        RouteMetadata { path, method, protocol, description: String::new() }
    }

    /// The same route, described.
    pub fn with_description(self, description: String) -> (r: RouteMetadata)
        ensures
            r == (RouteMetadata { description, ..self }),
    {
        RouteMetadata { description, ..self }
    }
}

/// The routing table: adapters, documented routes, and registered handler
/// names, each list in registration order.
#[derive(Debug)]
pub struct Router {
    pub adapters: usize,
    pub routes: Vec<RouteMetadata>,
    pub handlers: Vec<String>,
}

/// The names of a handler list.
pub open spec fn handler_names(hs: Seq<String>) -> Seq<Seq<char>> {
    hs.map_values(|h: String| h@)
}

impl Router {
    /// An empty table.
    pub fn new() -> (r: Router)
        ensures
            r.adapters == 0,
            r.routes@.len() == 0,
            r.handlers@.len() == 0,
    {
        Router { adapters: 0, routes: Vec::new(), handlers: Vec::new() }
    }

    /// Count one protocol adapter.
    pub fn add_adapter(&mut self)
        requires
            old(self).adapters < usize::MAX,
        ensures
            *final(self) == (Router { adapters: (old(self).adapters + 1) as usize, ..*old(self) }),
    {
        self.adapters = self.adapters + 1;
    }

    /// Document one route.
    pub fn add_route(&mut self, route: RouteMetadata)
        ensures
            final(self).routes@ == old(self).routes@.push(route),
            *final(self) == (Router { routes: final(self).routes, ..*old(self) }),
    {
        self.routes.push(route);
    }

    /// Register one named handler.
    pub fn register(&mut self, name: String)
        ensures
            final(self).handlers@ == old(self).handlers@.push(name),
            *final(self) == (Router { handlers: final(self).handlers, ..*old(self) }),
    {
        self.handlers.push(name);
    }

    /// How many handlers are registered.
    pub fn handlers_count(&self) -> (r: usize)
        ensures
            r == self.handlers@.len(),
    {
        self.handlers.len()
    }

    /// Whether a handler of this name is registered.
    pub fn has_handler(&self, name: &str) -> (r: bool)
        ensures
            r == handler_names(self.handlers@).contains(name@),
    {
        let mut i: usize = 0;
        while i < self.handlers.len()
            invariant
                i <= self.handlers@.len(),
                forall|k: int| 0 <= k < i ==> self.handlers@[k]@ != name@,
            decreases self.handlers@.len() - i,
        {
            if str_eq(self.handlers[i].as_str(), name) {
                proof {
                    assert(handler_names(self.handlers@)[i as int] == name@);
                }
                return true;
            }
            i = i + 1;
        }
        proof {
            assert forall|k: int|
                0 <= k < handler_names(self.handlers@).len() implies handler_names(
                self.handlers@,
            )[k] != name@ by {
                assert(handler_names(self.handlers@)[k] == self.handlers@[k]@);
            }
        }
        false
    }
}

/// One documented route of the table, as a spec value.
pub open spec fn route_view(r: RouteMetadata) -> (Seq<char>, Seq<char>) {
    (r.method@, r.path@)
}

/// The six documented routes, in order.
pub open spec fn spec_route_table() -> Seq<(Seq<char>, Seq<char>)> {
    seq![
        ("GET"@, "/"@),
        ("GET"@, "/health"@),
        ("POST"@, "/api/products/search"@),
        ("POST"@, "/api/orders"@),
        ("POST"@, "/api/shipping/calculate"@),
        ("POST"@, "/api/users"@),
        ("POST"@, "/api/subscribe"@),
    ]
}

/// The seven registered handler names, in order.
pub open spec fn spec_handler_table() -> Seq<Seq<char>> {
    seq![
        "root"@,
        "health"@,
        "search_products"@,
        "create_order"@,
        "calculate_shipping"@,
        "get_user"@,
        "subscribe"@,
    ]
}

/// One REST route with a description.
fn rest_route(method: &'static str, path: &'static str, description: &'static str) -> (r:
    RouteMetadata)
    ensures
        r.method@ == method@,
        r.path@ == path@,
        r.protocol@ == "rest"@,
        r.description@ == description@,
{
    RouteMetadata::new(
        String::from_str(path),
        String::from_str(method),
        String::from_str("rest"),
    ).with_description(String::from_str(description))
}

/// Build the service's routing table: one REST adapter, the seven
/// documented routes, and the seven handlers in registration order.
pub fn create_router() -> (r: Router)
    ensures
        r.adapters == 1,
        r.routes@.len() == spec_route_table().len(),
        forall|i: int|
            0 <= i < r.routes@.len() ==> route_view(#[trigger] r.routes@[i])
                == spec_route_table()[i],
        handler_names(r.handlers@) == spec_handler_table(),
        r.handlers@.len() == 7,
{
    let mut router = Router::new();
    router.add_adapter();
    router.add_route(rest_route("GET", "/", "Root endpoint - API information"));
    router.add_route(rest_route("GET", "/health", "Health check endpoint"));
    router.add_route(
        rest_route("POST", "/api/products/search", "Search for products by query"),
    );
    router.add_route(rest_route("POST", "/api/orders", "Create a new order"));
    router.add_route(
        rest_route("POST", "/api/shipping/calculate", "Calculate shipping cost based on weight"),
    );
    router.add_route(rest_route("POST", "/api/users", "Get user information"));
    router.add_route(rest_route("POST", "/api/subscribe", "Subscribe to newsletter"));
    router.register(String::from_str("root"));
    router.register(String::from_str("health"));
    router.register(String::from_str("search_products"));
    router.register(String::from_str("create_order"));
    router.register(String::from_str("calculate_shipping"));
    router.register(String::from_str("get_user"));
    router.register(String::from_str("subscribe"));
    proof {
        assert(handler_names(router.handlers@) =~= spec_handler_table());
    }
    router
}

/// The handler a method and path dispatch to, if any.
pub open spec fn spec_route_to_handler(method: Seq<char>, path: Seq<char>) -> Option<Seq<char>> {
    if method == "GET"@ {
        if path == "/"@ {
            Some("root"@)
        } else if path == "/health"@ {
            Some("health"@)
        } else if path == "/docs"@ {
            Some("docs"@)
        } else if path == "/docs/openapi.json"@ {
            Some("openapi"@)
        } else {
            None
        }
    } else if method == "POST"@ {
        if path == "/api/products/search"@ {
            Some("search_products"@)
        } else if path == "/api/orders"@ {
            Some("create_order"@)
        } else if path == "/api/shipping/calculate"@ {
            Some("calculate_shipping"@)
        } else if path == "/api/users"@ {
            Some("get_user"@)
        } else if path == "/api/subscribe"@ {
            Some("subscribe"@)
        } else {
            None
        }
    } else {
        None
    }
}

/// Map an incoming method and path to the handler that serves it.
pub fn route_to_handler(method: &str, path: &str) -> (r: Option<&'static str>)
    ensures
        match r {
            Some(h) => spec_route_to_handler(method@, path@) == Some(h@),
            None => spec_route_to_handler(method@, path@) is None,
        },
{
    if str_eq(method, "GET") {
        if str_eq(path, "/") {
            Some("root")
        } else if str_eq(path, "/health") {
            Some("health")
        } else if str_eq(path, "/docs") {
            Some("docs")
        } else if str_eq(path, "/docs/openapi.json") {
            Some("openapi")
        } else {
            None
        }
    } else if str_eq(method, "POST") {
        if str_eq(path, "/api/products/search") {
            Some("search_products")
        } else if str_eq(path, "/api/orders") {
            Some("create_order")
        } else if str_eq(path, "/api/shipping/calculate") {
            Some("calculate_shipping")
        } else if str_eq(path, "/api/users") {
            Some("get_user")
        } else if str_eq(path, "/api/subscribe") {
            Some("subscribe")
        } else {
            None
        }
    } else {
        None
    }
}

} // verus!

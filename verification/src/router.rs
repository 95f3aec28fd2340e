//! The routes of the service and the session guard that stands before the
//! protected ones.

use vstd::prelude::*;
use crate::reply::{Reply, ReplyView, Status};

verus! {

pub const UNAUTHORIZED: &'static str = "Unauthorized";

pub const HELLO: &'static str = "Hello world!";

/// The HTTP methods that the routes answer.
#[derive(Clone, Copy, Debug, PartialEq, Eq, Structural)]
pub enum Verb {
    Get,
    Post,
    Put,
    Delete,
}

/// The handlers of the service.
#[derive(Clone, Copy, Debug, PartialEq, Eq, Structural)]
pub enum Endpoint {
    GetAllDeals,
    GetOneDeal,
    EditDeal,
    DestroyDeal,
    CreateDeal,
    CreateCheckout,
    GetDashboardData,
    Register,
    Login,
    Logout,
    CreateOrder,
    GetAllOrders,
    Subscribe,
    Health,
    CreateUser,
    UpdateUser,
    GetUsers,
    DeleteUser,
}

/// One route: a method, a path, the name of the parameter that follows the
/// path as its last segment, if one does, and the handler.
#[derive(Clone, Copy, Debug, PartialEq, Eq)]
pub struct Route {
    pub verb: Verb,
    pub path: &'static str,
    pub parameter: Option<&'static str>,
    pub endpoint: Endpoint,
}

/// The number of routes.
pub const ROUTES: usize = 18;

impl Endpoint {
    /// Whether the session guard stands before the handler: it does before
    /// the deals, the payments and the dashboard, and before nothing else.
    pub open spec fn protected(self) -> bool {
        match self {
            Endpoint::GetAllDeals => true,
            Endpoint::GetOneDeal => true,
            Endpoint::EditDeal => true,
            Endpoint::DestroyDeal => true,
            Endpoint::CreateDeal => true,
            Endpoint::CreateCheckout => true,
            Endpoint::GetDashboardData => true,
            _ => false,
        }
    }

    /// Whether the session guard stands before the handler.
    pub fn is_protected(&self) -> (r: bool)
        ensures
            r == self.protected(),
    {
        match self {
            Endpoint::GetAllDeals => true,
            Endpoint::GetOneDeal => true,
            Endpoint::EditDeal => true,
            Endpoint::DestroyDeal => true,
            Endpoint::CreateDeal => true,
            Endpoint::CreateCheckout => true,
            Endpoint::GetDashboardData => true,
            _ => false,
        }
    }

    /// The place of the handler in the table of routes.
    pub open spec fn index(self) -> int {
        match self {
            Endpoint::GetAllDeals => 0,
            Endpoint::GetOneDeal => 1,
            Endpoint::EditDeal => 2,
            Endpoint::DestroyDeal => 3,
            Endpoint::CreateDeal => 4,
            Endpoint::CreateCheckout => 5,
            Endpoint::GetDashboardData => 6,
            Endpoint::Register => 7,
            Endpoint::Login => 8,
            Endpoint::Logout => 9,
            Endpoint::CreateOrder => 10,
            Endpoint::GetAllOrders => 11,
            Endpoint::Subscribe => 12,
            Endpoint::Health => 13,
            Endpoint::CreateUser => 14,
            Endpoint::UpdateUser => 15,
            Endpoint::GetUsers => 16,
            Endpoint::DeleteUser => 17,
        }
    }

    /// The method that the handler answers.
    pub open spec fn verb(self) -> Verb {
        match self {
            Endpoint::EditDeal => Verb::Put,
            Endpoint::DestroyDeal => Verb::Delete,
            Endpoint::Logout => Verb::Get,
            Endpoint::GetAllOrders => Verb::Get,
            Endpoint::Health => Verb::Get,
            Endpoint::UpdateUser => Verb::Put,
            Endpoint::GetUsers => Verb::Get,
            Endpoint::DeleteUser => Verb::Delete,
            _ => Verb::Post,
        }
    }

    /// The path of the handler, without its parameter.
    pub open spec fn path(self) -> Seq<char> {
        match self {
            Endpoint::GetAllDeals => "/deals/"@,
            Endpoint::GetOneDeal => "/deals"@,
            Endpoint::EditDeal => "/deals"@,
            Endpoint::DestroyDeal => "/deals"@,
            Endpoint::CreateDeal => "/deals/create"@,
            Endpoint::CreateCheckout => "/payments/pay"@,
            Endpoint::GetDashboardData => "/dashboard"@,
            Endpoint::Register => "/auth/register"@,
            Endpoint::Login => "/auth/login"@,
            Endpoint::Logout => "/auth/logout"@,
            Endpoint::CreateOrder => "/order/create"@,
            Endpoint::GetAllOrders => "/order/get"@,
            Endpoint::Subscribe => "/subscribe"@,
            Endpoint::Health => "/health"@,
            Endpoint::CreateUser => "/user/create"@,
            Endpoint::UpdateUser => "/user/update"@,
            Endpoint::GetUsers => "/user/get"@,
            Endpoint::DeleteUser => "/user/delete"@,
        }
    }

    /// The name of the parameter that ends the path of the handler.
    pub open spec fn parameter(self) -> Option<Seq<char>> {
        match self {
            Endpoint::GetOneDeal => Some("id"@),
            Endpoint::EditDeal => Some("id"@),
            Endpoint::DestroyDeal => Some("id"@),
            Endpoint::UpdateUser => Some("username"@),
            Endpoint::DeleteUser => Some("username"@),
            _ => None,
        }
    }
}

/// An optional name taken as a sequence.
pub open spec fn parameter_view(parameter: Option<&'static str>) -> Option<Seq<char>> {
    match parameter {
        Some(name) => Some(name@),
        None => None,
    }
}

/// Whether `route` is the route of its handler.
pub open spec fn is_route(route: Route) -> bool {
    &&& route.verb == route.endpoint.verb()
    &&& route.path@ == route.endpoint.path()
    &&& parameter_view(route.parameter) == route.endpoint.parameter()
}

fn plain(verb: Verb, path: &'static str, endpoint: Endpoint) -> (route: Route)
    ensures
        route.verb == verb,
        route.path == path,
        route.parameter is None,
        route.endpoint == endpoint,
{
    Route { verb, path, parameter: None, endpoint }
}

fn with_parameter(verb: Verb, path: &'static str, name: &'static str, endpoint: Endpoint) -> (route:
    Route)
    ensures
        route.verb == verb,
        route.path == path,
        route.parameter == Some(name),
        route.endpoint == endpoint,
{
    Route { verb, path, parameter: Some(name), endpoint }
}

/// The table of the routes: every handler once, at its place, with its
/// method, its path and its parameter.
pub fn create_api_router() -> (routes: Vec<Route>)
    ensures
        routes@.len() == ROUTES,
        forall|i: int| 0 <= i < routes@.len() ==> is_route(#[trigger] routes@[i]),
        forall|i: int| 0 <= i < routes@.len() ==> (#[trigger] routes@[i]).endpoint.index() == i,
{
    let mut routes: Vec<Route> = Vec::new();
    routes.push(plain(Verb::Post, "/deals/", Endpoint::GetAllDeals));
    routes.push(with_parameter(Verb::Post, "/deals", "id", Endpoint::GetOneDeal));
    routes.push(with_parameter(Verb::Put, "/deals", "id", Endpoint::EditDeal));
    routes.push(with_parameter(Verb::Delete, "/deals", "id", Endpoint::DestroyDeal));
    routes.push(plain(Verb::Post, "/deals/create", Endpoint::CreateDeal));
    routes.push(plain(Verb::Post, "/payments/pay", Endpoint::CreateCheckout));
    routes.push(plain(Verb::Post, "/dashboard", Endpoint::GetDashboardData));
    routes.push(plain(Verb::Post, "/auth/register", Endpoint::Register));
    routes.push(plain(Verb::Post, "/auth/login", Endpoint::Login));
    routes.push(plain(Verb::Get, "/auth/logout", Endpoint::Logout));
    routes.push(plain(Verb::Post, "/order/create", Endpoint::CreateOrder));
    routes.push(plain(Verb::Get, "/order/get", Endpoint::GetAllOrders));
    routes.push(plain(Verb::Post, "/subscribe", Endpoint::Subscribe));
    routes.push(plain(Verb::Get, "/health", Endpoint::Health));
    routes.push(plain(Verb::Post, "/user/create", Endpoint::CreateUser));
    routes.push(with_parameter(Verb::Put, "/user/update", "username", Endpoint::UpdateUser));
    routes.push(plain(Verb::Get, "/user/get", Endpoint::GetUsers));
    routes.push(with_parameter(Verb::Delete, "/user/delete", "username", Endpoint::DeleteUser));
    routes
}

/// The answer of the health check.
pub fn hello_world() -> (text: &'static str)
    ensures
        text@ == HELLO@,
{
    HELLO
}

/// What the cookie jar made of the session cookie of a request.
#[derive(Clone, Debug, PartialEq, Eq)]
pub enum SessionCookie {
    /// The request carries no session cookie.
    Missing,
    /// The cookie does not decrypt or its signature does not hold.
    Invalid,
    /// The cookie holds this session token.
    Valid(String),
}

/// Who a session belongs to.
#[derive(Clone, Debug, PartialEq, Eq)]
pub struct Identity {
    pub user: String,
    pub role: Option<String>,
}

/// What the store holds for a session token.
#[derive(Clone, Debug, PartialEq, Eq)]
pub enum Session {
    /// The session is in force for this identity.
    Active(Identity),
    /// The session has run out.
    Expired,
    /// The store knows no such session.
    Unknown,
}

/// What the guard does with a request.
#[derive(Clone, Debug, PartialEq, Eq)]
pub enum Guard {
    /// The route is public: the handler runs.
    Pass,
    /// Ask the store for the session of this token, then let the request in or refuse it.
    Resolve(String),
    /// Answer the caller; neither the store nor the handler is reached.
    Reject(Reply),
}

/// Whether the reply is the refusal of the guard.
pub open spec fn is_refusal(reply: Reply) -> bool {
    reply@ == (ReplyView { status: Status::Unauthorized, body: UNAUTHORIZED@ })
}

/// What the guard owes a request: a public route passes; a protected one is
/// refused unless its cookie holds a token, which is then resolved.
pub open spec fn guard_of(guard: Guard, endpoint: Endpoint, cookie: SessionCookie) -> bool {
    if !endpoint.protected() {
        guard is Pass
    } else {
        match cookie {
            SessionCookie::Valid(token) => guard matches Guard::Resolve(asked) && asked@ == token@,
            _ => guard matches Guard::Reject(reply) && is_refusal(reply),
        }
    }
}

fn refusal() -> (reply: Reply)
    ensures
        is_refusal(reply),
{
    Reply::with_text(Status::Unauthorized, UNAUTHORIZED)
}

/// The session guard, before the store is asked: decides from the route and
/// the cookie alone whether the request passes, is refused, or has a token
/// to resolve.
pub fn validate_session(endpoint: Endpoint, cookie: SessionCookie) -> (guard: Guard)
    ensures
        guard_of(guard, endpoint, cookie),
{
    if !endpoint.is_protected() {
        Guard::Pass
    } else {
        match cookie {
            SessionCookie::Valid(token) => Guard::Resolve(token),
            _ => Guard::Reject(refusal()),
        }
    }
}

/// The session guard, after the store was asked: a session in force lets in
/// its identity; one that has run out, or that the store does not know, is
/// refused.
pub fn resolve_session(session: Session) -> (r: Result<Identity, Reply>)
    ensures
        session matches Session::Active(identity) ==> r == Ok::<Identity, Reply>(identity),
        !(session is Active) ==> (r matches Err(reply) && is_refusal(reply)),
{
    match session {
        Session::Active(identity) => Ok(identity),
        _ => Err(refusal()),
    }
}

/// A request to a protected route that carries no session cookie, or an
/// invalid one, is refused as unauthorized at once: the guard asks nothing
/// of the store and the handler does not run.
pub proof fn lemma_protected_route_needs_cookie(guard: Guard, endpoint: Endpoint, cookie: SessionCookie)
    requires
        endpoint.protected(),
        !(cookie is Valid),
        guard_of(guard, endpoint, cookie),
    ensures
        guard matches Guard::Reject(reply) && reply.status == Status::Unauthorized,
        !(guard is Resolve),
        !(guard is Pass),
{
}

/// No request reaches a protected handler through the guard but with a
/// token, and then only once the store has been asked.
pub proof fn lemma_protected_route_never_passes(guard: Guard, endpoint: Endpoint, cookie: SessionCookie)
    requires
        endpoint.protected(),
        guard_of(guard, endpoint, cookie),
    ensures
        !(guard is Pass),
        guard is Resolve <==> cookie is Valid,
{
}

/// The table gives no two handlers the same method, path and parameter.
pub proof fn lemma_routes_are_distinct(a: Endpoint, b: Endpoint)
    requires
        a != b,
    ensures
        a.verb() != b.verb() || a.path() != b.path() || a.parameter() is Some != b.parameter()
            is Some,
{
    reveal_strlit("/deals/");
    reveal_strlit("/deals");
    reveal_strlit("/deals/create");
    reveal_strlit("/payments/pay");
    reveal_strlit("/dashboard");
    reveal_strlit("/auth/register");
    reveal_strlit("/auth/login");
    reveal_strlit("/auth/logout");
    reveal_strlit("/order/create");
    reveal_strlit("/order/get");
    reveal_strlit("/subscribe");
    reveal_strlit("/health");
    reveal_strlit("/user/create");
    reveal_strlit("/user/update");
    reveal_strlit("/user/get");
    reveal_strlit("/user/delete");
    assert(a.path().len() >= 6 && b.path().len() >= 6);
    if a.verb() == b.verb() && (a.parameter() is Some == b.parameter() is Some) {
        assert(a.path().len() != b.path().len() || a.path()[1] != b.path()[1]);
    }
}

} // verus!

//! Which handler answers which method and path.

use vstd::prelude::*;

verus! {

#[derive(Clone, Copy, Debug, PartialEq, Eq, Structural)]
pub enum Method {
    Get,
    Post,
    Put,
    Delete,
}

/// The handlers of `AuthController` and `UserController`.
#[derive(Clone, Copy, Debug, PartialEq, Eq, Structural)]
pub enum Endpoint {
    Register,
    Login,
    Logout,
    Me,
    ForgotPassword,
    ResetPassword,
    MagicLink,
    MagicLinkCallback,
    IndexUsers,
    StoreUser,
    ShowUser,
    UpdateUser,
    DestroyUser,
}

pub struct Route {
    pub method: Method,
    /// The path, with `{id}` for the user-id segment.
    pub path: String,
    pub endpoint: Endpoint,
}

pub open spec fn route_view(r: Route) -> (Method, Seq<char>, Endpoint) {
    (r.method, r.path@, r.endpoint)
}

pub open spec fn routes_view(rs: Seq<Route>) -> Seq<(Method, Seq<char>, Endpoint)> {
    rs.map_values(|r: Route| route_view(r))
}

pub open spec fn auth_route_table() -> Seq<(Method, Seq<char>, Endpoint)> {
    seq![
        (Method::Post, "/auth/register"@, Endpoint::Register),
        (Method::Post, "/auth/login"@, Endpoint::Login),
        (Method::Post, "/auth/logout"@, Endpoint::Logout),
        (Method::Get, "/auth/me"@, Endpoint::Me),
        (Method::Post, "/auth/forgot-password"@, Endpoint::ForgotPassword),
        (Method::Post, "/auth/reset-password"@, Endpoint::ResetPassword),
        (Method::Post, "/auth/magic-link"@, Endpoint::MagicLink),
        (Method::Get, "/auth/magic-link/callback"@, Endpoint::MagicLinkCallback),
    ]
}

pub open spec fn api_route_table() -> Seq<(Method, Seq<char>, Endpoint)> {
    seq![
        (Method::Get, "/api/v1/users"@, Endpoint::IndexUsers),
        (Method::Post, "/api/v1/users"@, Endpoint::StoreUser),
        (Method::Get, "/api/v1/users/{id}"@, Endpoint::ShowUser),
        (Method::Put, "/api/v1/users/{id}"@, Endpoint::UpdateUser),
        (Method::Delete, "/api/v1/users/{id}"@, Endpoint::DestroyUser),
    ]
}

fn route(method: Method, path: &str, endpoint: Endpoint) -> (r: Route)
    ensures
        route_view(r) == (method, path@, endpoint),
{
    Route { method, path: String::from_str(path), endpoint }
}

/// The `/auth` routes.
pub fn auth_routes() -> (r: Vec<Route>)
    ensures
        routes_view(r@) == auth_route_table(),
{
    let mut v: Vec<Route> = Vec::new();
    v.push(route(Method::Post, "/auth/register", Endpoint::Register));
    v.push(route(Method::Post, "/auth/login", Endpoint::Login));
    v.push(route(Method::Post, "/auth/logout", Endpoint::Logout));
    v.push(route(Method::Get, "/auth/me", Endpoint::Me));
    v.push(route(Method::Post, "/auth/forgot-password", Endpoint::ForgotPassword));
    v.push(route(Method::Post, "/auth/reset-password", Endpoint::ResetPassword));
    v.push(route(Method::Post, "/auth/magic-link", Endpoint::MagicLink));
    v.push(route(Method::Get, "/auth/magic-link/callback", Endpoint::MagicLinkCallback));
    assert(routes_view(v@) =~= auth_route_table());
    v
}

/// The `/api/v1/users` routes.
pub fn api_routes() -> (r: Vec<Route>)
    ensures
        routes_view(r@) == api_route_table(),
{
    let mut v: Vec<Route> = Vec::new();
    v.push(route(Method::Get, "/api/v1/users", Endpoint::IndexUsers));
    v.push(route(Method::Post, "/api/v1/users", Endpoint::StoreUser));
    v.push(route(Method::Get, "/api/v1/users/{id}", Endpoint::ShowUser));
    v.push(route(Method::Put, "/api/v1/users/{id}", Endpoint::UpdateUser));
    v.push(route(Method::Delete, "/api/v1/users/{id}", Endpoint::DestroyUser));
    assert(routes_view(v@) =~= api_route_table());
    v
}

/// Every route that the application serves.
pub open spec fn route_table() -> Seq<(Method, Seq<char>, Endpoint)> {
    auth_route_table() + api_route_table()
}

/// No two routes share a method and a path, so every request that the
/// router matches has exactly one handler.
pub proof fn law_routes_are_distinct()
    ensures
        forall|i: int, j: int|
            0 <= i < j < route_table().len() ==> #[trigger] route_table()[i].0 != #[trigger] route_table()[j].0
                || route_table()[i].1 != route_table()[j].1,
{
    reveal_strlit("/auth/register");
    reveal_strlit("/auth/login");
    reveal_strlit("/auth/logout");
    reveal_strlit("/auth/me");
    reveal_strlit("/auth/forgot-password");
    reveal_strlit("/auth/reset-password");
    reveal_strlit("/auth/magic-link");
    reveal_strlit("/auth/magic-link/callback");
    reveal_strlit("/api/v1/users");
    reveal_strlit("/api/v1/users/{id}");
    let t = route_table();
    assert forall|i: int, j: int| 0 <= i < j < t.len() implies t[i].0 != t[j].0 || t[i].1 != t[j].1 by {
        if t[i].0 == t[j].0 {
            assert(t[i].1.len() != t[j].1.len() || t[i].1[6] != t[j].1[6] || t[i].1[7] != t[j].1[7]
                || t[i].1[8] != t[j].1[8]);
        }
    }
}

/// The application serves exactly the endpoints of its API, each at its
/// method and path: these thirteen routes and no others.
pub proof fn law_routes_serve_the_api()
    ensures
        route_table().len() == 13,
        route_table().contains((Method::Post, "/auth/register"@, Endpoint::Register)),
        route_table().contains((Method::Post, "/auth/login"@, Endpoint::Login)),
        route_table().contains((Method::Post, "/auth/logout"@, Endpoint::Logout)),
        route_table().contains((Method::Get, "/auth/me"@, Endpoint::Me)),
        route_table().contains((Method::Post, "/auth/forgot-password"@, Endpoint::ForgotPassword)),
        route_table().contains((Method::Post, "/auth/reset-password"@, Endpoint::ResetPassword)),
        route_table().contains((Method::Post, "/auth/magic-link"@, Endpoint::MagicLink)),
        route_table().contains((Method::Get, "/auth/magic-link/callback"@, Endpoint::MagicLinkCallback)),
        route_table().contains((Method::Get, "/api/v1/users"@, Endpoint::IndexUsers)),
        route_table().contains((Method::Post, "/api/v1/users"@, Endpoint::StoreUser)),
        route_table().contains((Method::Get, "/api/v1/users/{id}"@, Endpoint::ShowUser)),
        route_table().contains((Method::Put, "/api/v1/users/{id}"@, Endpoint::UpdateUser)),
        route_table().contains((Method::Delete, "/api/v1/users/{id}"@, Endpoint::DestroyUser)),
{
    let t = route_table();
    assert(t[0] == (Method::Post, "/auth/register"@, Endpoint::Register));
    assert(t[1] == (Method::Post, "/auth/login"@, Endpoint::Login));
    assert(t[2] == (Method::Post, "/auth/logout"@, Endpoint::Logout));
    assert(t[3] == (Method::Get, "/auth/me"@, Endpoint::Me));
    assert(t[4] == (Method::Post, "/auth/forgot-password"@, Endpoint::ForgotPassword));
    assert(t[5] == (Method::Post, "/auth/reset-password"@, Endpoint::ResetPassword));
    assert(t[6] == (Method::Post, "/auth/magic-link"@, Endpoint::MagicLink));
    assert(t[7] == (Method::Get, "/auth/magic-link/callback"@, Endpoint::MagicLinkCallback));
    assert(t[8] == (Method::Get, "/api/v1/users"@, Endpoint::IndexUsers));
    assert(t[9] == (Method::Post, "/api/v1/users"@, Endpoint::StoreUser));
    assert(t[10] == (Method::Get, "/api/v1/users/{id}"@, Endpoint::ShowUser));
    assert(t[11] == (Method::Put, "/api/v1/users/{id}"@, Endpoint::UpdateUser));
    assert(t[12] == (Method::Delete, "/api/v1/users/{id}"@, Endpoint::DestroyUser));
}

} // verus!

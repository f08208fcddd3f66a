//! The route table: each route is tagged with its classification and with
//! what its handler does, once, at registration time.  The dispatcher
//! reads the tags; no per-route policy is re-derived anywhere else.

use crate::csrf::Method;
use crate::gate::{spec_login_path, RouteClass};
use crate::text::str_eq;
use vstd::prelude::*;
use vstd::string::StringExecFns;

verus! {

/// What a route's handler does, as far as authorization cares: render a
/// page, do its work and redirect somewhere fixed, take a login
/// submission, or end the session.
pub enum HandlerKind {
    Html,
    Redirect(String),
    LoginSubmit,
    Logout,
}

/// One registered route.
pub struct Route {
    pub method: Method,
    pub path: String,
    pub class: RouteClass,
    pub handler: HandlerKind,
}

/// The first route at or after position `i` that matches the method and
/// the path, if any.
pub open spec fn spec_find_route_from(rs: Seq<Route>, m: Method, path: Seq<char>, i: int) -> Option<
    Route,
>
    decreases rs.len() - i,
{
    if i < 0 || i >= rs.len() {
        None
    } else if rs[i].method == m && rs[i].path@ == path {
        Some(rs[i])
    } else {
        spec_find_route_from(rs, m, path, i + 1)
    }
}

/// The first route matching the method and the path, if any.
pub open spec fn spec_find_route(rs: Seq<Route>, m: Method, path: Seq<char>) -> Option<Route> {
    spec_find_route_from(rs, m, path, 0)
}

/// Look a request up in the table, first match wins.
pub fn find_route<'a>(rs: &'a Vec<Route>, m: Method, path: &str) -> (r: Option<&'a Route>)
    ensures
        match r {
            Some(rt) => spec_find_route(rs@, m, path@) == Some(*rt),
            None => spec_find_route(rs@, m, path@) is None,
        },
{
    let mut i: usize = 0;
    while i < rs.len()
        invariant
            0 <= i <= rs@.len(),
            spec_find_route(rs@, m, path@) == spec_find_route_from(rs@, m, path@, i as int),
        decreases rs@.len() - i,
    {
        let rt = &rs[i];
        if rt.method == m && str_eq(rt.path.as_str(), path) {
            return Some(rt);
        }
        i = i + 1;
    }
    None
}

/// The server's registered routes.
pub struct Router {
    pub routes: Vec<Route>,
}

/// Whether a table gives the `login-like` tag only to the login path.
pub open spec fn spec_login_like_only_at_login(rs: Seq<Route>) -> bool {
    forall|i: int|
        0 <= i < rs.len() && rs[i].class is LoginLike ==> rs[i].path@ == spec_login_path()
}

/// The shape of the table `Router::new` registers, as far as the laws
/// need it: where the visitor pages, the login form, the login submission,
/// the logout and the dashboard stand.
pub open spec fn spec_default_table_shape(rs: Seq<Route>) -> bool {
    &&& rs.len() == 27
    &&& rs[0].method is Get && rs[0].path@ == "/"@ && rs[0].class is Public && rs[0].handler
        is Html
    &&& rs[1].method is Get && rs[1].path@ == "/about"@ && rs[1].class is Public && rs[1].handler
        is Html
    &&& rs[2].method is Get && rs[2].path@ == "/contact"@ && rs[2].class is Public
        && rs[2].handler is Html
    &&& rs[3].method is Get && rs[3].path@ == spec_login_path() && rs[3].class is LoginLike
        && rs[3].handler is Html
    &&& rs[4].method is Post && rs[4].path@ == spec_login_path() && rs[4].class is Public
        && rs[4].handler is LoginSubmit
    &&& rs[5].method is Get && rs[5].path@ == "/logout"@ && rs[5].class is Public
        && rs[5].handler is Logout
    &&& rs[6].method is Get && rs[6].path@ == "/protected/dashboard"@ && rs[6].class is Protected
        && rs[6].handler is Html
}

impl Router {
    /// Register the site's routes.  Visitor pages are public; the login
    /// form is login-like; everything under the protected area requires an
    /// authenticated session; each submission redirects to the page its
    /// form belongs to.
    pub fn new() -> (r: Router)
        ensures
            spec_login_like_only_at_login(r.routes@),
            spec_default_table_shape(r.routes@),
            forall|i: int|
                7 <= i < r.routes@.len() && i != 18 ==> (#[trigger] r.routes@[i].class)
                    is Protected,
            r.routes@[18].class is Public,
    {
        let mut rs: Vec<Route> = Vec::new();
        rs.push(route(Method::Get, "/", RouteClass::Public, HandlerKind::Html));
        rs.push(route(Method::Get, "/about", RouteClass::Public, HandlerKind::Html));
        rs.push(route(Method::Get, "/contact", RouteClass::Public, HandlerKind::Html));
        rs.push(route(Method::Get, "/login", RouteClass::LoginLike, HandlerKind::Html));
        rs.push(route(Method::Post, "/login", RouteClass::Public, HandlerKind::LoginSubmit));
        rs.push(route(Method::Get, "/logout", RouteClass::Public, HandlerKind::Logout));
        rs.push(route(Method::Get, "/protected/dashboard", RouteClass::Protected, HandlerKind::Html));
        rs.push(route(Method::Get, "/protected/about/new", RouteClass::Protected, HandlerKind::Html));
        rs.push(redirecting(Method::Post, "/protected/about/new", "/protected/about/all"));
        rs.push(route(Method::Get, "/protected/about/all", RouteClass::Protected, HandlerKind::Html));
        rs.push(route(Method::Get, "/protected/about/{id}", RouteClass::Protected, HandlerKind::Html));
        rs.push(redirecting(Method::Post, "/protected/about/{id}/update", "/protected/about/all"));
        rs.push(redirecting(Method::Post, "/protected/about/{id}/delete", "/protected/about/all"));
        rs.push(route(Method::Get, "/protected/contact/new", RouteClass::Protected, HandlerKind::Html));
        rs.push(redirecting(Method::Post, "/protected/contact/new", "/protected/contact/all"));
        rs.push(route(Method::Get, "/protected/contact/all", RouteClass::Protected, HandlerKind::Html));
        rs.push(route(Method::Get, "/protected/contact/{id}", RouteClass::Protected, HandlerKind::Html));
        rs.push(redirecting(Method::Post, "/protected/contact/{id}/update", "/protected/contact/all"));
        rs.push(route(Method::Get, "/campaigns/{id}", RouteClass::Public, HandlerKind::Html));
        rs.push(route(Method::Get, "/protected/campaigns", RouteClass::Protected, HandlerKind::Html));
        rs.push(route(Method::Get, "/protected/campaigns/new", RouteClass::Protected, HandlerKind::Html));
        rs.push(redirecting(Method::Post, "/protected/campaigns/new", "/"));
        rs.push(route(Method::Get, "/protected/campaigns/{id}/edit", RouteClass::Protected, HandlerKind::Html));
        rs.push(redirecting(Method::Post, "/protected/campaigns/{id}/edit", "/protected/campaigns"));
        rs.push(redirecting(Method::Post, "/protected/campaigns/{id}/delete", "/protected/dashboard"));
        rs.push(route(Method::Get, "/protected/campaigns/{id}/amount", RouteClass::Protected, HandlerKind::Html));
        rs.push(redirecting(Method::Post, "/protected/campaigns/{id}/amount", "/protected/campaigns"));
        Router { routes: rs }
    }
}

/// In a table of the registered shape, the key requests find exactly the
/// routes that were registered for them, whatever else the table holds.
pub proof fn lemma_router_lookups(rs: Seq<Route>)
    requires
        spec_default_table_shape(rs),
    ensures
        spec_find_route(rs, Method::Get, "/"@) == Some(rs[0]),
        spec_find_route(rs, Method::Get, spec_login_path()) == Some(rs[3]),
        spec_find_route(rs, Method::Post, spec_login_path()) == Some(rs[4]),
        spec_find_route(rs, Method::Get, "/logout"@) == Some(rs[5]),
        spec_find_route(rs, Method::Get, "/protected/dashboard"@) == Some(rs[6]),
{
    broadcast use vstd::string::group_string_axioms;

    reveal_strlit("/");
    reveal_strlit("/about");
    reveal_strlit("/contact");
    reveal_strlit("/login");
    reveal_strlit("/logout");
    reveal_strlit("/protected/dashboard");
    assert("/"@.len() == 1 && "/about"@.len() == 6 && "/contact"@.len() == 8 && "/login"@.len()
        == 6 && "/logout"@.len() == 7 && "/protected/dashboard"@.len() == 20);
    assert("/about"@[1] == 'a' && "/login"@[1] == 'l');
    assert("/about"@ != "/login"@);
    assert("/"@ != "/login"@ && "/contact"@ != "/login"@);
    assert("/"@ != "/logout"@ && "/about"@ != "/logout"@ && "/contact"@ != "/logout"@ && "/login"@
        != "/logout"@);
    assert("/"@ != "/protected/dashboard"@ && "/about"@ != "/protected/dashboard"@ && "/contact"@
        != "/protected/dashboard"@ && "/login"@ != "/protected/dashboard"@ && "/logout"@
        != "/protected/dashboard"@);
    assert(spec_find_route_from(rs, Method::Get, "/"@, 0) == Some(rs[0]));
    assert(spec_find_route_from(rs, Method::Get, "/login"@, 0) == spec_find_route_from(rs, Method::Get, "/login"@, 1));
    assert(spec_find_route_from(rs, Method::Get, "/login"@, 1) == spec_find_route_from(rs, Method::Get, "/login"@, 2));
    assert(spec_find_route_from(rs, Method::Get, "/login"@, 2) == spec_find_route_from(rs, Method::Get, "/login"@, 3));
    assert(spec_find_route_from(rs, Method::Get, "/login"@, 3) == Some(rs[3]));
    assert(spec_find_route_from(rs, Method::Post, "/login"@, 0) == spec_find_route_from(rs, Method::Post, "/login"@, 1));
    assert(spec_find_route_from(rs, Method::Post, "/login"@, 1) == spec_find_route_from(rs, Method::Post, "/login"@, 2));
    assert(spec_find_route_from(rs, Method::Post, "/login"@, 2) == spec_find_route_from(rs, Method::Post, "/login"@, 3));
    assert(spec_find_route_from(rs, Method::Post, "/login"@, 3) == spec_find_route_from(rs, Method::Post, "/login"@, 4));
    assert(spec_find_route_from(rs, Method::Post, "/login"@, 4) == Some(rs[4]));
    assert(spec_find_route_from(rs, Method::Get, "/logout"@, 0) == spec_find_route_from(rs, Method::Get, "/logout"@, 1));
    assert(spec_find_route_from(rs, Method::Get, "/logout"@, 1) == spec_find_route_from(rs, Method::Get, "/logout"@, 2));
    assert(spec_find_route_from(rs, Method::Get, "/logout"@, 2) == spec_find_route_from(rs, Method::Get, "/logout"@, 3));
    assert(spec_find_route_from(rs, Method::Get, "/logout"@, 3) == spec_find_route_from(rs, Method::Get, "/logout"@, 4));
    assert(spec_find_route_from(rs, Method::Get, "/logout"@, 4) == spec_find_route_from(rs, Method::Get, "/logout"@, 5));
    assert(spec_find_route_from(rs, Method::Get, "/logout"@, 5) == Some(rs[5]));
    assert(spec_find_route_from(rs, Method::Get, "/protected/dashboard"@, 0) == spec_find_route_from(rs, Method::Get, "/protected/dashboard"@, 1));
    assert(spec_find_route_from(rs, Method::Get, "/protected/dashboard"@, 1) == spec_find_route_from(rs, Method::Get, "/protected/dashboard"@, 2));
    assert(spec_find_route_from(rs, Method::Get, "/protected/dashboard"@, 2) == spec_find_route_from(rs, Method::Get, "/protected/dashboard"@, 3));
    assert(spec_find_route_from(rs, Method::Get, "/protected/dashboard"@, 3) == spec_find_route_from(rs, Method::Get, "/protected/dashboard"@, 4));
    assert(spec_find_route_from(rs, Method::Get, "/protected/dashboard"@, 4) == spec_find_route_from(rs, Method::Get, "/protected/dashboard"@, 5));
    assert(spec_find_route_from(rs, Method::Get, "/protected/dashboard"@, 5) == spec_find_route_from(rs, Method::Get, "/protected/dashboard"@, 6));
    assert(spec_find_route_from(rs, Method::Get, "/protected/dashboard"@, 6) == Some(rs[6]));
}

/// One route with the given tags.
fn route(method: Method, path: &str, class: RouteClass, handler: HandlerKind) -> (r: Route)
    ensures
        r.method == method,
        r.path@ == path@,
        r.class == class,
        r.handler == handler,
{
    Route { method, path: String::from_str(path), class, handler }
}

/// One route whose handler does its work and then redirects to `target`.
fn redirecting(method: Method, path: &str, target: &str) -> (r: Route)
    ensures
        r.method == method,
        r.path@ == path@,
        r.class is Protected,
        r.handler matches HandlerKind::Redirect(t) && t@ == target@,
{
    Route {
        method,
        path: String::from_str(path),
        class: RouteClass::Protected,
        handler: HandlerKind::Redirect(String::from_str(target)),
    }
}

} // verus!

//! The authorization gate: per request, pass through or redirect.
//!
//! Each route carries a classification given to it at registration time.
//! The decision is a pure function of that classification, the session's
//! authentication state and the request path; no state is owned here and
//! the session is never mutated.

use crate::session::SessionState;
use crate::text::str_eq;
use vstd::prelude::*;
use vstd::string::StringExecFns;

verus! {

/// How a route was classified when it was registered.
#[derive(Clone, Copy, PartialEq, Eq, Structural)]
pub enum RouteClass {
    /// Anyone may request it.
    Public,
    /// Only an authenticated session may reach the handler.
    Protected,
    /// Rendered for visitors; an already-authenticated session is sent away.
    LoginLike,
}

/// What the dispatcher is told: run the handler, or answer with a
/// redirect and never run it.
pub enum Decision {
    Continue,
    RedirectTo(String),
}

impl View for Decision {
    type V = Option<Seq<char>>;

    open spec fn view(&self) -> Option<Seq<char>> {
        match self {
            Decision::Continue => None,
            Decision::RedirectTo(p) => Some(p@),
        }
    }
}

/// The path of the login form.
pub open spec fn spec_login_path() -> Seq<char> {
    "/login"@
}

/// The path an authenticated visitor is sent to.
pub open spec fn spec_dashboard_path() -> Seq<char> {
    "/protected/dashboard"@
}

pub fn login_path() -> (r: &'static str)
    ensures
        r@ == spec_login_path(),
{
    "/login"
}

pub fn dashboard_path() -> (r: &'static str)
    ensures
        r@ == spec_dashboard_path(),
{
    "/protected/dashboard"
}

/// The authorization rules, first match wins: an authenticated session at
/// the login path is sent to the dashboard; other login-like requests pass;
/// a protected route passes only an authenticated session and redirects the
/// rest to the login page; public routes always pass.  `None` means the
/// handler runs; `Some(loc)` means a redirect to `loc` and the handler
/// never runs.
pub open spec fn spec_authorize(class: RouteClass, authed: bool, path: Seq<char>) -> Option<
    Seq<char>,
> {
    match class {
        RouteClass::LoginLike => if authed && path == spec_login_path() {
            Some(spec_dashboard_path())
        } else {
            None
        },
        RouteClass::Protected => if authed {
            None
        } else {
            Some(spec_login_path())
        },
        RouteClass::Public => None,
    }
}

/// Decide a request.  Pure: the session is only read.
pub fn authorize(class: RouteClass, session: &SessionState, path: &str) -> (d: Decision)
    ensures
        d@ == spec_authorize(class, session.spec_is_authenticated(), path@),
{
    match class {
        RouteClass::LoginLike => {
            if session.is_authenticated() && str_eq(path, "/login") {
                Decision::RedirectTo(String::from_str("/protected/dashboard"))
            } else {
                Decision::Continue
            }
        },
        RouteClass::Protected => {
            if session.is_authenticated() {
                Decision::Continue
            } else {
                Decision::RedirectTo(String::from_str("/login"))
            }
        },
        RouteClass::Public => Decision::Continue,
    }
}

/// The middleware placed on `protected` routes: pass an authenticated
/// session through, send the rest to the login page.
pub fn require_auth(session: &SessionState) -> (d: Decision)
    ensures
        d@ == spec_authorize(RouteClass::Protected, session.spec_is_authenticated(), Seq::empty()),
{
    authorize(RouteClass::Protected, session, "")
}

/// The middleware placed on the login page: a session that is already
/// authenticated is sent to the dashboard instead of seeing the form again.
pub fn already_logged_in(session: &SessionState, path: &str) -> (d: Decision)
    ensures
        d@ == spec_authorize(RouteClass::LoginLike, session.spec_is_authenticated(), path@),
{
    authorize(RouteClass::LoginLike, session, path)
}

/// Law: a session without a user never passes a protected route; whatever
/// the path, it is redirected to the login page.
pub proof fn lemma_unauthenticated_protected_redirects(path: Seq<char>)
    ensures
        spec_authorize(RouteClass::Protected, false, path) == Some(spec_login_path()),
{
}

/// Law: a session with a user requesting the login-like route at the login
/// path is redirected to the dashboard.
pub proof fn lemma_authenticated_login_redirects()
    ensures
        spec_authorize(RouteClass::LoginLike, true, spec_login_path()) == Some(
            spec_dashboard_path(),
        ),
{
}

} // verus!

//! The request pipeline: anti-forgery check, route lookup, authorization
//! gate, then — only if everything passed — the handler.
//!
//! `handle_request` is the whole chain as one verified function over the
//! session model; its behaviour is pinned by `spec_dispatch`.  The laws at
//! the bottom state the properties the chain guarantees.

use crate::csrf::{spec_is_mutating, CsrfVerifier, Method, STATUS_UNPROCESSABLE};
use crate::gate::{
    authorize, spec_authorize, spec_dashboard_path, spec_login_path, Decision, RouteClass,
};
use crate::login::{login_post, spec_credentials_match, LoginForm, UserRecord};
use crate::logout::logout;
use crate::routes::{
    find_route, lemma_router_lookups, spec_default_table_shape, spec_find_route, HandlerKind,
    Route, Router,
};
use crate::session::SessionState;
use vstd::prelude::*;

verus! {

pub const STATUS_OK: u16 = 200;

pub const STATUS_SEE_OTHER: u16 = 303;

/// One incoming request, as the pipeline sees it: the CSRF service's
/// verdict on its token stands in for the token itself, and the login form
/// is already parsed if the body carried one.
pub struct Request {
    pub method: Method,
    pub path: String,
    pub csrf_valid: bool,
    pub login_form: Option<LoginForm>,
}

/// What goes back to the client, and whether a handler was ever reached.
pub struct Response {
    pub status: u16,
    pub location: Option<String>,
    pub handler_ran: bool,
}

/// Everything `handle_request` does, as one value: status, `Location`
/// header, whether the handler ran, and the session's `user_id` and other
/// attributes afterwards.
pub open spec fn spec_dispatch(
    routes: Seq<Route>,
    users: Seq<UserRecord>,
    method: Method,
    path: Seq<char>,
    csrf_valid: bool,
    form: Option<LoginForm>,
    user: Option<String>,
    attrs: Seq<(String, String)>,
) -> (u16, Option<Seq<char>>, bool, Option<String>, Seq<(String, String)>) {
    if spec_is_mutating(method) && !csrf_valid {
        (STATUS_UNPROCESSABLE, None, false, user, attrs)
    } else {
        match spec_find_route(routes, method, path) {
            None => (STATUS_OK, None, true, user, attrs),
            Some(rt) => match spec_authorize(rt.class, user is Some, path) {
                Some(loc) => (STATUS_SEE_OTHER, Some(loc), false, user, attrs),
                None => match rt.handler {
                    HandlerKind::Html => (STATUS_OK, None, true, user, attrs),
                    HandlerKind::Redirect(t) => (STATUS_SEE_OTHER, Some(t@), true, user, attrs),
                    HandlerKind::Logout => (
                        STATUS_SEE_OTHER,
                        Some(spec_login_path()),
                        true,
                        None,
                        Seq::empty(),
                    ),
                    HandlerKind::LoginSubmit => match form {
                        None => (STATUS_UNPROCESSABLE, None, false, user, attrs),
                        Some(f) => if spec_credentials_match(users, f.username@, f.password@) {
                            (STATUS_SEE_OTHER, Some(spec_dashboard_path()), true, Some(f.username), attrs)
                        } else {
                            (STATUS_SEE_OTHER, Some(spec_login_path()), true, user, attrs)
                        },
                    },
                },
            },
        }
    }
}

/// Run one request through the whole chain.
pub fn handle_request(
    router: &Router,
    users: &Vec<UserRecord>,
    req: &Request,
    session: &mut SessionState,
) -> (resp: Response)
    ensures
        ({
            let out = spec_dispatch(
                router.routes@,
                users@,
                req.method,
                req.path@,
                req.csrf_valid,
                req.login_form,
                old(session).user_id,
                old(session).attrs@,
            );
            &&& resp.status == out.0
            &&& match resp.location {
                Some(l) => out.1 == Some(l@),
                None => out.1 is None,
            }
            &&& resp.handler_ran == out.2
            &&& final(session).user_id == out.3
            &&& final(session).attrs@ == out.4
        }),
{
    let pass = CsrfVerifier::check(req.method, req.csrf_valid);
    if pass.is_err() {
        return Response { status: STATUS_UNPROCESSABLE, location: None, handler_ran: false };
    }
    match find_route(&router.routes, req.method, req.path.as_str()) {
        None => Response { status: STATUS_OK, location: None, handler_ran: true },
        Some(rt) => {
            match authorize(rt.class, session, req.path.as_str()) {
                Decision::RedirectTo(loc) => Response {
                    status: STATUS_SEE_OTHER,
                    location: Some(loc),
                    handler_ran: false,
                },
                Decision::Continue => match &rt.handler {
                    HandlerKind::Html => Response {
                        status: STATUS_OK,
                        location: None,
                        handler_ran: true,
                    },
                    HandlerKind::Redirect(t) => Response {
                        status: STATUS_SEE_OTHER,
                        location: Some(t.clone()),
                        handler_ran: true,
                    },
                    HandlerKind::Logout => {
                        let loc = logout(session);
                        Response {
                            status: STATUS_SEE_OTHER,
                            location: Some(loc),
                            handler_ran: true,
                        }
                    },
                    HandlerKind::LoginSubmit => match &req.login_form {
                        None => Response {
                            status: STATUS_UNPROCESSABLE,
                            location: None,
                            handler_ran: false,
                        },
                        Some(form) => {
                            let loc = login_post(users, form, session);
                            Response {
                                status: STATUS_SEE_OTHER,
                                location: Some(loc),
                                handler_ran: true,
                            }
                        },
                    },
                },
            }
        },
    }
}

/// Law: a session without a user never reaches the handler of a protected
/// route, and — unless the anti-forgery check rejects the request first —
/// the answer is a 303 redirect to the login page, with the session left
/// as it was.
pub proof fn lemma_unauthenticated_protected_request(
    routes: Seq<Route>,
    users: Seq<UserRecord>,
    method: Method,
    path: Seq<char>,
    csrf_valid: bool,
    form: Option<LoginForm>,
    attrs: Seq<(String, String)>,
)
    requires
        spec_find_route(routes, method, path) matches Some(rt) && rt.class is Protected,
    ensures
        ({
            let out = spec_dispatch(routes, users, method, path, csrf_valid, form, None, attrs);
            &&& !out.2
            &&& out.3 is None
            &&& out.4 == attrs
            &&& (!spec_is_mutating(method) || csrf_valid) ==> out.0 == STATUS_SEE_OTHER && out.1
                == Some(spec_login_path())
        }),
{
}

/// Law: a session with a user that requests the login-like route at the
/// login path is sent to the dashboard; the handler never runs and the
/// session keeps its user.
pub proof fn lemma_authenticated_login_page_redirects(
    routes: Seq<Route>,
    users: Seq<UserRecord>,
    csrf_valid: bool,
    form: Option<LoginForm>,
    user: String,
    attrs: Seq<(String, String)>,
)
    requires
        spec_find_route(routes, Method::Get, spec_login_path()) matches Some(rt) && rt.class
            is LoginLike,
    ensures
        ({
            let out = spec_dispatch(
                routes,
                users,
                Method::Get,
                spec_login_path(),
                csrf_valid,
                form,
                Some(user),
                attrs,
            );
            &&& out.0 == STATUS_SEE_OTHER
            &&& out.1 == Some(spec_dashboard_path())
            &&& !out.2
            &&& out.3 == Some(user)
            &&& out.4 == attrs
        }),
{
}

/// Law: a mutating request whose token is missing or does not verify is
/// rejected with a 422 — no redirect, no handler, no session change —
/// whatever the authentication state and whatever the route.
pub proof fn lemma_forged_token_rejected(
    routes: Seq<Route>,
    users: Seq<UserRecord>,
    method: Method,
    path: Seq<char>,
    form: Option<LoginForm>,
    user: Option<String>,
    attrs: Seq<(String, String)>,
)
    requires
        spec_is_mutating(method),
    ensures
        ({
            let out = spec_dispatch(routes, users, method, path, false, form, user, attrs);
            &&& out.0 == STATUS_UNPROCESSABLE
            &&& out.1 is None
            &&& !out.2
            &&& out.3 == user
            &&& out.4 == attrs
        }),
{
}

/// Law: logout clears `user_id` and every other attribute, had the session
/// any or none, answers 303 to the login page, and leaves the session one
/// that every protected route treats as unauthenticated.
pub proof fn lemma_logout_clears_session(
    routes: Seq<Route>,
    users: Seq<UserRecord>,
    path: Seq<char>,
    form: Option<LoginForm>,
    csrf_valid: bool,
    user: Option<String>,
    attrs: Seq<(String, String)>,
)
    requires
        spec_find_route(routes, Method::Get, path) matches Some(rt) && rt.handler is Logout
            && rt.class is Public,
    ensures
        ({
            let out = spec_dispatch(routes, users, Method::Get, path, csrf_valid, form, user, attrs);
            &&& out.0 == STATUS_SEE_OTHER
            &&& out.1 == Some(spec_login_path())
            &&& out.2
            &&& out.3 is None
            &&& out.4 == Seq::<(String, String)>::empty()
            &&& forall|p: Seq<char>| #[trigger]
                spec_authorize(RouteClass::Protected, out.3 is Some, p) == Some(spec_login_path())
        }),
{
}

/// Law, end to end, over any table of the registered shape: an empty
/// session is turned away from the dashboard; a login with correct
/// credentials and a verified token signs it in; the signed-in session
/// reaches the dashboard; logout signs it out again; and a mutating
/// request with a stale token is rejected whoever sends it.
pub proof fn lemma_end_to_end(
    routes: Seq<Route>,
    users: Seq<UserRecord>,
    form: LoginForm,
    attrs: Seq<(String, String)>,
    stale_method: Method,
    stale_path: Seq<char>,
)
    requires
        spec_default_table_shape(routes),
        spec_credentials_match(users, form.username@, form.password@),
        spec_is_mutating(stale_method),
    ensures
        ({
            let visit = spec_dispatch(
                routes,
                users,
                Method::Get,
                "/protected/dashboard"@,
                true,
                None,
                None,
                attrs,
            );
            &&& visit.0 == STATUS_SEE_OTHER
            &&& visit.1 == Some(spec_login_path())
            &&& !visit.2
        }),
        ({
            let signin = spec_dispatch(
                routes,
                users,
                Method::Post,
                spec_login_path(),
                true,
                Some(form),
                None,
                attrs,
            );
            &&& signin.0 == STATUS_SEE_OTHER
            &&& signin.1 == Some(spec_dashboard_path())
            &&& signin.3 == Some(form.username)
        }),
        ({
            let dash = spec_dispatch(
                routes,
                users,
                Method::Get,
                "/protected/dashboard"@,
                true,
                None,
                Some(form.username),
                attrs,
            );
            &&& dash.0 == STATUS_OK
            &&& dash.2
            &&& dash.3 == Some(form.username)
        }),
        ({
            let out = spec_dispatch(
                routes,
                users,
                Method::Get,
                "/logout"@,
                true,
                None,
                Some(form.username),
                attrs,
            );
            &&& out.0 == STATUS_SEE_OTHER
            &&& out.1 == Some(spec_login_path())
            &&& out.3 is None
        }),
        spec_dispatch(routes, users, stale_method, stale_path, false, None, Some(form.username), attrs).0
            == STATUS_UNPROCESSABLE,
{
    lemma_router_lookups(routes);
}

} // verus!

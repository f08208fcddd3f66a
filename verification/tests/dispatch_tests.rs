use mrs_funding::csrf::{CsrfVerifier, Method};
use mrs_funding::dispatch::{handle_request, Request, Response};
use mrs_funding::gate::{authorize, Decision, RouteClass};
use mrs_funding::login::{login_post, LoginForm, UserRecord};
use mrs_funding::logout::logout;
use mrs_funding::routes::Router;
use mrs_funding::session::SessionState;

fn request(method: Method, path: &str, csrf_valid: bool, form: Option<LoginForm>) -> Request {
    Request { method, path: path.to_string(), csrf_valid, login_form: form }
}

fn users_with(username: &str, password: &str) -> Vec<UserRecord> {
    vec![UserRecord { username: username.to_string(), password: password.to_string() }]
}

fn location_of(resp: &Response) -> &str {
    resp.location.as_ref().map(|s| s.as_str()).unwrap_or("")
}

#[test]
fn test_home_page_access() {
    let router = Router::new();
    let users: Vec<UserRecord> = Vec::new();
    let mut session = SessionState::new();
    let resp = handle_request(&router, &users, &request(Method::Get, "/", true, None), &mut session);
    assert_eq!(resp.status, 200);
}

#[test]
fn test_protected_dashboard_redirect() {
    let router = Router::new();
    let users: Vec<UserRecord> = Vec::new();
    let mut session = SessionState::new();
    let resp = handle_request(
        &router,
        &users,
        &request(Method::Get, "/protected/dashboard", true, None),
        &mut session,
    );
    assert_eq!(resp.status, 303);
    assert_eq!(location_of(&resp), "/login");
}

#[test]
fn test_csrf_protection_blocks_unauthorized_post() {
    let router = Router::new();
    let users: Vec<UserRecord> = Vec::new();
    let mut session = SessionState::new();
    // A POST without a token: the CSRF service cannot verify it.
    let resp = handle_request(
        &router,
        &users,
        &request(Method::Post, "/login", false, None),
        &mut session,
    );
    assert_eq!(resp.status, 422);
}

#[test]
fn test_logout_with_active_session() {
    let router = Router::new();
    let users: Vec<UserRecord> = Vec::new();
    let mut session = SessionState::new();
    session.set_user_id("test_user".to_string());
    let resp = handle_request(
        &router,
        &users,
        &request(Method::Get, "/logout", true, None),
        &mut session,
    );
    assert_eq!(resp.status, 303);
    assert_eq!(location_of(&resp), "/login");
    assert!(session.user_id.is_none());
}

#[test]
fn unauthenticated_protected_route_never_runs_handler() {
    let router = Router::new();
    let users: Vec<UserRecord> = Vec::new();
    let mut session = SessionState::new();
    let resp = handle_request(
        &router,
        &users,
        &request(Method::Get, "/protected/about/all", true, None),
        &mut session,
    );
    assert_eq!(resp.status, 303);
    assert_eq!(location_of(&resp), "/login");
    assert!(!resp.handler_ran);
}

#[test]
fn authenticated_login_page_redirects_to_dashboard() {
    let router = Router::new();
    let users: Vec<UserRecord> = Vec::new();
    let mut session = SessionState::new();
    session.set_user_id("admin".to_string());
    let resp = handle_request(
        &router,
        &users,
        &request(Method::Get, "/login", true, None),
        &mut session,
    );
    assert_eq!(resp.status, 303);
    assert_eq!(location_of(&resp), "/protected/dashboard");
    assert!(!resp.handler_ran);
}

#[test]
fn forged_token_rejected_even_when_authenticated() {
    let router = Router::new();
    let users = users_with("admin", "secret");
    let mut session = SessionState::new();
    session.set_user_id("admin".to_string());
    let resp = handle_request(
        &router,
        &users,
        &request(Method::Post, "/protected/about/new", false, None),
        &mut session,
    );
    assert_eq!(resp.status, 422);
    assert!(resp.location.is_none());
    assert!(!resp.handler_ran);
    assert_eq!(session.user_id.as_deref(), Some("admin"));
}

#[test]
fn end_to_end_login_dashboard_logout_stale_token() {
    let router = Router::new();
    let users = users_with("admin", "secret");
    let mut session = SessionState::new();

    // (a) the dashboard turns an empty session away
    let resp = handle_request(
        &router,
        &users,
        &request(Method::Get, "/protected/dashboard", true, None),
        &mut session,
    );
    assert_eq!(resp.status, 303);
    assert_eq!(location_of(&resp), "/login");

    // (b) a login with valid credentials and a verified token signs in
    let form = LoginForm { username: "admin".to_string(), password: "secret".to_string() };
    let resp = handle_request(
        &router,
        &users,
        &request(Method::Post, "/login", true, Some(form)),
        &mut session,
    );
    assert_eq!(resp.status, 303);
    assert_eq!(location_of(&resp), "/protected/dashboard");
    assert_eq!(session.user_id.as_deref(), Some("admin"));

    // (c) the dashboard now answers the page
    let resp = handle_request(
        &router,
        &users,
        &request(Method::Get, "/protected/dashboard", true, None),
        &mut session,
    );
    assert_eq!(resp.status, 200);
    assert!(resp.handler_ran);

    // (d) logout clears the session
    let resp = handle_request(
        &router,
        &users,
        &request(Method::Get, "/logout", true, None),
        &mut session,
    );
    assert_eq!(resp.status, 303);
    assert_eq!(location_of(&resp), "/login");
    assert!(session.user_id.is_none());

    // (e) a mutating request with a stale token is rejected
    let resp = handle_request(
        &router,
        &users,
        &request(Method::Post, "/protected/campaigns/new", false, None),
        &mut session,
    );
    assert_eq!(resp.status, 422);
}

#[test]
fn authorize_follows_the_five_rules() {
    let mut authed = SessionState::new();
    authed.set_user_id("admin".to_string());
    let guest = SessionState::new();

    // rule 1: authenticated, login-like, at the login path
    match authorize(RouteClass::LoginLike, &authed, "/login") {
        Decision::RedirectTo(loc) => assert_eq!(loc, "/protected/dashboard"),
        Decision::Continue => panic!("expected a redirect"),
    }
    // rule 2: login-like otherwise
    assert!(matches!(authorize(RouteClass::LoginLike, &guest, "/login"), Decision::Continue));
    assert!(matches!(authorize(RouteClass::LoginLike, &authed, "/other"), Decision::Continue));
    // rule 3: protected with a user
    assert!(matches!(authorize(RouteClass::Protected, &authed, "/protected/x"), Decision::Continue));
    // rule 4: protected without one
    match authorize(RouteClass::Protected, &guest, "/protected/x") {
        Decision::RedirectTo(loc) => assert_eq!(loc, "/login"),
        Decision::Continue => panic!("expected a redirect"),
    }
    // rule 5: public
    assert!(matches!(authorize(RouteClass::Public, &guest, "/"), Decision::Continue));
    assert!(matches!(authorize(RouteClass::Public, &authed, "/"), Decision::Continue));
}

#[test]
fn csrf_check_only_guards_mutating_methods() {
    assert!(CsrfVerifier::check(Method::Get, false).is_ok());
    assert!(CsrfVerifier::check(Method::Post, true).is_ok());
    assert_eq!(CsrfVerifier::check(Method::Post, false).err(), Some(422));
    assert_eq!(CsrfVerifier::check(Method::Put, false).err(), Some(422));
    assert_eq!(CsrfVerifier::check(Method::Delete, false).err(), Some(422));
}

#[test]
fn login_sets_user_id_to_exact_submitted_username() {
    let users = users_with("Admin", "secret");
    let mut session = SessionState::new();
    let form = LoginForm { username: "Admin".to_string(), password: "secret".to_string() };
    let loc = login_post(&users, &form, &mut session);
    assert_eq!(loc, "/protected/dashboard");
    assert_eq!(session.user_id.as_deref(), Some("Admin"));
}

#[test]
fn login_is_case_sensitive_and_silent_about_what_was_wrong() {
    let users = users_with("Admin", "secret");

    let mut session = SessionState::new();
    let wrong_case = LoginForm { username: "admin".to_string(), password: "secret".to_string() };
    let loc = login_post(&users, &wrong_case, &mut session);
    assert_eq!(loc, "/login");
    assert!(session.user_id.is_none());

    let mut session = SessionState::new();
    let wrong_password = LoginForm { username: "Admin".to_string(), password: "Secret".to_string() };
    let loc = login_post(&users, &wrong_password, &mut session);
    assert_eq!(loc, "/login");
    assert!(session.user_id.is_none());
}

#[test]
fn logout_clears_everything_even_an_empty_session() {
    let mut session = SessionState::new();
    let loc = logout(&mut session);
    assert_eq!(loc, "/login");
    assert!(session.user_id.is_none());
    assert!(session.attrs.is_empty());

    let mut session = SessionState::new();
    session.set_user_id("admin".to_string());
    session.insert_attr("theme".to_string(), "dark".to_string());
    let loc = logout(&mut session);
    assert_eq!(loc, "/login");
    assert!(session.user_id.is_none());
    assert!(session.attrs.is_empty());
}

#[test]
fn unknown_path_falls_through_to_the_not_found_page() {
    let router = Router::new();
    let users: Vec<UserRecord> = Vec::new();
    let mut session = SessionState::new();
    let resp = handle_request(
        &router,
        &users,
        &request(Method::Get, "/non-existent-path", true, None),
        &mut session,
    );
    assert_eq!(resp.status, 200);
    assert!(resp.handler_ran);
}

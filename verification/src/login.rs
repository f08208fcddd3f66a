//! Credential verification and the login submission handler.
//!
//! On a match the submitted username — exactly as submitted, case included —
//! becomes the session's `user_id` and the client is sent to the dashboard.
//! On a mismatch nothing is written and the client is sent back to the login
//! page; by design the answer never says which field was wrong.

use crate::gate::{dashboard_path, login_path, spec_dashboard_path, spec_login_path};
use crate::session::SessionState;
use crate::text::str_eq;
use vstd::prelude::*;
use vstd::string::StringExecFns;

verus! {

/// A submitted login form.
pub struct LoginForm {
    pub username: String,
    pub password: String,
}

/// The login form's markup, carrying the issued token.
pub open spec fn spec_login_page_content(csrf_token: Seq<char>) -> Seq<char> {
    r#"
        <section class="login-form">
            <h2>Login</h2>
            <form method="POST" action="/login">
                <input type="hidden" name="csrf_token" value=""#@ + csrf_token + r#"">
                <div class="form-group">
                    <input type="text" name="username" placeholder="Username" required>
                </div>
                <div class="form-group">
                    <input type="password" name="password" placeholder="Password" required>
                </div>
                <button type="submit">Login</button>
            </form>
        </section>
        "#@
}

pub fn login_page_content(csrf_token: &str) -> (r: String)
    ensures
        r@ == spec_login_page_content(csrf_token@),
{
    let mut s = String::from_str(
        r#"
        <section class="login-form">
            <h2>Login</h2>
            <form method="POST" action="/login">
                <input type="hidden" name="csrf_token" value=""#,
    );
    s.append(csrf_token);
    s.append(
        r#"">
                <div class="form-group">
                    <input type="text" name="username" placeholder="Username" required>
                </div>
                <div class="form-group">
                    <input type="password" name="password" placeholder="Password" required>
                </div>
                <button type="submit">Login</button>
            </form>
        </section>
        "#,
    );
    s
}

/// One stored credential row.
pub struct UserRecord {
    pub username: String,
    pub password: String,
}

/// Whether the stored credentials hold the submitted pair, compared
/// case-sensitively and unmodified.
pub open spec fn spec_credentials_match(
    users: Seq<UserRecord>,
    username: Seq<char>,
    password: Seq<char>,
) -> bool {
    exists|i: int|
        0 <= i < users.len() && users[i].username@ == username && users[i].password@ == password
}

/// Look the submitted pair up in the stored credentials.
pub fn credentials_match(users: &Vec<UserRecord>, form: &LoginForm) -> (r: bool)
    ensures
        r == spec_credentials_match(users@, form.username@, form.password@),
{
    let mut i: usize = 0;
    while i < users.len()
        invariant
            0 <= i <= users@.len(),
            forall|j: int|
                0 <= j < i ==> !(users@[j].username@ == form.username@ && users@[j].password@
                    == form.password@),
        decreases users@.len() - i,
    {
        if str_eq(users[i].username.as_str(), form.username.as_str()) && str_eq(
            users[i].password.as_str(),
            form.password.as_str(),
        ) {
            assert(spec_credentials_match(users@, form.username@, form.password@));
            return true;
        }
        i = i + 1;
    }
    false
}

/// Apply the outcome of a credential check to the session: the one place
/// that decides what a login attempt does, whichever store answered it.
/// A match writes the submitted username into the session and sends the
/// client to the dashboard; anything else leaves the session untouched and
/// sends the client back to the login page.
pub fn apply_login_result(matched: bool, form: &LoginForm, session: &mut SessionState) -> (loc:
    String)
    ensures
        matched ==> {
            &&& final(session).user_id == Some(form.username)
            &&& final(session).attrs == old(session).attrs
            &&& loc@ == spec_dashboard_path()
        },
        !matched ==> {
            &&& *final(session) == *old(session)
            &&& loc@ == spec_login_path()
        },
{
    if matched {
        session.set_user_id(form.username.clone());
        String::from_str(dashboard_path())
    } else {
        String::from_str(login_path())
    }
}

/// The login submission handler against an in-memory credential store.
pub fn login_post(users: &Vec<UserRecord>, form: &LoginForm, session: &mut SessionState) -> (loc:
    String)
    ensures
        spec_credentials_match(users@, form.username@, form.password@) ==> {
            &&& final(session).user_id == Some(form.username)
            &&& final(session).attrs == old(session).attrs
            &&& loc@ == spec_dashboard_path()
        },
        !spec_credentials_match(users@, form.username@, form.password@) ==> {
            &&& *final(session) == *old(session)
            &&& loc@ == spec_login_path()
        },
{
    let matched = credentials_match(users, form);
    apply_login_result(matched, form, session)
}

} // verus!

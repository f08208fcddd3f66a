//! The admin dashboard around the signed-in username.

use vstd::prelude::*;
use vstd::string::StringExecFns;

verus! {

/// The dashboard's markup with the username interpolated.
pub open spec fn spec_dashboard_content(username: Seq<char>) -> Seq<char> {
    r#"
        <section class="dashboard">
            <h1>Dashboard</h1>
            <p class="user-info">Logged in as: <strong>"#@ + username + r#"</strong></p>
            <div class="dashboard-links">
                <a href="/protected/about/all" class="button">Open About Me Options</a>
                <a href="/protected/contact/all" class="button">Open Contact Options</a>
                <a href="/protected/campaigns" class="button">Open Campaign Options</a>
            </div>
        </section>
        "#@
}

pub fn dashboard_content(username: &str) -> (r: String)
    ensures
        r@ == spec_dashboard_content(username@),
{
    let mut s = String::from_str(
        r#"
        <section class="dashboard">
            <h1>Dashboard</h1>
            <p class="user-info">Logged in as: <strong>"#,
    );
    s.append(username);
    s.append(
        r#"</strong></p>
            <div class="dashboard-links">
                <a href="/protected/about/all" class="button">Open About Me Options</a>
                <a href="/protected/contact/all" class="button">Open Contact Options</a>
                <a href="/protected/campaigns" class="button">Open Campaign Options</a>
            </div>
        </section>
        "#,
    );
    s
}

} // verus!

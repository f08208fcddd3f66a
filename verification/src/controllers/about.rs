//! The about pages: the forms they take and the markup they assemble.

use crate::text::{i64_to_string, spec_i64_decimal};
use vstd::prelude::*;
use vstd::string::StringExecFns;

verus! {

/// The submission that creates an about entry.
pub struct AboutForm {
    pub description: String,
}

/// The submission that rewrites an about entry.
pub struct AboutUpdateForm {
    pub description: String,
    pub active: bool,
}

/// The visitor-facing about page around the active entry's text.
pub open spec fn spec_about_content(description: Seq<char>) -> Seq<char> {
    r#"
        <section>
            <h2>About Us</h2>
            <div class="about-content">"#@ + description + r#"</div>
        </section>
        "#@
}

pub fn about_content(description: &str) -> (r: String)
    ensures
        r@ == spec_about_content(description@),
{
    let mut s = String::from_str(
        r#"
        <section>
            <h2>About Us</h2>
            <div class="about-content">"#,
    );
    s.append(description);
    s.append(
        r#"</div>
        </section>
        "#,
    );
    s
}

/// The form that creates a new entry, carrying the issued token.
pub open spec fn spec_about_create_content(csrf_token: Seq<char>) -> Seq<char> {
    r#"
        <section>
            <h2>Create New About Entry</h2>
            <h3>You can use HTML in the description.</h3>
            <form method="POST" action="/protected/about/new">
                <input type="hidden" name="csrf_token" value=""#@ + csrf_token + r#"">
                <textarea name="description" required></textarea>
                <button type="submit">Create</button>
            </form>
        </section>
        "#@
}

pub fn about_create_content(csrf_token: &str) -> (r: String)
    ensures
        r@ == spec_about_create_content(csrf_token@),
{
    let mut s = String::from_str(
        r#"
        <section>
            <h2>Create New About Entry</h2>
            <h3>You can use HTML in the description.</h3>
            <form method="POST" action="/protected/about/new">
                <input type="hidden" name="csrf_token" value=""#,
    );
    s.append(csrf_token);
    s.append(
        r#"">
                <textarea name="description" required></textarea>
                <button type="submit">Create</button>
            </form>
        </section>
        "#,
    );
    s
}

/// One row of the listing.
pub open spec fn spec_about_entry(rec: (i64, String, bool)) -> Seq<char> {
    "<div class='entry'><p><a href='/protected/about/"@ + spec_i64_decimal(rec.0 as int) + "'>"@
        + spec_i64_decimal(rec.0 as int) + "</a></p><p>"@ + rec.1@ + "</p><p>Status: "@ + (
    if rec.2 {
        "Active"@
    } else {
        "Inactive"@
    }) + "</p></div>"@
}

/// The first `n` rows of the listing, in order.
pub open spec fn spec_about_entries(rs: Seq<(i64, String, bool)>, n: int) -> Seq<char>
    decreases n,
{
    if n <= 0 {
        Seq::empty()
    } else {
        spec_about_entries(rs, n - 1) + spec_about_entry(rs[n - 1])
    }
}

fn about_entries(records: &Vec<(i64, String, bool)>) -> (r: String)
    ensures
        r@ == spec_about_entries(records@, records@.len() as int),
{
    let mut s = String::new();
    let mut i: usize = 0;
    while i < records.len()
        invariant
            0 <= i <= records@.len(),
            s@ == spec_about_entries(records@, i as int),
        decreases records@.len() - i,
    {
        let id_str = i64_to_string(records[i].0);
        s.append("<div class='entry'><p><a href='/protected/about/");
        s.append(id_str.as_str());
        s.append("'>");
        s.append(id_str.as_str());
        s.append("</a></p><p>");
        s.append(records[i].1.as_str());
        s.append("</p><p>Status: ");
        s.append(if records[i].2 { "Active" } else { "Inactive" });
        s.append("</p></div>");
        i = i + 1;
    }
    s
}

/// The admin listing of every entry.
pub open spec fn spec_about_all_content(rs: Seq<(i64, String, bool)>) -> Seq<char> {
    r#"
        <section>
            <h2>All About Entries</h2>
            <div class="about-entries">
                "#@ + spec_about_entries(rs, rs.len() as int) + r#"
            </div>
            <a href="/protected/about/new" class="button">Create New Entry</a>
        </section>
        "#@
}

pub fn about_all_content(records: &Vec<(i64, String, bool)>) -> (r: String)
    ensures
        r@ == spec_about_all_content(records@),
{
    let mut s = String::from_str(
        r#"
        <section>
            <h2>All About Entries</h2>
            <div class="about-entries">
                "#,
    );
    let entries = about_entries(records);
    s.append(entries.as_str());
    s.append(
        r#"
            </div>
            <a href="/protected/about/new" class="button">Create New Entry</a>
        </section>
        "#,
    );
    s
}

/// The edit form of one entry, update and delete side by side, each with
/// the issued token.
pub open spec fn spec_about_details_content(
    id: int,
    csrf_token: Seq<char>,
    description: Seq<char>,
    active: bool,
) -> Seq<char> {
    r#"
        <section>
            <h2>About Entry Details</h2>
            <h3>You can use HTML in the description.</h3>
            <div class="about-entry">
                <form method="POST" action="/protected/about/"#@ + spec_i64_decimal(id)
        + r#"/update">
                    <input type="hidden" name="csrf_token" value=""#@ + csrf_token + r#"">
                    <textarea name="description" required>"#@ + description + r#"</textarea>
                    <label>
                        <input type="checkbox" name="active" value="1" "#@ + (if active {
        "checked"@
    } else {
        ""@
    }) + r#">
                        Active
                    </label>
                    <button type="submit">Update</button>
                </form>
                <form method="POST" action="/protected/about/"#@ + spec_i64_decimal(id)
        + r#"/delete"
                    onsubmit="return confirm('Are you sure?')">
                    <input type="hidden" name="csrf_token" value=""#@ + csrf_token + r#"">
                    <button type="submit" class="delete">Delete</button>
                </form>
            </div>
        </section>
        "#@
}

pub fn about_details_content(
    id: i64,
    csrf_token: &str,
    description: &str,
    active: bool,
) -> (r: String)
    ensures
        r@ == spec_about_details_content(id as int, csrf_token@, description@, active),
{
    let id_str = i64_to_string(id);
    let mut s = String::from_str(
        r#"
        <section>
            <h2>About Entry Details</h2>
            <h3>You can use HTML in the description.</h3>
            <div class="about-entry">
                <form method="POST" action="/protected/about/"#,
    );
    s.append(id_str.as_str());
    s.append(
        r#"/update">
                    <input type="hidden" name="csrf_token" value=""#,
    );
    s.append(csrf_token);
    s.append(
        r#"">
                    <textarea name="description" required>"#,
    );
    s.append(description);
    s.append(
        r#"</textarea>
                    <label>
                        <input type="checkbox" name="active" value="1" "#,
    );
    s.append(if active { "checked" } else { "" });
    s.append(
        r#">
                        Active
                    </label>
                    <button type="submit">Update</button>
                </form>
                <form method="POST" action="/protected/about/"#,
    );
    s.append(id_str.as_str());
    s.append(
        r#"/delete"
                    onsubmit="return confirm('Are you sure?')">
                    <input type="hidden" name="csrf_token" value=""#,
    );
    s.append(csrf_token);
    s.append(
        r#"">
                    <button type="submit" class="delete">Delete</button>
                </form>
            </div>
        </section>
        "#,
    );
    s
}

} // verus!

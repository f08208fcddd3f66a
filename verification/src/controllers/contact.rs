//! The contact pages: the forms they take and the markup they assemble.

use crate::text::{i64_to_string, spec_i64_decimal};
use vstd::prelude::*;
use vstd::string::StringExecFns;

verus! {

/// The submission that creates a contact entry.
pub struct ContactForm {
    pub description: String,
    pub admin_mail: String,
}

/// The submission that rewrites a contact entry.
pub struct ContactUpdateForm {
    pub description: String,
    pub admin_mail: String,
    pub active: bool,
}

/// The visitor-facing contact page around the active entry.
pub open spec fn spec_contact_content(description: Seq<char>, admin_mail: Seq<char>) -> Seq<
    char,
> {
    r#"
        <section>
            <h2>Contact Us</h2>
            <div class="contact-info">"#@ + description + r#"</div>
            <div class="email-info">Email: "#@ + admin_mail + r#"</div>
        </section>
        "#@
}

pub fn contact_content(description: &str, admin_mail: &str) -> (r: String)
    ensures
        r@ == spec_contact_content(description@, admin_mail@),
{
    let mut s = String::from_str(
        r#"
        <section>
            <h2>Contact Us</h2>
            <div class="contact-info">"#,
    );
    s.append(description);
    s.append(
        r#"</div>
            <div class="email-info">Email: "#,
    );
    s.append(admin_mail);
    s.append(
        r#"</div>
        </section>
        "#,
    );
    s
}

/// The form that creates a new entry, carrying the issued token.
pub open spec fn spec_contact_create_content(csrf_token: Seq<char>) -> Seq<char> {
    r#"
        <section>
            <h2>Create New Contact Information</h2>
            <h3>You can use HTML in the description.</h3>
            <form method="POST" action="/protected/contact/new">
                <input type="hidden" name="csrf_token" value=""#@ + csrf_token + r#"">
                <div>
                    <label>Description:</label>
                    <textarea name="description" required></textarea>
                </div>
                <div>
                    <label>Admin Email:</label>
                    <input type="email" name="admin_mail" required>
                </div>
                <button type="submit">Create</button>
            </form>
        </section>
        "#@
}

pub fn contact_create_content(csrf_token: &str) -> (r: String)
    ensures
        r@ == spec_contact_create_content(csrf_token@),
{
    let mut s = String::from_str(
        r#"
        <section>
            <h2>Create New Contact Information</h2>
            <h3>You can use HTML in the description.</h3>
            <form method="POST" action="/protected/contact/new">
                <input type="hidden" name="csrf_token" value=""#,
    );
    s.append(csrf_token);
    s.append(
        r#"">
                <div>
                    <label>Description:</label>
                    <textarea name="description" required></textarea>
                </div>
                <div>
                    <label>Admin Email:</label>
                    <input type="email" name="admin_mail" required>
                </div>
                <button type="submit">Create</button>
            </form>
        </section>
        "#,
    );
    s
}

/// One row of the listing.
pub open spec fn spec_contact_entry(rec: (i64, String, String, bool)) -> Seq<char> {
    "<div class='entry'><p><a href='/protected/contact/"@ + spec_i64_decimal(rec.0 as int) + "'>"@
        + spec_i64_decimal(rec.0 as int) + "</a></p><p>"@ + rec.1@ + "</p><p>Email: "@ + rec.2@
        + "</p><p>Status: "@ + (if rec.3 {
        "Active"@
    } else {
        "Inactive"@
    }) + "</p></div>"@
}

/// The first `n` rows of the listing, in order.
pub open spec fn spec_contact_entries(rs: Seq<(i64, String, String, bool)>, n: int) -> Seq<char>
    decreases n,
{
    if n <= 0 {
        Seq::empty()
    } else {
        spec_contact_entries(rs, n - 1) + spec_contact_entry(rs[n - 1])
    }
}

fn contact_entries(records: &Vec<(i64, String, String, bool)>) -> (r: String)
    ensures
        r@ == spec_contact_entries(records@, records@.len() as int),
{
    let mut s = String::new();
    let mut i: usize = 0;
    while i < records.len()
        invariant
            0 <= i <= records@.len(),
            s@ == spec_contact_entries(records@, i as int),
        decreases records@.len() - i,
    {
        let id_str = i64_to_string(records[i].0);
        s.append("<div class='entry'><p><a href='/protected/contact/");
        s.append(id_str.as_str());
        s.append("'>");
        s.append(id_str.as_str());
        s.append("</a></p><p>");
        s.append(records[i].1.as_str());
        s.append("</p><p>Email: ");
        s.append(records[i].2.as_str());
        s.append("</p><p>Status: ");
        s.append(if records[i].3 { "Active" } else { "Inactive" });
        s.append("</p></div>");
        i = i + 1;
    }
    s
}

/// The admin listing of every entry.
pub open spec fn spec_contact_all_content(rs: Seq<(i64, String, String, bool)>) -> Seq<char> {
    r#"
        <section>
            <h2>All Contact Entries</h2>
            <div class="contact-entries">
                "#@ + spec_contact_entries(rs, rs.len() as int) + r#"
            </div>
            <a href="/protected/contact/new" class="button">Create New Contact</a>
        </section>
        "#@
}

pub fn contact_all_content(records: &Vec<(i64, String, String, bool)>) -> (r: String)
    ensures
        r@ == spec_contact_all_content(records@),
{
    let mut s = String::from_str(
        r#"
        <section>
            <h2>All Contact Entries</h2>
            <div class="contact-entries">
                "#,
    );
    let entries = contact_entries(records);
    s.append(entries.as_str());
    s.append(
        r#"
            </div>
            <a href="/protected/contact/new" class="button">Create New Contact</a>
        </section>
        "#,
    );
    s
}

/// The edit form of one entry, update and delete side by side, each with
/// the issued token.
pub open spec fn spec_contact_details_content(
    id: int,
    csrf_token: Seq<char>,
    description: Seq<char>,
    admin_mail: Seq<char>,
    active: bool,
) -> Seq<char> {
    r#"
        <section>
            <h2>Contact Entry Details</h2>
            <h3>You can use HTML in the description.</h3>
            <div class="contact-entry">
                <form method="POST" action="/protected/contact/"#@ + spec_i64_decimal(id)
        + r#"/update">
                    <input type="hidden" name="csrf_token" value=""#@ + csrf_token + r#"">
                    <div>
                        <label>Description:</label>
                        <textarea name="description" required>"#@ + description + r#"</textarea>
                    </div>
                    <div>
                        <label>Admin Email:</label>
                        <input type="email" name="admin_mail" value=""#@ + admin_mail + r#"" required>
                    </div>
                    <label>
                        <input type="checkbox" name="active" value="1" "#@ + (if active {
        "checked"@
    } else {
        ""@
    }) + r#">
                        Active
                    </label>
                    <button type="submit">Update</button>
                </form>
                <form method="POST" action="/protected/contact/"#@ + spec_i64_decimal(id)
        + r#"/delete"
                    onsubmit="return confirm('Are you sure?')">
                    <input type="hidden" name="csrf_token" value=""#@ + csrf_token + r#"">
                    <button type="submit" class="delete">Delete</button>
                </form>
            </div>
        </section>
        "#@
}

pub fn contact_details_content(
    id: i64,
    csrf_token: &str,
    description: &str,
    admin_mail: &str,
    active: bool,
) -> (r: String)
    ensures
        r@ == spec_contact_details_content(
            id as int,
            csrf_token@,
            description@,
            admin_mail@,
            active,
        ),
{
    let id_str = i64_to_string(id);
    let mut s = String::from_str(
        r#"
        <section>
            <h2>Contact Entry Details</h2>
            <h3>You can use HTML in the description.</h3>
            <div class="contact-entry">
                <form method="POST" action="/protected/contact/"#,
    );
    s.append(id_str.as_str());
    s.append(
        r#"/update">
                    <input type="hidden" name="csrf_token" value=""#,
    );
    s.append(csrf_token);
    s.append(
        r#"">
                    <div>
                        <label>Description:</label>
                        <textarea name="description" required>"#,
    );
    s.append(description);
    s.append(
        r#"</textarea>
                    </div>
                    <div>
                        <label>Admin Email:</label>
                        <input type="email" name="admin_mail" value=""#,
    );
    s.append(admin_mail);
    s.append(
        r#"" required>
                    </div>
                    <label>
                        <input type="checkbox" name="active" value="1" "#,
    );
    s.append(if active { "checked" } else { "" });
    s.append(
        r#">
                        Active
                    </label>
                    <button type="submit">Update</button>
                </form>
                <form method="POST" action="/protected/contact/"#,
    );
    s.append(id_str.as_str());
    s.append(
        r#"/delete"
                    onsubmit="return confirm('Are you sure?')">
                    <input type="hidden" name="csrf_token" value=""#,
    );
    s.append(csrf_token);
    s.append(
        r#"">
                    <button type="submit" class="delete">Delete</button>
                </form>
            </div>
        </section>
        "#,
    );
    s
}

} // verus!

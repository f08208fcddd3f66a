//! The campaign pages: creation form, admin listing, details with their
//! updates, the edit form and the amount form.
//!
//! Amounts reach these builders already rendered as text; the database
//! stores them as floating-point numbers, which this crate does not touch.

use crate::controllers::home::CampaignView;
use crate::text::{i64_to_string, spec_i64_decimal};
use vstd::prelude::*;
use vstd::string::StringExecFns;

verus! {

/// The form that creates a campaign, carrying the issued token.
pub open spec fn spec_new_campaign_content(csrf_token: Seq<char>) -> Seq<char> {
    r#"
        <section class="campaign-form">
            <form method="POST" action="/protected/campaigns/new">
                <input type="hidden" name="csrf_token" value=""#@ + csrf_token + r#"">
                <div class="form-group">
                    <label for="title">Title:</label>
                    <input type="text" name="title" required>
                </div>
                <div class="form-group">
                    <label for="description">Description:</label>
                    <textarea name="description" required></textarea>
                </div>
                <div class="form-group">
                    <label for="start_date">Start Date:</label>
                    <input type="date" name="start_date" required>
                </div>
                <div class="form-group">
                    <label for="end_date">End Date:</label>
                    <input type="date" name="end_date" required>
                </div>
                <div class="form-group">
                    <label for="goal_amount">Goal Amount:</label>
                    <input type="number" step="0.01" name="goal_amount" required>
                </div>
                    <div class="form-group">
                    <label for="xmr_address">Monero Address:</label>
                    <input type="text" name="xmr_address" required>
                </div>
                <button type="submit">Create Campaign</button>
            </form>
        </section>
        "#@
}

pub fn new_campaign_content(csrf_token: &str) -> (r: String)
    ensures
        r@ == spec_new_campaign_content(csrf_token@),
{
    let mut s = String::from_str(
        r#"
        <section class="campaign-form">
            <form method="POST" action="/protected/campaigns/new">
                <input type="hidden" name="csrf_token" value=""#,
    );
    s.append(csrf_token);
    s.append(
        r#"">
                <div class="form-group">
                    <label for="title">Title:</label>
                    <input type="text" name="title" required>
                </div>
                <div class="form-group">
                    <label for="description">Description:</label>
                    <textarea name="description" required></textarea>
                </div>
                <div class="form-group">
                    <label for="start_date">Start Date:</label>
                    <input type="date" name="start_date" required>
                </div>
                <div class="form-group">
                    <label for="end_date">End Date:</label>
                    <input type="date" name="end_date" required>
                </div>
                <div class="form-group">
                    <label for="goal_amount">Goal Amount:</label>
                    <input type="number" step="0.01" name="goal_amount" required>
                </div>
                    <div class="form-group">
                    <label for="xmr_address">Monero Address:</label>
                    <input type="text" name="xmr_address" required>
                </div>
                <button type="submit">Create Campaign</button>
            </form>
        </section>
        "#,
    );
    s
}

/// The head of the details page, down to where the updates follow.
pub open spec fn spec_campaign_details_head(c: CampaignView) -> Seq<char> {
    r#"
            <section class="campaign-details">
                <h1>"#@ + c.title@ + r#"</h1>
                <p>"#@ + c.description@ + r#"</p>
                <p>Goal Amount: "#@ + c.goal_amount@ + r#" XMR</p>
                <p>Current Amount: "#@ + c.current_amount@ + r#" XMR</p>
                <p>Status: "#@ + c.status@ + r#"</p>
                <p>XMR Address: "#@ + c.xmr_address@ + r#"</p>
                <p>Start Date: "#@ + c.start_date@ + r#"</p>
                <p>End Date: "#@ + c.end_date@ + r#"</p>

                <div class="campaign-updates">
                    <h2>Campaign Updates</h2>
                    "#@
}

/// One update entry: text, then posting date and hash.
pub open spec fn spec_update_entry(u: (i64, String, String, String)) -> Seq<char> {
    r#"
            <div class="update-entry">
                <p>"#@ + u.1@ + r#"</p>
                <small>Posted: "#@ + u.3@ + r#" (Hash: "#@ + u.2@ + r#")</small>
            </div>
            "#@
}

/// The first `n` update entries, in order.
pub open spec fn spec_update_entries(us: Seq<(i64, String, String, String)>, n: int) -> Seq<char>
    decreases n,
{
    if n <= 0 {
        Seq::empty()
    } else {
        spec_update_entries(us, n - 1) + spec_update_entry(us[n - 1])
    }
}

/// The whole details page of one campaign with its updates.
pub open spec fn spec_campaign_details_content(
    c: CampaignView,
    us: Seq<(i64, String, String, String)>,
) -> Seq<char> {
    spec_campaign_details_head(c) + spec_update_entries(us, us.len() as int)
        + "</div></section>"@
}

pub fn campaign_details_content(
    c: &CampaignView,
    updates: &Vec<(i64, String, String, String)>,
) -> (r: String)
    ensures
        r@ == spec_campaign_details_content(*c, updates@),
{
    let mut s = String::from_str(
        r#"
            <section class="campaign-details">
                <h1>"#,
    );
    s.append(c.title.as_str());
    s.append(
        r#"</h1>
                <p>"#,
    );
    s.append(c.description.as_str());
    s.append(
        r#"</p>
                <p>Goal Amount: "#,
    );
    s.append(c.goal_amount.as_str());
    s.append(
        r#" XMR</p>
                <p>Current Amount: "#,
    );
    s.append(c.current_amount.as_str());
    s.append(
        r#" XMR</p>
                <p>Status: "#,
    );
    s.append(c.status.as_str());
    s.append(
        r#"</p>
                <p>XMR Address: "#,
    );
    s.append(c.xmr_address.as_str());
    s.append(
        r#"</p>
                <p>Start Date: "#,
    );
    s.append(c.start_date.as_str());
    s.append(
        r#"</p>
                <p>End Date: "#,
    );
    s.append(c.end_date.as_str());
    s.append(
        r#"</p>

                <div class="campaign-updates">
                    <h2>Campaign Updates</h2>
                    "#,
    );
    let mut i: usize = 0;
    while i < updates.len()
        invariant
            0 <= i <= updates@.len(),
            s@ == spec_campaign_details_head(*c) + spec_update_entries(updates@, i as int),
        decreases updates@.len() - i,
    {
        s.append(
            r#"
            <div class="update-entry">
                <p>"#,
        );
        s.append(updates[i].1.as_str());
        s.append(
            r#"</p>
                <small>Posted: "#,
        );
        s.append(updates[i].3.as_str());
        s.append(r#" (Hash: "#);
        s.append(updates[i].2.as_str());
        s.append(
            r#")</small>
            </div>
            "#,
        );
        i = i + 1;
    }
    s.append("</div></section>");
    s
}

/// One card of the visitor listing.
pub open spec fn spec_campaign_card(c: CampaignView) -> Seq<char> {
    r#"
            <div class="campaign">
                <h2>"#@ + c.title@ + r#"</h2>
                <p>"#@ + c.description@ + r#"</p>
                <p>Goal: "#@ + c.goal_amount@ + r#" XMR</p>
                <p>Current: "#@ + c.current_amount@ + r#" XMR</p>
                <p>Status: "#@ + c.status@ + r#"</p>
                <p>Start Date: "#@ + c.start_date@ + r#"</p>
                <p>End Date: "#@ + c.end_date@ + r#"</p>
                <a href="/campaigns/"#@ + spec_i64_decimal(c.id as int) + r#"">Details</a>
            </div>
            "#@
}

/// The first `n` cards, in order.
pub open spec fn spec_campaign_cards(cs: Seq<CampaignView>, n: int) -> Seq<char>
    decreases n,
{
    if n <= 0 {
        Seq::empty()
    } else {
        spec_campaign_cards(cs, n - 1) + spec_campaign_card(cs[n - 1])
    }
}

/// The visitor listing of every campaign.
pub open spec fn spec_list_campaigns_content(cs: Seq<CampaignView>) -> Seq<char> {
    r#"<section class="campaign-list">"#@ + spec_campaign_cards(cs, cs.len() as int)
        + "</section>"@
}

fn campaign_card(c: &CampaignView) -> (r: String)
    ensures
        r@ == spec_campaign_card(*c),
{
    let mut s = String::from_str(
        r#"
            <div class="campaign">
                <h2>"#,
    );
    s.append(c.title.as_str());
    s.append(
        r#"</h2>
                <p>"#,
    );
    s.append(c.description.as_str());
    s.append(
        r#"</p>
                <p>Goal: "#,
    );
    s.append(c.goal_amount.as_str());
    s.append(
        r#" XMR</p>
                <p>Current: "#,
    );
    s.append(c.current_amount.as_str());
    s.append(
        r#" XMR</p>
                <p>Status: "#,
    );
    s.append(c.status.as_str());
    s.append(
        r#"</p>
                <p>Start Date: "#,
    );
    s.append(c.start_date.as_str());
    s.append(
        r#"</p>
                <p>End Date: "#,
    );
    s.append(c.end_date.as_str());
    s.append(
        r#"</p>
                <a href="/campaigns/"#,
    );
    let id_str = i64_to_string(c.id);
    s.append(id_str.as_str());
    s.append(
        r#"">Details</a>
            </div>
            "#,
    );
    s
}

pub fn list_campaigns_content(campaigns: &Vec<CampaignView>) -> (r: String)
    ensures
        r@ == spec_list_campaigns_content(campaigns@),
{
    let mut s = String::from_str(r#"<section class="campaign-list">"#);
    let mut i: usize = 0;
    while i < campaigns.len()
        invariant
            0 <= i <= campaigns@.len(),
            s@ == r#"<section class="campaign-list">"#@ + spec_campaign_cards(
                campaigns@,
                i as int,
            ),
        decreases campaigns@.len() - i,
    {
        let card = campaign_card(&campaigns[i]);
        s.append(card.as_str());
        i = i + 1;
    }
    s.append("</section>");
    s
}

/// One card of the admin listing, with edit, amount and delete actions.
pub open spec fn spec_admin_campaign_entry(c: CampaignView) -> Seq<char> {
    r#"<div class="campaign-entry">
                <h3>"#@ + c.title@ + r#"</h3>
                <p>"#@ + c.description@ + r#"</p>
                <div class="campaign-stats">
                    <span>Goal: "#@ + c.goal_amount@ + r#" XMR</span>
                    <span>Current: "#@ + c.current_amount@ + r#" XMR</span>
                    <span>Status: "#@ + c.status@ + r#"</span>
                    <span>Start Date: "#@ + c.start_date@ + r#"</span>
                    <span>End Date: "#@ + c.end_date@ + r#"</span>
                </div>
                <div class="campaign-actions">
                    <a href="/protected/campaigns/"#@ + spec_i64_decimal(c.id as int)
        + r#"/edit" class="button">Edit</a>
                    <a href="/protected/campaigns/"#@ + spec_i64_decimal(c.id as int)
        + r#"/amount" class="button">Update Amount</a>
                    <form method="POST" action="/protected/campaigns/"#@ + spec_i64_decimal(
        c.id as int,
    )
        + r#"/delete"
                        onsubmit="return confirm('Are you sure you want to delete this campaign?')">
                        <button type="submit" class="button delete">Delete</button>
                    </form>
                </div>
            </div>"#@
}

/// The first `n` cards, in order.
pub open spec fn spec_admin_campaign_entries(cs: Seq<CampaignView>, n: int) -> Seq<char>
    decreases n,
{
    if n <= 0 {
        Seq::empty()
    } else {
        spec_admin_campaign_entries(cs, n - 1) + spec_admin_campaign_entry(cs[n - 1])
    }
}

/// The admin listing of every campaign.
pub open spec fn spec_list_all_campaigns_content(cs: Seq<CampaignView>) -> Seq<char> {
    r#"<section class="campaigns-admin">
        <h2>Campaign Management</h2>
        <a href="/protected/campaigns/new" class="button">Create New Campaign</a>
        <div class="campaigns-list">"#@ + spec_admin_campaign_entries(cs, cs.len() as int)
        + "</div></section>"@
}

fn admin_campaign_entry(c: &CampaignView) -> (r: String)
    ensures
        r@ == spec_admin_campaign_entry(*c),
{
    let id_str = i64_to_string(c.id);
    let mut s = String::from_str(
        r#"<div class="campaign-entry">
                <h3>"#,
    );
    s.append(c.title.as_str());
    s.append(
        r#"</h3>
                <p>"#,
    );
    s.append(c.description.as_str());
    s.append(
        r#"</p>
                <div class="campaign-stats">
                    <span>Goal: "#,
    );
    s.append(c.goal_amount.as_str());
    s.append(
        r#" XMR</span>
                    <span>Current: "#,
    );
    s.append(c.current_amount.as_str());
    s.append(
        r#" XMR</span>
                    <span>Status: "#,
    );
    s.append(c.status.as_str());
    s.append(
        r#"</span>
                    <span>Start Date: "#,
    );
    s.append(c.start_date.as_str());
    s.append(
        r#"</span>
                    <span>End Date: "#,
    );
    s.append(c.end_date.as_str());
    s.append(
        r#"</span>
                </div>
                <div class="campaign-actions">
                    <a href="/protected/campaigns/"#,
    );
    s.append(id_str.as_str());
    s.append(
        r#"/edit" class="button">Edit</a>
                    <a href="/protected/campaigns/"#,
    );
    s.append(id_str.as_str());
    s.append(
        r#"/amount" class="button">Update Amount</a>
                    <form method="POST" action="/protected/campaigns/"#,
    );
    s.append(id_str.as_str());
    s.append(
        r#"/delete"
                        onsubmit="return confirm('Are you sure you want to delete this campaign?')">
                        <button type="submit" class="button delete">Delete</button>
                    </form>
                </div>
            </div>"#,
    );
    s
}

pub fn list_all_campaigns_content(campaigns: &Vec<CampaignView>) -> (r: String)
    ensures
        r@ == spec_list_all_campaigns_content(campaigns@),
{
    let mut s = String::from_str(
        r#"<section class="campaigns-admin">
        <h2>Campaign Management</h2>
        <a href="/protected/campaigns/new" class="button">Create New Campaign</a>
        <div class="campaigns-list">"#,
    );
    let mut i: usize = 0;
    while i < campaigns.len()
        invariant
            0 <= i <= campaigns@.len(),
            s@ == r#"<section class="campaigns-admin">
        <h2>Campaign Management</h2>
        <a href="/protected/campaigns/new" class="button">Create New Campaign</a>
        <div class="campaigns-list">"#@ + spec_admin_campaign_entries(campaigns@, i as int),
        decreases campaigns@.len() - i,
    {
        let entry = admin_campaign_entry(&campaigns[i]);
        s.append(entry.as_str());
        i = i + 1;
    }
    s.append("</div></section>");
    s
}

/// The edit form of one campaign, fields prefilled, carrying the issued
/// token.
pub open spec fn spec_edit_campaign_content(c: CampaignView, csrf_token: Seq<char>) -> Seq<char> {
    r#"<section class="campaign-form">
                <h2>Edit Campaign</h2>
                <form method="POST" action="/protected/campaigns/"#@ + spec_i64_decimal(
        c.id as int,
    ) + r#"/edit">
                    <input type="hidden" name="csrf_token" value=""#@ + csrf_token + r#"">
                    <div class="form-group">
                        <label for="title">Title:</label>
                        <input type="text" name="title" value=""#@ + c.title@ + r#"" required>
                    </div>
                    <div class="form-group">
                        <label for="description">Description:</label>
                        <textarea name="description" required>"#@ + c.description@
        + r#"</textarea>
                    </div>
                    <div class="form-group">
                        <label for="start_date">Start Date:</label>
                        <input type="date" name="start_date" value=""#@ + c.start_date@
        + r#"" required>
                    </div>
                    <div class="form-group">
                        <label for="end_date">End Date:</label>
                        <input type="date" name="end_date" value=""#@ + c.end_date@
        + r#"" required>
                    </div>
                    <div class="form-group">
                        <label for="goal_amount">Goal Amount:</label>
                        <input type="number" step="0.01" name="goal_amount" value=""#@
        + c.goal_amount@ + r#"" required>
                    </div>
                    <div class="form-group">
                        <label for="xmr_address">Monero Address:</label>
                        <input type="text" name="xmr_address" value=""#@ + c.xmr_address@
        + r#"" required>
                    </div>
                    <button type="submit">Update Campaign</button>
                </form>
            </section>"#@
}

pub fn edit_campaign_content(c: &CampaignView, csrf_token: &str) -> (r: String)
    ensures
        r@ == spec_edit_campaign_content(*c, csrf_token@),
{
    let id_str = i64_to_string(c.id);
    let mut s = String::from_str(
        r#"<section class="campaign-form">
                <h2>Edit Campaign</h2>
                <form method="POST" action="/protected/campaigns/"#,
    );
    s.append(id_str.as_str());
    s.append(
        r#"/edit">
                    <input type="hidden" name="csrf_token" value=""#,
    );
    s.append(csrf_token);
    s.append(
        r#"">
                    <div class="form-group">
                        <label for="title">Title:</label>
                        <input type="text" name="title" value=""#,
    );
    s.append(c.title.as_str());
    s.append(
        r#"" required>
                    </div>
                    <div class="form-group">
                        <label for="description">Description:</label>
                        <textarea name="description" required>"#,
    );
    s.append(c.description.as_str());
    s.append(
        r#"</textarea>
                    </div>
                    <div class="form-group">
                        <label for="start_date">Start Date:</label>
                        <input type="date" name="start_date" value=""#,
    );
    s.append(c.start_date.as_str());
    s.append(
        r#"" required>
                    </div>
                    <div class="form-group">
                        <label for="end_date">End Date:</label>
                        <input type="date" name="end_date" value=""#,
    );
    s.append(c.end_date.as_str());
    s.append(
        r#"" required>
                    </div>
                    <div class="form-group">
                        <label for="goal_amount">Goal Amount:</label>
                        <input type="number" step="0.01" name="goal_amount" value=""#,
    );
    s.append(c.goal_amount.as_str());
    s.append(
        r#"" required>
                    </div>
                    <div class="form-group">
                        <label for="xmr_address">Monero Address:</label>
                        <input type="text" name="xmr_address" value=""#,
    );
    s.append(c.xmr_address.as_str());
    s.append(
        r#"" required>
                    </div>
                    <button type="submit">Update Campaign</button>
                </form>
            </section>"#,
    );
    s
}

/// The amount form of one campaign, showing the current amount, carrying
/// the issued token.
pub open spec fn spec_update_amount_content(
    id: int,
    csrf_token: Seq<char>,
    current_amount: Seq<char>,
) -> Seq<char> {
    r#"<section class="amount-form">
            <h2>Update Current Amount</h2>
            <p class="current-amount-display">Current Amount: "#@ + current_amount
        + r#" XMR</p>
            <form method="POST" action="/protected/campaigns/"#@ + spec_i64_decimal(id)
        + r#"/amount">
                <input type="hidden" name="csrf_token" value=""#@ + csrf_token + r#"">
                <div class="form-group">
                    <label for="current_amount">New Amount:</label>
                    <input type="number" step="0.01" name="current_amount" value=""#@
        + current_amount + r#"" required>
                </div>
                <button type="submit">Update Amount</button>
            </form>
        </section>"#@
}

pub fn update_amount_content(id: i64, csrf_token: &str, current_amount: &str) -> (r: String)
    ensures
        r@ == spec_update_amount_content(id as int, csrf_token@, current_amount@),
{
    let id_str = i64_to_string(id);
    let mut s = String::from_str(
        r#"<section class="amount-form">
            <h2>Update Current Amount</h2>
            <p class="current-amount-display">Current Amount: "#,
    );
    s.append(current_amount);
    s.append(
        r#" XMR</p>
            <form method="POST" action="/protected/campaigns/"#,
    );
    s.append(id_str.as_str());
    s.append(
        r#"/amount">
                <input type="hidden" name="csrf_token" value=""#,
    );
    s.append(csrf_token);
    s.append(
        r#"">
                <div class="form-group">
                    <label for="current_amount">New Amount:</label>
                    <input type="number" step="0.01" name="current_amount" value=""#,
    );
    s.append(current_amount);
    s.append(
        r#"" required>
                </div>
                <button type="submit">Update Amount</button>
            </form>
        </section>"#,
    );
    s
}

} // verus!

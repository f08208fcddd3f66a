//! The home page: one campaign in full, or the list of all of them.
//!
//! Amounts are handed in already rendered as text: the database stores
//! them as floating-point numbers, which this crate does not touch.

use crate::text::{i64_to_string, spec_i64_decimal};
use vstd::prelude::*;
use vstd::string::StringExecFns;

verus! {

/// One campaign as the pages show it.
#[derive(Clone)]
pub struct CampaignView {
    pub id: i64,
    pub title: String,
    pub description: String,
    pub goal_amount: String,
    pub current_amount: String,
    pub status: String,
    pub xmr_address: String,
    pub start_date: String,
    pub end_date: String,
}

/// The markup when exactly one campaign exists.
pub open spec fn spec_home_single(c: CampaignView) -> Seq<char> {
    r#"
            <section class="campaign-details">
                <h1>"#@ + c.title@ + r#" 🚀</h1>
                <p>"#@ + c.description@ + r#"</p>
                <div class="campaign-stats">
                    <p>Goal Amount: "#@ + c.goal_amount@ + r#" XMR 🎯</p>
                    <p>Current Amount: "#@ + c.current_amount@ + r#" XMR 💰</p>
                    <p>Status: "#@ + c.status@ + r#" ✨</p>
                    <p>Monero Address: "#@ + c.xmr_address@ + r#" 🔒</p>
                    <p>Created: "#@ + c.start_date@ + r#"</p>
                    <p>Updated: "#@ + c.end_date@ + r#"</p>
                </div>
            </section>
            "#@
}

/// One campaign's card in the listing.
pub open spec fn spec_home_item(c: CampaignView) -> Seq<char> {
    r#"
                <div class="campaign">
                    <h2>"#@ + c.title@ + r#" 🚀</h2>
                    <p>"#@ + c.description@ + r#"</p>
                    <div class="campaign-stats">
                        <p>Goal: "#@ + c.goal_amount@ + r#" XMR 🎯</p>
                        <p>Current: "#@ + c.current_amount@ + r#" XMR 💰</p>
                        <p>Status: "#@ + c.status@ + r#" ✨</p>
                        <p>Monero Address: "#@ + c.xmr_address@ + r#" 🔒</p>
                        <p>Created: "#@ + c.start_date@ + r#"</p>
                        <p>Updated: "#@ + c.end_date@ + r#"</p>
                    </div>
                    <a href="/campaigns/"#@ + spec_i64_decimal(c.id as int)
        + r#"" class="button">View Details →</a>
                </div>
                "#@
}

/// The first `n` cards, in order.
pub open spec fn spec_home_items(cs: Seq<CampaignView>, n: int) -> Seq<char>
    decreases n,
{
    if n <= 0 {
        Seq::empty()
    } else {
        spec_home_items(cs, n - 1) + spec_home_item(cs[n - 1])
    }
}

/// The home page's markup: the single campaign in full when there is
/// exactly one, the listing otherwise.
pub open spec fn spec_home_content(cs: Seq<CampaignView>) -> Seq<char> {
    if cs.len() == 1 {
        spec_home_single(cs[0])
    } else {
        r#"<section class="campaign-list"><h2>Active Campaigns 🎯</h2>"#@ + spec_home_items(
            cs,
            cs.len() as int,
        ) + "</section>"@
    }
}

fn home_single(c: &CampaignView) -> (r: String)
    ensures
        r@ == spec_home_single(*c),
{
    let mut s = String::from_str(
        r#"
            <section class="campaign-details">
                <h1>"#,
    );
    s.append(c.title.as_str());
    s.append(
        r#" 🚀</h1>
                <p>"#,
    );
    s.append(c.description.as_str());
    s.append(
        r#"</p>
                <div class="campaign-stats">
                    <p>Goal Amount: "#,
    );
    s.append(c.goal_amount.as_str());
    s.append(
        r#" XMR 🎯</p>
                    <p>Current Amount: "#,
    );
    s.append(c.current_amount.as_str());
    s.append(
        r#" XMR 💰</p>
                    <p>Status: "#,
    );
    s.append(c.status.as_str());
    s.append(
        r#" ✨</p>
                    <p>Monero Address: "#,
    );
    s.append(c.xmr_address.as_str());
    s.append(
        r#" 🔒</p>
                    <p>Created: "#,
    );
    s.append(c.start_date.as_str());
    s.append(
        r#"</p>
                    <p>Updated: "#,
    );
    s.append(c.end_date.as_str());
    s.append(
        r#"</p>
                </div>
            </section>
            "#,
    );
    s
}

fn home_item(c: &CampaignView) -> (r: String)
    ensures
        r@ == spec_home_item(*c),
{
    let mut s = String::from_str(
        r#"
                <div class="campaign">
                    <h2>"#,
    );
    s.append(c.title.as_str());
    s.append(
        r#" 🚀</h2>
                    <p>"#,
    );
    s.append(c.description.as_str());
    s.append(
        r#"</p>
                    <div class="campaign-stats">
                        <p>Goal: "#,
    );
    s.append(c.goal_amount.as_str());
    s.append(
        r#" XMR 🎯</p>
                        <p>Current: "#,
    );
    s.append(c.current_amount.as_str());
    s.append(
        r#" XMR 💰</p>
                        <p>Status: "#,
    );
    s.append(c.status.as_str());
    s.append(
        r#" ✨</p>
                        <p>Monero Address: "#,
    );
    s.append(c.xmr_address.as_str());
    s.append(
        r#" 🔒</p>
                        <p>Created: "#,
    );
    s.append(c.start_date.as_str());
    s.append(
        r#"</p>
                        <p>Updated: "#,
    );
    s.append(c.end_date.as_str());
    s.append(
        r#"</p>
                    </div>
                    <a href="/campaigns/"#,
    );
    let id_str = i64_to_string(c.id);
    s.append(id_str.as_str());
    s.append(
        r#"" class="button">View Details →</a>
                </div>
                "#,
    );
    s
}

pub fn home_content(campaigns: &Vec<CampaignView>) -> (r: String)
    ensures
        r@ == spec_home_content(campaigns@),
{
    if campaigns.len() == 1 {
        home_single(&campaigns[0])
    } else {
        let mut s = String::from_str(
            r#"<section class="campaign-list"><h2>Active Campaigns 🎯</h2>"#,
        );
        let mut i: usize = 0;
        while i < campaigns.len()
            invariant
                0 <= i <= campaigns@.len(),
                s@ == r#"<section class="campaign-list"><h2>Active Campaigns 🎯</h2>"#@
                    + spec_home_items(campaigns@, i as int),
            decreases campaigns@.len() - i,
        {
            let item = home_item(&campaigns[i]);
            s.append(item.as_str());
            i = i + 1;
        }
        s.append("</section>");
        s
    }
}

} // verus!

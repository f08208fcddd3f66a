use mrs_funding::controllers::about::{about_all_content, about_content, about_create_content, about_details_content};
use mrs_funding::controllers::campaigns::{
    campaign_details_content, edit_campaign_content, list_all_campaigns_content,
    list_campaigns_content, new_campaign_content, update_amount_content,
};
use mrs_funding::controllers::contact::{contact_all_content, contact_content, contact_details_content};
use mrs_funding::controllers::dashboard::dashboard_content;
use mrs_funding::controllers::fourofour::fourofour_content;
use mrs_funding::controllers::home::{home_content, CampaignView};
use mrs_funding::controllers::page::Page;
use mrs_funding::login::login_page_content;
use mrs_funding::text::checkbox_value;
use mrs_funding::views::footer::Footer;
use mrs_funding::views::head::render_head;
use mrs_funding::views::header::Header;
use mrs_funding::views::layout::render_layout;
use mrs_funding::views::theme_manager::ThemeManager;

fn campaign(id: i64, title: &str) -> CampaignView {
    CampaignView {
        id,
        title: title.to_string(),
        description: "desc".to_string(),
        goal_amount: "10".to_string(),
        current_amount: "2.5".to_string(),
        status: "active".to_string(),
        xmr_address: "4abc".to_string(),
        start_date: "2024-01-01".to_string(),
        end_date: "2024-12-31".to_string(),
    }
}

#[test]
fn test_csrf_token_present_in_form() {
    let body = login_page_content("tok-123");
    assert!(body.contains("csrf_token"));
    assert!(body.contains("value=\"tok-123\""));
}

#[test]
fn test_404_response() {
    let tm = ThemeManager::new();
    let body = render_layout(fourofour_content().as_str(), "Site", false, tm);
    assert!(body.contains("404"));
}

#[test]
fn test_about_page_display() {
    let tm = ThemeManager::new();
    let body = render_layout(
        about_content("we fund things").as_str(),
        "Site",
        false,
        tm,
    );
    assert!(body.contains("About Us"));
    assert!(body.contains("we fund things"));
}

#[test]
fn footer_is_the_fixed_block() {
    let footer = Footer::render();
    assert!(footer.contains("<footer>"));
    assert!(footer.contains("Proudly using MRS Funding Software."));
}

#[test]
fn head_interpolates_title_and_css() {
    let head = render_head("My Site", "body { color: red; }");
    assert!(head.contains("<title>My Site</title>"));
    assert!(head.contains("body { color: red; }"));
    assert!(head.starts_with("\n        <!DOCTYPE html>"));
}

#[test]
fn header_menu_follows_authentication() {
    let signed_in = Header::new("T".to_string(), true).render();
    assert!(signed_in.contains("/protected/dashboard"));
    assert!(signed_in.contains("/logout"));
    assert!(!signed_in.contains("/login\">Login"));

    let guest = Header::new("T".to_string(), false).render();
    assert!(guest.contains("/login"));
    assert!(!guest.contains("/logout"));
}

#[test]
fn theme_manager_falls_back_to_the_default() {
    let mut tm = ThemeManager::new();
    tm.add_theme("default".to_string(), "body {}".to_string());
    tm.add_theme("dark".to_string(), "body { background: black; }".to_string());

    assert!(tm.set_active_theme("dark".to_string()));
    assert_eq!(tm.get_active_theme_css(), "body { background: black; }");

    assert!(!tm.set_active_theme("missing".to_string()));
    assert_eq!(tm.get_active_theme_css(), "body {}");

    let empty = ThemeManager::new();
    assert_eq!(empty.get_active_theme_css(), "");
}

#[test]
fn layout_stitches_all_blocks_around_the_content() {
    let mut tm = ThemeManager::new();
    tm.add_theme("default".to_string(), ".x{}".to_string());
    let body = render_layout("<p>hello</p>", "My Site", true, tm);
    assert!(body.contains("<title>My Site</title>"));
    assert!(body.contains(".x{}"));
    assert!(body.contains("<p>hello</p>"));
    assert!(body.contains("/logout"));
    assert!(body.contains("Proudly using MRS Funding Software."));
    assert!(body.trim_end().ends_with("</html>"));
}

#[test]
fn page_builder_keeps_what_it_was_given() {
    let mut page = Page::new("Login")
        .with_csrf_token(Some("tok".to_string()))
        .with_status(404)
        .with_meta_description("a page");
    assert_eq!(page.get_csrf_token().map(|s| s.as_str()), Some("tok"));
    assert_eq!(page.status, 404);
    page.add_content("<a>");
    page.add_content("<b>");
    assert_eq!(page.content, "<a><b>");
    page.set_content("<c>".to_string());
    let body = page.render("Site", false, ThemeManager::new());
    assert!(body.contains("<c>"));
}

#[test]
fn dashboard_shows_the_username() {
    let body = dashboard_content("admin");
    assert!(body.contains("Logged in as: <strong>admin</strong>"));
}

#[test]
fn about_pages_carry_their_values() {
    assert!(about_create_content("tok").contains("value=\"tok\""));

    let rows = vec![(7i64, "seven".to_string(), true), (3i64, "three".to_string(), false)];
    let listing = about_all_content(&rows);
    assert!(listing.contains("/protected/about/7"));
    assert!(listing.contains("seven"));
    assert!(listing.contains("Status: Active"));
    assert!(listing.contains("/protected/about/3"));
    assert!(listing.contains("Status: Inactive"));

    let details = about_details_content(7, "tok", "seven", true);
    assert!(details.contains("/protected/about/7/update"));
    assert!(details.contains("/protected/about/7/delete"));
    assert!(details.contains("value=\"1\" checked"));
}

#[test]
fn contact_pages_carry_their_values() {
    let body = contact_content("write us", "admin@example.com");
    assert!(body.contains("write us"));
    assert!(body.contains("Email: admin@example.com"));

    let rows = vec![(4i64, "d".to_string(), "m@x".to_string(), false)];
    let listing = contact_all_content(&rows);
    assert!(listing.contains("/protected/contact/4"));
    assert!(listing.contains("Email: m@x"));

    let details = contact_details_content(4, "tok", "d", "m@x", false);
    assert!(details.contains("/protected/contact/4/update"));
    assert!(details.contains("value=\"m@x\""));
}

#[test]
fn home_page_distinguishes_one_campaign_from_many() {
    let one = vec![campaign(1, "Solo")];
    let body = home_content(&one);
    assert!(body.contains("campaign-details"));
    assert!(body.contains("Solo"));
    assert!(!body.contains("View Details"));

    let many = vec![campaign(1, "First"), campaign(2, "Second")];
    let body = home_content(&many);
    assert!(body.contains("Active Campaigns"));
    assert!(body.contains("/campaigns/1"));
    assert!(body.contains("/campaigns/2"));
    assert!(body.contains("First"));
    assert!(body.contains("Second"));

    let none: Vec<CampaignView> = Vec::new();
    let body = home_content(&none);
    assert!(body.contains("Active Campaigns"));
    assert!(body.ends_with("</section>"));
}

#[test]
fn identifiers_render_in_decimal_even_when_odd() {
    let details = about_details_content(-42, "tok", "d", false);
    assert!(details.contains("/protected/about/-42/update"));
    let details = about_details_content(0, "tok", "d", false);
    assert!(details.contains("/protected/about/0/update"));
    let details = about_details_content(i64::MAX, "tok", "d", false);
    assert!(details.contains(&format!("/protected/about/{}/update", i64::MAX)));
}

#[test]
fn checkbox_values_read_as_the_forms_send_them() {
    assert!(checkbox_value("1"));
    assert!(checkbox_value("on"));
    assert!(checkbox_value("true"));
    assert!(!checkbox_value(""));
    assert!(!checkbox_value("0"));
    assert!(!checkbox_value("ON"));
}

#[test]
fn campaign_pages_carry_their_values() {
    assert!(new_campaign_content("tok").contains("value=\"tok\""));

    let c = campaign(9, "Rocket");
    let updates = vec![(1i64, "news".to_string(), "h4sh".to_string(), "2024-02-02".to_string())];
    let details = campaign_details_content(&c, &updates);
    assert!(details.contains("Rocket"));
    assert!(details.contains("Goal Amount: 10 XMR"));
    assert!(details.contains("news"));
    assert!(details.contains("(Hash: h4sh)"));

    let listing = list_all_campaigns_content(&vec![c.clone()]);
    assert!(listing.contains("/protected/campaigns/9/edit"));
    assert!(listing.contains("/protected/campaigns/9/amount"));
    assert!(listing.contains("/protected/campaigns/9/delete"));

    let visitors = list_campaigns_content(&vec![c.clone()]);
    assert!(visitors.contains("/campaigns/9"));
    assert!(visitors.contains("Goal: 10 XMR"));

    let edit = edit_campaign_content(&c, "tok");
    assert!(edit.contains("/protected/campaigns/9/edit"));
    assert!(edit.contains("value=\"Rocket\""));

    let amount = update_amount_content(9, "tok", "2.5");
    assert!(amount.contains("Current Amount: 2.5 XMR"));
    assert!(amount.contains("/protected/campaigns/9/amount"));
}

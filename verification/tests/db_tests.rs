use mrs_funding::db;
use mrs_funding::db::DatabaseError;
use mrs_funding::login::LoginForm;
use mrs_funding::session::SessionState;

fn conn() -> rusqlite::Connection {
    rusqlite::Connection::open_in_memory().unwrap()
}

#[test]
fn tables_can_be_created() {
    let c = conn();
    db::setup_database(&c).unwrap();
    db::create_contact_table(&c).unwrap();
    db::create_users_table(&c).unwrap();
    db::create_campaigns_table(&c).unwrap();
    db::create_goals_table(&c).unwrap();
    db::create_donation_crypto_table(&c).unwrap();
    db::create_campaign_updates_table(&c).unwrap();
}

#[test]
fn login_against_the_database_sets_the_user() {
    let c = conn();
    db::create_users_table(&c).unwrap();
    db::insert_user(&c, "admin", "secret").unwrap();

    let mut session = SessionState::new();
    let form = LoginForm { username: "admin".to_string(), password: "secret".to_string() };
    let loc = db::login_post(&c, &form, &mut session);
    assert_eq!(loc, "/protected/dashboard");
    assert_eq!(session.user_id.as_deref(), Some("admin"));
}

#[test]
fn login_against_the_database_rejects_wrong_credentials() {
    let c = conn();
    db::create_users_table(&c).unwrap();
    db::insert_user(&c, "admin", "secret").unwrap();

    let mut session = SessionState::new();
    let form = LoginForm { username: "admin".to_string(), password: "wrong".to_string() };
    let loc = db::login_post(&c, &form, &mut session);
    assert_eq!(loc, "/login");
    assert!(session.user_id.is_none());
}

#[test]
fn about_records_round_trip() {
    let c = conn();
    db::setup_database(&c).unwrap();
    db::insert_about(&c, "first").unwrap();
    db::insert_about(&c, "second").unwrap();

    let records = db::get_all_about_records(&c).unwrap();
    assert_eq!(records.len(), 2);
    // newest first
    assert_eq!(records[0].1, "second");
    assert_eq!(records[1].1, "first");
    assert!(!records[0].2);

    let id = records[1].0;
    db::update_about(&c, id, "first, revised", true).unwrap();
    let row = db::select_from_id(&c, id).unwrap();
    assert_eq!(row.1, "first, revised");
    assert!(row.2);

    db::delete_about(&c, id).unwrap();
    assert_eq!(db::get_all_about_records(&c).unwrap().len(), 1);
}

#[test]
fn activating_one_about_entry_deactivates_the_rest() {
    let c = conn();
    db::setup_database(&c).unwrap();
    db::insert_about(&c, "a").unwrap();
    db::insert_about(&c, "b").unwrap();
    let records = db::get_all_about_records(&c).unwrap();
    let (id_b, id_a) = (records[0].0, records[1].0);

    db::update_about(&c, id_a, "a", true).unwrap();
    db::update_about(&c, id_b, "b", true).unwrap();
    let after = db::get_all_about_records(&c).unwrap();
    let active: Vec<i64> = after.iter().filter(|r| r.2).map(|r| r.0).collect();
    assert_eq!(active, vec![id_b]);
}

#[test]
fn select_missing_about_entry_is_a_sqlite_error() {
    let c = conn();
    db::setup_database(&c).unwrap();
    let err = db::select_from_id(&c, 12345).unwrap_err();
    let DatabaseError::SqliteError(inner) = err;
    assert_eq!(inner, rusqlite::Error::QueryReturnedNoRows);
}

#[test]
fn contact_records_round_trip() {
    let c = conn();
    db::create_contact_table(&c).unwrap();
    db::insert_contact(&c, "write us", "admin@example.com").unwrap();
    let records = db::get_all_contact_records(&c).unwrap();
    assert_eq!(records.len(), 1);
    let id = records[0].0;
    assert_eq!(records[0].1, "write us");
    assert_eq!(records[0].2, "admin@example.com");
    assert!(!records[0].3);

    db::update_contact(&c, id, "call us", "root@example.com", true).unwrap();
    let row = db::select_contact_by_id(&c, id).unwrap();
    assert_eq!(row.1, "call us");
    assert_eq!(row.2, "root@example.com");
    assert!(row.3);

    db::delete_contact(&c, id).unwrap();
    assert!(db::get_all_contact_records(&c).unwrap().is_empty());
}

#[test]
fn donation_addresses_round_trip() {
    let c = conn();
    db::create_donation_crypto_table(&c).unwrap();
    // The insert statement leaves campaign_id out although the schema
    // declares it NOT NULL, so storing an address this way cannot succeed.
    assert!(db::insert_donation_crypto(&c, "XMR", "4abc").is_err());
    c.execute(
        "INSERT INTO donation_crypto (campaign_id, cryptoname, wallet_address) VALUES (1, 'XMR', '4abc')",
        (),
    )
    .unwrap();
    let rows = db::get_all_donation_cryptos(&c).unwrap();
    assert_eq!(rows.len(), 1);
    assert_eq!(rows[0].1, "XMR");
    assert_eq!(rows[0].2, "4abc");

    db::update_donation_crypto(&c, rows[0].0, "BTC", "bc1xyz").unwrap();
    let rows = db::get_all_donation_cryptos(&c).unwrap();
    assert_eq!(rows[0].1, "BTC");
    assert_eq!(rows[0].2, "bc1xyz");

    db::delete_donation_crypto(&c, rows[0].0).unwrap();
    assert!(db::get_all_donation_cryptos(&c).unwrap().is_empty());
}

#[test]
fn campaign_updates_carry_the_md5_of_their_text() {
    let c = conn();
    db::create_campaigns_table(&c).unwrap();
    db::create_campaign_updates_table(&c).unwrap();
    c.execute(
        "INSERT INTO campaigns (title, description, creator_id, start_date, end_date, goal_amount, current_amount, status, xmr_address)
         VALUES ('t', 'd', 1, 's', 'e', 1.0, 0.0, 'active', 'x')",
        (),
    )
    .unwrap();
    db::add_campaign_update(&c, 1, "abc").unwrap();

    let updates = db::get_campaign_updates(&c, 1).unwrap();
    assert_eq!(updates.len(), 1);
    assert_eq!(updates[0].1, "abc");
    assert_eq!(updates[0].2, "900150983cd24fb0d6963f7d28e17f72");
}

#[test]
fn deleting_a_campaign_removes_it() {
    let c = conn();
    db::create_campaigns_table(&c).unwrap();
    c.execute(
        "INSERT INTO campaigns (title, description, creator_id, start_date, end_date, goal_amount, current_amount, status, xmr_address)
         VALUES ('t', 'd', 1, 's', 'e', 1.0, 0.0, 'active', 'x')",
        (),
    )
    .unwrap();
    db::delete_campaign(&c, 1).unwrap();
    let n: i64 = c.query_row("SELECT COUNT(*) FROM campaigns", (), |row| row.get(0)).unwrap();
    assert_eq!(n, 0);
}

//! Database access: table setup, the one-table CRUD the site needs, and
//! the credential lookup behind the login form.
//!
//! Statements run through rusqlite under an assumed specification, and
//! queries through trusted wrappers around it.  What a statement returns
//! depends on what is on disk, so neither promises anything about the
//! data; the functions here say what holds of every outcome.

use crate::gate::{spec_dashboard_path, spec_login_path};
use crate::login::{apply_login_result, LoginForm};
use crate::session::SessionState;
use vstd::prelude::*;

verus! {

#[verifier::external_type_specification]
#[verifier::external_body]
pub struct ExConnection(rusqlite::Connection);

#[verifier::external_type_specification]
#[verifier::external_body]
pub struct ExSqlError(rusqlite::Error);

/// Why a database call failed.
#[derive(Debug)]
pub enum DatabaseError {
    SqliteError(rusqlite::Error),
}

/// Relies on rusqlite's `Connection::execute`: runs one SQL statement with
/// the given parameters; the result depends on the database.
pub assume_specification<P: rusqlite::Params>[ rusqlite::Connection::execute ](
    conn: &rusqlite::Connection,
    sql: &str,
    params: P,
) -> (r: Result<usize, rusqlite::Error>);

/// Relies on rusqlite's `Connection::query_row`: runs a query with two
/// text parameters and reads one integer from its first row, erring when
/// no row comes back.
#[verifier::external_body]
fn query_row_i64_text2(conn: &rusqlite::Connection, sql: &str, a: &str, b: &str) -> (r: Result<
    i64,
    rusqlite::Error,
>) {
    conn.query_row(sql, (a, b), |row| row.get::<_, i64>(0))
}

/// Relies on rusqlite's `prepare`/`query_map`: collects the rows of a
/// parameterless query as (integer, text, boolean) triples.
#[verifier::external_body]
fn query_rows_i64_text_bool(conn: &rusqlite::Connection, sql: &str) -> (r: Result<
    Vec<(i64, String, bool)>,
    rusqlite::Error,
>) {
    let mut stmt = conn.prepare(sql)?;
    let iter = stmt.query_map((), |row| Ok((row.get(0)?, row.get(1)?, row.get(2)?)))?;
    let mut out = Vec::new();
    for item in iter {
        out.push(item?);
    }
    Ok(out)
}

/// Relies on rusqlite's `prepare`/`query_map`: collects the rows of a
/// parameterless query as (integer, text, text) triples.
#[verifier::external_body]
fn query_rows_i64_text2(conn: &rusqlite::Connection, sql: &str) -> (r: Result<
    Vec<(i64, String, String)>,
    rusqlite::Error,
>) {
    let mut stmt = conn.prepare(sql)?;
    let iter = stmt.query_map((), |row| Ok((row.get(0)?, row.get(1)?, row.get(2)?)))?;
    let mut out = Vec::new();
    for item in iter {
        out.push(item?);
    }
    Ok(out)
}

/// Relies on rusqlite's `prepare`/`query_map`: collects the rows of a
/// parameterless query as (integer, text, text, boolean) quadruples.
#[verifier::external_body]
fn query_rows_i64_text2_bool(conn: &rusqlite::Connection, sql: &str) -> (r: Result<
    Vec<(i64, String, String, bool)>,
    rusqlite::Error,
>) {
    let mut stmt = conn.prepare(sql)?;
    let iter = stmt.query_map(
        (),
        |row| Ok((row.get(0)?, row.get(1)?, row.get(2)?, row.get(3)?)),
    )?;
    let mut out = Vec::new();
    for item in iter {
        out.push(item?);
    }
    Ok(out)
}

/// Relies on rusqlite's `prepare`/`query_map`: collects the rows of a
/// query with one integer parameter as (integer, text, text, text)
/// quadruples.
#[verifier::external_body]
fn query_rows_id_i64_text3(conn: &rusqlite::Connection, sql: &str, id: i64) -> (r: Result<
    Vec<(i64, String, String, String)>,
    rusqlite::Error,
>) {
    let mut stmt = conn.prepare(sql)?;
    let iter = stmt.query_map(
        (id,),
        |row| Ok((row.get(0)?, row.get(1)?, row.get(2)?, row.get(3)?)),
    )?;
    let mut out = Vec::new();
    for item in iter {
        out.push(item?);
    }
    Ok(out)
}

/// Relies on rusqlite's `Connection::query_row`: reads one (integer, text,
/// boolean) row of a query with one integer parameter.
#[verifier::external_body]
fn query_row_id_text_bool(conn: &rusqlite::Connection, sql: &str, id: i64) -> (r: Result<
    (i64, String, bool),
    rusqlite::Error,
>) {
    conn.query_row(sql, (id,), |row| Ok((row.get(0)?, row.get(1)?, row.get(2)?)))
}

/// Relies on rusqlite's `Connection::query_row`: reads one (integer, text,
/// text, boolean) row of a query with one integer parameter.
#[verifier::external_body]
fn query_row_id_text2_bool(conn: &rusqlite::Connection, sql: &str, id: i64) -> (r: Result<
    (i64, String, String, bool),
    rusqlite::Error,
>) {
    conn.query_row(sql, (id,), |row| Ok((row.get(0)?, row.get(1)?, row.get(2)?, row.get(3)?)))
}

/// What the MD5 digest of a text renders to in lowercase hexadecimal: a
/// function of the text alone.
pub uninterp spec fn md5_hex_of(text: Seq<char>) -> Seq<char>;

/// Relies on the md5 crate's `compute` and its `LowerHex` rendering: the
/// result depends on the input text alone, two hexadecimal digits for each
/// of the digest's sixteen bytes.
#[verifier::external_body]
fn md5_hex(text: &str) -> (r: String)
    ensures
        r@ == md5_hex_of(text@),
        r@.len() == 32,
{
    format!("{:x}", md5::compute(text))
}

fn sqlite_err(e: rusqlite::Error) -> (r: DatabaseError) {
    DatabaseError::SqliteError(e)
}

fn done(r: Result<usize, rusqlite::Error>) -> (out: Result<(), DatabaseError>) {
    match r {
        Ok(_) => Ok(()),
        Err(e) => Err(sqlite_err(e)),
    }
}

/// Create the table behind the about page.
pub fn setup_database(conn: &rusqlite::Connection) -> Result<(), DatabaseError> {
    done(
        conn.execute("CREATE TABLE IF NOT EXISTS aboutme (
            id INTEGER PRIMARY KEY,
            description TEXT NOT NULL,
            active BOOLEAN NOT NULL DEFAULT 0
        )", ()),
    )
}

/// Create the table behind the contact page.
pub fn create_contact_table(conn: &rusqlite::Connection) -> Result<(), DatabaseError> {
    done(
        conn.execute("CREATE TABLE IF NOT EXISTS contact (
            id INTEGER PRIMARY KEY,
            description TEXT NOT NULL,
            admin_mail TEXT NOT NULL,
            active BOOLEAN NOT NULL DEFAULT 0
        )", ()),
    )
}

/// Create the credential table.
pub fn create_users_table(conn: &rusqlite::Connection) -> Result<(), DatabaseError> {
    done(
        conn.execute("CREATE TABLE IF NOT EXISTS users (
            id INTEGER PRIMARY KEY,
            username TEXT NOT NULL,
            password TEXT NOT NULL
        )", ()),
    )
}

/// Store one credential pair.
pub fn insert_user(conn: &rusqlite::Connection, username: &str, password: &str) -> Result<
    (),
    DatabaseError,
> {
    done(
        conn.execute("INSERT INTO users (username, password) VALUES (?, ?)", (username, password)))
}

/// Create the campaign goal table.
pub fn create_goals_table(conn: &rusqlite::Connection) -> Result<(), DatabaseError> {
    done(
        conn.execute("CREATE TABLE IF NOT EXISTS goals (
            id INTEGER PRIMARY KEY,
            campaign_id INTEGER NOT NULL,
            description TEXT NOT NULL,
            amount REAL NOT NULL,
            FOREIGN KEY(campaign_id) REFERENCES campaigns(id)
        )", ()),
    )
}

/// Create the campaign table.
pub fn create_campaigns_table(conn: &rusqlite::Connection) -> Result<(), DatabaseError> {
    done(
        conn.execute("CREATE TABLE IF NOT EXISTS campaigns (
            id INTEGER PRIMARY KEY,
            title TEXT NOT NULL,
            description TEXT NOT NULL,
            creator_id INTEGER NOT NULL,
            start_date TEXT NOT NULL,
            end_date TEXT NOT NULL,
            goal_amount REAL NOT NULL,
            current_amount REAL NOT NULL DEFAULT 0,
            status TEXT NOT NULL,
            xmr_address TEXT NOT NULL
        )", ()),
    )
}

/// Remove one campaign.
pub fn delete_campaign(conn: &rusqlite::Connection, campaign_id: i64) -> Result<
    (),
    DatabaseError,
> {
    done(conn.execute("DELETE FROM campaigns WHERE id = ?", (campaign_id,)))
}

/// Create the table of crypto donation addresses.
pub fn create_donation_crypto_table(conn: &rusqlite::Connection) -> Result<(), DatabaseError> {
    done(
        conn.execute("CREATE TABLE IF NOT EXISTS donation_crypto (
            id INTEGER PRIMARY KEY,
            campaign_id INTEGER NOT NULL,
            cryptoname TEXT NOT NULL,
            wallet_address TEXT NOT NULL
        )", ()),
    )
}

/// Store one donation address.  The address is opaque here: never parsed,
/// never validated.
pub fn insert_donation_crypto(
    conn: &rusqlite::Connection,
    cryptoname: &str,
    wallet_address: &str,
) -> Result<(), DatabaseError> {
    done(
        conn.execute("INSERT INTO donation_crypto (cryptoname, wallet_address) VALUES (?, ?)", (cryptoname, wallet_address)),
    )
}

/// All stored donation addresses.
pub fn get_all_donation_cryptos(conn: &rusqlite::Connection) -> Result<
    Vec<(i64, String, String)>,
    DatabaseError,
> {
    match query_rows_i64_text2(conn, "SELECT id, cryptoname, wallet_address FROM donation_crypto") {
        Ok(rows) => Ok(rows),
        Err(e) => Err(sqlite_err(e)),
    }
}

/// Rewrite one donation address.
pub fn update_donation_crypto(
    conn: &rusqlite::Connection,
    id: i64,
    cryptoname: &str,
    wallet_address: &str,
) -> Result<(), DatabaseError> {
    done(
        conn.execute("UPDATE donation_crypto SET cryptoname = ?, wallet_address = ? WHERE id = ?", (cryptoname, wallet_address, id)),
    )
}

/// Remove one donation address.
pub fn delete_donation_crypto(conn: &rusqlite::Connection, id: i64) -> Result<(), DatabaseError> {
    done(conn.execute("DELETE FROM donation_crypto WHERE id = ?", (id,)))
}

/// Create the table of campaign updates.
pub fn create_campaign_updates_table(conn: &rusqlite::Connection) -> Result<(), DatabaseError> {
    done(
        conn.execute("CREATE TABLE IF NOT EXISTS campaign_updates (
            id INTEGER PRIMARY KEY,
            campaign_id INTEGER NOT NULL,
            update_text TEXT NOT NULL,
            update_hash TEXT NOT NULL,
            created_at DATETIME DEFAULT CURRENT_TIMESTAMP,
            FOREIGN KEY(campaign_id) REFERENCES campaigns(id)
        )", ()),
    )
}

/// Store one campaign update together with the MD5 of its text.
pub fn add_campaign_update(
    conn: &rusqlite::Connection,
    campaign_id: i64,
    update_text: &str,
) -> Result<(), DatabaseError> {
    let update_hash = md5_hex(update_text);
    done(
        conn.execute("INSERT INTO campaign_updates (campaign_id, update_text, update_hash) VALUES (?, ?, ?)", (campaign_id, update_text, update_hash.as_str())),
    )
}

/// The updates of one campaign, newest first.
pub fn get_campaign_updates(conn: &rusqlite::Connection, campaign_id: i64) -> Result<
    Vec<(i64, String, String, String)>,
    DatabaseError,
> {
    match query_rows_id_i64_text3(
        conn,
        "SELECT id, update_text, update_hash, created_at FROM campaign_updates WHERE campaign_id = ? ORDER BY created_at DESC",
        campaign_id,
    ) {
        Ok(rows) => Ok(rows),
        Err(e) => Err(sqlite_err(e)),
    }
}

/// All about entries, newest first.
pub fn get_all_about_records(conn: &rusqlite::Connection) -> Result<
    Vec<(i64, String, bool)>,
    DatabaseError,
> {
    match query_rows_i64_text_bool(
        conn,
        "SELECT id, description, active FROM aboutme ORDER BY id DESC",
    ) {
        Ok(rows) => Ok(rows),
        Err(e) => Err(sqlite_err(e)),
    }
}

/// One about entry by id.
pub fn select_from_id(conn: &rusqlite::Connection, id: i64) -> Result<
    (i64, String, bool),
    DatabaseError,
> {
    match query_row_id_text_bool(
        conn,
        "SELECT id, description, active FROM aboutme WHERE id = ?",
        id,
    ) {
        Ok(row) => Ok(row),
        Err(e) => Err(sqlite_err(e)),
    }
}

/// Store one about entry, inactive until someone activates it.
pub fn insert_about(conn: &rusqlite::Connection, description: &str) -> Result<(), DatabaseError> {
    done(
        conn.execute("INSERT INTO aboutme (description, active) VALUES (?, 0)", (description,)),
    )
}

/// Rewrite one about entry; making it active deactivates every other.
pub fn update_about(
    conn: &rusqlite::Connection,
    id: i64,
    description: &str,
    active: bool,
) -> Result<(), DatabaseError> {
    if active {
        let deactivated = conn.execute("UPDATE aboutme SET active = 0 WHERE active = 1", ());
        if let Err(e) = deactivated {
            return Err(sqlite_err(e));
        }
    }
    done(
        conn.execute("UPDATE aboutme SET description = ?, active = ? WHERE id = ?", (description, active, id)),
    )
}

/// Remove one about entry.
pub fn delete_about(conn: &rusqlite::Connection, id: i64) -> Result<(), DatabaseError> {
    done(conn.execute("DELETE FROM aboutme WHERE id = ?", (id,)))
}

/// All contact entries, newest first.
pub fn get_all_contact_records(conn: &rusqlite::Connection) -> Result<
    Vec<(i64, String, String, bool)>,
    DatabaseError,
> {
    match query_rows_i64_text2_bool(
        conn,
        "SELECT id, description, admin_mail, active FROM contact ORDER BY id DESC",
    ) {
        Ok(rows) => Ok(rows),
        Err(e) => Err(sqlite_err(e)),
    }
}

/// One contact entry by id.
pub fn select_contact_by_id(conn: &rusqlite::Connection, id: i64) -> Result<
    (i64, String, String, bool),
    DatabaseError,
> {
    match query_row_id_text2_bool(
        conn,
        "SELECT id, description, admin_mail, active FROM contact WHERE id = ?",
        id,
    ) {
        Ok(row) => Ok(row),
        Err(e) => Err(sqlite_err(e)),
    }
}

/// Store one contact entry, inactive until someone activates it.
pub fn insert_contact(
    conn: &rusqlite::Connection,
    description: &str,
    admin_mail: &str,
) -> Result<(), DatabaseError> {
    done(
        conn.execute("INSERT INTO contact (description, admin_mail, active) VALUES (?, ?, 0)", (description, admin_mail)),
    )
}

/// Rewrite one contact entry; making it active deactivates every other.
pub fn update_contact(
    conn: &rusqlite::Connection,
    id: i64,
    description: &str,
    admin_mail: &str,
    active: bool,
) -> Result<(), DatabaseError> {
    if active {
        let deactivated = conn.execute("UPDATE contact SET active = 0 WHERE active = 1", ());
        if let Err(e) = deactivated {
            return Err(sqlite_err(e));
        }
    }
    done(
        conn.execute("UPDATE contact SET description = ?, admin_mail = ?, active = ? WHERE id = ?", (description, admin_mail, active, id)),
    )
}

/// Remove one contact entry.
pub fn delete_contact(conn: &rusqlite::Connection, id: i64) -> Result<(), DatabaseError> {
    done(conn.execute("DELETE FROM contact WHERE id = ?", (id,)))
}

/// The login submission against the credential table.  Whatever the lookup
/// answers, either the submitted username was written into the session and
/// the client goes to the dashboard, or the session is exactly as it was
/// and the client goes back to the login page; a lookup failure counts as
/// a mismatch, indistinguishable by design.
pub fn login_post(conn: &rusqlite::Connection, form: &LoginForm, session: &mut SessionState) -> (loc:
    String)
    ensures
        (final(session).user_id == Some(form.username) && final(session).attrs == old(
            session,
        ).attrs && loc@ == spec_dashboard_path()) || (*final(session) == *old(session) && loc@
            == spec_login_path()),
{
    let found = query_row_i64_text2(
        conn,
        "SELECT id FROM users WHERE username = ? AND password = ?",
        form.username.as_str(),
        form.password.as_str(),
    );
    let matched = found.is_ok();
    apply_login_result(matched, form, session)
}

} // verus!

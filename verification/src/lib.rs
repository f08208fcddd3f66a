//! Server-side request authorization for a crowdfunding site.
//!
//! The heart of the crate is the authorization gate: per request it decides,
//! from the route's classification and the session's authentication state,
//! whether the handler runs, the client is redirected, or a state-changing
//! request is rejected for want of a valid anti-forgery token.  Around the
//! gate stand the session model, the route table, the login and logout
//! handlers, the page builders and the database helpers.

pub mod controllers;
pub mod csrf;
pub mod db;
pub mod dispatch;
pub mod gate;
pub mod login;
pub mod logout;
pub mod routes;
pub mod session;
pub mod text;
pub mod views;

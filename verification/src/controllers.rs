//! The page handlers' verifiable half: the forms they parse and the markup
//! they assemble.  Reading the database and speaking HTTP stay with the
//! server around this crate; each builder here takes plain values and
//! answers the page, pinned character by character.

pub mod about;
pub mod campaigns;
pub mod contact;
pub mod dashboard;
pub mod fourofour;
pub mod home;
pub mod page;

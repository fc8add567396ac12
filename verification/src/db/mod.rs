//! Stored records and the computations around the database: identifiers,
//! tokens, merges, permissions and statement text.
pub mod calendars;
pub mod crypto;
pub mod events;
pub mod migrate;
pub mod models;
pub mod shares;
pub mod tokens;
pub mod users;

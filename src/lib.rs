//! Storage core of a self-hosted file gateway: a lexical path sandbox,
//! expiring keyed stores for sessions and pending uploads, the two-phase
//! upload protocol, and the decisions of the directory archiver.

pub mod paths;
pub mod store;
pub mod errors;
pub mod models;
pub mod tokens;
pub mod uploads;
pub mod session;
pub mod archive;
pub mod passwords;
pub mod files;
pub mod accounts;
pub mod config;

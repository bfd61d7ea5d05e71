//! The roster: what the query service says of clients and channels, and how
//! the store takes it over.

pub mod client_parser;
pub mod state_updater;
pub mod updater;

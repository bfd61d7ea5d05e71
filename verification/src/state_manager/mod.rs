//! The clients and channels that are known, and how traffic and the roster
//! change them.

pub mod app_state;

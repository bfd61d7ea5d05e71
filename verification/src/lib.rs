//! Passive decoding of a voice-chat server's UDP traffic and the store of
//! clients and channels that the decoded packets feed.

pub mod network;
pub mod state_manager;
pub mod ts3_parser;
pub mod ts3_server_query;
pub mod wire;

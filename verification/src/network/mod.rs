//! From a captured frame to the datagram it carries, and on to the store.

pub mod packet_handler;
pub mod sniffer;
pub mod udp_parser;

//! Version 5 handshake negotiation for a reliable transport over datagrams.
pub mod accesscontrol;
pub mod crypto;
pub mod packet;
pub mod settings;
pub mod hsv5;

//! Keeps a DNS "A" record pointed at the caller's current public address.
//!
//! The library decides and computes; it never touches the network. A driver
//! sends each request that [`session::step`] asks for and hands the response
//! text back.

pub mod dns;
pub mod error;
pub mod json;
pub mod provider;
pub mod request;
pub mod session;
pub mod text;
pub mod wan;

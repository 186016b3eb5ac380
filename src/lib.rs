//! Automated replies for a web messaging session: login handshake parsing,
//! the long-poll cursor protocol, a first-match rule engine, a bounded
//! conversation history and the retry and supervision policies around them.

pub mod auth;
pub mod base;
pub mod client;
pub mod dispatch;
pub mod error;
pub mod login;
pub mod member;
pub mod message;
pub mod rule;
pub mod store;
pub mod text;
pub mod tool;

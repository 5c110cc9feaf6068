//! Verified core of a desktop/mobile OAuth2 Authorization Code + PKCE engine
//! for a cloud-storage provider: PKCE secret generation, a single-slot
//! verifier store, authorization-URL building, the loopback callback
//! request parser with its CSRF state machine, and token-exchange response
//! interpretation.  All I/O (sockets, HTTP transport, browser launch) lives
//! outside this crate; the functions here are pure decisions and builders.

pub mod authurl;
pub mod budgets;
pub mod deeplink;
pub mod digits;
pub mod error;
pub mod flow;
pub mod listener;
pub mod pkce;
pub mod seqs;
pub mod store;
pub mod token;

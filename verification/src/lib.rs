//! A gateway for the OAuth 2.0 authorization code flow against an external
//! identity provider.
//!
//! A login sends the browser to the provider with a fresh state value
//! (`state_token`, `redirect`), and records that it waits for the answer
//! (`store`). The provider's callback is accepted only with the state of a
//! login that waits, and each state once (`callback`). The code it brings is
//! exchanged for tokens (`exchange`), which become a session (`finalize`).
//! `flow` puts these together as steps; the sending between the steps is the
//! caller's.
//!
//! Contracts are stated over the views of the records and over maps for the
//! store. What rests on another crate is named where it is called.

pub mod callback;
pub mod config;
pub mod error;
pub mod exchange;
pub mod finalize;
pub mod flow;
pub mod json;
pub mod local_auth;
pub mod percent;
pub mod query;
pub mod redirect;
pub mod session;
pub mod state_token;
pub mod store;
pub mod table;
pub mod text;

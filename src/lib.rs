//! Delivers e-book files to e-reader mail inboxes: the credential lifecycle,
//! the mail payload and the batch orchestration, as verified decision logic.
//! Reading files, HTTP and the redirect listener are performed by the caller.

pub mod credential;
pub mod error;
pub mod text;
pub mod auth;
pub mod mail;
pub mod config;
pub mod delivery;

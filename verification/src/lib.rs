//! A client for a cloud platform's key-value storage API, without the
//! network.
//!
//! Every operation comes in verified halves: the request that is to be
//! sent, built from plain values, and what the operation makes of the
//! reply. An operation of several round trips is a function from what has
//! come back so far to what is done next. Whoever owns the transport sends
//! the requests and hands the replies back.
//!
//! - [`cloudflare`] holds the clients for accounts, users and key-value
//!   storage, the credentials and the error taxonomy.
//! - [`authentication`] verifies credentials: the token first, then the
//!   account.
//! - [`kv`] and [`common`] hold what the user interface sees.
//! - [`text`] writes and reads decimal numbers.

pub mod authentication;
pub mod cloudflare;
pub mod common;
pub mod kv;
pub mod text;

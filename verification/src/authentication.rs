//! Verifying credentials: the token first, then the account.

pub mod commands;
pub mod models;
pub mod service;

//! Key-value storage as the user interface sees it.

pub mod commands;
pub mod models;

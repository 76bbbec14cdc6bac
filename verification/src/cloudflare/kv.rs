//! Key-value storage: namespaces, keys and pairs.


pub mod client;
pub mod models;
pub mod utils;

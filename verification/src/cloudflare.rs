//! The clients of the remote API, one per resource family.

use crate::cloudflare::account::AccountClient;
use crate::cloudflare::common::{Credentials, API_URL};
use crate::cloudflare::kv::client::KvClient;
use crate::cloudflare::user::UserClient;
use std::sync::Arc;
use vstd::prelude::*;

pub mod account;
pub mod common;
pub mod kv;
pub mod user;

verus! {

/// The three clients, sharing one set of credentials and one base URL.
pub struct Cloudflare {
    pub accounts: AccountClient,
    pub kv: KvClient,
    pub user: UserClient,
}

impl Cloudflare {
    /// Binds the three clients to the same credentials and the same base
    /// URL; without one, to the production host. The credentials are
    /// shared, not copied.
    pub fn new(credentials: Credentials, api_url: Option<String>) -> (clients: Self)
        ensures
            clients.accounts.credentials() == credentials,
            clients.kv.credentials() == credentials,
            clients.user.credentials() == credentials,
            clients.accounts.api_url() == clients.kv.api_url(),
            clients.user.api_url() == clients.kv.api_url(),
            clients.kv.api_url() == match api_url {
                Some(url) => url@,
                None => API_URL@,
            },
    {
        let api_url = Arc::new(
            match api_url {
                Some(url) => url,
                None => API_URL.to_string(),
            },
        );
        let credentials = Arc::new(credentials);
        Cloudflare {
            accounts: AccountClient::new(credentials.clone(), Some(api_url.clone())),
            kv: KvClient::new(credentials.clone(), Some(api_url.clone())),
            user: UserClient::new(credentials, Some(api_url)),
        }
    }
}

} // verus!

//! Credentials as the application stores them, with the account that they
//! belong to.

use vstd::prelude::*;

verus! {

/// One of three authentication schemes, with the id of the account.
#[derive(Debug, PartialEq, Clone)]
pub enum Credentials {
    UserAuthKey { account_id: String, email: String, key: String },
    UserAuthToken { account_id: String, token: String },
    Service { account_id: String, key: String },
}

impl Credentials {
    /// The id of the account, whatever the scheme.
    pub open spec fn spec_account_id(self) -> Seq<char> {
        match self {
            Credentials::UserAuthKey { account_id, .. } => account_id@,
            Credentials::UserAuthToken { account_id, .. } => account_id@,
            Credentials::Service { account_id, .. } => account_id@,
        }
    }

    /// The id of the account that the credentials belong to.
    pub fn account_id(&self) -> (id: &str)
        ensures
            id@ == self.spec_account_id(),
    {
        match self {
            Credentials::UserAuthKey { account_id, .. } => account_id.as_str(),
            Credentials::UserAuthToken { account_id, .. } => account_id.as_str(),
            Credentials::Service { account_id, .. } => account_id.as_str(),
        }
    }
}

impl From<Credentials> for crate::cloudflare::common::Credentials {
    fn from(credentials: Credentials) -> (scheme: Self)
    {
        match credentials {
            Credentials::UserAuthKey { account_id: _, email, key } => {
                crate::cloudflare::common::Credentials::UserAuthKey { email, key }
            },
            Credentials::UserAuthToken { account_id: _, token } => {
                crate::cloudflare::common::Credentials::UserAuthToken { token }
            },
            Credentials::Service { account_id: _, key } => {
                crate::cloudflare::common::Credentials::Service { key }
            },
        }
    }
}

impl vstd::std_specs::convert::FromSpecImpl<Credentials> for crate::cloudflare::common::Credentials {
    open spec fn obeys_from_spec() -> bool {
        true
    }

    open spec fn from_spec(credentials: Credentials) -> Self {
        match credentials {
            Credentials::UserAuthKey { account_id: _, email, key } => {
                crate::cloudflare::common::Credentials::UserAuthKey { email, key }
            },
            Credentials::UserAuthToken { account_id: _, token } => {
                crate::cloudflare::common::Credentials::UserAuthToken { token }
            },
            Credentials::Service { account_id: _, key } => {
                crate::cloudflare::common::Credentials::Service { key }
            },
        }
    }
}

impl From<&Credentials> for crate::cloudflare::common::Credentials {
    fn from(credentials: &Credentials) -> (scheme: Self)
    {
        match credentials {
            Credentials::UserAuthKey { account_id: _, email, key } => {
                crate::cloudflare::common::Credentials::UserAuthKey {
                    email: email.clone(),
                    key: key.clone(),
                }
            },
            Credentials::UserAuthToken { account_id: _, token } => {
                crate::cloudflare::common::Credentials::UserAuthToken { token: token.clone() }
            },
            Credentials::Service { account_id: _, key } => {
                crate::cloudflare::common::Credentials::Service { key: key.clone() }
            },
        }
    }
}

impl vstd::std_specs::convert::FromSpecImpl<&Credentials> for crate::cloudflare::common::Credentials {
    open spec fn obeys_from_spec() -> bool {
        true
    }

    open spec fn from_spec(credentials: &Credentials) -> Self {
        match credentials {
            Credentials::UserAuthKey { account_id: _, email, key } => {
                crate::cloudflare::common::Credentials::UserAuthKey { email: *email, key: *key }
            },
            Credentials::UserAuthToken { account_id: _, token } => {
                crate::cloudflare::common::Credentials::UserAuthToken { token: *token }
            },
            Credentials::Service { account_id: _, key } => {
                crate::cloudflare::common::Credentials::Service { key: *key }
            },
        }
    }
}

} // verus!

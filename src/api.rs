use vstd::prelude::*;

use crate::account::{Account, DEFAULT_PDS_URL};
use crate::bluesky::BlueskyClient;
use crate::mastodon::MastodonClient;
use crate::network::Network;

verus! {

/// Why an operation against a network failed.
pub enum ApiError {
    /// The secret store holds no usable credentials.
    Credentials(String),
    /// The network could not be reached (DNS, timeout, TLS).
    Transport(String),
    /// The network answered with a non-success status and this text.
    Protocol(String),
    /// The answer did not have the expected shape.
    Decode(String),
    /// The operation was refused before any request: the post lacks a handle it needs.
    Precondition(String),
}

impl ApiError {
    /// The human-readable text of the error.
    pub fn message(&self) -> (r: String)
        ensures
            r@ == match self {
                ApiError::Credentials(m) => m@,
                ApiError::Transport(m) => m@,
                ApiError::Protocol(m) => m@,
                ApiError::Decode(m) => m@,
                ApiError::Precondition(m) => m@,
            },
    {
        match self {
            ApiError::Credentials(m) => m.clone(),
            ApiError::Transport(m) => m.clone(),
            ApiError::Protocol(m) => m.clone(),
            ApiError::Decode(m) => m.clone(),
            ApiError::Precondition(m) => m.clone(),
        }
    }
}

/// A client for one account, on whichever network it lives.
pub enum Client {
    /// A Mastodon instance and bearer token.
    Mastodon(MastodonClient),
    /// A Bluesky session.
    Bluesky(BlueskyClient),
}

impl Client {
    /// The network the client talks to.
    pub fn network(&self) -> (r: Network)
        ensures
            r == match self {
                Client::Mastodon(_) => Network::Mastodon,
                Client::Bluesky(_) => Network::Bluesky,
            },
    {
        match self {
            Client::Mastodon(_) => Network::Mastodon,
            Client::Bluesky(_) => Network::Bluesky,
        }
    }
}

/// The server a Bluesky account logs in to: its own where it has one, else the default PDS.
pub open spec fn pds_of(account: Account) -> Seq<char> {
    if account.server@.len() == 0 {
        DEFAULT_PDS_URL@
    } else {
        account.server@
    }
}

/// The server a Bluesky account logs in to.
pub fn pds_url_for(account: &Account) -> (r: String)
    ensures
        r@ == pds_of(*account),
{
    if account.server.unicode_len() == 0 {
        String::from_str(DEFAULT_PDS_URL)
    } else {
        account.server.clone()
    }
}

/// The client for a Mastodon account: its server and the token from the secret store.
/// Bluesky accounts need a session login first (see `BlueskyClient::from_session`).
pub fn mastodon_client_for(account: &Account, token: &str) -> (r: Option<Client>)
    ensures
        account.network == Network::Mastodon <==> r is Some,
        r matches Some(Client::Mastodon(c)) ==> c.instance@ == crate::text::trim_slashes_of(
            account.server@,
        ) && c.access_token@ == token@,
        r matches Some(c) ==> c is Mastodon,
{
    match account.network {
        Network::Mastodon => Some(Client::Mastodon(MastodonClient::new(account.server.as_str(), token))),
        Network::Bluesky => None,
    }
}

} // verus!

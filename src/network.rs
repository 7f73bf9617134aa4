use vstd::prelude::*;

use crate::text::{lower_of, lowercase};

verus! {

/// The social networks this client speaks to.
#[derive(Debug, Clone, Copy, PartialEq, Eq, Structural, Hash)]
pub enum Network {
    /// Mastodon and compatible ActivityPub servers (bearer-token REST).
    Mastodon,
    /// Bluesky, over the AT Protocol (session login, content-addressed records).
    Bluesky,
}

/// The network that a lower-case name or alias stands for.
pub open spec fn network_named(s: Seq<char>) -> Option<Network> {
    if s == "mastodon"@ || s == "masto"@ {
        Some(Network::Mastodon)
    } else if s == "bluesky"@ || s == "bsky"@ {
        Some(Network::Bluesky)
    } else {
        None
    }
}

impl Network {
    /// Every supported network, in display order.
    pub fn all() -> (r: Vec<Network>)
        ensures
            r@ == seq![Network::Mastodon, Network::Bluesky],
    {
        vec![Network::Mastodon, Network::Bluesky]
    }

    /// The display name.
    pub fn name(&self) -> (r: &'static str)
        ensures
            r@ == (match self {
                Network::Mastodon => "Mastodon"@,
                Network::Bluesky => "Bluesky"@,
            }),
    {
        match self {
            Network::Mastodon => "Mastodon",
            Network::Bluesky => "Bluesky",
        }
    }

    /// The emoji icon.
    pub fn emoji(&self) -> (r: &'static str)
        ensures
            r@ == (match self {
                Network::Mastodon => "🐘"@,
                Network::Bluesky => "🦋"@,
            }),
    {
        match self {
            Network::Mastodon => "🐘",
            Network::Bluesky => "🦋",
        }
    }

    /// The brand colour, as a hex string.
    pub fn color(&self) -> (r: &'static str)
        ensures
            r@ == (match self {
                Network::Mastodon => "#6364FF"@,
                Network::Bluesky => "#0085FF"@,
            }),
    {
        match self {
            Network::Mastodon => "#6364FF",
            Network::Bluesky => "#0085FF",
        }
    }

    /// Parses a name or alias that is already in lower case.
    pub fn from_lowercase(s: &str) -> (r: Option<Network>)
        ensures
            r == network_named(s@),
    {
        let owned = String::from_str(s);
        if owned == String::from_str("mastodon") || owned == String::from_str("masto") {
            proof {
                reveal_strlit("mastodon");
                reveal_strlit("masto");
            }
            Some(Network::Mastodon)
        } else if owned == String::from_str("bluesky") || owned == String::from_str("bsky") {
            Some(Network::Bluesky)
        } else {
            None
        }
    }

    /// Parses a network name or alias, ignoring case.
    pub fn from_str(s: &str) -> (r: Option<Network>)
        ensures
            r == network_named(lower_of(s@)),
    {
        let folded = lowercase(s);
        Network::from_lowercase(folded.as_str())
    }
}

} // verus!

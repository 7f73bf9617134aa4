use vstd::prelude::*;

use crate::ids::{fresh_id, now_millis, uuid_text, uuid_text_of};
use crate::network::Network;
use crate::text::{lower_of, lowercase};

verus! {

/// The server that a Bluesky account talks to when none is configured.
pub const DEFAULT_PDS_URL: &'static str = "https://bsky.social";

/// A configured account on one network.
#[derive(Debug)]
pub struct Account {
    /// Local identifier (a random UUID, as its 128-bit value).
    pub id: u128,
    /// The network the account belongs to.
    pub network: Network,
    /// Display name.
    pub display_name: String,
    /// Handle, e.g. `user` or `user.bsky.social`.
    pub handle: String,
    /// Server URL (Mastodon instance or Bluesky PDS).
    pub server: String,
    /// Whether this is the default account.
    pub is_default: bool,
    /// Avatar URL.
    pub avatar_url: Option<String>,
    /// When the account was added, in milliseconds since the Unix epoch.
    pub created_at: i64,
    /// When the account was last used, in milliseconds since the Unix epoch.
    pub last_used_at: Option<i64>,
}

impl Clone for Account {
    fn clone(&self) -> (r: Self)
        ensures
            r == *self,
    {
        Account {
            id: self.id,
            network: self.network,
            display_name: self.display_name.clone(),
            handle: self.handle.clone(),
            server: self.server.clone(),
            is_default: self.is_default,
            avatar_url: self.avatar_url.clone(),
            created_at: self.created_at,
            last_used_at: self.last_used_at,
        }
    }
}

/// The key under which an account's secret is kept in the secret store.
pub open spec fn keyring_key_of(a: Account) -> Seq<char> {
    "perch:"@ + lower_of(
        match a.network {
            Network::Mastodon => "Mastodon"@,
            Network::Bluesky => "Bluesky"@,
        },
    ) + ":"@ + uuid_text_of(a.id)
}

/// `s` with every leading copy of `p` removed, as `trim_start_matches(p)` gives it.
pub open spec fn strip_prefixes_of(s: Seq<char>, p: Seq<char>) -> Seq<char>
    decreases s.len(),
{
    if p.len() > 0 && s.len() >= p.len() && s.subrange(0, p.len() as int) == p {
        strip_prefixes_of(s.subrange(p.len() as int, s.len() as int), p)
    } else {
        s
    }
}

/// `s` with every leading copy of the non-empty `p` removed.
pub fn strip_prefixes(s: &str, p: &str) -> (r: String)
    requires
        p@.len() > 0,
    ensures
        r@ == strip_prefixes_of(s@, p@),
{
    let n = s.unicode_len();
    let m = p.unicode_len();
    let target = String::from_str(p);
    let mut start: usize = 0;
    assert(s@.subrange(0, n as int) =~= s@);
    while m <= n - start && String::from_str(s.substring_char(start, start + m)) == target
        invariant
            start <= n,
            n == s@.len(),
            m == p@.len(),
            m > 0,
            target@ == p@,
            strip_prefixes_of(s@, p@) == strip_prefixes_of(s@.subrange(start as int, n as int), p@),
        decreases n - start,
    {
        proof {
            let t = s@.subrange(start as int, n as int);
            assert(t.subrange(0, m as int) =~= s@.subrange(start as int, start + m));
            assert(t.subrange(m as int, t.len() as int) =~= s@.subrange(start + m, n as int));
        }
        start = start + m;
    }
    proof {
        let t = s@.subrange(start as int, n as int);
        if m <= n - start {
            assert(t.subrange(0, m as int) =~= s@.subrange(start as int, start + m));
        }
    }
    String::from_str(s.substring_char(start, n))
}

/// Whether `s` holds the character `c`.
pub fn contains_char(s: &str, c: char) -> (r: bool)
    ensures
        r == s@.contains(c),
{
    let n = s.unicode_len();
    let mut i: usize = 0;
    while i < n
        invariant
            i <= n,
            n == s@.len(),
            forall|k: int| 0 <= k < i ==> #[trigger] s@[k] != c,
        decreases n - i,
    {
        if s.get_char(i) == c {
            return true;
        }
        i = i + 1;
    }
    false
}

/// The handle as shown to users: `@user@domain` for a Mastodon handle without a domain
/// (the domain is the server URL without scheme and trailing `/`), the handle itself where
/// it already holds an `@`, and `@handle` on Bluesky.
pub open spec fn full_handle_of(a: Account) -> Seq<char> {
    match a.network {
        Network::Mastodon => if a.handle@.contains('@') {
            a.handle@
        } else {
            "@"@ + a.handle@ + "@"@ + crate::text::trim_slashes_of(
                strip_prefixes_of(strip_prefixes_of(a.server@, "https://"@), "http://"@),
            )
        },
        Network::Bluesky => "@"@ + a.handle@,
    }
}

impl Account {
    /// The handle as shown to users.
    pub fn full_handle(&self) -> (r: String)
        ensures
            r@ == full_handle_of(*self),
    {
        match self.network {
            Network::Mastodon => {
                if contains_char(self.handle.as_str(), '@') {
                    self.handle.clone()
                } else {
                    proof {
                        reveal_strlit("https://");
                        reveal_strlit("http://");
                    }
                    let a = strip_prefixes(self.server.as_str(), "https://");
                    let b = strip_prefixes(a.as_str(), "http://");
                    let domain = crate::text::trim_trailing_slashes(b.as_str());
                    let mut out = String::from_str("@");
                    out.append(self.handle.as_str());
                    out.append("@");
                    out.append(domain.as_str());
                    out
                }
            },
            Network::Bluesky => crate::text::concat2("@", self.handle.as_str()),
        }
    }

    /// A new, non-default Mastodon account on `server`.
    pub fn new_mastodon(handle: &str, server: &str, display_name: &str) -> (r: Account)
        ensures
            r.network == Network::Mastodon,
            r.handle@ == handle@,
            r.server@ == server@,
            r.display_name@ == display_name@,
            !r.is_default,
            r.avatar_url is None,
            r.last_used_at is None,
    {
        Account {
            id: fresh_id(),
            network: Network::Mastodon,
            display_name: String::from_str(display_name),
            handle: String::from_str(handle),
            server: String::from_str(server),
            is_default: false,
            avatar_url: None,
            created_at: now_millis(),
            last_used_at: None,
        }
    }

    /// A new, non-default Bluesky account on the default PDS.
    pub fn new_bluesky(handle: &str, display_name: &str) -> (r: Account)
        ensures
            r.network == Network::Bluesky,
            r.handle@ == handle@,
            r.server@ == DEFAULT_PDS_URL@,
            r.display_name@ == display_name@,
            !r.is_default,
            r.avatar_url is None,
            r.last_used_at is None,
    {
        Account::new_bluesky_with_pds(handle, display_name, DEFAULT_PDS_URL)
    }

    /// A new, non-default Bluesky account on the PDS at `pds_url`.
    pub fn new_bluesky_with_pds(handle: &str, display_name: &str, pds_url: &str) -> (r: Account)
        ensures
            r.network == Network::Bluesky,
            r.handle@ == handle@,
            r.server@ == pds_url@,
            r.display_name@ == display_name@,
            !r.is_default,
            r.avatar_url is None,
            r.last_used_at is None,
    {
        Account {
            id: fresh_id(),
            network: Network::Bluesky,
            display_name: String::from_str(display_name),
            handle: String::from_str(handle),
            server: String::from_str(pds_url),
            is_default: false,
            avatar_url: None,
            created_at: now_millis(),
            last_used_at: None,
        }
    }

    /// The key of this account's secret in the secret store: `perch:<network>:<uuid>`.
    pub fn keyring_key(&self) -> (r: String)
        ensures
            r@ == keyring_key_of(*self),
    {
        let mut out = String::from_str("perch:");
        let net = lowercase(self.network.name());
        out.append(net.as_str());
        out.append(":");
        let id = uuid_text(self.id);
        out.append(id.as_str());
        out
    }
}

/// The position of the first account on the network of `post`, if any.
pub fn find_account_for_post(accounts: &Vec<Account>, post: &crate::post::Post) -> (r: Option<usize>)
    ensures
        match r {
            Some(i) => i < accounts@.len() && accounts@[i as int].network == post.network
                && forall|k: int| 0 <= k < i ==> #[trigger] accounts@[k].network != post.network,
            None => forall|k: int|
                0 <= k < accounts@.len() ==> #[trigger] accounts@[k].network != post.network,
        },
{
    let mut i: usize = 0;
    while i < accounts.len()
        invariant
            i <= accounts@.len(),
            forall|k: int| 0 <= k < i ==> #[trigger] accounts@[k].network != post.network,
        decreases accounts@.len() - i,
    {
        if accounts[i].network == post.network {
            return Some(i);
        }
        i = i + 1;
    }
    None
}

/// Makes the account with local id `id` the default one. Every other account loses its
/// default mark, on every network, not only on the network of the new default.
pub fn set_default_account(accounts: &mut Vec<Account>, id: u128)
    ensures
        final(accounts)@.len() == old(accounts)@.len(),
        forall|i: int|
            0 <= i < final(accounts)@.len() ==> #[trigger] final(accounts)@[i] == (Account {
                is_default: old(accounts)@[i].id == id,
                ..old(accounts)@[i]
            }),
{
    let mut i: usize = 0;
    while i < accounts.len()
        invariant
            i <= accounts@.len(),
            accounts@.len() == old(accounts)@.len(),
            forall|k: int|
                0 <= k < accounts@.len() ==> #[trigger] accounts@[k] == if k < i {
                    Account { is_default: old(accounts)@[k].id == id, ..old(accounts)@[k] }
                } else {
                    old(accounts)@[k]
                },
        decreases accounts@.len() - i,
    {
        let mut a = accounts.remove(i);
        a.is_default = a.id == id;
        accounts.insert(i, a);
        i = i + 1;
    }
}

} // verus!

use vstd::prelude::*;

use crate::account::{keyring_key_of, Account};

verus! {

/// The value stored under `k`, if any (the last entry with that key).
pub open spec fn lookup(entries: Seq<(String, String)>, k: Seq<char>) -> Option<Seq<char>>
    decreases entries.len(),
{
    if entries.len() == 0 {
        None
    } else if entries.last().0@ == k {
        Some(entries.last().1@)
    } else {
        lookup(entries.drop_last(), k)
    }
}

/// The entries whose key is not `k`, in order.
pub open spec fn without(entries: Seq<(String, String)>, k: Seq<char>) -> Seq<(String, String)>
    decreases entries.len(),
{
    if entries.len() == 0 {
        entries
    } else if entries.last().0@ == k {
        without(entries.drop_last(), k)
    } else {
        without(entries.drop_last(), k).push(entries.last())
    }
}

/// Holds when no two entries share a key.
pub open spec fn keys_unique(entries: Seq<(String, String)>) -> bool {
    forall|i: int, j: int|
        0 <= i < j < entries.len() ==> #[trigger] entries[i].0@ != #[trigger] entries[j].0@
}

proof fn lemma_without(entries: Seq<(String, String)>, k0: Seq<char>)
    requires
        keys_unique(entries),
    ensures
        forall|k: Seq<char>|
            #[trigger] lookup(without(entries, k0), k) == if k == k0 {
                None
            } else {
                lookup(entries, k)
            },
        keys_unique(without(entries, k0)),
        forall|i: int|
            0 <= i < without(entries, k0).len() ==> (#[trigger] without(entries, k0)[i]).0@ != k0,
        forall|i: int|
            0 <= i < without(entries, k0).len() ==> exists|j: int|
                0 <= j < entries.len() && entries[j] == #[trigger] without(entries, k0)[i],
    decreases entries.len(),
{
    if entries.len() > 0 {
        let init = entries.drop_last();
        assert(keys_unique(init)) by {
            assert forall|i: int, j: int| 0 <= i < j < init.len() implies #[trigger] init[i].0@
                != #[trigger] init[j].0@ by {
                assert(init[i] == entries[i] && init[j] == entries[j]);
            }
        }
        lemma_without(init, k0);
        let w = without(entries, k0);
        let wi = without(init, k0);
        assert forall|i: int| 0 <= i < w.len() implies exists|j: int|
            0 <= j < entries.len() && entries[j] == #[trigger] w[i] by {
            if i < wi.len() {
                assert(w[i] == wi[i]);
                let j = choose|j: int| 0 <= j < init.len() && init[j] == wi[i];
                assert(entries[j] == init[j]);
            } else {
                assert(entries[entries.len() - 1] == w[i]);
            }
        }
        if entries.last().0@ != k0 {
            let last = entries.last();
            assert(forall|j: int| 0 <= j < init.len() ==> init[j].0@ != last.0@) by {
                assert forall|j: int| 0 <= j < init.len() implies init[j].0@ != last.0@ by {
                    assert(init[j] == entries[j]);
                    assert(last == entries[entries.len() - 1]);
                }
            }
            assert forall|i: int, j: int| 0 <= i < j < w.len() implies #[trigger] w[i].0@
                != #[trigger] w[j].0@ by {
                if j < wi.len() {
                    assert(w[i] == wi[i] && w[j] == wi[j]);
                } else {
                    assert(w[i] == wi[i]);
                    let m = choose|m: int| 0 <= m < init.len() && init[m] == wi[i];
                }
            }
            assert(w == wi.push(last));
            assert(w.drop_last() =~= wi);
            assert(w.last() == last);
            assert forall|k: Seq<char>| #[trigger] lookup(w, k) == if k == k0 {
                None
            } else {
                lookup(entries, k)
            } by {
                if k != last.0@ {
                    assert(lookup(w, k) == lookup(wi, k));
                    assert(lookup(entries, k) == lookup(init, k));
                }
            }
        } else {
            assert(w == wi);
            assert forall|k: Seq<char>| #[trigger] lookup(w, k) == if k == k0 {
                None
            } else {
                lookup(entries, k)
            } by {
                if k != k0 {
                    assert(lookup(entries, k) == lookup(init, k));
                }
            }
        }
    }
}

proof fn lemma_lookup_absent(entries: Seq<(String, String)>, k: Seq<char>)
    requires
        forall|i: int| 0 <= i < entries.len() ==> (#[trigger] entries[i]).0@ != k,
    ensures
        lookup(entries, k) is None,
    decreases entries.len(),
{
    if entries.len() > 0 {
        let init = entries.drop_last();
        assert forall|i: int| 0 <= i < init.len() implies (#[trigger] init[i]).0@ != k by {
            assert(init[i] == entries[i]);
        }
        assert(entries.last() == entries[entries.len() - 1]);
        lemma_lookup_absent(init, k);
    }
}

/// The secret store's contents: each key stands for one secret.
pub struct CredentialStore {
    /// The entries, with no key twice.
    pub entries: Vec<(String, String)>,
}

/// The key under which a Mastodon instance's OAuth client is kept.
pub open spec fn oauth_key_of(instance: Seq<char>) -> Seq<char> {
    "oauth:"@ + instance + ":client"@
}

/// `v` split at its first occurrence of `c`, if it has one.
pub open spec fn split_once_of(v: Seq<char>, c: char) -> Option<(Seq<char>, Seq<char>)>
    decreases v.len(),
{
    if v.len() == 0 {
        None
    } else if v[0] == c {
        Some((Seq::<char>::empty(), v.drop_first()))
    } else {
        match split_once_of(v.drop_first(), c) {
            Some((a, b)) => Some((seq![v[0]] + a, b)),
            None => None,
        }
    }
}

proof fn lemma_split_once(v: Seq<char>, c: char, j: int)
    requires
        0 <= j <= v.len(),
        forall|k: int| 0 <= k < j ==> #[trigger] v[k] != c,
        j < v.len() ==> v[j] == c,
    ensures
        split_once_of(v, c) == if j < v.len() {
            Some((v.subrange(0, j), v.subrange(j + 1, v.len() as int)))
        } else {
            None::<(Seq<char>, Seq<char>)>
        },
    decreases v.len(),
{
    if v.len() > 0 {
        if j == 0 {
            assert(v.subrange(0, 0) =~= Seq::<char>::empty());
            assert(v.subrange(1, v.len() as int) =~= v.drop_first());
        } else {
            let t = v.drop_first();
            assert forall|k: int| 0 <= k < j - 1 implies #[trigger] t[k] != c by {
                assert(t[k] == v[k + 1]);
            }
            if j < v.len() {
                assert(t[j - 1] == v[j]);
            }
            lemma_split_once(t, c, j - 1);
            if j < v.len() {
                assert(seq![v[0]] + t.subrange(0, j - 1) =~= v.subrange(0, j));
                assert(t.subrange(j, t.len() as int) =~= v.subrange(j + 1, v.len() as int));
            }
        }
    }
}

impl CredentialStore {
    /// The type's invariant: no key twice.
    pub open spec fn wf(&self) -> bool {
        keys_unique(self.entries@)
    }

    /// An empty store.
    pub fn new() -> (r: CredentialStore)
        ensures
            r.wf(),
            forall|k: Seq<char>| #[trigger] lookup(r.entries@, k) is None,
    {
        CredentialStore { entries: Vec::new() }
    }

    /// The secret stored under `key`.
    pub fn get(&self, key: &str) -> (r: Option<String>)
        ensures
            match r {
                Some(v) => lookup(self.entries@, key@) == Some(v@),
                None => lookup(self.entries@, key@) is None,
            },
    {
        let k = String::from_str(key);
        let mut i: usize = self.entries.len();
        assert(self.entries@.subrange(0, i as int) =~= self.entries@);
        while i > 0
            invariant
                i <= self.entries@.len(),
                k@ == key@,
                lookup(self.entries@, key@) == lookup(self.entries@.subrange(0, i as int), key@),
            decreases i,
        {
            proof {
                let t = self.entries@.subrange(0, i as int);
                assert(t.drop_last() =~= self.entries@.subrange(0, i - 1));
                assert(t.last() == self.entries@[i - 1]);
            }
            if self.entries[i - 1].0 == k {
                return Some(self.entries[i - 1].1.clone());
            }
            i = i - 1;
        }
        None
    }

    /// Removes the secret stored under `key`, if any.
    pub fn remove(&mut self, key: &str)
        requires
            old(self).wf(),
        ensures
            final(self).wf(),
            forall|k: Seq<char>|
                #[trigger] lookup(final(self).entries@, k) == if k == key@ {
                    None
                } else {
                    lookup(old(self).entries@, k)
                },
            final(self).entries@ == without(old(self).entries@, key@),
    {
        let ghost input = self.entries@;
        let k = String::from_str(key);
        let mut kept: Vec<(String, String)> = Vec::new();
        let mut i: usize = 0;
        let n = self.entries.len();
        while i < n
            invariant
                i <= n,
                n == input.len(),
                self.entries@ == input,
                k@ == key@,
                kept@ == without(input.subrange(0, i as int), key@),
            decreases n - i,
        {
            proof {
                let t = input.subrange(0, i + 1);
                assert(t.drop_last() =~= input.subrange(0, i as int));
                assert(t.last() == input[i as int]);
            }
            if self.entries[i].0 != k {
                let e = (self.entries[i].0.clone(), self.entries[i].1.clone());
                kept.push(e);
                assert(e == input[i as int]);
            }
            i = i + 1;
        }
        assert(input.subrange(0, n as int) =~= input);
        proof {
            lemma_without(input, key@);
        }
        self.entries = kept;
    }

    /// Stores `value` under `key`, in place of what was there.
    pub fn insert(&mut self, key: String, value: String)
        requires
            old(self).wf(),
        ensures
            final(self).wf(),
            forall|k: Seq<char>|
                #[trigger] lookup(final(self).entries@, k) == if k == key@ {
                    Some(value@)
                } else {
                    lookup(old(self).entries@, k)
                },
    {
        self.remove(key.as_str());
        let ghost before = self.entries@;
        proof {
            lemma_without(old(self).entries@, key@);
        }
        let ghost kv = key@;
        let ghost vv = value@;
        self.entries.push((key, value));
        assert(self.entries@.drop_last() =~= before);
        assert(self.entries@.last().0@ == kv && self.entries@.last().1@ == vv);
        assert forall|k: Seq<char>| #[trigger] lookup(self.entries@, k) == if k == kv {
            Some(vv)
        } else {
            lookup(old(self).entries@, k)
        } by {
            if k != kv {
                assert(lookup(self.entries@, k) == lookup(before, k));
            }
        }
        assert forall|i: int, j: int| 0 <= i < j < self.entries@.len() implies #[trigger] self.entries@[i].0@
            != #[trigger] self.entries@[j].0@ by {
            if j == self.entries@.len() - 1 {
                assert(self.entries@[i] == before[i]);
            } else {
                assert(self.entries@[i] == before[i] && self.entries@[j] == before[j]);
            }
        }
    }

    /// Every key in the store.
    pub fn keys(&self) -> (r: Vec<String>)
        ensures
            r@.len() == self.entries@.len(),
            forall|i: int| 0 <= i < r@.len() ==> #[trigger] r@[i]@ == self.entries@[i].0@,
    {
        let mut out: Vec<String> = Vec::new();
        let mut i: usize = 0;
        while i < self.entries.len()
            invariant
                i <= self.entries@.len(),
                out@.len() == i,
                forall|j: int| 0 <= j < i ==> #[trigger] out@[j]@ == self.entries@[j].0@,
            decreases self.entries@.len() - i,
        {
            out.push(self.entries[i].0.clone());
            i = i + 1;
        }
        out
    }
}

/// The secret of an account: the one stored under its key, if any.
pub fn get_credentials(store: &CredentialStore, account: &Account) -> (r: Option<String>)
    ensures
        match r {
            Some(v) => lookup(store.entries@, keyring_key_of(*account)) == Some(v@),
            None => lookup(store.entries@, keyring_key_of(*account)) is None,
        },
{
    let key = account.keyring_key();
    store.get(key.as_str())
}

/// Stores the secret of an account.
pub fn store_credentials(store: &mut CredentialStore, account: &Account, secret: &str)
    requires
        old(store).wf(),
    ensures
        final(store).wf(),
        forall|k: Seq<char>|
            #[trigger] lookup(final(store).entries@, k) == if k == keyring_key_of(*account) {
                Some(secret@)
            } else {
                lookup(old(store).entries@, k)
            },
{
    let key = account.keyring_key();
    store.insert(key, String::from_str(secret));
}

/// Forgets the secret of an account.
pub fn delete_credentials(store: &mut CredentialStore, account: &Account)
    requires
        old(store).wf(),
    ensures
        final(store).wf(),
        forall|k: Seq<char>|
            #[trigger] lookup(final(store).entries@, k) == if k == keyring_key_of(*account) {
                None
            } else {
                lookup(old(store).entries@, k)
            },
{
    let key = account.keyring_key();
    store.remove(key.as_str());
}

/// Whether the store holds a secret for the account.
pub fn has_credentials(store: &CredentialStore, account: &Account) -> (r: bool)
    ensures
        r == lookup(store.entries@, keyring_key_of(*account)) is Some,
{
    get_credentials(store, account).is_some()
}

fn oauth_key(instance: &str) -> (r: String)
    ensures
        r@ == oauth_key_of(instance@),
{
    let mut key = String::from_str("oauth:");
    key.append(instance);
    key.append(":client");
    key
}

/// Stores the OAuth client of a Mastodon instance as `id:secret`.
pub fn store_oauth_client(
    store: &mut CredentialStore,
    instance: &str,
    client_id: &str,
    client_secret: &str,
)
    requires
        old(store).wf(),
    ensures
        final(store).wf(),
        forall|k: Seq<char>|
            #[trigger] lookup(final(store).entries@, k) == if k == oauth_key_of(instance@) {
                Some(client_id@ + ":"@ + client_secret@)
            } else {
                lookup(old(store).entries@, k)
            },
{
    let key = oauth_key(instance);
    let mut value = String::from_str(client_id);
    value.append(":");
    value.append(client_secret);
    store.insert(key, value);
}

/// The OAuth client of a Mastodon instance: the stored value split at its first `:`, or
/// `None` where nothing is stored or the value holds no `:`.
pub fn get_oauth_client(store: &CredentialStore, instance: &str) -> (r: Option<(String, String)>)
    ensures
        match lookup(store.entries@, oauth_key_of(instance@)) {
            Some(v) => match split_once_of(v, ':') {
                Some((a, b)) => r matches Some((x, y)) && x@ == a && y@ == b,
                None => r is None,
            },
            None => r is None,
        },
{
    let key = oauth_key(instance);
    let value = match store.get(key.as_str()) {
        Some(v) => v,
        None => {
            return None;
        },
    };
    let n = value.unicode_len();
    let mut j: usize = 0;
    while j < n && value.as_str().get_char(j) != ':'
        invariant
            j <= n,
            n == value@.len(),
            forall|k: int| 0 <= k < j ==> #[trigger] value@[k] != ':',
        decreases n - j,
    {
        j = j + 1;
    }
    proof {
        lemma_split_once(value@, ':', j as int);
    }
    if j < n {
        let a = String::from_str(value.as_str().substring_char(0, j));
        let b = String::from_str(value.as_str().substring_char(j + 1, n));
        Some((a, b))
    } else {
        None
    }
}

/// Every key in the store.
pub fn list_credential_keys(store: &CredentialStore) -> (r: Vec<String>)
    ensures
        r@.len() == store.entries@.len(),
        forall|i: int| 0 <= i < r@.len() ==> #[trigger] r@[i]@ == store.entries@[i].0@,
{
    store.keys()
}

} // verus!

use vstd::prelude::*;

use vstd::multiset::Multiset;

use crate::post::Post;

verus! {

/// Inserts `p` into `s` just before the first post that is strictly older than `p`, so that
/// `p` comes after every post at least as new as itself.
pub open spec fn insert_by_time(s: Seq<Post>, p: Post) -> Seq<Post>
    decreases s.len(),
{
    if s.len() == 0 {
        seq![p]
    } else if s[0].created_at < p.created_at {
        seq![p] + s
    } else {
        seq![s[0]] + insert_by_time(s.drop_first(), p)
    }
}

/// The posts ordered newest first; posts with equal creation times keep their input order.
pub open spec fn newest_first(s: Seq<Post>) -> Seq<Post>
    decreases s.len(),
{
    if s.len() == 0 {
        seq![]
    } else {
        insert_by_time(newest_first(s.drop_last()), s.last())
    }
}

/// Holds when no post in `s` is newer than one before it.
pub open spec fn is_newest_first(s: Seq<Post>) -> bool {
    forall|i: int, j: int| 0 <= i < j < s.len() ==> #[trigger] s[j].created_at <= #[trigger] s[i].created_at
}

/// The posts of `s` created at time `t`, in their order in `s`.
pub open spec fn created_at_time(s: Seq<Post>, t: i64) -> Seq<Post>
    decreases s.len(),
{
    if s.len() == 0 {
        seq![]
    } else if s[0].created_at == t {
        seq![s[0]] + created_at_time(s.drop_first(), t)
    } else {
        created_at_time(s.drop_first(), t)
    }
}

proof fn lemma_insert_at(s: Seq<Post>, p: Post, j: int)
    requires
        0 <= j <= s.len(),
        forall|k: int| 0 <= k < j ==> !(#[trigger] s[k].created_at < p.created_at),
        j < s.len() ==> s[j].created_at < p.created_at,
    ensures
        insert_by_time(s, p) == s.insert(j, p),
    decreases s.len(),
{
    if s.len() == 0 {
        assert(s.insert(j, p) =~= seq![p]);
    } else if s[0].created_at < p.created_at {
        assert(s.insert(j, p) =~= seq![p] + s);
    } else {
        let t = s.drop_first();
        assert forall|k: int| 0 <= k < j - 1 implies !(#[trigger] t[k].created_at < p.created_at) by {
            assert(t[k] == s[k + 1]);
        }
        lemma_insert_at(t, p, j - 1);
        assert(s.insert(j, p) =~= seq![s[0]] + t.insert(j - 1, p));
    }
}

proof fn lemma_insert_keeps_order(s: Seq<Post>, p: Post)
    requires
        is_newest_first(s),
    ensures
        is_newest_first(insert_by_time(s, p)),
        insert_by_time(s, p).to_multiset() == s.to_multiset().insert(p),
        insert_by_time(s, p).len() == s.len() + 1,
        forall|t: i64|
            #[trigger] created_at_time(insert_by_time(s, p), t) == if p.created_at == t {
                created_at_time(s, t).push(p)
            } else {
                created_at_time(s, t)
            },
    decreases s.len(),
{
    let r = insert_by_time(s, p);
    if s.len() == 0 {
        assert(r =~= seq![p]);
        assert(r.to_multiset() =~= s.to_multiset().insert(p)) by {
            broadcast use vstd::seq_lib::group_to_multiset_ensures;
            assert(r == s.push(p));
        }
        assert forall|t: i64| #[trigger] created_at_time(r, t) == if p.created_at == t {
            created_at_time(s, t).push(p)
        } else {
            created_at_time(s, t)
        } by {
            assert(r.drop_first() =~= seq![]);
            assert(created_at_time(r.drop_first(), t) =~= seq![]);
            assert(created_at_time(s, t) =~= seq![]);
            if p.created_at == t {
                assert(created_at_time(r, t) =~= seq![p]);
                assert(created_at_time(s, t).push(p) =~= seq![p]);
            } else {
                assert(created_at_time(r, t) =~= seq![]);
            }
        }
    } else if s[0].created_at < p.created_at {
        assert(r == seq![p] + s);
        assert(r.drop_first() =~= s);
        assert forall|i: int, j: int| 0 <= i < j < r.len() implies #[trigger] r[j].created_at
            <= #[trigger] r[i].created_at by {
            if i == 0 {
                assert(s[j - 1].created_at <= s[0].created_at);
            } else {
                assert(r[i] == s[i - 1] && r[j] == s[j - 1]);
            }
        }
        assert(r.to_multiset() =~= s.to_multiset().insert(p)) by {
            broadcast use vstd::seq_lib::group_to_multiset_ensures;
            assert(r == s.insert(0, p));
        }
        assert forall|t: i64| #[trigger] created_at_time(r, t) == if p.created_at == t {
            created_at_time(s, t).push(p)
        } else {
            created_at_time(s, t)
        } by {
            if p.created_at == t {
                lemma_none_at_time(s, t);
                assert(created_at_time(r, t) =~= seq![p] + created_at_time(s, t));
                assert(created_at_time(s, t).push(p) =~= seq![p]);
            }
        }
    } else {
        let u = s.drop_first();
        assert(is_newest_first(u)) by {
            assert forall|i: int, j: int| 0 <= i < j < u.len() implies #[trigger] u[j].created_at
                <= #[trigger] u[i].created_at by {
                assert(u[i] == s[i + 1] && u[j] == s[j + 1]);
            }
        }
        lemma_insert_keeps_order(u, p);
        let ru = insert_by_time(u, p);
        assert(r == seq![s[0]] + ru);
        assert(r.drop_first() =~= ru);
        assert(ru.to_multiset().contains(p)) by {
            broadcast use vstd::multiset::group_multiset_axioms;
        }
        assert forall|i: int, j: int| 0 <= i < j < r.len() implies #[trigger] r[j].created_at
            <= #[trigger] r[i].created_at by {
            if i == 0 {
                assert(r[j] == ru[j - 1]);
                lemma_bounded_by_first(s, p, u, ru, j - 1);
            } else {
                assert(r[i] == ru[i - 1] && r[j] == ru[j - 1]);
            }
        }
        assert(r.to_multiset() =~= s.to_multiset().insert(p)) by {
            broadcast use vstd::seq_lib::group_to_multiset_ensures;
            vstd::seq_lib::lemma_multiset_commutative(seq![s[0]], ru);
            vstd::seq_lib::lemma_multiset_commutative(seq![s[0]], u);
            assert(s == seq![s[0]] + u);
        }
        assert forall|t: i64| #[trigger] created_at_time(r, t) == if p.created_at == t {
            created_at_time(s, t).push(p)
        } else {
            created_at_time(s, t)
        } by {
            assert(created_at_time(ru, t) == if p.created_at == t {
                created_at_time(u, t).push(p)
            } else {
                created_at_time(u, t)
            });
            if s[0].created_at == t {
                assert(created_at_time(r, t) == seq![s[0]] + created_at_time(ru, t));
                assert(created_at_time(s, t) == seq![s[0]] + created_at_time(u, t));
                if p.created_at == t {
                    assert(seq![s[0]] + created_at_time(u, t).push(p) =~= (seq![s[0]]
                        + created_at_time(u, t)).push(p));
                }
            }
        }
    }
}

proof fn lemma_bounded_by_first(s: Seq<Post>, p: Post, u: Seq<Post>, ru: Seq<Post>, k: int)
    requires
        is_newest_first(s),
        s.len() > 0,
        !(s[0].created_at < p.created_at),
        u == s.drop_first(),
        ru.to_multiset() == u.to_multiset().insert(p),
        0 <= k < ru.len(),
    ensures
        ru[k].created_at <= s[0].created_at,
{
    broadcast use vstd::seq_lib::group_to_multiset_ensures;
    broadcast use vstd::multiset::group_multiset_axioms;
    assert(ru.to_multiset().contains(ru[k]));
    if ru[k] != p {
        assert(u.to_multiset().contains(ru[k]));
        let m = choose|m: int| 0 <= m < u.len() && u[m] == ru[k];
        assert(u[m] == s[m + 1]);
    }
}

proof fn lemma_none_at_time(s: Seq<Post>, t: i64)
    requires
        is_newest_first(s),
        s.len() > 0,
        s[0].created_at < t,
    ensures
        created_at_time(s, t) == Seq::<Post>::empty(),
    decreases s.len(),
{
    let u = s.drop_first();
    if u.len() > 0 {
        assert(u[0] == s[1]);
        assert(is_newest_first(u)) by {
            assert forall|i: int, j: int| 0 <= i < j < u.len() implies #[trigger] u[j].created_at
                <= #[trigger] u[i].created_at by {
                assert(u[i] == s[i + 1] && u[j] == s[j + 1]);
            }
        }
        lemma_none_at_time(u, t);
    } else {
        assert(created_at_time(u, t) =~= Seq::<Post>::empty());
    }
}

proof fn lemma_at_time_push(s: Seq<Post>, p: Post, t: i64)
    ensures
        created_at_time(s.push(p), t) == if p.created_at == t {
            created_at_time(s, t).push(p)
        } else {
            created_at_time(s, t)
        },
    decreases s.len(),
{
    if s.len() == 0 {
        let q = s.push(p);
        assert(q.drop_first() =~= seq![]);
        assert(created_at_time(q.drop_first(), t) =~= seq![]);
        assert(created_at_time(s, t) =~= seq![]);
        assert(q[0] == p);
        if p.created_at == t {
            assert(created_at_time(q, t) =~= seq![p]);
            assert(created_at_time(s, t).push(p) =~= seq![p]);
        } else {
            assert(created_at_time(q, t) =~= seq![]);
        }
    } else {
        lemma_at_time_push(s.drop_first(), p, t);
        assert(s.push(p).drop_first() =~= s.drop_first().push(p));
        if s[0].created_at == t && p.created_at == t {
            assert(seq![s[0]] + created_at_time(s.drop_first(), t).push(p) =~= (seq![s[0]]
                + created_at_time(s.drop_first(), t)).push(p));
        }
    }
}

/// Ordering newest first yields posts in which no post is newer than one before it, holds
/// exactly the posts given, and keeps the input order among posts created at the same time.
pub proof fn law_newest_first(s: Seq<Post>)
    ensures
        is_newest_first(newest_first(s)),
        newest_first(s).to_multiset() == s.to_multiset(),
        newest_first(s).len() == s.len(),
        forall|t: i64| #[trigger] created_at_time(newest_first(s), t) == created_at_time(s, t),
    decreases s.len(),
{
    if s.len() == 0 {
        assert(s.to_multiset() =~= Multiset::empty()) by {
            broadcast use vstd::seq_lib::group_to_multiset_ensures;
        }
        assert(newest_first(s).to_multiset() =~= Multiset::empty()) by {
            broadcast use vstd::seq_lib::group_to_multiset_ensures;
        }
    } else {
        let init = s.drop_last();
        law_newest_first(init);
        lemma_insert_keeps_order(newest_first(init), s.last());
        assert(s == init.push(s.last()));
        assert(s.to_multiset() == init.to_multiset().insert(s.last())) by {
            broadcast use vstd::seq_lib::group_to_multiset_ensures;
        }
        assert forall|t: i64| #[trigger] created_at_time(newest_first(s), t) == created_at_time(
            s,
            t,
        ) by {
            lemma_at_time_push(init, s.last(), t);
        }
    }
}

/// Orders posts newest first, keeping the input order among posts created at the same time.
pub fn sort_newest_first(posts: Vec<Post>) -> (r: Vec<Post>)
    ensures
        r@ == newest_first(posts@),
{
    let ghost input = posts@;
    let mut rest = posts;
    let mut out: Vec<Post> = Vec::new();
    let mut taken: usize = 0;
    assert(input.len() == rest.len());
    while rest.len() > 0
        invariant
            input.len() <= usize::MAX,
            taken + rest@.len() == input.len(),
            rest@ == input.subrange(taken as int, input.len() as int),
            out@ == newest_first(input.subrange(0, taken as int)),
            is_newest_first(out@),
        decreases rest@.len(),
    {
        let p = rest.remove(0);
        let mut j: usize = 0;
        while j < out.len() && !(out[j].created_at < p.created_at)
            invariant
                j <= out@.len(),
                forall|k: int| 0 <= k < j ==> !(#[trigger] out@[k].created_at < p.created_at),
            decreases out@.len() - j,
        {
            j = j + 1;
        }
        proof {
            lemma_insert_at(out@, p, j as int);
            lemma_insert_keeps_order(out@, p);
            let pre = input.subrange(0, taken + 1);
            assert(pre.drop_last() =~= input.subrange(0, taken as int));
            assert(pre.last() == p);
        }
        out.insert(j, p);
        taken = taken + 1;
        proof {
            assert(rest@ =~= input.subrange(taken as int, input.len() as int));
        }
    }
    assert(input.subrange(0, taken as int) =~= input);
    out
}

} // verus!

use vstd::prelude::*;

use crate::post::Post;

verus! {

/// A reply with its nesting depth, for indented display (0 is a direct reply).
#[derive(Debug)]
pub struct ReplyItem {
    /// The reply.
    pub post: Post,
    /// Nesting depth.
    pub depth: usize,
}

impl Clone for ReplyItem {
    fn clone(&self) -> (r: Self)
        ensures
            r.post.same_as(&self.post),
            r.depth == self.depth,
    {
        ReplyItem { post: self.post.clone(), depth: self.depth }
    }
}

/// The key under which replies name a post as their parent: its resource path where it has
/// one, else its native id.
pub open spec fn parent_key(p: Post) -> Seq<char> {
    match p.uri {
        Some(u) => u@,
        None => p.network_id@,
    }
}

/// Holds when `reply` names as its parent a post with key `key` or native id `id`.
pub open spec fn replies_to(reply: Post, key: Seq<char>, id: Seq<char>) -> bool {
    match reply.reply_to_id {
        Some(r) => r@ == key || r@ == id,
        None => false,
    }
}

/// Pre-order walk over `replies`, from position `i` on, below a parent with key `key` and
/// native id `id`: each reply found is listed (as its position and its depth), followed at
/// once by its own replies one level deeper. `fuel` bounds the nesting; in an acyclic
/// conversation the nesting never reaches the number of replies, so that bound cuts nothing.
pub open spec fn walk(
    replies: Seq<Post>,
    key: Seq<char>,
    id: Seq<char>,
    depth: nat,
    fuel: nat,
    i: nat,
) -> Seq<(int, nat)>
    decreases fuel, replies.len() - i,
{
    if i >= replies.len() {
        seq![]
    } else {
        let rest = walk(replies, key, id, depth, fuel, i + 1);
        if replies_to(replies[i as int], key, id) {
            let below = if fuel == 0 {
                seq![]
            } else {
                walk(
                    replies,
                    parent_key(replies[i as int]),
                    replies[i as int].network_id@,
                    depth + 1,
                    (fuel - 1) as nat,
                    0,
                )
            };
            seq![(i as int, depth)] + below + rest
        } else {
            rest
        }
    }
}

/// The display order of a conversation: the walk below the root, from depth 0, with the
/// nesting bounded by the number of replies.
pub open spec fn reply_order(root: Post, replies: Seq<Post>) -> Seq<(int, nat)> {
    walk(replies, parent_key(root), root.network_id@, 0, replies.len(), 0)
}

/// Holds when `items` lists, one for one, the replies and depths that `order` names.
pub open spec fn lists(items: Seq<ReplyItem>, replies: Seq<Post>, order: Seq<(int, nat)>) -> bool {
    &&& items.len() == order.len()
    &&& forall|k: int|
        0 <= k < items.len() ==> {
            &&& 0 <= #[trigger] order[k].0 < replies.len()
            &&& items[k].depth == order[k].1
            &&& items[k].post.same_as(&replies[order[k].0])
        }
}

proof fn lemma_walk_indices(
    replies: Seq<Post>,
    key: Seq<char>,
    id: Seq<char>,
    depth: nat,
    fuel: nat,
    i: nat,
)
    ensures
        forall|k: int|
            0 <= k < walk(replies, key, id, depth, fuel, i).len() ==> 0 <= #[trigger] walk(
                replies,
                key,
                id,
                depth,
                fuel,
                i,
            )[k].0 < replies.len(),
    decreases fuel, replies.len() - i,
{
    if i < replies.len() {
        lemma_walk_indices(replies, key, id, depth, fuel, i + 1);
        let rest = walk(replies, key, id, depth, fuel, i + 1);
        if replies_to(replies[i as int], key, id) {
            let below = if fuel == 0 {
                seq![]
            } else {
                walk(
                    replies,
                    parent_key(replies[i as int]),
                    replies[i as int].network_id@,
                    depth + 1,
                    (fuel - 1) as nat,
                    0,
                )
            };
            if fuel > 0 {
                lemma_walk_indices(
                    replies,
                    parent_key(replies[i as int]),
                    replies[i as int].network_id@,
                    depth + 1,
                    (fuel - 1) as nat,
                    0,
                );
            }
            let w = walk(replies, key, id, depth, fuel, i);
            assert(w == seq![(i as int, depth)] + below + rest);
            assert forall|k: int| 0 <= k < w.len() implies 0 <= #[trigger] w[k].0 < replies.len() by {
                if k == 0 {
                } else if k < 1 + below.len() {
                    assert(w[k] == below[k - 1]);
                } else {
                    assert(w[k] == rest[k - 1 - below.len()]);
                }
            }
        }
    }
}

proof fn lemma_walk_lists(
    replies: Seq<Post>,
    key: Seq<char>,
    id: Seq<char>,
    depth: nat,
    fuel: nat,
    i: nat,
    j: int,
)
    requires
        i <= j < replies.len(),
        replies_to(replies[j], key, id),
    ensures
        walk(replies, key, id, depth, fuel, i).contains((j, depth)),
    decreases j - i,
{
    let w = walk(replies, key, id, depth, fuel, i);
    let rest = walk(replies, key, id, depth, fuel, i + 1);
    if i == j {
        assert(w[0] == (j, depth));
    } else {
        lemma_walk_lists(replies, key, id, depth, fuel, i + 1, j);
        let m = choose|m: int| 0 <= m < rest.len() && rest[m] == (j, depth);
        if replies_to(replies[i as int], key, id) {
            let below = if fuel == 0 {
                seq![]
            } else {
                walk(
                    replies,
                    parent_key(replies[i as int]),
                    replies[i as int].network_id@,
                    depth + 1,
                    (fuel - 1) as nat,
                    0,
                )
            };
            assert(w == seq![(i as int, depth)] + below + rest);
            assert(w[1 + below.len() + m] == (j, depth));
        } else {
            assert(w[m] == (j, depth));
        }
    }
}

/// A reply whose parent field holds either the root's resource path or the root's native id
/// is listed as a direct reply of the root: both identifiers of the root are parent keys.
pub proof fn law_root_matched_by_either_id(root: Post, replies: Seq<Post>, j: int)
    requires
        root.uri is Some,
        0 <= j < replies.len(),
        replies[j].reply_to_id matches Some(parent) && (parent@ == root.uri.unwrap()@
            || parent@ == root.network_id@),
    ensures
        reply_order(root, replies).contains((j, 0nat)),
{
    lemma_walk_lists(replies, parent_key(root), root.network_id@, 0, replies.len(), 0, j);
}

proof fn lemma_lists_concat(
    a: Seq<ReplyItem>,
    pa: Seq<(int, nat)>,
    b: Seq<ReplyItem>,
    pb: Seq<(int, nat)>,
    replies: Seq<Post>,
)
    requires
        lists(a, replies, pa),
        lists(b, replies, pb),
    ensures
        lists(a + b, replies, pa + pb),
{
    assert forall|k: int| 0 <= k < (a + b).len() implies {
        &&& 0 <= #[trigger] (pa + pb)[k].0 < replies.len()
        &&& (a + b)[k].depth == (pa + pb)[k].1
        &&& (a + b)[k].post.same_as(&replies[(pa + pb)[k].0])
    } by {
        if k < a.len() {
            assert((a + b)[k] == a[k] && (pa + pb)[k] == pa[k]);
        } else {
            assert((a + b)[k] == b[k - a.len()] && (pa + pb)[k] == pb[k - a.len()]);
        }
    }
}

/// The positions listed at depth `d` in a walk, in order.
pub open spec fn at_depth(s: Seq<(int, nat)>, d: nat) -> Seq<int>
    decreases s.len(),
{
    if s.len() == 0 {
        seq![]
    } else {
        (if s[0].1 == d {
            seq![s[0].0]
        } else {
            seq![]
        }) + at_depth(s.drop_first(), d)
    }
}

/// The positions, from `i` on and in input order, of the replies whose parent field holds
/// `key` or `id`.
pub open spec fn direct_replies(replies: Seq<Post>, key: Seq<char>, id: Seq<char>, i: nat) -> Seq<
    int,
>
    decreases replies.len() - i,
{
    if i >= replies.len() {
        seq![]
    } else {
        (if replies_to(replies[i as int], key, id) {
            seq![i as int]
        } else {
            seq![]
        }) + direct_replies(replies, key, id, i + 1)
    }
}

proof fn lemma_at_depth_concat(a: Seq<(int, nat)>, b: Seq<(int, nat)>, d: nat)
    ensures
        at_depth(a + b, d) == at_depth(a, d) + at_depth(b, d),
    decreases a.len(),
{
    if a.len() == 0 {
        assert(a + b =~= b);
    } else {
        lemma_at_depth_concat(a.drop_first(), b, d);
        assert((a + b).drop_first() =~= a.drop_first() + b);
        assert((a + b)[0] == a[0]);
        let h = if a[0].1 == d {
            seq![a[0].0]
        } else {
            seq![]
        };
        assert(h + (at_depth(a.drop_first(), d) + at_depth(b, d)) =~= (h + at_depth(
            a.drop_first(),
            d,
        )) + at_depth(b, d));
    }
}

proof fn lemma_at_depth_deeper(s: Seq<(int, nat)>, d: nat)
    requires
        forall|k: int| 0 <= k < s.len() ==> (#[trigger] s[k]).1 > d,
    ensures
        at_depth(s, d) == Seq::<int>::empty(),
    decreases s.len(),
{
    if s.len() > 0 {
        let t = s.drop_first();
        assert forall|k: int| 0 <= k < t.len() implies (#[trigger] t[k]).1 > d by {
            assert(t[k] == s[k + 1]);
        }
        lemma_at_depth_deeper(t, d);
        assert(s[0].1 > d);
        assert(at_depth(s, d) =~= Seq::<int>::empty());
    }
}

proof fn lemma_walk_depths(
    replies: Seq<Post>,
    key: Seq<char>,
    id: Seq<char>,
    depth: nat,
    fuel: nat,
    i: nat,
)
    ensures
        forall|k: int|
            0 <= k < walk(replies, key, id, depth, fuel, i).len() ==> (#[trigger] walk(
                replies,
                key,
                id,
                depth,
                fuel,
                i,
            )[k]).1 >= depth,
    decreases fuel, replies.len() - i,
{
    if i < replies.len() {
        lemma_walk_depths(replies, key, id, depth, fuel, i + 1);
        let rest = walk(replies, key, id, depth, fuel, i + 1);
        if replies_to(replies[i as int], key, id) {
            let below = if fuel == 0 {
                seq![]
            } else {
                walk(
                    replies,
                    parent_key(replies[i as int]),
                    replies[i as int].network_id@,
                    depth + 1,
                    (fuel - 1) as nat,
                    0,
                )
            };
            if fuel > 0 {
                lemma_walk_depths(
                    replies,
                    parent_key(replies[i as int]),
                    replies[i as int].network_id@,
                    depth + 1,
                    (fuel - 1) as nat,
                    0,
                );
            }
            let w = walk(replies, key, id, depth, fuel, i);
            assert(w == seq![(i as int, depth)] + below + rest);
            assert forall|k: int| 0 <= k < w.len() implies (#[trigger] w[k]).1 >= depth by {
                if k == 0 {
                } else if k < 1 + below.len() {
                    assert(w[k] == below[k - 1]);
                } else {
                    assert(w[k] == rest[k - 1 - below.len()]);
                }
            }
        }
    }
}

proof fn lemma_walk_top_level(
    replies: Seq<Post>,
    key: Seq<char>,
    id: Seq<char>,
    depth: nat,
    fuel: nat,
    i: nat,
)
    ensures
        at_depth(walk(replies, key, id, depth, fuel, i), depth) == direct_replies(
            replies,
            key,
            id,
            i,
        ),
    decreases replies.len() - i,
{
    if i < replies.len() {
        lemma_walk_top_level(replies, key, id, depth, fuel, i + 1);
        let rest = walk(replies, key, id, depth, fuel, i + 1);
        if replies_to(replies[i as int], key, id) {
            let below = if fuel == 0 {
                seq![]
            } else {
                walk(
                    replies,
                    parent_key(replies[i as int]),
                    replies[i as int].network_id@,
                    depth + 1,
                    (fuel - 1) as nat,
                    0,
                )
            };
            if fuel > 0 {
                lemma_walk_depths(
                    replies,
                    parent_key(replies[i as int]),
                    replies[i as int].network_id@,
                    depth + 1,
                    (fuel - 1) as nat,
                    0,
                );
            }
            lemma_at_depth_deeper(below, depth);
            let head = seq![(i as int, depth)];
            lemma_at_depth_concat(head, below, depth);
            lemma_at_depth_concat(head + below, rest, depth);
            assert(head.drop_first() =~= Seq::<(int, nat)>::empty());
            assert(at_depth(head.drop_first(), depth) =~= Seq::<int>::empty());
            assert(at_depth(head, depth) =~= seq![i as int]);
            assert(at_depth(head, depth) + at_depth(below, depth) =~= seq![i as int]);
        } else {
            assert(seq![] + direct_replies(replies, key, id, i + 1) =~= direct_replies(
                replies,
                key,
                id,
                i + 1,
            ));
        }
    } else {
        assert(at_depth(walk(replies, key, id, depth, fuel, i), depth) =~= Seq::<int>::empty());
    }
}

/// The replies listed at depth 0 are exactly, in input order, the replies whose parent field
/// holds the root's resource path or the root's native id.
pub proof fn law_direct_replies_of_root(root: Post, replies: Seq<Post>, u: String)
    requires
        root.uri == Some(u),
    ensures
        at_depth(reply_order(root, replies), 0) == direct_replies(
            replies,
            u@,
            root.network_id@,
            0,
        ),
        forall|j: int|
            0 <= j < replies.len() ==> (replies_to(#[trigger] replies[j], u@, root.network_id@)
                <==> (replies[j].reply_to_id matches Some(p) && (p@ == u@ || p@
                == root.network_id@))),
{
    lemma_walk_top_level(replies, parent_key(root), root.network_id@, 0, replies.len(), 0);
}

fn key_of(p: &Post) -> (r: &String)
    ensures
        r@ == parent_key(*p),
{
    match &p.uri {
        Some(u) => u,
        None => &p.network_id,
    }
}

fn add_replies(
    key: &String,
    id: &String,
    replies: &Vec<Post>,
    out: &mut Vec<ReplyItem>,
    depth: usize,
    fuel: usize,
)
    requires
        depth + fuel <= replies@.len(),
    ensures
        final(out)@.len() >= old(out)@.len(),
        final(out)@.subrange(0, old(out)@.len() as int) == old(out)@,
        lists(
            final(out)@.subrange(old(out)@.len() as int, final(out)@.len() as int),
            replies@,
            walk(replies@, key@, id@, depth as nat, fuel as nat, 0),
        ),
    decreases fuel, 0nat,
{
    let ghost start = old(out)@;
    let ghost full = walk(replies@, key@, id@, depth as nat, fuel as nat, 0);
    let ghost mut done: Seq<(int, nat)> = seq![];
    let mut i: usize = 0;
    while i < replies.len()
        invariant
            i <= replies@.len(),
            depth + fuel <= replies@.len(),
            full == walk(replies@, key@, id@, depth as nat, fuel as nat, 0),
            done + walk(replies@, key@, id@, depth as nat, fuel as nat, i as nat) == full,
            out@.len() >= start.len(),
            out@.subrange(0, start.len() as int) == start,
            lists(out@.subrange(start.len() as int, out@.len() as int), replies@, done),
        decreases replies@.len() - i,
    {
        let reply = &replies[i];
        let matched = match &reply.reply_to_id {
            Some(r) => *r == *key || *r == *id,
            None => false,
        };
        if matched {
            let ghost before = out@;
            out.push(ReplyItem { post: reply.clone(), depth });
            let ghost mid = out@;
            let ghost below: Seq<(int, nat)> = seq![];
            if fuel > 0 {
                add_replies(key_of(reply), &reply.network_id, replies, out, depth + 1, fuel - 1);
                proof {
                    below = walk(
                        replies@,
                        parent_key(replies@[i as int]),
                        replies@[i as int].network_id@,
                        (depth + 1) as nat,
                        (fuel - 1) as nat,
                        0,
                    );
                    lemma_walk_indices(
                        replies@,
                        parent_key(replies@[i as int]),
                        replies@[i as int].network_id@,
                        (depth + 1) as nat,
                        (fuel - 1) as nat,
                        0,
                    );
                }
            }
            assert(out@.len() >= mid.len() && out@.subrange(0, mid.len() as int) == mid);
            proof {
                let piece = seq![(i as int, depth as nat)] + below;
                let old_done = done;
                done = done + piece;
                assert(done + walk(replies@, key@, id@, depth as nat, fuel as nat, (i + 1) as nat)
                    =~= old_done + walk(replies@, key@, id@, depth as nat, fuel as nat, i as nat));
                let seg = out@.subrange(start.len() as int, out@.len() as int);
                assert(out@.subrange(0, start.len() as int) =~= start) by {
                    assert(out@.subrange(0, before.len() as int) == before);
                    assert(before.subrange(0, start.len() as int) == start);
                    assert(out@.subrange(0, start.len() as int) =~= before.subrange(0, start.len() as int));
                }
                let seg_old = before.subrange(start.len() as int, before.len() as int);
                let item = seq![mid[before.len() as int]];
                let seg_below = out@.subrange(mid.len() as int, out@.len() as int);
                assert(lists(item, replies@, seq![(i as int, depth as nat)]));
                if fuel == 0 {
                    assert(seg_below =~= Seq::<ReplyItem>::empty());
                }
                assert(lists(seg_below, replies@, below));
                assert forall|k: int| 0 <= k < seg.len() implies #[trigger] seg[k] == (seg_old + item
                    + seg_below)[k] by {
                    let j = start.len() + k;
                    assert(seg[k] == out@[j]);
                    if k < seg_old.len() {
                        assert(out@[j] == out@.subrange(0, mid.len() as int)[j]);
                    } else if k == seg_old.len() {
                        assert(out@[j] == out@.subrange(0, mid.len() as int)[j]);
                    } else {
                        assert(out@[j] == seg_below[k - seg_old.len() - 1]);
                    }
                }
                assert(seg =~= seg_old + item + seg_below);
                lemma_lists_concat(seg_old, old_done, item, seq![(i as int, depth as nat)], replies@);
                lemma_lists_concat(
                    seg_old + item,
                    old_done + seq![(i as int, depth as nat)],
                    seg_below,
                    below,
                    replies@,
                );
                assert(done =~= old_done + seq![(i as int, depth as nat)] + below);
            }
        } else {
            assert(done + walk(replies@, key@, id@, depth as nat, fuel as nat, (i + 1) as nat)
                =~= done + walk(replies@, key@, id@, depth as nat, fuel as nat, i as nat));
        }
        i = i + 1;
    }
    assert(done =~= full);
}

/// Threads a conversation for display: the replies to `root` (matched on its resource path
/// or its native id), each followed at once by its own replies one level deeper, in the
/// order of the flat list. Replies that reach nothing of the root are left out.
pub fn build_reply_tree(root: &Post, replies: &Vec<Post>) -> (r: Vec<ReplyItem>)
    ensures
        lists(r@, replies@, reply_order(*root, replies@)),
{
    let mut out: Vec<ReplyItem> = Vec::new();
    add_replies(key_of(root), &root.network_id, replies, &mut out, 0, replies.len());
    assert(out@.subrange(0, out@.len() as int) =~= out@);
    out
}

} // verus!

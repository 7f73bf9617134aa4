use vstd::prelude::*;

use crate::account::Account;
use crate::network::Network;
use crate::post::Post;
use crate::reply_tree::{build_reply_tree, lists, reply_order, ReplyItem};
use crate::text::{join, joined, texts};
use crate::timeline::{newest_first, sort_newest_first};

verus! {

/// A request from the interactive loop to the background worker.
pub enum AsyncCommand {
    /// Refresh the timelines of these accounts.
    RefreshTimeline { accounts: Vec<Account> },
    /// Fetch the replies below a post.
    FetchContext { post: Post, account: Account },
    /// Like a post.
    Like { post: Post, account: Account },
    /// Take back a like.
    Unlike { post: Post, account: Account },
    /// Repost a post.
    Repost { post: Post, account: Account },
    /// Take back a repost.
    Unrepost { post: Post, account: Account },
    /// Post to these accounts, as a reply where a target is given.
    Post { content: String, accounts: Vec<Account>, reply_to: Option<Post> },
    /// Stop the worker.
    Shutdown,
}

/// A result sent back from the worker to the interactive loop.
pub enum AsyncResult {
    /// The merged timeline.
    TimelineRefreshed { posts: Vec<Post> },
    /// The threaded replies below a post.
    ContextFetched { post_id: String, replies: Vec<ReplyItem> },
    /// A post was liked.
    Liked { post_id: String },
    /// A like was taken back.
    Unliked { post_id: String },
    /// A post was reposted.
    Reposted { post_id: String },
    /// A repost was taken back.
    Unreposted { post_id: String },
    /// New posts were created.
    Posted { posts: Vec<Post> },
    /// Something failed.
    Error { message: String },
    /// A progress or summary message.
    Status { message: String },
}

/// What a result carries, as mathematical values.
pub enum Emitted {
    Refreshed(Seq<Post>),
    Context(Seq<char>, Seq<ReplyItem>),
    Liked(Seq<char>),
    Unliked(Seq<char>),
    Reposted(Seq<char>),
    Unreposted(Seq<char>),
    Posted(Seq<Post>),
    Error(Seq<char>),
    Status(Seq<char>),
}

impl View for AsyncResult {
    type V = Emitted;

    open spec fn view(&self) -> Emitted {
        match self {
            AsyncResult::TimelineRefreshed { posts } => Emitted::Refreshed(posts@),
            AsyncResult::ContextFetched { post_id, replies } => Emitted::Context(post_id@, replies@),
            AsyncResult::Liked { post_id } => Emitted::Liked(post_id@),
            AsyncResult::Unliked { post_id } => Emitted::Unliked(post_id@),
            AsyncResult::Reposted { post_id } => Emitted::Reposted(post_id@),
            AsyncResult::Unreposted { post_id } => Emitted::Unreposted(post_id@),
            AsyncResult::Posted { posts } => Emitted::Posted(posts@),
            AsyncResult::Error { message } => Emitted::Error(message@),
            AsyncResult::Status { message } => Emitted::Status(message@),
        }
    }
}

/// The views of a sequence of results, in order.
pub open spec fn emitted(r: Seq<AsyncResult>) -> Seq<Emitted> {
    r.map_values(|x: AsyncResult| x@)
}

/// The separator between the per-account messages of a batch.
pub open spec fn sep() -> Seq<char> {
    "; "@
}

// ---------------------------------------------------------------- refresh

/// What became of one account during a timeline refresh.
pub enum AccountFetch {
    /// The secret store holds no credentials for the account.
    MissingCredentials,
    /// The secret store could not be read.
    CredentialError { message: String },
    /// The client could not be resolved or the timeline could not be fetched.
    Failed { message: String },
    /// The account's timeline, in the order the network sent it.
    Fetched { posts: Vec<Post> },
}

/// The posts fetched in a refresh, account after account.
pub open spec fn fetched_posts(outcomes: Seq<AccountFetch>) -> Seq<Post>
    decreases outcomes.len(),
{
    if outcomes.len() == 0 {
        seq![]
    } else {
        fetched_posts(outcomes.drop_last()) + match outcomes.last() {
            AccountFetch::Fetched { posts } => posts@,
            _ => seq![],
        }
    }
}

/// The message that a failed account contributes to a refresh, if it failed.
pub open spec fn refresh_error(a: Account, o: AccountFetch) -> Option<Seq<char>> {
    match o {
        AccountFetch::MissingCredentials => Some("No credentials for @"@ + a.handle@),
        AccountFetch::CredentialError { message } => Some(
            "Auth error for @"@ + a.handle@ + ": "@ + message@,
        ),
        AccountFetch::Failed { message } => Some("@"@ + a.handle@ + ": "@ + message@),
        AccountFetch::Fetched { .. } => None,
    }
}

/// The per-account messages of a refresh, in account order.
pub open spec fn refresh_errors(accounts: Seq<Account>, outcomes: Seq<AccountFetch>) -> Seq<
    Seq<char>,
>
    decreases outcomes.len(),
{
    if outcomes.len() == 0 || accounts.len() == 0 {
        seq![]
    } else {
        refresh_errors(accounts.drop_last(), outcomes.drop_last()) + match refresh_error(
            accounts.last(),
            outcomes.last(),
        ) {
            Some(m) => seq![m],
            None => seq![],
        }
    }
}

/// What a refresh emits once every account has been tried: the merged timeline, newest
/// first, and a partial-refresh status if some account failed; or, where no post came back
/// and some account failed, a single error.
pub open spec fn refresh_emits(accounts: Seq<Account>, outcomes: Seq<AccountFetch>) -> Seq<
    Emitted,
> {
    let posts = fetched_posts(outcomes);
    let errs = refresh_errors(accounts, outcomes);
    if posts.len() == 0 && errs.len() > 0 {
        seq![Emitted::Error(joined(errs, sep()))]
    } else if errs.len() > 0 {
        seq![
            Emitted::Refreshed(newest_first(posts)),
            Emitted::Status("Partial refresh: "@ + joined(errs, sep())),
        ]
    } else {
        seq![Emitted::Refreshed(newest_first(posts))]
    }
}

/// What a refresh emits before any account is tried: a progress status, and an error
/// where there is no account at all.
pub open spec fn refresh_opening(n_accounts: nat) -> Seq<Emitted> {
    if n_accounts == 0 {
        seq![Emitted::Status("Refreshing..."@), Emitted::Error("No accounts configured"@)]
    } else {
        seq![Emitted::Status("Refreshing..."@)]
    }
}

/// The results a refresh of `accounts` emits before it tries any account. Where there is no
/// account, the refresh ends there.
pub fn refresh_started(accounts: &Vec<Account>) -> (r: Vec<AsyncResult>)
    ensures
        emitted(r@) == refresh_opening(accounts@.len()),
{
    let mut r: Vec<AsyncResult> = Vec::new();
    r.push(AsyncResult::Status { message: String::from_str("Refreshing...") });
    if accounts.len() == 0 {
        r.push(AsyncResult::Error { message: String::from_str("No accounts configured") });
    }
    assert(emitted(r@) =~= refresh_opening(accounts@.len()));
    r
}

fn refresh_message(a: &Account, o: &AccountFetch) -> (r: Option<String>)
    ensures
        match r {
            Some(m) => refresh_error(*a, *o) == Some(m@),
            None => refresh_error(*a, *o) is None,
        },
{
    match o {
        AccountFetch::MissingCredentials => {
            let mut m = String::from_str("No credentials for @");
            m.append(a.handle.as_str());
            Some(m)
        },
        AccountFetch::CredentialError { message } => {
            let mut m = String::from_str("Auth error for @");
            m.append(a.handle.as_str());
            m.append(": ");
            m.append(message.as_str());
            Some(m)
        },
        AccountFetch::Failed { message } => {
            let mut m = String::from_str("@");
            m.append(a.handle.as_str());
            m.append(": ");
            m.append(message.as_str());
            Some(m)
        },
        AccountFetch::Fetched { .. } => None,
    }
}

/// The results of a refresh once each account has been tried, `outcomes[i]` being what
/// became of `accounts[i]`. One account's failure never stops the others.
pub fn refresh_results(accounts: &Vec<Account>, outcomes: Vec<AccountFetch>) -> (r: Vec<
    AsyncResult,
>)
    requires
        accounts@.len() == outcomes@.len(),
    ensures
        emitted(r@) == refresh_emits(accounts@, outcomes@),
{
    let ghost input = outcomes@;
    let mut rest = outcomes;
    let mut all: Vec<Post> = Vec::new();
    let mut errors: Vec<String> = Vec::new();
    let mut i: usize = 0;
    while i < accounts.len()
        invariant
            i <= accounts@.len(),
            accounts@.len() == input.len(),
            rest@ == input.subrange(i as int, input.len() as int),
            all@ == fetched_posts(input.subrange(0, i as int)),
            texts(errors@) == refresh_errors(
                accounts@.subrange(0, i as int),
                input.subrange(0, i as int),
            ),
        decreases accounts@.len() - i,
    {
        let o = rest.remove(0);
        let msg = refresh_message(&accounts[i], &o);
        let ghost old_errors = errors@;
        match msg {
            Some(m) => {
                errors.push(m);
            },
            None => {},
        }
        match o {
            AccountFetch::Fetched { posts } => {
                let mut posts = posts;
                all.append(&mut posts);
            },
            _ => {},
        }
        proof {
            let ins = input.subrange(0, i + 1);
            let acs = accounts@.subrange(0, i + 1);
            assert(ins.drop_last() =~= input.subrange(0, i as int));
            assert(acs.drop_last() =~= accounts@.subrange(0, i as int));
            assert(ins.last() == input[i as int]);
            assert(acs.last() == accounts@[i as int]);
            assert(texts(errors@) =~= refresh_errors(acs, ins));
        }
        i = i + 1;
        proof {
            assert(rest@ =~= input.subrange(i as int, input.len() as int));
        }
    }
    assert(input.subrange(0, i as int) =~= input);
    assert(accounts@.subrange(0, i as int) =~= accounts@);
    let mut r: Vec<AsyncResult> = Vec::new();
    if all.len() == 0 && errors.len() > 0 {
        r.push(AsyncResult::Error { message: join(&errors, "; ") });
    } else {
        let sorted = sort_newest_first(all);
        r.push(AsyncResult::TimelineRefreshed { posts: sorted });
        if errors.len() > 0 {
            let mut m = String::from_str("Partial refresh: ");
            let j = join(&errors, "; ");
            m.append(j.as_str());
            r.push(AsyncResult::Status { message: m });
        }
    }
    proof {
        reveal_strlit("; ");
    }
    assert(emitted(r@) =~= refresh_emits(accounts@, input));
    r
}

// ---------------------------------------------------------------- submit

/// What became of one target account of a submitted post.
pub enum PostOutcome {
    /// The secret store holds no credentials for the account.
    MissingCredentials,
    /// The secret store could not be read.
    CredentialError { message: String },
    /// The client could not be resolved, or the network refused the post.
    Failed { message: String },
    /// The post as the network created it.
    Posted { post: Post },
}

/// The native id to reply to from `account`: the target's own id where the target lives on
/// the account's network; otherwise the account posts a plain post.
pub open spec fn reply_target_of(reply_to: Option<Post>, account: Account) -> Option<Seq<char>> {
    match reply_to {
        Some(p) => if p.network == account.network {
            Some(p.network_id@)
        } else {
            None
        },
        None => None,
    }
}

/// The id that a submission from `account` replies to, if it is a reply there.
pub fn reply_target(reply_to: &Option<Post>, account: &Account) -> (r: Option<String>)
    ensures
        match r {
            Some(id) => reply_target_of(*reply_to, *account) == Some(id@),
            None => reply_target_of(*reply_to, *account) is None,
        },
{
    match reply_to {
        Some(p) => if p.network == account.network {
            Some(p.network_id.clone())
        } else {
            None
        },
        None => None,
    }
}

/// The display name of a network, as a sequence.
pub open spec fn network_name(n: Network) -> Seq<char> {
    match n {
        Network::Mastodon => "Mastodon"@,
        Network::Bluesky => "Bluesky"@,
    }
}

/// The posts created by a submission, account after account.
pub open spec fn posted_posts(outcomes: Seq<PostOutcome>) -> Seq<Post>
    decreases outcomes.len(),
{
    if outcomes.len() == 0 {
        seq![]
    } else {
        posted_posts(outcomes.drop_last()) + match outcomes.last() {
            PostOutcome::Posted { post } => seq![post],
            _ => seq![],
        }
    }
}

/// The message that a failed account contributes to a submission, if it failed.
pub open spec fn post_error(a: Account, o: PostOutcome) -> Option<Seq<char>> {
    match o {
        PostOutcome::MissingCredentials => Some(
            "No credentials for "@ + network_name(a.network) + " (@"@ + a.handle@ + ")"@,
        ),
        PostOutcome::CredentialError { message } => Some(
            "Auth error for "@ + network_name(a.network) + ": "@ + message@,
        ),
        PostOutcome::Failed { message } => Some(network_name(a.network) + ": "@ + message@),
        PostOutcome::Posted { .. } => None,
    }
}

/// The per-account messages of a submission, in account order.
pub open spec fn post_errors(accounts: Seq<Account>, outcomes: Seq<PostOutcome>) -> Seq<Seq<char>>
    decreases outcomes.len(),
{
    if outcomes.len() == 0 || accounts.len() == 0 {
        seq![]
    } else {
        post_errors(accounts.drop_last(), outcomes.drop_last()) + match post_error(
            accounts.last(),
            outcomes.last(),
        ) {
            Some(m) => seq![m],
            None => seq![],
        }
    }
}

/// What a submission emits once every target account has been tried: the created posts if
/// there are any, then a success status where no account failed, or else one error that
/// joins the failures.
pub open spec fn post_emits(
    accounts: Seq<Account>,
    outcomes: Seq<PostOutcome>,
    replying: bool,
) -> Seq<Emitted> {
    let posts = posted_posts(outcomes);
    let errs = post_errors(accounts, outcomes);
    let data = if posts.len() > 0 {
        seq![Emitted::Posted(posts)]
    } else {
        seq![]
    };
    data + if errs.len() == 0 {
        seq![
            Emitted::Status(
                if replying {
                    "Replied successfully!"@
                } else {
                    "Posted successfully!"@
                },
            ),
        ]
    } else {
        seq![Emitted::Error(joined(errs, sep()))]
    }
}

fn post_message(a: &Account, o: &PostOutcome) -> (r: Option<String>)
    ensures
        match r {
            Some(m) => post_error(*a, *o) == Some(m@),
            None => post_error(*a, *o) is None,
        },
{
    match o {
        PostOutcome::MissingCredentials => {
            let mut m = String::from_str("No credentials for ");
            m.append(a.network.name());
            m.append(" (@");
            m.append(a.handle.as_str());
            m.append(")");
            Some(m)
        },
        PostOutcome::CredentialError { message } => {
            let mut m = String::from_str("Auth error for ");
            m.append(a.network.name());
            m.append(": ");
            m.append(message.as_str());
            Some(m)
        },
        PostOutcome::Failed { message } => {
            let mut m = String::from_str(a.network.name());
            m.append(": ");
            m.append(message.as_str());
            Some(m)
        },
        PostOutcome::Posted { .. } => None,
    }
}

/// The status a submission to `n_accounts` accounts emits before it tries any of them.
pub fn post_started(n_accounts: usize, replying: bool) -> (r: AsyncResult)
    ensures
        r@ == Emitted::Status(
            (if replying {
                "Replying..."@
            } else {
                "Posting..."@
            }) + " (to "@ + crate::text::decimal_of(n_accounts as nat) + " accounts)"@,
        ),
{
    let mut m = if replying {
        String::from_str("Replying...")
    } else {
        String::from_str("Posting...")
    };
    m.append(" (to ");
    let n = crate::text::decimal(n_accounts as u64);
    m.append(n.as_str());
    m.append(" accounts)");
    AsyncResult::Status { message: m }
}

/// The results of a submission once each target account has been tried, `outcomes[i]`
/// being what became of `accounts[i]`.
pub fn post_results(accounts: &Vec<Account>, outcomes: Vec<PostOutcome>, replying: bool) -> (r:
    Vec<AsyncResult>)
    requires
        accounts@.len() == outcomes@.len(),
    ensures
        emitted(r@) == post_emits(accounts@, outcomes@, replying),
{
    let ghost input = outcomes@;
    let mut rest = outcomes;
    let mut posted: Vec<Post> = Vec::new();
    let mut errors: Vec<String> = Vec::new();
    let mut i: usize = 0;
    while i < accounts.len()
        invariant
            i <= accounts@.len(),
            accounts@.len() == input.len(),
            rest@ == input.subrange(i as int, input.len() as int),
            posted@ == posted_posts(input.subrange(0, i as int)),
            texts(errors@) == post_errors(accounts@.subrange(0, i as int), input.subrange(0, i as int)),
        decreases accounts@.len() - i,
    {
        let o = rest.remove(0);
        let msg = post_message(&accounts[i], &o);
        match msg {
            Some(m) => {
                errors.push(m);
            },
            None => {},
        }
        match o {
            PostOutcome::Posted { post } => {
                posted.push(post);
            },
            _ => {},
        }
        proof {
            let ins = input.subrange(0, i + 1);
            let acs = accounts@.subrange(0, i + 1);
            assert(ins.drop_last() =~= input.subrange(0, i as int));
            assert(acs.drop_last() =~= accounts@.subrange(0, i as int));
            assert(ins.last() == input[i as int]);
            assert(acs.last() == accounts@[i as int]);
            assert(texts(errors@) =~= post_errors(acs, ins));
            assert(posted@ =~= posted_posts(ins));
        }
        i = i + 1;
        proof {
            assert(rest@ =~= input.subrange(i as int, input.len() as int));
        }
    }
    assert(input.subrange(0, i as int) =~= input);
    assert(accounts@.subrange(0, i as int) =~= accounts@);
    let mut r: Vec<AsyncResult> = Vec::new();
    if posted.len() > 0 {
        r.push(AsyncResult::Posted { posts: posted });
    }
    if errors.len() == 0 {
        let m = if replying {
            String::from_str("Replied successfully!")
        } else {
            String::from_str("Posted successfully!")
        };
        r.push(AsyncResult::Status { message: m });
    } else {
        r.push(AsyncResult::Error { message: join(&errors, "; ") });
    }
    proof {
        reveal_strlit("; ");
    }
    assert(emitted(r@) =~= post_emits(accounts@, input, replying));
    r
}

proof fn lemma_post_counts(accounts: Seq<Account>, outcomes: Seq<PostOutcome>)
    requires
        accounts.len() == outcomes.len(),
    ensures
        posted_posts(outcomes).len() + post_errors(accounts, outcomes).len() == outcomes.len(),
    decreases outcomes.len(),
{
    if outcomes.len() > 0 {
        lemma_post_counts(accounts.drop_last(), outcomes.drop_last());
    }
}

/// A submission to N accounts of which M succeed, with M < N, emits, in this order, the M
/// created posts (where M > 0) and one error that joins the N - M failures.
pub proof fn law_partial_submission(
    accounts: Seq<Account>,
    outcomes: Seq<PostOutcome>,
    replying: bool,
)
    requires
        accounts.len() == outcomes.len(),
        posted_posts(outcomes).len() < outcomes.len(),
    ensures
        post_errors(accounts, outcomes).len() == outcomes.len() - posted_posts(outcomes).len(),
        post_emits(accounts, outcomes, replying) == if posted_posts(outcomes).len() > 0 {
            seq![
                Emitted::Posted(posted_posts(outcomes)),
                Emitted::Error(joined(post_errors(accounts, outcomes), sep())),
            ]
        } else {
            seq![Emitted::Error(joined(post_errors(accounts, outcomes), sep()))]
        },
{
    lemma_post_counts(accounts, outcomes);
    assert(post_emits(accounts, outcomes, replying) =~= if posted_posts(outcomes).len() > 0 {
        seq![
            Emitted::Posted(posted_posts(outcomes)),
            Emitted::Error(joined(post_errors(accounts, outcomes), sep())),
        ]
    } else {
        seq![Emitted::Error(joined(post_errors(accounts, outcomes), sep()))]
    });
}

// ---------------------------------------------------------------- interactions

/// The four interactions on a post.
#[derive(Debug, Clone, Copy, PartialEq, Eq, Structural)]
pub enum Interaction {
    Like,
    Unlike,
    Repost,
    Unrepost,
}

/// What became of an interaction.
pub enum InteractionOutcome {
    /// The secret store holds no credentials for the account.
    MissingCredentials,
    /// The secret store could not be read, or the client could not be resolved.
    Unavailable { message: String },
    /// The remote call was made, with this outcome.
    Done { outcome: Result<(), String> },
}

/// The verb that failure messages use for an interaction.
pub open spec fn interaction_verb(kind: Interaction) -> Seq<char> {
    match kind {
        Interaction::Like => "Like"@,
        Interaction::Unlike => "Unlike"@,
        Interaction::Repost => "Repost"@,
        Interaction::Unrepost => "Unrepost"@,
    }
}

/// The success result of an interaction on the post with native id `id`.
pub open spec fn interaction_success(kind: Interaction, id: Seq<char>) -> Emitted {
    match kind {
        Interaction::Like => Emitted::Liked(id),
        Interaction::Unlike => Emitted::Unliked(id),
        Interaction::Repost => Emitted::Reposted(id),
        Interaction::Unrepost => Emitted::Unreposted(id),
    }
}

/// What an interaction emits: success keyed by the post's native id, or an error.
pub open spec fn interaction_emits(kind: Interaction, id: Seq<char>, o: InteractionOutcome) -> Emitted {
    match o {
        InteractionOutcome::MissingCredentials => Emitted::Error("No credentials"@),
        InteractionOutcome::Unavailable { message } => Emitted::Error(message@),
        InteractionOutcome::Done { outcome } => match outcome {
            Ok(()) => interaction_success(kind, id),
            Err(e) => Emitted::Error(interaction_verb(kind) + " failed: "@ + e@),
        },
    }
}

/// The result of an interaction on the post with native id `post_id`.
pub fn interaction_result(kind: Interaction, post_id: String, o: InteractionOutcome) -> (r: AsyncResult)
    ensures
        r@ == interaction_emits(kind, post_id@, o),
{
    match o {
        InteractionOutcome::MissingCredentials => AsyncResult::Error {
            message: String::from_str("No credentials"),
        },
        InteractionOutcome::Unavailable { message } => AsyncResult::Error { message },
        InteractionOutcome::Done { outcome } => match outcome {
            Ok(()) => match kind {
                Interaction::Like => AsyncResult::Liked { post_id },
                Interaction::Unlike => AsyncResult::Unliked { post_id },
                Interaction::Repost => AsyncResult::Reposted { post_id },
                Interaction::Unrepost => AsyncResult::Unreposted { post_id },
            },
            Err(e) => {
                let mut m = match kind {
                    Interaction::Like => String::from_str("Like"),
                    Interaction::Unlike => String::from_str("Unlike"),
                    Interaction::Repost => String::from_str("Repost"),
                    Interaction::Unrepost => String::from_str("Unrepost"),
                };
                m.append(" failed: ");
                m.append(e.as_str());
                AsyncResult::Error { message: m }
            },
        },
    }
}

// ---------------------------------------------------------------- conversation

/// The result of a conversation fetch for `post`: the threaded replies where the fetch
/// succeeded, and nothing at all where any step failed.
pub fn context_result(post: &Post, fetched: Option<Vec<Post>>) -> (r: Option<AsyncResult>)
    ensures
        fetched is None ==> r is None,
        fetched matches Some(flat) ==> r matches Some(res) && res matches AsyncResult::ContextFetched {
            post_id,
            replies,
        } && post_id@ == post.network_id@ && lists(replies@, flat@, reply_order(*post, flat@)),
{
    match fetched {
        None => None,
        Some(flat) => {
            let replies = build_reply_tree(post, &flat);
            Some(AsyncResult::ContextFetched { post_id: post.network_id.clone(), replies })
        },
    }
}

// ---------------------------------------------------------------- local state

/// A post as it stands once a result about it has been applied: the flag set or cleared,
/// and the counter moved by one, saturating at the ends of its range.
pub open spec fn applied(p: Post, e: Emitted) -> Post {
    match e {
        Emitted::Liked(_) => Post {
            liked: true,
            like_count: if p.like_count < u32::MAX {
                (p.like_count + 1) as u32
            } else {
                p.like_count
            },
            ..p
        },
        Emitted::Unliked(_) => Post {
            liked: false,
            like_count: if p.like_count > 0 {
                (p.like_count - 1) as u32
            } else {
                0
            },
            ..p
        },
        Emitted::Reposted(_) => Post {
            reposted: true,
            repost_count: if p.repost_count < u32::MAX {
                (p.repost_count + 1) as u32
            } else {
                p.repost_count
            },
            ..p
        },
        Emitted::Unreposted(_) => Post {
            reposted: false,
            repost_count: if p.repost_count > 0 {
                (p.repost_count - 1) as u32
            } else {
                0
            },
            ..p
        },
        _ => p,
    }
}

/// The native id that an interaction result is keyed by.
pub open spec fn target_of(e: Emitted) -> Option<Seq<char>> {
    match e {
        Emitted::Liked(id) => Some(id),
        Emitted::Unliked(id) => Some(id),
        Emitted::Reposted(id) => Some(id),
        Emitted::Unreposted(id) => Some(id),
        _ => None,
    }
}

/// The first position in `posts` of a post with native id `id`, if any.
pub open spec fn first_with_id(posts: Seq<Post>, id: Seq<char>, i: int) -> bool {
    &&& 0 <= i < posts.len()
    &&& posts[i].network_id@ == id
    &&& forall|k: int| 0 <= k < i ==> #[trigger] posts[k].network_id@ != id
}

fn target_id(result: &AsyncResult) -> (r: Option<&String>)
    ensures
        match r {
            Some(id) => target_of(result@) == Some(id@),
            None => target_of(result@) is None,
        },
{
    match result {
        AsyncResult::Liked { post_id } => Some(post_id),
        AsyncResult::Unliked { post_id } => Some(post_id),
        AsyncResult::Reposted { post_id } => Some(post_id),
        AsyncResult::Unreposted { post_id } => Some(post_id),
        _ => None,
    }
}

/// Applies an interaction result to a local list of posts: the first post whose native id
/// the result names gets its flag and counter updated; every other post, and every post
/// for a result of another kind, stays as it was.
pub fn apply_result(posts: &mut Vec<Post>, result: &AsyncResult)
    ensures
        final(posts)@.len() == old(posts)@.len(),
        forall|i: int|
            0 <= i < old(posts)@.len() ==> #[trigger] final(posts)@[i] == if target_of(result@)
                matches Some(id) && first_with_id(old(posts)@, id, i) {
                applied(old(posts)@[i], result@)
            } else {
                old(posts)@[i]
            },
{
    let target = target_id(result);
    if target.is_none() {
        return ;
    }
    let id = target.unwrap();
    let mut i: usize = 0;
    while i < posts.len()
        invariant
            i <= posts@.len(),
            posts@ == old(posts)@,
            target_of(result@) == Some(id@),
            forall|k: int| 0 <= k < i ==> #[trigger] posts@[k].network_id@ != id@,
        decreases posts@.len() - i,
    {
        if posts[i].network_id == *id {
            let mut p = posts.remove(i);
            match result {
                AsyncResult::Liked { .. } => {
                    p.liked = true;
                    p.like_count = p.like_count.saturating_add(1);
                },
                AsyncResult::Unliked { .. } => {
                    p.liked = false;
                    p.like_count = p.like_count.saturating_sub(1);
                },
                AsyncResult::Reposted { .. } => {
                    p.reposted = true;
                    p.repost_count = p.repost_count.saturating_add(1);
                },
                _ => {
                    p.reposted = false;
                    p.repost_count = p.repost_count.saturating_sub(1);
                },
            }
            posts.insert(i, p);
            assert(first_with_id(old(posts)@, id@, i as int));
            assert forall|k: int| 0 <= k < old(posts)@.len() && k != i implies !first_with_id(
                old(posts)@,
                id@,
                k,
            ) by {
                if k > i {
                    assert(old(posts)@[i as int].network_id@ == id@);
                }
            }
            return ;
        }
        i = i + 1;
    }
}

/// Applying a like moves the like counter up by exactly one, and applying an unlike moves it
/// down by exactly one, never below zero; the flag follows.
pub proof fn law_like_toggle(p: Post, id: Seq<char>)
    ensures
        p.like_count < u32::MAX ==> applied(p, Emitted::Liked(id)).like_count == p.like_count + 1,
        applied(p, Emitted::Liked(id)).liked,
        p.like_count > 0 ==> applied(p, Emitted::Unliked(id)).like_count == p.like_count - 1,
        p.like_count == 0 ==> applied(p, Emitted::Unliked(id)).like_count == 0,
        !applied(p, Emitted::Unliked(id)).liked,
{
}

proof fn lemma_all_fetched(accounts: Seq<Account>, outcomes: Seq<AccountFetch>)
    requires
        forall|k: int| 0 <= k < outcomes.len() ==> #[trigger] outcomes[k] is Fetched,
    ensures
        refresh_errors(accounts, outcomes) == Seq::<Seq<char>>::empty(),
    decreases outcomes.len(),
{
    if outcomes.len() > 0 && accounts.len() > 0 {
        let o = outcomes.drop_last();
        assert forall|k: int| 0 <= k < o.len() implies #[trigger] o[k] is Fetched by {
            assert(o[k] == outcomes[k]);
        }
        lemma_all_fetched(accounts.drop_last(), o);
        assert(outcomes.last() == outcomes[outcomes.len() - 1]);
        assert(refresh_errors(accounts, outcomes) =~= Seq::<Seq<char>>::empty());
    }
}

proof fn lemma_one_missing(accounts: Seq<Account>, outcomes: Seq<AccountFetch>, k: int)
    requires
        accounts.len() == outcomes.len(),
        0 <= k,
        k < outcomes.len() ==> outcomes[k] is MissingCredentials,
        forall|j: int| 0 <= j < outcomes.len() && j != k ==> #[trigger] outcomes[j] is Fetched,
    ensures
        refresh_errors(accounts, outcomes) == if k < outcomes.len() {
            seq!["No credentials for @"@ + accounts[k].handle@]
        } else {
            Seq::<Seq<char>>::empty()
        },
    decreases outcomes.len(),
{
    if outcomes.len() > 0 {
        let o = outcomes.drop_last();
        let a = accounts.drop_last();
        assert forall|j: int| 0 <= j < o.len() && j != k implies #[trigger] o[j] is Fetched by {
            assert(o[j] == outcomes[j]);
        }
        if k < o.len() {
            assert(o[k] == outcomes[k]);
            assert(a[k] == accounts[k]);
        }
        lemma_one_missing(a, o, k);
        assert(outcomes.last() == outcomes[outcomes.len() - 1]);
        assert(accounts.last() == accounts[accounts.len() - 1]);
        if k == outcomes.len() - 1 {
            assert(refresh_errors(accounts, outcomes) =~= seq![
                "No credentials for @"@ + accounts[k].handle@,
            ]);
        } else if k < outcomes.len() - 1 {
            assert(refresh_errors(accounts, outcomes) =~= refresh_errors(a, o));
        } else {
            assert(refresh_errors(accounts, outcomes) =~= refresh_errors(a, o));
        }
    }
}

proof fn lemma_all_missing(accounts: Seq<Account>, outcomes: Seq<AccountFetch>)
    requires
        accounts.len() == outcomes.len(),
        forall|k: int| 0 <= k < outcomes.len() ==> #[trigger] outcomes[k] is MissingCredentials,
    ensures
        fetched_posts(outcomes) == Seq::<Post>::empty(),
        refresh_errors(accounts, outcomes).len() == outcomes.len(),
    decreases outcomes.len(),
{
    if outcomes.len() > 0 {
        let o = outcomes.drop_last();
        assert forall|k: int| 0 <= k < o.len() implies #[trigger] o[k] is MissingCredentials by {
            assert(o[k] == outcomes[k]);
        }
        lemma_all_missing(accounts.drop_last(), o);
        assert(outcomes.last() == outcomes[outcomes.len() - 1]);
        assert(fetched_posts(outcomes) =~= Seq::<Post>::empty());
    } else {
        assert(fetched_posts(outcomes) =~= Seq::<Post>::empty());
    }
}

/// A refresh in which every account's timeline came back emits one result: the merged
/// timeline, ordered newest first, holding exactly the fetched posts, with posts created at
/// the same time in the order they were fetched.
pub proof fn law_refresh_all_fetched(accounts: Seq<Account>, outcomes: Seq<AccountFetch>)
    requires
        accounts.len() == outcomes.len(),
        forall|k: int| 0 <= k < outcomes.len() ==> #[trigger] outcomes[k] is Fetched,
    ensures
        refresh_emits(accounts, outcomes) == seq![
            Emitted::Refreshed(newest_first(fetched_posts(outcomes))),
        ],
        crate::timeline::is_newest_first(newest_first(fetched_posts(outcomes))),
        newest_first(fetched_posts(outcomes)).to_multiset() == fetched_posts(
            outcomes,
        ).to_multiset(),
        forall|t: i64|
            #[trigger] crate::timeline::created_at_time(newest_first(fetched_posts(outcomes)), t)
                == crate::timeline::created_at_time(fetched_posts(outcomes), t),
{
    lemma_all_fetched(accounts, outcomes);
    crate::timeline::law_newest_first(fetched_posts(outcomes));
}

/// A refresh in which one account has no credentials and every other account's timeline
/// came back, with at least one post, emits the merged timeline and then a status that
/// names the account without credentials.
pub proof fn law_refresh_one_missing(
    accounts: Seq<Account>,
    outcomes: Seq<AccountFetch>,
    k: int,
)
    requires
        accounts.len() == outcomes.len(),
        0 <= k < outcomes.len(),
        outcomes[k] is MissingCredentials,
        forall|j: int| 0 <= j < outcomes.len() && j != k ==> #[trigger] outcomes[j] is Fetched,
        fetched_posts(outcomes).len() > 0,
    ensures
        refresh_emits(accounts, outcomes) == seq![
            Emitted::Refreshed(newest_first(fetched_posts(outcomes))),
            Emitted::Status("Partial refresh: No credentials for @"@ + accounts[k].handle@),
        ],
{
    lemma_one_missing(accounts, outcomes, k);
    let errs = refresh_errors(accounts, outcomes);
    assert(joined(errs, sep()) == errs[0]);
    assert("Partial refresh: "@ + ("No credentials for @"@ + accounts[k].handle@)
        =~= "Partial refresh: No credentials for @"@ + accounts[k].handle@) by {
        reveal_strlit("Partial refresh: ");
        reveal_strlit("No credentials for @");
        reveal_strlit("Partial refresh: No credentials for @");
    }
}

/// A refresh of at least one account in which no account has credentials emits a single
/// error and no posts.
pub proof fn law_refresh_all_missing(accounts: Seq<Account>, outcomes: Seq<AccountFetch>)
    requires
        accounts.len() == outcomes.len(),
        outcomes.len() > 0,
        forall|k: int| 0 <= k < outcomes.len() ==> #[trigger] outcomes[k] is MissingCredentials,
    ensures
        refresh_emits(accounts, outcomes) == seq![
            Emitted::Error(joined(refresh_errors(accounts, outcomes), sep())),
        ],
        fetched_posts(outcomes).len() == 0,
{
    lemma_all_missing(accounts, outcomes);
}

} // verus!

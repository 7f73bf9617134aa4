use perch::account::{set_default_account, Account};
use perch::api::ApiError;
use perch::bluesky::{
    account_from_profile, plan_interaction, ProfileResponse, record_key_for, ActorRef, Author, FeedViewPost, PostRecord, PostView,
    RecordCall, RecordItem, RepostReason, ViewerState,
};
use perch::mastodon::{MastodonAccount, MastodonStatus};
use perch::network::Network;
use perch::post::Post;
use perch::reply_tree::build_reply_tree;
use perch::timeline::sort_newest_first;
use perch::worker::{
    apply_result, interaction_result, post_results, post_started, refresh_results,
    refresh_started, reply_target, AccountFetch, AsyncResult, Interaction, InteractionOutcome,
    PostOutcome,
};

fn post(network: Network, id: &str, created_at: i64) -> Post {
    let mut p = Post::new(network, id);
    p.created_at = created_at;
    p
}

fn reply(id: &str, parent: &str) -> Post {
    let mut p = post(Network::Bluesky, id, 0);
    p.reply_to_id = Some(parent.to_string());
    p
}

fn ids(posts: &[Post]) -> Vec<String> {
    posts.iter().map(|p| p.network_id.clone()).collect()
}

fn message(r: &AsyncResult) -> Option<String> {
    match r {
        AsyncResult::Error { message } => Some(format!("error: {}", message)),
        AsyncResult::Status { message } => Some(format!("status: {}", message)),
        _ => None,
    }
}

#[test]
fn reply_tree_of_root_without_replies_is_empty() {
    let root = post(Network::Mastodon, "1", 0);
    let tree = build_reply_tree(&root, &Vec::new());
    assert!(tree.is_empty());
}

#[test]
fn reply_tree_nests_replies_in_order() {
    let root = post(Network::Mastodon, "1", 0);
    let replies = vec![reply("2", "1"), reply("3", "2")];
    let tree = build_reply_tree(&root, &replies);
    let got: Vec<(String, usize)> =
        tree.iter().map(|r| (r.post.network_id.clone(), r.depth)).collect();
    assert_eq!(got, vec![("2".to_string(), 0), ("3".to_string(), 1)]);
}

#[test]
fn reply_tree_matches_root_by_path_or_native_id() {
    let mut root = post(Network::Bluesky, "abc", 0);
    root.uri = Some("at://did:plc:x/app.bsky.feed.post/abc".to_string());
    let mut by_path = reply("r1", "at://did:plc:x/app.bsky.feed.post/abc");
    by_path.uri = Some("at://did:plc:y/app.bsky.feed.post/r1".to_string());
    let by_id = reply("r2", "abc");
    let nested = reply("r3", "at://did:plc:y/app.bsky.feed.post/r1");
    let stray = reply("r4", "elsewhere");
    let tree = build_reply_tree(&root, &vec![by_path, by_id, nested, stray]);
    let got: Vec<(String, usize)> =
        tree.iter().map(|r| (r.post.network_id.clone(), r.depth)).collect();
    assert_eq!(
        got,
        vec![("r1".to_string(), 0), ("r3".to_string(), 1), ("r2".to_string(), 0)]
    );
}

#[test]
fn reply_tree_stops_on_a_cycle() {
    let root = post(Network::Mastodon, "1", 0);
    let replies = vec![reply("2", "1"), reply("3", "2"), reply("2", "3")];
    let tree = build_reply_tree(&root, &replies);
    assert!(tree.len() <= 1 + 3 * 3);
    assert_eq!(tree[0].post.network_id, "2");
}

#[test]
fn newest_first_keeps_fetch_order_on_ties() {
    let posts = vec![
        post(Network::Mastodon, "a", 10),
        post(Network::Mastodon, "b", 30),
        post(Network::Bluesky, "c", 10),
        post(Network::Bluesky, "d", 20),
    ];
    let sorted = sort_newest_first(posts);
    assert_eq!(ids(&sorted), vec!["b", "d", "a", "c"]);
}

#[test]
fn refresh_with_all_credentials_merges_newest_first() {
    let accounts = vec![
        Account::new_mastodon("alice", "https://m.social", "Alice"),
        Account::new_bluesky("bob.bsky.social", "Bob"),
    ];
    let outcomes = vec![
        AccountFetch::Fetched { posts: vec![post(Network::Mastodon, "m1", 5), post(Network::Mastodon, "m2", 1)] },
        AccountFetch::Fetched { posts: vec![post(Network::Bluesky, "b1", 5), post(Network::Bluesky, "b2", 9)] },
    ];
    let results = refresh_results(&accounts, outcomes);
    assert_eq!(results.len(), 1);
    match &results[0] {
        AsyncResult::TimelineRefreshed { posts } => {
            assert_eq!(ids(posts), vec!["b2", "m1", "b1", "m2"]);
        }
        _ => panic!("expected a refreshed timeline"),
    }
}

#[test]
fn refresh_with_one_account_missing_credentials_reports_it() {
    let accounts = vec![
        Account::new_mastodon("alice", "https://m.social", "Alice"),
        Account::new_bluesky("bob.bsky.social", "Bob"),
    ];
    let outcomes = vec![
        AccountFetch::Fetched { posts: vec![post(Network::Mastodon, "m1", 5)] },
        AccountFetch::MissingCredentials,
    ];
    let results = refresh_results(&accounts, outcomes);
    assert_eq!(results.len(), 2);
    match &results[0] {
        AsyncResult::TimelineRefreshed { posts } => assert_eq!(ids(posts), vec!["m1"]),
        _ => panic!("expected a refreshed timeline"),
    }
    assert_eq!(
        message(&results[1]),
        Some("status: Partial refresh: No credentials for @bob.bsky.social".to_string())
    );
}

#[test]
fn refresh_with_no_credentials_at_all_is_an_error() {
    let accounts = vec![
        Account::new_mastodon("alice", "https://m.social", "Alice"),
        Account::new_bluesky("bob.bsky.social", "Bob"),
    ];
    let outcomes = vec![AccountFetch::MissingCredentials, AccountFetch::MissingCredentials];
    let results = refresh_results(&accounts, outcomes);
    assert_eq!(results.len(), 1);
    assert_eq!(
        message(&results[0]),
        Some("error: No credentials for @alice; No credentials for @bob.bsky.social".to_string())
    );
}

#[test]
fn refresh_failures_carry_their_messages() {
    let accounts = vec![
        Account::new_mastodon("alice", "https://m.social", "Alice"),
        Account::new_bluesky("bob", "Bob"),
    ];
    let outcomes = vec![
        AccountFetch::CredentialError { message: "locked".to_string() },
        AccountFetch::Failed { message: "timeout".to_string() },
    ];
    let results = refresh_results(&accounts, outcomes);
    assert_eq!(
        message(&results[0]),
        Some("error: Auth error for @alice: locked; @bob: timeout".to_string())
    );
}

#[test]
fn refresh_of_accounts_that_return_nothing_is_an_empty_timeline() {
    let accounts = vec![Account::new_bluesky("bob", "Bob")];
    let results = refresh_results(&accounts, vec![AccountFetch::Fetched { posts: Vec::new() }]);
    assert_eq!(results.len(), 1);
    assert!(matches!(&results[0], AsyncResult::TimelineRefreshed { posts } if posts.is_empty()));
}

#[test]
fn refresh_without_accounts_stops_with_an_error() {
    let opening = refresh_started(&Vec::new());
    let texts: Vec<Option<String>> = opening.iter().map(message).collect();
    assert_eq!(
        texts,
        vec![
            Some("status: Refreshing...".to_string()),
            Some("error: No accounts configured".to_string())
        ]
    );
    let accounts = vec![Account::new_bluesky("bob", "Bob")];
    assert_eq!(refresh_started(&accounts).len(), 1);
}

#[test]
fn submission_with_some_failures_posts_the_rest_then_reports() {
    let accounts = vec![
        Account::new_mastodon("alice", "https://m.social", "Alice"),
        Account::new_bluesky("bob", "Bob"),
        Account::new_bluesky("carol", "Carol"),
    ];
    let outcomes = vec![
        PostOutcome::Posted { post: post(Network::Mastodon, "m9", 1) },
        PostOutcome::Failed { message: "boom".to_string() },
        PostOutcome::MissingCredentials,
    ];
    let results = post_results(&accounts, outcomes, false);
    assert_eq!(results.len(), 2);
    match &results[0] {
        AsyncResult::Posted { posts } => assert_eq!(ids(posts), vec!["m9"]),
        _ => panic!("expected the posted result first"),
    }
    assert_eq!(
        message(&results[1]),
        Some("error: Bluesky: boom; No credentials for Bluesky (@carol)".to_string())
    );
}

#[test]
fn submission_that_fails_everywhere_posts_nothing() {
    let accounts = vec![Account::new_mastodon("alice", "https://m.social", "Alice")];
    let outcomes = vec![PostOutcome::CredentialError { message: "denied".to_string() }];
    let results = post_results(&accounts, outcomes, true);
    assert_eq!(results.len(), 1);
    assert_eq!(message(&results[0]), Some("error: Auth error for Mastodon: denied".to_string()));
}

#[test]
fn submission_that_succeeds_everywhere_says_so() {
    let accounts = vec![Account::new_mastodon("alice", "https://m.social", "Alice")];
    let outcomes = vec![PostOutcome::Posted { post: post(Network::Mastodon, "m1", 1) }];
    let results = post_results(&accounts, outcomes, true);
    assert_eq!(results.len(), 2);
    assert_eq!(message(&results[1]), Some("status: Replied successfully!".to_string()));
    let plain = post_results(
        &accounts,
        vec![PostOutcome::Posted { post: post(Network::Mastodon, "m2", 1) }],
        false,
    );
    assert_eq!(message(&plain[1]), Some("status: Posted successfully!".to_string()));
}

#[test]
fn submission_start_counts_the_accounts() {
    assert_eq!(
        message(&post_started(12, true)),
        Some("status: Replying... (to 12 accounts)".to_string())
    );
    assert_eq!(
        message(&post_started(2, false)),
        Some("status: Posting... (to 2 accounts)".to_string())
    );
}

#[test]
fn replies_go_only_to_accounts_on_the_target_network() {
    let target = post(Network::Bluesky, "xyz", 0);
    let bsky = Account::new_bluesky("bob", "Bob");
    let masto = Account::new_mastodon("alice", "https://m.social", "Alice");
    assert_eq!(reply_target(&Some(target.clone()), &bsky), Some("xyz".to_string()));
    assert_eq!(reply_target(&Some(target), &masto), None);
    assert_eq!(reply_target(&None, &bsky), None);
}

#[test]
fn interaction_results_are_keyed_by_native_id() {
    let ok = interaction_result(
        Interaction::Like,
        "42".to_string(),
        InteractionOutcome::Done { outcome: Ok(()) },
    );
    assert!(matches!(ok, AsyncResult::Liked { ref post_id } if post_id == "42"));
    let undone = interaction_result(
        Interaction::Unrepost,
        "42".to_string(),
        InteractionOutcome::Done { outcome: Ok(()) },
    );
    assert!(matches!(undone, AsyncResult::Unreposted { ref post_id } if post_id == "42"));
    let failed = interaction_result(
        Interaction::Unlike,
        "42".to_string(),
        InteractionOutcome::Done { outcome: Err("gone".to_string()) },
    );
    assert_eq!(message(&failed), Some("error: Unlike failed: gone".to_string()));
    let no_creds =
        interaction_result(Interaction::Repost, "42".to_string(), InteractionOutcome::MissingCredentials);
    assert_eq!(message(&no_creds), Some("error: No credentials".to_string()));
    let unavailable = interaction_result(
        Interaction::Like,
        "42".to_string(),
        InteractionOutcome::Unavailable { message: "Bluesky login failed: bad".to_string() },
    );
    assert_eq!(message(&unavailable), Some("error: Bluesky login failed: bad".to_string()));
}

#[test]
fn liking_and_unliking_move_the_counter_by_one() {
    let mut posts = vec![post(Network::Mastodon, "1", 0), post(Network::Mastodon, "2", 0)];
    posts[1].like_count = 7;
    apply_result(&mut posts, &AsyncResult::Liked { post_id: "2".to_string() });
    assert!(posts[1].liked);
    assert_eq!(posts[1].like_count, 8);
    assert_eq!(posts[0].like_count, 0);
    apply_result(&mut posts, &AsyncResult::Unliked { post_id: "2".to_string() });
    assert!(!posts[1].liked);
    assert_eq!(posts[1].like_count, 7);
    apply_result(&mut posts, &AsyncResult::Unliked { post_id: "1".to_string() });
    assert_eq!(posts[0].like_count, 0);
    apply_result(&mut posts, &AsyncResult::Reposted { post_id: "1".to_string() });
    assert!(posts[0].reposted);
    assert_eq!(posts[0].repost_count, 1);
    apply_result(&mut posts, &AsyncResult::Unreposted { post_id: "1".to_string() });
    assert_eq!(posts[0].repost_count, 0);
    posts[0].like_count = u32::MAX;
    apply_result(&mut posts, &AsyncResult::Liked { post_id: "1".to_string() });
    assert_eq!(posts[0].like_count, u32::MAX);
}

#[test]
fn interactions_without_handles_fail_before_any_call() {
    let mut p = post(Network::Bluesky, "abc", 0);
    assert!(matches!(
        plan_interaction(Interaction::Like, &p),
        Err(ApiError::Precondition(ref m)) if m == "Post missing CID for like"
    ));
    p.cid = Some("bafy".to_string());
    assert!(matches!(
        plan_interaction(Interaction::Repost, &p),
        Err(ApiError::Precondition(ref m)) if m == "Post missing URI for repost"
    ));
    assert!(matches!(
        plan_interaction(Interaction::Unlike, &p),
        Err(ApiError::Precondition(ref m)) if m == "Post missing URI for unlike"
    ));
    assert!(matches!(plan_interaction(Interaction::Unrepost, &p), Err(ApiError::Precondition(_))));
    p.uri = Some("at://did:plc:x/app.bsky.feed.post/abc".to_string());
    match plan_interaction(Interaction::Like, &p) {
        Ok(RecordCall::Create { collection, subject }) => {
            assert_eq!(collection, "app.bsky.feed.like");
            assert_eq!(subject.cid, "bafy");
            assert_eq!(subject.uri, "at://did:plc:x/app.bsky.feed.post/abc");
        }
        _ => panic!("expected a record creation"),
    }
    match plan_interaction(Interaction::Unrepost, &p) {
        Ok(RecordCall::FindAndDelete { collection, subject_uri }) => {
            assert_eq!(collection, "app.bsky.feed.repost");
            assert_eq!(subject_uri, "at://did:plc:x/app.bsky.feed.post/abc");
        }
        _ => panic!("expected a find-and-delete"),
    }
}

#[test]
fn unlike_without_a_like_record_is_a_no_op() {
    let records = vec![RecordItem {
        uri: "at://did:plc:me/app.bsky.feed.like/3k2".to_string(),
        subject_uri: "at://did:plc:x/app.bsky.feed.post/other".to_string(),
    }];
    assert_eq!(record_key_for(&records, "at://did:plc:x/app.bsky.feed.post/abc"), None);
    assert_eq!(
        record_key_for(&records, "at://did:plc:x/app.bsky.feed.post/other"),
        Some("3k2".to_string())
    );
    let done = interaction_result(
        Interaction::Unlike,
        "abc".to_string(),
        InteractionOutcome::Done { outcome: Ok(()) },
    );
    assert!(matches!(done, AsyncResult::Unliked { .. }));
}

fn masto_account(username: &str, acct: &str, display_name: &str) -> MastodonAccount {
    MastodonAccount {
        id: "9".to_string(),
        username: username.to_string(),
        display_name: display_name.to_string(),
        avatar: format!("https://m.social/{}.png", username),
        acct: acct.to_string(),
    }
}

fn status(id: &str, content: &str, account: MastodonAccount) -> MastodonStatus {
    MastodonStatus {
        id: id.to_string(),
        created_at: "2024-01-01T00:00:00Z".to_string(),
        content: content.to_string(),
        url: None,
        account,
        reblog: None,
        favourites_count: 3,
        reblogs_count: 1,
        replies_count: 0,
        favourited: Some(true),
        reblogged: None,
        in_reply_to_id: None,
        media_attachments: Vec::new(),
    }
}

#[test]
fn mastodon_repost_is_unwrapped_to_the_original() {
    let original = status(
        "100",
        "<p>Hello &amp; <br>world</p>",
        masto_account("olga", "olga@other.social", "Olga"),
    );
    let mut wrapper = status("200", "", masto_account("rita", "", "Rita"));
    wrapper.reblog = Some(Box::new(original));
    let p = wrapper.into_post();
    assert_eq!(p.network_id, "100");
    assert_eq!(p.author_name, "Olga");
    assert_eq!(p.author_handle, "olga@other.social");
    assert!(p.is_repost);
    assert_eq!(p.repost_author, Some("Rita".to_string()));
    assert_eq!(p.content, "Hello & \nworld");
    assert_eq!(p.content_raw, Some("<p>Hello &amp; <br>world</p>".to_string()));
    assert_eq!(p.created_at, 1_704_067_200_000);
    assert!(p.liked);
    assert!(!p.reposted);
    assert_eq!(p.like_count, 3);
}

#[test]
fn mastodon_paragraphs_become_blank_lines() {
    let s = status("1", "<p>one</p><p>two<br />three</p>", masto_account("u", "", "U"));
    let p = s.into_post();
    assert_eq!(p.content, "one\n\ntwo\nthree");
    assert_eq!(p.author_handle, "u");
    assert!(!p.is_repost);
}

fn feed_item(reason: Option<RepostReason>) -> FeedViewPost {
    FeedViewPost {
        post: PostView {
            uri: "at://did:plc:olga/app.bsky.feed.post/3kabc".to_string(),
            cid: "bafyrei".to_string(),
            author: Author {
                did: "did:plc:olga".to_string(),
                handle: "olga.bsky.social".to_string(),
                display_name: None,
                avatar: None,
            },
            record: PostRecord {
                text: "hi there".to_string(),
                created_at: "not a date".to_string(),
                reply_parent: None,
            },
            reply_count: 2,
            repost_count: 4,
            like_count: 6,
            indexed_at: "2024-01-01T00:00:01.500Z".to_string(),
            embed: None,
            viewer: Some(ViewerState { like: Some("at://like".to_string()), repost: None }),
        },
        reason,
    }
}

#[test]
fn bluesky_repost_names_the_reposter() {
    let reason = RepostReason {
        reason_type: "app.bsky.feed.defs#reasonRepost".to_string(),
        by: ActorRef { did: "did:plc:rita".to_string(), handle: "rita.bsky.social".to_string(), display_name: None },
    };
    let p = feed_item(Some(reason)).into_post();
    assert!(p.is_repost);
    assert_eq!(p.repost_author, Some("rita.bsky.social".to_string()));
    assert_eq!(p.author_handle, "olga.bsky.social");
    assert_eq!(p.author_name, "");
    assert_eq!(p.network_id, "3kabc");
    assert_eq!(p.url, Some("https://bsky.app/profile/olga.bsky.social/post/3kabc".to_string()));
    assert_eq!(p.created_at, 1_704_067_201_500);
    assert!(p.liked && !p.reposted);
    assert_eq!(p.cid, Some("bafyrei".to_string()));
    assert_eq!(p.uri, Some("at://did:plc:olga/app.bsky.feed.post/3kabc".to_string()));
}

#[test]
fn bluesky_item_without_repost_reason_is_plain() {
    let p = feed_item(None).into_post();
    assert!(!p.is_repost);
    assert_eq!(p.repost_author, None);
    assert_eq!(p.content, "hi there");
}

#[test]
fn setting_a_default_clears_every_network() {
    let mut accounts = vec![
        Account::new_mastodon("a", "https://m.social", "A"),
        Account::new_bluesky("b", "B"),
        Account::new_bluesky("c", "C"),
    ];
    accounts[0].is_default = true;
    accounts[1].is_default = true;
    let id = accounts[2].id;
    set_default_account(&mut accounts, id);
    let flags: Vec<bool> = accounts.iter().map(|a| a.is_default).collect();
    assert_eq!(flags, vec![false, false, true]);
}

#[test]
fn bluesky_profile_becomes_an_account() {
    let named = account_from_profile(
        ProfileResponse {
            handle: "bob.bsky.social".to_string(),
            display_name: Some("Bob".to_string()),
            avatar: None,
        },
        "https://pds.example",
    );
    assert_eq!(named.display_name, "Bob");
    assert_eq!(named.server, "https://pds.example");
    assert!(!named.is_default);
    let unnamed = account_from_profile(
        ProfileResponse { handle: "eve.bsky.social".to_string(), display_name: None, avatar: None },
        "https://pds.example",
    );
    assert_eq!(unnamed.display_name, "eve.bsky.social");
    assert_eq!(unnamed.network, Network::Bluesky);
}

#[test]
fn created_bluesky_post_has_no_reply_target() {
    let created = perch::bluesky::CreateRecordResponse {
        uri: "at://did:plc:me/app.bsky.feed.post/3new".to_string(),
        cid: "bafynew".to_string(),
    };
    let p = perch::bluesky::created_post("hello", "did:plc:me", created);
    assert_eq!(p.network_id, "3new");
    assert_eq!(p.network, Network::Bluesky);
    assert_eq!(p.content, "hello");
    assert_eq!(p.author_handle, "did:plc:me");
    assert_eq!(p.reply_to_id, None);
    assert_eq!(p.url, None);
    assert!(p.media.is_empty());
    assert_eq!(p.cid, Some("bafynew".to_string()));
    assert_eq!(p.uri, Some("at://did:plc:me/app.bsky.feed.post/3new".to_string()));
    assert!(!p.is_repost);
    assert_eq!(p.like_count, 0);
}

#[test]
fn direct_replies_of_root_keep_input_order() {
    let mut root = post(Network::Bluesky, "abc", 0);
    root.uri = Some("at://r/app.bsky.feed.post/abc".to_string());
    let replies = vec![
        reply("x1", "abc"),
        reply("x2", "other"),
        reply("x3", "at://r/app.bsky.feed.post/abc"),
        reply("x4", "x1"),
        reply("x5", "abc"),
    ];
    let tree = build_reply_tree(&root, &replies);
    let top: Vec<String> =
        tree.iter().filter(|r| r.depth == 0).map(|r| r.post.network_id.clone()).collect();
    assert_eq!(top, vec!["x1", "x3", "x5"]);
}

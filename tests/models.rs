use perch::account::Account;
use perch::credentials::{
    delete_credentials, get_credentials, get_oauth_client, has_credentials,
    list_credential_keys, store_credentials, store_oauth_client, CredentialStore,
};
use perch::mastodon::{get_auth_url, plain_text, MastodonClient};
use perch::network::Network;
use perch::scheduled::ScheduledPostStatus;
use perch::update::{update_check, version_is_newer, version_parts, PackageManager, VersionCheck};
use perch::view_state::{FocusedPanel, TimelineFilter};

#[test]
fn network_names_parse_in_any_case() {
    assert_eq!(Network::from_str("BSKY"), Some(Network::Bluesky));
    assert_eq!(Network::from_str("Masto"), Some(Network::Mastodon));
    assert_eq!(Network::from_str("twitter"), None);
    assert_eq!(Network::Mastodon.name(), "Mastodon");
    assert_eq!(Network::Bluesky.color(), "#0085FF");
    assert_eq!(Network::all(), vec![Network::Mastodon, Network::Bluesky]);
}

#[test]
fn scheduled_status_names_round_trip() {
    assert_eq!(ScheduledPostStatus::from_str("Pending"), Some(ScheduledPostStatus::Pending));
    assert_eq!(ScheduledPostStatus::from_str("CANCELLED"), Some(ScheduledPostStatus::Cancelled));
    assert_eq!(ScheduledPostStatus::from_str("done"), None);
    assert_eq!(ScheduledPostStatus::Failed.as_str(), "failed");
}

#[test]
fn panels_and_filters_cycle() {
    assert_eq!(FocusedPanel::Timeline.next(), FocusedPanel::Detail);
    assert_eq!(FocusedPanel::Accounts.prev(), FocusedPanel::Detail);
    assert_eq!(TimelineFilter::Bluesky.next(), TimelineFilter::All);
    assert_eq!(TimelineFilter::Mastodon.to_network(), Some(Network::Mastodon));
    assert_eq!(TimelineFilter::All.name(), "All");
}

#[test]
fn keyring_key_names_network_and_id() {
    let mut a = Account::new_mastodon("alice", "https://m.social", "Alice");
    a.id = 0x0123_4567_89ab_cdef_0123_4567_89ab_cdef;
    assert_eq!(a.keyring_key(), "perch:mastodon:01234567-89ab-cdef-0123-456789abcdef");
}

#[test]
fn credentials_are_stored_per_account() {
    let mut store = CredentialStore::new();
    let a = Account::new_mastodon("alice", "https://m.social", "Alice");
    let b = Account::new_bluesky("bob", "Bob");
    assert!(!has_credentials(&store, &a));
    store_credentials(&mut store, &a, "token-1");
    store_credentials(&mut store, &b, "pw");
    store_credentials(&mut store, &a, "token-2");
    assert_eq!(get_credentials(&store, &a), Some("token-2".to_string()));
    assert_eq!(list_credential_keys(&store).len(), 2);
    delete_credentials(&mut store, &a);
    assert_eq!(get_credentials(&store, &a), None);
    assert_eq!(get_credentials(&store, &b), Some("pw".to_string()));
}

#[test]
fn oauth_clients_split_at_the_first_colon() {
    let mut store = CredentialStore::new();
    store_oauth_client(&mut store, "https://m.social", "id", "sec:ret");
    assert_eq!(
        get_oauth_client(&store, "https://m.social"),
        Some(("id".to_string(), "sec:ret".to_string()))
    );
    assert_eq!(get_oauth_client(&store, "https://other"), None);
    assert_eq!(list_credential_keys(&store), vec!["oauth:https://m.social:client".to_string()]);
}

#[test]
fn auth_url_encodes_the_redirect() {
    assert_eq!(
        get_auth_url("https://m.social//", "abc"),
        "https://m.social/oauth/authorize?client_id=abc&redirect_uri=urn%3Aietf%3Awg%3Aoauth%3A2.0%3Aoob&response_type=code&scope=read+write+follow"
    );
}

#[test]
fn mastodon_endpoints() {
    let c = MastodonClient::new("https://m.social/", "tok");
    assert_eq!(c.instance, "https://m.social");
    assert_eq!(c.timeline_url(50), "https://m.social/api/v1/timelines/home?limit=50");
    assert_eq!(c.status_url("7", "/favourite"), "https://m.social/api/v1/statuses/7/favourite");
    assert_eq!(c.bearer(), "Bearer tok");
}

#[test]
fn plain_text_decodes_and_strips() {
    assert_eq!(plain_text("a &amp; <em>c</em>"), "a & c");
    assert_eq!(plain_text("a &lt;b&gt; c"), "a  c");
    assert_eq!(plain_text("x<>y"), "x<>y");
}

#[test]
fn versions_compare_by_number() {
    assert!(version_is_newer("1.2.10", "1.2.9"));
    assert!(!version_is_newer("1.2", "1.2.0"));
    assert!(version_is_newer("2.0.0-beta", "1.9"));
    assert!(!version_is_newer("0.9.9", "1.0.0"));
    assert_eq!(version_parts("1.x.+3"), vec![1, 3]);
}

#[test]
fn update_check_outcomes() {
    assert!(matches!(update_check(None, "0.1.0"), VersionCheck::CheckFailed(ref m) if m == "Could not parse crates.io response"));
    assert!(matches!(update_check(Some("0.1.0".to_string()), "0.1.0"), VersionCheck::UpToDate));
    assert!(matches!(
        update_check(Some("0.2.0".to_string()), "0.1.0"),
        VersionCheck::UpdateAvailable { ref latest, ref current } if latest == "0.2.0" && current == "0.1.0"
    ));
    let pm = PackageManager::Homebrew { formula: "tap/perch".to_string() };
    assert_eq!(pm.update_command(), "brew upgrade tap/perch");
    assert_eq!(PackageManager::Cargo.name(), "cargo");
}

#[test]
fn full_handles_name_the_instance() {
    let a = Account::new_mastodon("alice", "https://m.social/", "Alice");
    assert_eq!(a.full_handle(), "@alice@m.social");
    let b = Account::new_mastodon("alice@else.where", "https://m.social", "Alice");
    assert_eq!(b.full_handle(), "alice@else.where");
    let c = Account::new_mastodon("carl", "http://local.host", "Carl");
    assert_eq!(c.full_handle(), "@carl@local.host");
    let d = Account::new_bluesky("bob.bsky.social", "Bob");
    assert_eq!(d.full_handle(), "@bob.bsky.social");
}

#[test]
fn content_is_cut_for_listings() {
    assert_eq!(perch::post::truncate_content("line one\nline two", 10), "line on...");
    assert_eq!(perch::post::truncate_content("short\ntext", 20), "short text");
    assert_eq!(perch::post::truncate_content("abcdef", 2), "...");
    let mut p = perch::post::Post::new(Network::Mastodon, "1");
    p.content = "héllo wörld".to_string();
    assert_eq!(p.preview(8), "héllo...");
}

#[test]
fn the_first_account_on_the_post_network_is_chosen() {
    let accounts = vec![
        Account::new_mastodon("a", "https://m.social", "A"),
        Account::new_bluesky("b", "B"),
        Account::new_bluesky("c", "C"),
    ];
    let p = perch::post::Post::new(Network::Bluesky, "x");
    assert_eq!(perch::account::find_account_for_post(&accounts, &p), Some(1));
    assert_eq!(perch::account::find_account_for_post(&accounts[..1].to_vec(), &p), None);
}

#[test]
fn numbers_parse_and_print_in_decimal() {
    assert_eq!(perch::update::parse_u32("42"), Some(42));
    assert_eq!(perch::update::parse_u32("+7"), Some(7));
    assert_eq!(perch::update::parse_u32("4294967295"), Some(u32::MAX));
    assert_eq!(perch::update::parse_u32("4294967296"), None);
    assert_eq!(perch::update::parse_u32("99999999999x"), None);
    assert_eq!(perch::update::parse_u32(""), None);
    assert_eq!(perch::update::parse_u32("+"), None);
    assert_eq!(perch::update::parse_u32("-1"), None);
    assert_eq!(perch::update::parse_u32("1a"), None);
    assert_eq!(perch::text::decimal(0), "0");
    assert_eq!(perch::text::decimal(1234567890), "1234567890");
    assert_eq!(perch::text::decimal(u64::MAX), "18446744073709551615");
}

#[test]
fn line_breaks_become_newlines() {
    assert_eq!(perch::mastodon::line_breaks("<p>a<br>b<br/>c<br />d</p><p>e</p>"), "<p>a\nb\nc\nd\n\ne</p>");
}

#[test]
fn mastodon_interaction_endpoints() {
    assert_eq!(perch::mastodon::interaction_suffix(perch::worker::Interaction::Like), "/favourite");
    assert_eq!(perch::mastodon::interaction_suffix(perch::worker::Interaction::Unlike), "/unfavourite");
    assert_eq!(perch::mastodon::interaction_suffix(perch::worker::Interaction::Repost), "/reblog");
    assert_eq!(perch::mastodon::interaction_suffix(perch::worker::Interaction::Unrepost), "/unreblog");
}

#[test]
fn bluesky_replies_need_both_handles() {
    let mut p = perch::post::Post::new(Network::Bluesky, "abc");
    assert!(matches!(
        perch::bluesky::plan_reply(&p),
        Err(perch::api::ApiError::Precondition(ref m)) if m == "Post missing CID for reply"
    ));
    p.cid = Some("bafy".to_string());
    assert!(matches!(
        perch::bluesky::plan_reply(&p),
        Err(perch::api::ApiError::Precondition(ref m)) if m == "Post missing URI for reply"
    ));
    p.uri = Some("at://x/app.bsky.feed.post/abc".to_string());
    match perch::bluesky::plan_reply(&p) {
        Ok(r) => {
            assert_eq!(r.uri, "at://x/app.bsky.feed.post/abc");
            assert_eq!(r.cid, "bafy");
        }
        Err(_) => panic!("expected a reference"),
    }
}

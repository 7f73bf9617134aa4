use vstd::prelude::*;
use vstd::string::StringSliceAdditionalSpecFns;

use crate::ids::{fresh_id, now_millis, parse_rfc3339_millis, rfc3339_millis};
use crate::network::Network;
use crate::post::{MediaAttachment, MediaType, Post};
use crate::text::{decode_entities, entities_decoded, erase_matches, regex_erased, replace, replaced};

verus! {

/// What a markup tag looks like: `<`, at least one character other than `>`, then `>`.
pub const TAG_PATTERN: &'static str = "<[^>]+>";

/// A Mastodon account as the API describes it.
pub struct MastodonAccount {
    pub id: String,
    pub username: String,
    pub display_name: String,
    pub avatar: String,
    /// `user` or `user@instance`; empty where the server left it out.
    pub acct: String,
}

/// A media attachment as the API describes it.
pub struct MastodonMedia {
    pub url: String,
    pub preview_url: Option<String>,
    /// `image`, `video`, `gifv`, `audio` or something else.
    pub media_type: String,
    pub description: Option<String>,
}

/// A status as the API describes it. A repost (boost) wraps the original in `reblog`.
pub struct MastodonStatus {
    pub id: String,
    /// RFC 3339 timestamp.
    pub created_at: String,
    /// HTML content.
    pub content: String,
    pub url: Option<String>,
    pub account: MastodonAccount,
    pub reblog: Option<Box<MastodonStatus>>,
    pub favourites_count: u32,
    pub reblogs_count: u32,
    pub replies_count: u32,
    pub favourited: Option<bool>,
    pub reblogged: Option<bool>,
    pub in_reply_to_id: Option<String>,
    pub media_attachments: Vec<MastodonMedia>,
}

/// The media type that a type name stands for.
pub open spec fn media_type_named(s: Seq<char>) -> MediaType {
    if s == "image"@ {
        MediaType::Image
    } else if s == "video"@ {
        MediaType::Video
    } else if s == "gifv"@ {
        MediaType::Gifv
    } else if s == "audio"@ {
        MediaType::Audio
    } else {
        MediaType::Unknown
    }
}

/// The unified attachment for an API attachment.
pub open spec fn media_of(m: MastodonMedia) -> MediaAttachment {
    MediaAttachment {
        url: m.url,
        preview_url: m.preview_url,
        media_type: media_type_named(m.media_type@),
        alt_text: m.description,
    }
}

/// Decoded HTML with line breaks and paragraph boundaries turned into newlines.
pub open spec fn line_breaks_of(d: Seq<char>) -> Seq<char> {
    replaced(
        replaced(replaced(replaced(d, "<br>"@, "\n"@), "<br/>"@, "\n"@), "<br />"@, "\n"@),
        "</p><p>"@,
        "\n\n"@,
    )
}

/// HTML content as plain text: entities decoded, line breaks and paragraph boundaries
/// turned into newlines, and every remaining tag removed.
pub open spec fn plain_text_of(html: Seq<char>) -> Seq<char> {
    let d = line_breaks_of(entities_decoded(html));
    match regex_erased(TAG_PATTERN@, d) {
        Some(t) => t,
        None => d,
    }
}

/// Turns `<br>`, `<br/>` and `<br />` into a newline and a paragraph boundary `</p><p>`
/// into a blank line, in decoded HTML.
pub fn line_breaks(decoded: &str) -> (r: String)
    ensures
        r@ == line_breaks_of(decoded@),
{
    proof {
        reveal_strlit("<br>");
        reveal_strlit("<br/>");
        reveal_strlit("<br />");
        reveal_strlit("</p><p>");
    }
    let d = replace(decoded, "<br>", "\n");
    let d = replace(d.as_str(), "<br/>", "\n");
    let d = replace(d.as_str(), "<br />", "\n");
    replace(d.as_str(), "</p><p>", "\n\n")
}

/// Turns HTML content into plain text.
pub fn plain_text(html: &str) -> (r: String)
    ensures
        r@ == plain_text_of(html@),
{
    let decoded = decode_entities(html);
    let d = line_breaks(decoded.as_str());
    match erase_matches(TAG_PATTERN, d.as_str()) {
        Some(t) => t,
        None => d,
    }
}

/// The media type for a type name.
pub fn media_type_from(s: &str) -> (r: MediaType)
    ensures
        r == media_type_named(s@),
{
    let s = String::from_str(s);
    if s == String::from_str("image") {
        MediaType::Image
    } else if s == String::from_str("video") {
        MediaType::Video
    } else if s == String::from_str("gifv") {
        MediaType::Gifv
    } else if s == String::from_str("audio") {
        MediaType::Audio
    } else {
        MediaType::Unknown
    }
}

/// The status whose content a status shows: the reposted original, all the way down.
pub open spec fn original_of(s: MastodonStatus) -> MastodonStatus
    decreases s,
{
    match s.reblog {
        Some(inner) => original_of(*inner),
        None => s,
    }
}

/// Holds when `p` carries what `o` says of its own post (all but the local id, and the
/// creation time where `o`'s timestamp does not parse).
pub open spec fn body_of(o: MastodonStatus, p: Post) -> bool {
    &&& p.network_id == o.id
    &&& p.network == Network::Mastodon
    &&& p.author_handle == if o.account.acct@.len() == 0 {
        o.account.username
    } else {
        o.account.acct
    }
    &&& p.author_name == o.account.display_name
    &&& p.author_avatar == Some(o.account.avatar)
    &&& p.content@ == plain_text_of(o.content@)
    &&& p.content_raw == Some(o.content)
    &&& (rfc3339_millis(o.created_at@) matches Some(t) ==> p.created_at == t)
    &&& p.url == o.url
    &&& p.like_count == o.favourites_count
    &&& p.repost_count == o.reblogs_count
    &&& p.reply_count == o.replies_count
    &&& p.liked == (o.favourited == Some(true))
    &&& p.reposted == (o.reblogged == Some(true))
    &&& p.reply_to_id == o.in_reply_to_id
    &&& p.media@ == o.media_attachments@.map_values(|m: MastodonMedia| media_of(m))
    &&& p.cid is None
    &&& p.uri is None
}

/// Holds when `p` is the unified post for the timeline item `s`: a repost is unwrapped to
/// the original's post, marked as a repost, with the reposting account's display name.
pub open spec fn post_of_status(s: MastodonStatus, p: Post) -> bool {
    &&& body_of(original_of(s), p)
    &&& p.is_repost == (s.reblog is Some)
    &&& p.repost_author == if s.reblog is Some {
        Some(s.account.display_name)
    } else {
        None
    }
}

fn convert_media(media: Vec<MastodonMedia>) -> (r: Vec<MediaAttachment>)
    ensures
        r@ == media@.map_values(|m: MastodonMedia| media_of(m)),
{
    let ghost input = media@;
    let mut rest = media;
    let mut out: Vec<MediaAttachment> = Vec::new();
    let mut i: usize = 0;
    assert(input.len() == rest.len());
    while rest.len() > 0
        invariant
            input.len() <= usize::MAX,
            i <= input.len(),
            rest@ == input.subrange(i as int, input.len() as int),
            out@ == input.subrange(0, i as int).map_values(|m: MastodonMedia| media_of(m)),
        decreases rest@.len(),
    {
        let m = rest.remove(0);
        let media_type = media_type_from(m.media_type.as_str());
        out.push(
            MediaAttachment {
                url: m.url,
                preview_url: m.preview_url,
                media_type,
                alt_text: m.description,
            },
        );
        proof {
            assert(input.subrange(0, i + 1).map_values(|m: MastodonMedia| media_of(m)) =~= out@);
        }
        i = i + 1;
        proof {
            assert(rest@ =~= input.subrange(i as int, input.len() as int));
        }
    }
    assert(input.subrange(0, i as int) =~= input);
    out
}

impl MastodonStatus {
    /// The unified post for this timeline item. A repost is unwrapped: the post is the
    /// original's, with the repost flag set and the reposting account's display name.
    pub fn into_post(self) -> (r: Post)
        ensures
            post_of_status(self, r),
        decreases self,
    {
        match self.reblog {
            Some(inner) => {
                let mut post = (*inner).into_post();
                post.is_repost = true;
                post.repost_author = Some(self.account.display_name);
                post
            },
            None => {
                let content = plain_text(self.content.as_str());
                let created_at = match parse_rfc3339_millis(self.created_at.as_str()) {
                    Some(t) => t,
                    None => now_millis(),
                };
                let author_handle = if self.account.acct.unicode_len() == 0 {
                    self.account.username
                } else {
                    self.account.acct
                };
                let liked = match self.favourited {
                    Some(b) => b,
                    None => false,
                };
                let reposted = match self.reblogged {
                    Some(b) => b,
                    None => false,
                };
                Post {
                    id: fresh_id(),
                    network_id: self.id,
                    network: Network::Mastodon,
                    author_handle,
                    author_name: self.account.display_name,
                    author_avatar: Some(self.account.avatar),
                    content,
                    content_raw: Some(self.content),
                    created_at,
                    url: self.url,
                    is_repost: false,
                    repost_author: None,
                    like_count: self.favourites_count,
                    repost_count: self.reblogs_count,
                    reply_count: self.replies_count,
                    liked,
                    reposted,
                    reply_to_id: self.in_reply_to_id,
                    media: convert_media(self.media_attachments),
                    cid: None,
                    uri: None,
                }
            },
        }
    }
}

/// A timeline item in which account R reposts a post of account O becomes a post by O,
/// marked as a repost, naming R's display name, with O's content as plain text.
pub proof fn law_repost_unwrapped(s: MastodonStatus, p: Post)
    requires
        s.reblog matches Some(inner) && inner.reblog is None,
        post_of_status(s, p),
    ensures
        p.author_name == s.reblog.unwrap().account.display_name,
        p.author_handle == (if s.reblog.unwrap().account.acct@.len() == 0 {
            s.reblog.unwrap().account.username
        } else {
            s.reblog.unwrap().account.acct
        }),
        p.is_repost,
        p.repost_author == Some(s.account.display_name),
        p.content@ == plain_text_of(s.reblog.unwrap().content@),
        p.network_id == s.reblog.unwrap().id,
{
    let inner = *s.reblog.unwrap();
    assert(original_of(s) == original_of(inner));
}

} // verus!

verus! {

/// The address to which Mastodon redirects after an out-of-band authorization.
pub const OOB_REDIRECT: &'static str = "urn:ietf:wg:oauth:2.0:oob";

/// The credentials of an OAuth application registered with an instance.
pub struct OAuthApp {
    /// OAuth client ID.
    pub client_id: String,
    /// OAuth client secret.
    pub client_secret: String,
}

/// An OAuth access token.
pub struct OAuthToken {
    /// Access token for API requests.
    pub access_token: String,
    /// Token type (usually `Bearer`).
    pub token_type: String,
}

/// The page on `instance` where a user authorizes the application `client_id`.
pub open spec fn auth_url_of(instance: Seq<char>, client_id: Seq<char>) -> Seq<char> {
    crate::text::trim_slashes_of(instance) + "/oauth/authorize?client_id="@ + client_id
        + "&redirect_uri="@ + crate::text::percent_encoded(OOB_REDIRECT.spec_bytes())
        + "&response_type=code&scope=read+write+follow"@
}

/// The page on `instance` where a user authorizes the application `client_id`.
pub fn get_auth_url(instance: &str, client_id: &str) -> (r: String)
    ensures
        r@ == auth_url_of(instance@, client_id@),
{
    let mut out = crate::text::trim_trailing_slashes(instance);
    out.append("/oauth/authorize?client_id=");
    out.append(client_id);
    out.append("&redirect_uri=");
    let enc = crate::text::url_encode(OOB_REDIRECT);
    out.append(enc.as_str());
    out.append("&response_type=code&scope=read+write+follow");
    out
}

/// The status endpoint suffix of an interaction.
pub open spec fn interaction_suffix_of(kind: crate::worker::Interaction) -> Seq<char> {
    match kind {
        crate::worker::Interaction::Like => "/favourite"@,
        crate::worker::Interaction::Unlike => "/unfavourite"@,
        crate::worker::Interaction::Repost => "/reblog"@,
        crate::worker::Interaction::Unrepost => "/unreblog"@,
    }
}

/// The status endpoint suffix of an interaction.
pub fn interaction_suffix(kind: crate::worker::Interaction) -> (r: &'static str)
    ensures
        r@ == interaction_suffix_of(kind),
{
    match kind {
        crate::worker::Interaction::Like => "/favourite",
        crate::worker::Interaction::Unlike => "/unfavourite",
        crate::worker::Interaction::Repost => "/reblog",
        crate::worker::Interaction::Unrepost => "/unreblog",
    }
}

/// The endpoints of one Mastodon instance, used with one access token.
pub struct MastodonClient {
    /// Instance URL, without trailing `/`.
    pub instance: String,
    /// Bearer token.
    pub access_token: String,
}

impl MastodonClient {
    /// A client for `instance` (trailing `/` dropped) with the bearer token `access_token`.
    pub fn new(instance: &str, access_token: &str) -> (r: MastodonClient)
        ensures
            r.instance@ == crate::text::trim_slashes_of(instance@),
            r.access_token@ == access_token@,
    {
        MastodonClient {
            instance: crate::text::trim_trailing_slashes(instance),
            access_token: String::from_str(access_token),
        }
    }

    /// The URL of an API endpoint: the instance, `/api/v1`, then the endpoint.
    pub fn api_url(&self, endpoint: &str) -> (r: String)
        ensures
            r@ == self.instance@ + "/api/v1"@ + endpoint@,
    {
        let mut out = self.instance.clone();
        out.append("/api/v1");
        out.append(endpoint);
        out
    }

    /// The value of the `Authorization` header that every call sends.
    pub fn bearer(&self) -> (r: String)
        ensures
            r@ == "Bearer "@ + self.access_token@,
    {
        crate::text::concat2("Bearer ", self.access_token.as_str())
    }

    /// The home timeline endpoint, `limit` posts long.
    pub fn timeline_url(&self, limit: u64) -> (r: String)
        ensures
            r@ == self.instance@ + "/api/v1"@ + "/timelines/home?limit="@
                + crate::text::decimal_of(limit as nat),
    {
        let n = crate::text::decimal(limit);
        let endpoint = crate::text::concat2("/timelines/home?limit=", n.as_str());
        self.api_url(endpoint.as_str())
    }

    /// The endpoint of a status, with a suffix (`/context`, `/favourite`, `/reblog`, ...).
    pub fn status_url(&self, status_id: &str, suffix: &str) -> (r: String)
        ensures
            r@ == self.instance@ + "/api/v1"@ + "/statuses/"@ + status_id@ + suffix@,
    {
        let mut endpoint = String::from_str("/statuses/");
        endpoint.append(status_id);
        endpoint.append(suffix);
        self.api_url(endpoint.as_str())
    }
}

/// The account that verified credentials describe, on `instance`: the default one.
pub fn account_from_credentials(a: MastodonAccount, instance: &str) -> (r: crate::account::Account)
    ensures
        r.network == Network::Mastodon,
        r.display_name == a.display_name,
        r.handle == a.username,
        r.server@ == instance@,
        r.is_default,
        r.avatar_url == Some(a.avatar),
        r.last_used_at is None,
{
    crate::account::Account {
        id: fresh_id(),
        network: Network::Mastodon,
        display_name: a.display_name,
        handle: a.username,
        server: String::from_str(instance),
        is_default: true,
        avatar_url: Some(a.avatar),
        created_at: now_millis(),
        last_used_at: None,
    }
}

} // verus!

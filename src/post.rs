use vstd::prelude::*;

use crate::ids::{fresh_id, now_millis};
use crate::network::Network;
use crate::text::{replace, replaced};

verus! {

/// The kind of a media attachment.
#[derive(Debug, Clone, Copy, PartialEq, Eq, Structural)]
pub enum MediaType {
    /// Image (JPEG, PNG, GIF, WebP).
    Image,
    /// Video (MP4, WebM).
    Video,
    /// Animated GIF served as video.
    Gifv,
    /// Audio file.
    Audio,
    /// Unknown or unsupported media type.
    Unknown,
}

/// A media attachment of a post.
#[derive(Debug)]
pub struct MediaAttachment {
    /// Media URL.
    pub url: String,
    /// Preview/thumbnail URL.
    pub preview_url: Option<String>,
    /// Media type.
    pub media_type: MediaType,
    /// Alt text description.
    pub alt_text: Option<String>,
}

impl Clone for MediaAttachment {
    fn clone(&self) -> (r: Self)
        ensures
            r == *self,
    {
        MediaAttachment {
            url: self.url.clone(),
            preview_url: self.preview_url.clone(),
            media_type: self.media_type,
            alt_text: self.alt_text.clone(),
        }
    }
}

/// A post, in the one model shared by every network.
#[derive(Debug)]
pub struct Post {
    /// Local identifier (a random UUID, as its 128-bit value).
    pub id: u128,
    /// The network's own identifier of the post.
    pub network_id: String,
    /// The network the post comes from.
    pub network: Network,
    /// Author handle.
    pub author_handle: String,
    /// Author display name.
    pub author_name: String,
    /// Author avatar URL.
    pub author_avatar: Option<String>,
    /// Plain-text content.
    pub content: String,
    /// The original markup, where the network sends markup.
    pub content_raw: Option<String>,
    /// Creation time, in milliseconds since the Unix epoch.
    pub created_at: i64,
    /// Permalink.
    pub url: Option<String>,
    /// Whether this entry is a repost of someone else's post.
    pub is_repost: bool,
    /// Display name of the account that reposted it.
    pub repost_author: Option<String>,
    /// Number of likes.
    pub like_count: u32,
    /// Number of reposts.
    pub repost_count: u32,
    /// Number of replies.
    pub reply_count: u32,
    /// Whether the viewer has liked it.
    pub liked: bool,
    /// Whether the viewer has reposted it.
    pub reposted: bool,
    /// What it replies to: a native id or a resource path, depending on the network.
    pub reply_to_id: Option<String>,
    /// Media attachments.
    pub media: Vec<MediaAttachment>,
    /// Content hash of the record (Bluesky), needed to like or repost it.
    pub cid: Option<String>,
    /// Resource path of the record (Bluesky), needed to like, repost or unlike it.
    pub uri: Option<String>,
}

impl Post {
    /// Holds when `o` carries the same values as `self` in every field.
    pub open spec fn same_as(&self, o: &Post) -> bool {
        &&& self.id == o.id
        &&& self.network_id == o.network_id
        &&& self.network == o.network
        &&& self.author_handle == o.author_handle
        &&& self.author_name == o.author_name
        &&& self.author_avatar == o.author_avatar
        &&& self.content == o.content
        &&& self.content_raw == o.content_raw
        &&& self.created_at == o.created_at
        &&& self.url == o.url
        &&& self.is_repost == o.is_repost
        &&& self.repost_author == o.repost_author
        &&& self.like_count == o.like_count
        &&& self.repost_count == o.repost_count
        &&& self.reply_count == o.reply_count
        &&& self.liked == o.liked
        &&& self.reposted == o.reposted
        &&& self.reply_to_id == o.reply_to_id
        &&& self.media@ == o.media@
        &&& self.cid == o.cid
        &&& self.uri == o.uri
    }

    /// A bare post of a network: empty texts, zero counters, no flags, no media.
    /// The local id is fresh and the creation time is now.
    pub fn new(network: Network, network_id: &str) -> (r: Post)
        ensures
            r.network == network,
            r.network_id@ == network_id@,
            r.author_handle@.len() == 0,
            r.author_name@.len() == 0,
            r.author_avatar is None,
            r.content@.len() == 0,
            r.content_raw is None,
            r.url is None,
            !r.is_repost,
            r.repost_author is None,
            r.like_count == 0 && r.repost_count == 0 && r.reply_count == 0,
            !r.liked && !r.reposted,
            r.reply_to_id is None,
            r.media@.len() == 0,
            r.cid is None,
            r.uri is None,
    {
        Post {
            id: fresh_id(),
            network_id: String::from_str(network_id),
            network,
            author_handle: String::new(),
            author_name: String::new(),
            author_avatar: None,
            content: String::new(),
            content_raw: None,
            created_at: now_millis(),
            url: None,
            is_repost: false,
            repost_author: None,
            like_count: 0,
            repost_count: 0,
            reply_count: 0,
            liked: false,
            reposted: false,
            reply_to_id: None,
            media: Vec::new(),
            cid: None,
            uri: None,
        }
    }
}

/// Content on one line (line breaks become spaces), cut to `max_len` characters: where it is
/// longer, its first `max_len - 3` characters (none where `max_len < 3`) followed by `...`.
pub open spec fn truncated_of(content: Seq<char>, max_len: nat) -> Seq<char> {
    let line = replaced(content, "\n"@, " "@);
    if line.len() <= max_len {
        line
    } else {
        line.subrange(0, if max_len >= 3 { max_len - 3 } else { 0 }) + "..."@
    }
}

/// Shortens content for a one-line listing.
pub fn truncate_content(content: &str, max_len: usize) -> (r: String)
    ensures
        r@ == truncated_of(content@, max_len as nat),
{
    proof {
        reveal_strlit("\n");
    }
    let line = replace(content, "\n", " ");
    let n = line.unicode_len();
    if n <= max_len {
        line
    } else {
        let keep = if max_len >= 3 {
            max_len - 3
        } else {
            0
        };
        let mut out = String::from_str(line.as_str().substring_char(0, keep));
        out.append("...");
        out
    }
}

impl Post {
    /// A one-line preview of the content, at most `max_len` characters long where
    /// `max_len >= 3`.
    pub fn preview(&self, max_len: usize) -> (r: String)
        ensures
            r@ == truncated_of(self.content@, max_len as nat),
    {
        truncate_content(self.content.as_str(), max_len)
    }
}

impl Clone for Post {
    fn clone(&self) -> (r: Self)
        ensures
            r.same_as(self),
    {
        let media = self.media.clone();
        assert(media@ =~= self.media@);
        Post {
            id: self.id,
            network_id: self.network_id.clone(),
            network: self.network,
            author_handle: self.author_handle.clone(),
            author_name: self.author_name.clone(),
            author_avatar: self.author_avatar.clone(),
            content: self.content.clone(),
            content_raw: self.content_raw.clone(),
            created_at: self.created_at,
            url: self.url.clone(),
            is_repost: self.is_repost,
            repost_author: self.repost_author.clone(),
            like_count: self.like_count,
            repost_count: self.repost_count,
            reply_count: self.reply_count,
            liked: self.liked,
            reposted: self.reposted,
            reply_to_id: self.reply_to_id.clone(),
            media,
            cid: self.cid.clone(),
            uri: self.uri.clone(),
        }
    }
}

} // verus!

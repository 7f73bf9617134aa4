use vstd::prelude::*;

use crate::api::ApiError;
use crate::ids::{fresh_id, now_millis, parse_rfc3339_millis, rfc3339_millis};
use crate::network::Network;
use crate::post::{MediaAttachment, MediaType, Post};
use crate::text::{last_segment, last_segment_of, trim_slashes_of, trim_trailing_slashes};
use crate::worker::Interaction;

verus! {

/// The reason type that marks a timeline item as a repost.
pub const REASON_REPOST: &'static str = "app.bsky.feed.defs#reasonRepost";

/// The collection of like records.
pub const LIKE_COLLECTION: &'static str = "app.bsky.feed.like";

/// The collection of repost records.
pub const REPOST_COLLECTION: &'static str = "app.bsky.feed.repost";

/// The collection of post records.
pub const POST_COLLECTION: &'static str = "app.bsky.feed.post";

/// An account reference.
pub struct ActorRef {
    pub did: String,
    pub handle: String,
    pub display_name: Option<String>,
}

/// The author of a post.
pub struct Author {
    pub did: String,
    pub handle: String,
    pub display_name: Option<String>,
    pub avatar: Option<String>,
}

/// The record of a post.
pub struct PostRecord {
    pub text: String,
    /// RFC 3339 timestamp.
    pub created_at: String,
    /// Resource path of the parent, where the post is a reply.
    pub reply_parent: Option<String>,
}

/// An embedded image.
pub struct EmbedImage {
    pub thumb: String,
    pub fullsize: String,
    pub alt: Option<String>,
}

/// Embedded content.
pub struct Embed {
    pub embed_type: String,
    pub images: Option<Vec<EmbedImage>>,
}

/// What the viewer has done to a post: the paths of their like and repost records.
pub struct ViewerState {
    pub like: Option<String>,
    pub repost: Option<String>,
}

/// A post as the API describes it.
pub struct PostView {
    /// Resource path (`at://did/collection/rkey`).
    pub uri: String,
    /// Content hash.
    pub cid: String,
    pub author: Author,
    pub record: PostRecord,
    pub reply_count: u32,
    pub repost_count: u32,
    pub like_count: u32,
    /// RFC 3339 timestamp of indexing.
    pub indexed_at: String,
    pub embed: Option<Embed>,
    pub viewer: Option<ViewerState>,
}

/// Why a post is in a timeline, where it is not there on its own account.
pub struct RepostReason {
    pub reason_type: String,
    pub by: ActorRef,
}

/// A timeline item.
pub struct FeedViewPost {
    pub post: PostView,
    pub reason: Option<RepostReason>,
}

/// A profile as the API describes it.
pub struct ProfileResponse {
    pub handle: String,
    pub display_name: Option<String>,
    pub avatar: Option<String>,
}

/// The answer to a session login.
pub struct CreateSessionResponse {
    pub access_jwt: String,
    pub did: String,
    pub handle: String,
}

/// The answer to a record creation: the new record's path and hash.
pub struct CreateRecordResponse {
    pub uri: String,
    pub cid: String,
}

/// One of the viewer's own records, with the path of the post it refers to.
pub struct RecordItem {
    /// The record's own path; its last segment is the key to delete it by.
    pub uri: String,
    /// The path of the post the record refers to.
    pub subject_uri: String,
}

/// A record's reference to a post.
pub struct RecordRef {
    pub uri: String,
    pub cid: String,
}

/// A Bluesky session on one PDS.
pub struct BlueskyClient {
    /// PDS URL, without trailing `/`.
    pub pds_url: String,
    pub access_jwt: String,
    /// The stable account identifier that writes are scoped to.
    pub did: String,
}

impl BlueskyClient {
    /// A client from existing credentials.
    pub fn new(pds_url: &str, access_jwt: &str, did: &str) -> (r: BlueskyClient)
        ensures
            r.pds_url@ == pds_url@,
            r.access_jwt@ == access_jwt@,
            r.did@ == did@,
    {
        BlueskyClient {
            pds_url: String::from_str(pds_url),
            access_jwt: String::from_str(access_jwt),
            did: String::from_str(did),
        }
    }

    /// The client that a login on `pds_url` opened: its token and account identifier.
    pub fn from_session(pds_url: &str, session: CreateSessionResponse) -> (r: BlueskyClient)
        ensures
            r.pds_url@ == trim_slashes_of(pds_url@),
            r.access_jwt == session.access_jwt,
            r.did == session.did,
    {
        BlueskyClient {
            pds_url: trim_trailing_slashes(pds_url),
            access_jwt: session.access_jwt,
            did: session.did,
        }
    }

    /// The URL of an XRPC method on the PDS.
    pub fn xrpc_url(&self, method: &str) -> (r: String)
        ensures
            r@ == self.pds_url@ + "/xrpc/"@ + method@,
    {
        let mut out = self.pds_url.clone();
        out.append("/xrpc/");
        out.append(method);
        out
    }

    /// The value of the `Authorization` header.
    pub fn bearer(&self) -> (r: String)
        ensures
            r@ == "Bearer "@ + self.access_jwt@,
    {
        crate::text::concat2("Bearer ", self.access_jwt.as_str())
    }
}

/// The unified attachment for an embedded image.
pub open spec fn image_media(img: EmbedImage) -> MediaAttachment {
    MediaAttachment {
        url: img.fullsize,
        preview_url: None,
        media_type: MediaType::Image,
        alt_text: img.alt,
    }
}

/// The attachments of a post: its embedded images, if any.
pub open spec fn media_of_view(v: PostView) -> Seq<MediaAttachment> {
    match v.embed {
        Some(e) => match e.images {
            Some(imgs) => imgs@.map_values(|i: EmbedImage| image_media(i)),
            None => seq![],
        },
        None => seq![],
    }
}

/// The name under which a repost is shown: the reposter's display name, else their handle.
pub open spec fn reposter_name(f: FeedViewPost) -> Option<Seq<char>> {
    match f.reason {
        Some(r) => if r.reason_type@ == REASON_REPOST@ {
            Some(
                match r.by.display_name {
                    Some(n) => n@,
                    None => r.by.handle@,
                },
            )
        } else {
            None
        },
        None => None,
    }
}

/// Holds when `p` carries what the API says of the post `v` (all but the local id, the
/// repost marks, and the creation time where neither timestamp parses).
pub open spec fn body_of_view(v: PostView, p: Post) -> bool {
    &&& p.network_id@ == last_segment_of(v.uri@)
    &&& p.network == Network::Bluesky
    &&& p.author_handle == v.author.handle
    &&& p.author_name@ == match v.author.display_name {
        Some(n) => n@,
        None => Seq::<char>::empty(),
    }
    &&& p.author_avatar == v.author.avatar
    &&& p.content == v.record.text
    &&& p.content_raw is None
    &&& (rfc3339_millis(v.record.created_at@) matches Some(t) ==> p.created_at == t)
    &&& (rfc3339_millis(v.record.created_at@) is None ==> (rfc3339_millis(v.indexed_at@) matches Some(
        t,
    ) ==> p.created_at == t))
    &&& p.url matches Some(u) && u@ == "https://bsky.app/profile/"@ + v.author.handle@ + "/post/"@
        + last_segment_of(v.uri@)
    &&& p.like_count == v.like_count
    &&& p.repost_count == v.repost_count
    &&& p.reply_count == v.reply_count
    &&& p.liked == (v.viewer matches Some(s) && s.like is Some)
    &&& p.reposted == (v.viewer matches Some(s) && s.repost is Some)
    &&& p.reply_to_id == v.record.reply_parent
    &&& p.media@ == media_of_view(v)
    &&& p.cid == Some(v.cid)
    &&& p.uri == Some(v.uri)
}

/// Holds when `p` is the unified post for the timeline item `f`.
pub open spec fn post_of_feed_item(f: FeedViewPost, p: Post) -> bool {
    &&& body_of_view(f.post, p)
    &&& p.is_repost == (reposter_name(f) is Some)
    &&& match reposter_name(f) {
        Some(n) => p.repost_author matches Some(a) && a@ == n,
        None => p.repost_author is None,
    }
}

fn convert_images(images: Vec<EmbedImage>) -> (r: Vec<MediaAttachment>)
    ensures
        r@ == images@.map_values(|i: EmbedImage| image_media(i)),
{
    let ghost input = images@;
    let mut rest = images;
    let mut out: Vec<MediaAttachment> = Vec::new();
    let mut i: usize = 0;
    assert(input.len() == rest.len());
    while rest.len() > 0
        invariant
            input.len() <= usize::MAX,
            i <= input.len(),
            rest@ == input.subrange(i as int, input.len() as int),
            out@ == input.subrange(0, i as int).map_values(|m: EmbedImage| image_media(m)),
        decreases rest@.len(),
    {
        let m = rest.remove(0);
        out.push(
            MediaAttachment { url: m.fullsize, preview_url: None, media_type: MediaType::Image, alt_text: m.alt },
        );
        proof {
            assert(input.subrange(0, i + 1).map_values(|m: EmbedImage| image_media(m)) =~= out@);
        }
        i = i + 1;
        proof {
            assert(rest@ =~= input.subrange(i as int, input.len() as int));
        }
    }
    assert(input.subrange(0, i as int) =~= input);
    out
}

impl PostView {
    /// The unified post for this post, not marked as a repost. It carries both the content
    /// hash and the resource path, which later interactions need.
    pub fn into_post(self) -> (r: Post)
        ensures
            body_of_view(self, r),
            !r.is_repost,
            r.repost_author is None,
            r.cid is Some && r.uri is Some,
    {
        let ghost me = self;
        let created_at = match parse_rfc3339_millis(self.record.created_at.as_str()) {
            Some(t) => t,
            None => match parse_rfc3339_millis(self.indexed_at.as_str()) {
                Some(t) => t,
                None => now_millis(),
            },
        };
        let rkey = last_segment(self.uri.as_str());
        let mut url = String::from_str("https://bsky.app/profile/");
        url.append(self.author.handle.as_str());
        url.append("/post/");
        url.append(rkey.as_str());
        let (liked, reposted) = match &self.viewer {
            Some(v) => (v.like.is_some(), v.repost.is_some()),
            None => (false, false),
        };
        let media = match self.embed {
            Some(e) => match e.images {
                Some(imgs) => convert_images(imgs),
                None => Vec::new(),
            },
            None => Vec::new(),
        };
        let author_name = match self.author.display_name {
            Some(n) => n,
            None => String::new(),
        };
        let r = Post {
            id: fresh_id(),
            network_id: rkey,
            network: Network::Bluesky,
            author_handle: self.author.handle,
            author_name,
            author_avatar: self.author.avatar,
            content: self.record.text,
            content_raw: None,
            created_at,
            url: Some(url),
            is_repost: false,
            repost_author: None,
            like_count: self.like_count,
            repost_count: self.repost_count,
            reply_count: self.reply_count,
            liked,
            reposted,
            reply_to_id: self.record.reply_parent,
            media,
            cid: Some(self.cid),
            uri: Some(self.uri),
        };
        assert(r.media@ == media_of_view(me));
        r
    }
}

impl FeedViewPost {
    /// The unified post for this timeline item; a repost is marked as one, with the
    /// reposter's display name (or handle).
    pub fn into_post(self) -> (r: Post)
        ensures
            post_of_feed_item(self, r),
            r.cid is Some && r.uri is Some,
    {
        let repost_author = match &self.reason {
            Some(reason) => {
                if reason.reason_type == String::from_str(REASON_REPOST) {
                    match &reason.by.display_name {
                        Some(n) => Some(n.clone()),
                        None => Some(reason.by.handle.clone()),
                    }
                } else {
                    None
                }
            },
            None => None,
        };
        let mut post = self.post.into_post();
        post.is_repost = repost_author.is_some();
        post.repost_author = repost_author;
        post
    }
}

/// The account that a profile describes, on the PDS at `pds_url`: shown under its display
/// name, or its handle where it has none.
pub fn account_from_profile(profile: ProfileResponse, pds_url: &str) -> (r: crate::account::Account)
    ensures
        r.network == Network::Bluesky,
        r.handle == profile.handle,
        r.display_name@ == match profile.display_name {
            Some(n) => n@,
            None => profile.handle@,
        },
        r.server@ == pds_url@,
        !r.is_default,
        r.avatar_url == profile.avatar,
        r.last_used_at is None,
{
    let display_name = match profile.display_name {
        Some(n) => n,
        None => profile.handle.clone(),
    };
    crate::account::Account {
        id: fresh_id(),
        network: Network::Bluesky,
        display_name,
        handle: profile.handle,
        server: String::from_str(pds_url),
        is_default: false,
        avatar_url: profile.avatar,
        created_at: now_millis(),
        last_used_at: None,
    }
}

/// The post that a successful record creation stands for: the text as sent, authored by
/// the session's account, with the new record's hash and path.
pub fn created_post(content: &str, did: &str, created: CreateRecordResponse) -> (r: Post)
    ensures
        r.network == Network::Bluesky,
        r.network_id@ == last_segment_of(created.uri@),
        r.author_handle@ == did@,
        r.content@ == content@,
        r.cid == Some(created.cid),
        r.uri == Some(created.uri),
        !r.is_repost && !r.liked && !r.reposted,
        r.like_count == 0 && r.repost_count == 0 && r.reply_count == 0,
        r.reply_to_id is None,
        r.url is None,
        r.media@.len() == 0,
        r.author_name@.len() == 0,
        r.author_avatar is None,
        r.content_raw is None,
        r.repost_author is None,
{
    let mut post = Post::new(Network::Bluesky, last_segment(created.uri.as_str()).as_str());
    post.author_handle = String::from_str(did);
    post.content = String::from_str(content);
    post.cid = Some(created.cid);
    post.uri = Some(created.uri);
    post
}

/// A planned write against the viewer's own repository.
pub enum RecordCall {
    /// Create a record in `collection` that refers to the post `subject`.
    Create { collection: String, subject: RecordRef },
    /// Find the viewer's record in `collection` that refers to the post at `subject_uri`,
    /// and delete it.
    FindAndDelete { collection: String, subject_uri: String },
}

/// What an interaction on `p` plans, or the precondition error it fails with: likes and
/// reposts need both the content hash and the resource path; taking one back needs the path.
pub open spec fn interaction_plan_ok(kind: Interaction, p: Post) -> bool {
    match kind {
        Interaction::Like | Interaction::Repost => p.cid is Some && p.uri is Some,
        Interaction::Unlike | Interaction::Unrepost => p.uri is Some,
    }
}

/// The precondition error's text for an interaction on `p` that lacks a handle it needs:
/// the content hash is checked before the resource path.
pub open spec fn precondition_message(kind: Interaction, p: Post) -> Seq<char> {
    match kind {
        Interaction::Like => if p.cid is None {
            "Post missing CID for like"@
        } else {
            "Post missing URI for like"@
        },
        Interaction::Repost => if p.cid is None {
            "Post missing CID for repost"@
        } else {
            "Post missing URI for repost"@
        },
        Interaction::Unlike => "Post missing URI for unlike"@,
        Interaction::Unrepost => "Post missing URI for unrepost"@,
    }
}

/// The collection an interaction writes to.
pub open spec fn collection_of(kind: Interaction) -> Seq<char> {
    match kind {
        Interaction::Like | Interaction::Unlike => LIKE_COLLECTION@,
        Interaction::Repost | Interaction::Unrepost => REPOST_COLLECTION@,
    }
}

/// Plans an interaction on a Bluesky post. Where the post lacks a handle the interaction
/// needs, the plan fails with a precondition error and there is no call to make.
pub fn plan_interaction(kind: Interaction, post: &Post) -> (r: Result<RecordCall, ApiError>)
    ensures
        r is Ok <==> interaction_plan_ok(kind, *post),
        r matches Err(e) ==> (e matches ApiError::Precondition(m) && m@ == precondition_message(
            kind,
            *post,
        )),
        r matches Ok(RecordCall::Create { collection, subject }) ==> (kind == Interaction::Like
            || kind == Interaction::Repost) && collection@ == collection_of(kind) && Some(
            subject.uri,
        ) == post.uri && Some(subject.cid) == post.cid,
        r matches Ok(RecordCall::FindAndDelete { collection, subject_uri }) ==> (kind
            == Interaction::Unlike || kind == Interaction::Unrepost) && collection@
            == collection_of(kind) && Some(subject_uri) == post.uri,
{
    match kind {
        Interaction::Like | Interaction::Repost => {
            let is_like = match kind {
                Interaction::Like => true,
                _ => false,
            };
            let cid = match &post.cid {
                Some(c) => c.clone(),
                None => {
                    let m = if is_like {
                        "Post missing CID for like"
                    } else {
                        "Post missing CID for repost"
                    };
                    return Err(ApiError::Precondition(String::from_str(m)));
                },
            };
            let uri = match &post.uri {
                Some(u) => u.clone(),
                None => {
                    let m = if is_like {
                        "Post missing URI for like"
                    } else {
                        "Post missing URI for repost"
                    };
                    return Err(ApiError::Precondition(String::from_str(m)));
                },
            };
            let collection = if is_like {
                String::from_str(LIKE_COLLECTION)
            } else {
                String::from_str(REPOST_COLLECTION)
            };
            Ok(RecordCall::Create { collection, subject: RecordRef { uri, cid } })
        },
        Interaction::Unlike | Interaction::Unrepost => {
            let is_unlike = match kind {
                Interaction::Unlike => true,
                _ => false,
            };
            let uri = match &post.uri {
                Some(u) => u.clone(),
                None => {
                    let m = if is_unlike {
                        "Post missing URI for unlike"
                    } else {
                        "Post missing URI for unrepost"
                    };
                    return Err(ApiError::Precondition(String::from_str(m)));
                },
            };
            let collection = if is_unlike {
                String::from_str(LIKE_COLLECTION)
            } else {
                String::from_str(REPOST_COLLECTION)
            };
            Ok(RecordCall::FindAndDelete { collection, subject_uri: uri })
        },
    }
}

/// The reference a reply on Bluesky names as its parent: the target's resource path and
/// content hash. Where the target lacks either, the reply fails with a precondition error
/// before any call.
pub fn plan_reply(target: &Post) -> (r: Result<RecordRef, ApiError>)
    ensures
        r is Ok <==> (target.cid is Some && target.uri is Some),
        r matches Ok(p) ==> Some(p.uri) == target.uri && Some(p.cid) == target.cid,
        r matches Err(e) ==> (e matches ApiError::Precondition(m) && m@ == if target.cid is None {
            "Post missing CID for reply"@
        } else {
            "Post missing URI for reply"@
        }),
{
    let cid = match &target.cid {
        Some(c) => c.clone(),
        None => {
            return Err(ApiError::Precondition(String::from_str("Post missing CID for reply")));
        },
    };
    let uri = match &target.uri {
        Some(u) => u.clone(),
        None => {
            return Err(ApiError::Precondition(String::from_str("Post missing URI for reply")));
        },
    };
    Ok(RecordRef { uri, cid })
}

/// The first of the viewer's records that refers to the post at `subject`, if any.
pub open spec fn first_record_for(records: Seq<RecordItem>, subject: Seq<char>, i: int) -> bool {
    &&& 0 <= i < records.len()
    &&& records[i].subject_uri@ == subject
    &&& forall|k: int| 0 <= k < i ==> #[trigger] records[k].subject_uri@ != subject
}

/// The key to delete the viewer's record about the post at `subject_uri` by: the last path
/// segment of the first such record. `None` where there is no such record, in which case
/// the record is already gone and taking it back succeeds without a call.
pub fn record_key_for(records: &Vec<RecordItem>, subject_uri: &str) -> (r: Option<String>)
    ensures
        r is None <==> forall|k: int|
            0 <= k < records@.len() ==> #[trigger] records@[k].subject_uri@ != subject_uri@,
        r matches Some(key) ==> exists|i: int|
            first_record_for(records@, subject_uri@, i) && key@ == last_segment_of(
                #[trigger] records@[i].uri@,
            ),
{
    let target = String::from_str(subject_uri);
    let mut i: usize = 0;
    while i < records.len()
        invariant
            i <= records@.len(),
            target@ == subject_uri@,
            forall|k: int| 0 <= k < i ==> #[trigger] records@[k].subject_uri@ != subject_uri@,
        decreases records@.len() - i,
    {
        if records[i].subject_uri == target {
            let key = last_segment(records[i].uri.as_str());
            assert(first_record_for(records@, subject_uri@, i as int));
            return Some(key);
        }
        i = i + 1;
    }
    None
}

/// Taking back a like of which no record exists finds nothing to delete and reports success.
pub proof fn law_unlike_without_record(
    records: Seq<RecordItem>,
    subject: Seq<char>,
    post_id: Seq<char>,
)
    requires
        forall|k: int| 0 <= k < records.len() ==> #[trigger] records[k].subject_uri@ != subject,
    ensures
        forall|i: int| !first_record_for(records, subject, i),
        crate::worker::interaction_emits(
            Interaction::Unlike,
            post_id,
            crate::worker::InteractionOutcome::Done { outcome: Ok(()) },
        ) == crate::worker::Emitted::Unliked(post_id),
{
}

} // verus!

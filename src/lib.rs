//! The synchronization core of a terminal client for Mastodon and Bluesky: one post and
//! account model for both networks, the translation of each network's answers into it, the
//! threading of conversations, and the decisions of the background worker that refreshes
//! timelines, posts to several accounts and applies likes and reposts.
use vstd::prelude::*;

pub mod account;
pub mod api;
pub mod bluesky;
pub mod credentials;
pub mod ids;
pub mod mastodon;
pub mod network;
pub mod post;
pub mod reply_tree;
pub mod scheduled;
pub mod text;
pub mod timeline;
pub mod update;
pub mod view_state;
pub mod worker;

verus! {

} // verus!

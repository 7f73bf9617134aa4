use vstd::prelude::*;

use crate::network::Network;

verus! {

/// Which panel has the focus.
#[derive(Debug, Clone, Copy, PartialEq, Eq, Structural)]
pub enum FocusedPanel {
    /// Accounts sidebar (only in the accounts view).
    Accounts,
    /// Timeline list.
    Timeline,
    /// Post detail.
    Detail,
}

impl FocusedPanel {
    /// The next panel in tab order (the timeline and the detail alternate).
    pub fn next(&self) -> (r: FocusedPanel)
        ensures
            r == match self {
                FocusedPanel::Accounts => FocusedPanel::Timeline,
                FocusedPanel::Timeline => FocusedPanel::Detail,
                FocusedPanel::Detail => FocusedPanel::Timeline,
            },
    {
        match self {
            FocusedPanel::Accounts => FocusedPanel::Timeline,
            FocusedPanel::Timeline => FocusedPanel::Detail,
            FocusedPanel::Detail => FocusedPanel::Timeline,
        }
    }

    /// The previous panel in tab order.
    pub fn prev(&self) -> (r: FocusedPanel)
        ensures
            r == match self {
                FocusedPanel::Accounts => FocusedPanel::Detail,
                FocusedPanel::Timeline => FocusedPanel::Detail,
                FocusedPanel::Detail => FocusedPanel::Timeline,
            },
    {
        match self {
            FocusedPanel::Accounts => FocusedPanel::Detail,
            FocusedPanel::Timeline => FocusedPanel::Detail,
            FocusedPanel::Detail => FocusedPanel::Timeline,
        }
    }
}

/// The current view.
#[derive(Debug, Clone, Copy, PartialEq, Eq, Structural)]
pub enum ActiveView {
    Timeline,
    Accounts,
}

/// The modal mode of the interface.
#[derive(Debug, Clone, Copy, PartialEq, Eq, Structural)]
pub enum Mode {
    /// Normal navigation.
    Normal,
    /// Composing a post.
    Compose,
    /// Searching posts.
    Search,
    /// Help dialog.
    Help,
    /// Theme picker dialog.
    ThemePicker,
    /// About dialog.
    About,
    /// Update confirmation dialog.
    UpdateConfirm,
    /// Update in progress.
    Updating,
}

/// Which networks the timeline shows.
#[derive(Debug, Clone, Copy, PartialEq, Eq, Structural)]
pub enum TimelineFilter {
    All,
    Mastodon,
    Bluesky,
}

impl TimelineFilter {
    /// The next filter in the cycle All, Mastodon, Bluesky.
    pub fn next(&self) -> (r: TimelineFilter)
        ensures
            r == match self {
                TimelineFilter::All => TimelineFilter::Mastodon,
                TimelineFilter::Mastodon => TimelineFilter::Bluesky,
                TimelineFilter::Bluesky => TimelineFilter::All,
            },
    {
        match self {
            TimelineFilter::All => TimelineFilter::Mastodon,
            TimelineFilter::Mastodon => TimelineFilter::Bluesky,
            TimelineFilter::Bluesky => TimelineFilter::All,
        }
    }

    /// The display name.
    pub fn name(&self) -> (r: &'static str)
        ensures
            r@ == match self {
                TimelineFilter::All => "All"@,
                TimelineFilter::Mastodon => "Mastodon"@,
                TimelineFilter::Bluesky => "Bluesky"@,
            },
    {
        match self {
            TimelineFilter::All => "All",
            TimelineFilter::Mastodon => "Mastodon",
            TimelineFilter::Bluesky => "Bluesky",
        }
    }

    /// The one network the filter keeps, or `None` for all of them.
    pub fn to_network(&self) -> (r: Option<Network>)
        ensures
            r == match self {
                TimelineFilter::All => None,
                TimelineFilter::Mastodon => Some(Network::Mastodon),
                TimelineFilter::Bluesky => Some(Network::Bluesky),
            },
    {
        match self {
            TimelineFilter::All => None,
            TimelineFilter::Mastodon => Some(Network::Mastodon),
            TimelineFilter::Bluesky => Some(Network::Bluesky),
        }
    }
}

} // verus!

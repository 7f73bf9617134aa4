use vstd::prelude::*;

use crate::text::{lower_of, lowercase};

verus! {

/// Where a scheduled post stands.
#[derive(Debug, Clone, Copy, PartialEq, Eq, Structural)]
pub enum ScheduledPostStatus {
    /// Waiting to be posted.
    Pending,
    /// Being posted.
    Posting,
    /// Posted.
    Posted,
    /// Posting failed.
    Failed,
    /// Cancelled by the user.
    Cancelled,
}

/// The stored name of a status.
pub open spec fn status_name(s: ScheduledPostStatus) -> Seq<char> {
    match s {
        ScheduledPostStatus::Pending => "pending"@,
        ScheduledPostStatus::Posting => "posting"@,
        ScheduledPostStatus::Posted => "posted"@,
        ScheduledPostStatus::Failed => "failed"@,
        ScheduledPostStatus::Cancelled => "cancelled"@,
    }
}

/// The status whose stored name is `s`.
pub open spec fn status_named(s: Seq<char>) -> Option<ScheduledPostStatus> {
    if s == "pending"@ {
        Some(ScheduledPostStatus::Pending)
    } else if s == "posting"@ {
        Some(ScheduledPostStatus::Posting)
    } else if s == "posted"@ {
        Some(ScheduledPostStatus::Posted)
    } else if s == "failed"@ {
        Some(ScheduledPostStatus::Failed)
    } else if s == "cancelled"@ {
        Some(ScheduledPostStatus::Cancelled)
    } else {
        None
    }
}

impl ScheduledPostStatus {
    /// The stored name.
    pub fn as_str(&self) -> (r: &'static str)
        ensures
            r@ == status_name(*self),
    {
        match self {
            ScheduledPostStatus::Pending => "pending",
            ScheduledPostStatus::Posting => "posting",
            ScheduledPostStatus::Posted => "posted",
            ScheduledPostStatus::Failed => "failed",
            ScheduledPostStatus::Cancelled => "cancelled",
        }
    }

    /// The status with a stored name that is already in lower case.
    pub fn from_lowercase(s: &str) -> (r: Option<ScheduledPostStatus>)
        ensures
            r == status_named(s@),
    {
        let s = String::from_str(s);
        if s == String::from_str("pending") {
            Some(ScheduledPostStatus::Pending)
        } else if s == String::from_str("posting") {
            Some(ScheduledPostStatus::Posting)
        } else if s == String::from_str("posted") {
            Some(ScheduledPostStatus::Posted)
        } else if s == String::from_str("failed") {
            Some(ScheduledPostStatus::Failed)
        } else if s == String::from_str("cancelled") {
            Some(ScheduledPostStatus::Cancelled)
        } else {
            None
        }
    }

    /// Parses a stored name, ignoring case.
    pub fn from_str(s: &str) -> (r: Option<ScheduledPostStatus>)
        ensures
            r == status_named(lower_of(s@)),
    {
        let folded = lowercase(s);
        ScheduledPostStatus::from_lowercase(folded.as_str())
    }

    /// The emoji for the status.
    pub fn emoji(&self) -> (r: &'static str)
        ensures
            r@ == match self {
                ScheduledPostStatus::Pending => "⏳"@,
                ScheduledPostStatus::Posting => "📤"@,
                ScheduledPostStatus::Posted => "✅"@,
                ScheduledPostStatus::Failed => "❌"@,
                ScheduledPostStatus::Cancelled => "🚫"@,
            },
    {
        match self {
            ScheduledPostStatus::Pending => "⏳",
            ScheduledPostStatus::Posting => "📤",
            ScheduledPostStatus::Posted => "✅",
            ScheduledPostStatus::Failed => "❌",
            ScheduledPostStatus::Cancelled => "🚫",
        }
    }
}

/// Stored names and parsing agree: every status is read back from its own name.
pub proof fn law_status_name_round_trip(s: ScheduledPostStatus)
    ensures
        status_named(status_name(s)) == Some(s),
{
    reveal_strlit("pending");
    reveal_strlit("posting");
    reveal_strlit("posted");
    reveal_strlit("failed");
    reveal_strlit("cancelled");
    assert("posting"@[1] != "pending"@[1]);
    assert("posted"@.len() != "pending"@.len() && "posted"@.len() != "posting"@.len());
    assert("failed"@[0] != "posted"@[0] && "failed"@.len() != "pending"@.len());
    assert("failed"@.len() != "posting"@.len());
    assert("cancelled"@.len() != "pending"@.len() && "cancelled"@.len() != "posted"@.len());
    assert("cancelled"@.len() != "failed"@.len() && "cancelled"@.len() != "posting"@.len());
}

} // verus!

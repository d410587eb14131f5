use vstd::prelude::*;
use crate::feed::Feed;
use crate::feed::Item;

verus! {

/// Continuous down time, in seconds, beyond which subscribers are told that
/// a feed keeps failing: five days.
pub const DOWN_TIME_LIMIT_SECS: u64 = 432000;

/// What follows a failed fetch.
#[derive(Clone, Copy, Debug, PartialEq, Eq, Structural)]
pub enum FailureAction {
    /// The feed was unsubscribed while it was fetched: nothing to do.
    Abort,
    /// A transient failure: subscribers hear nothing of it.
    Ignore,
    /// The feed has failed for too long: reset its down time and tell
    /// every subscriber once.
    Report,
}

/// The action for a failed fetch, from the down time that the store reports.
pub open spec fn spec_on_fetch_failure(down_time_secs: Option<u64>) -> FailureAction {
    match down_time_secs {
        None => FailureAction::Abort,
        Some(secs) => if secs > DOWN_TIME_LIMIT_SECS {
            FailureAction::Report
        } else {
            FailureAction::Ignore
        },
    }
}

/// Classifies a failed fetch. `down_time_secs` is how long the feed has been
/// failing without a success between, in whole seconds, or `None` where the
/// store no longer tracks the feed.
pub fn on_fetch_failure(down_time_secs: Option<u64>) -> (action: FailureAction)
    ensures
        action == spec_on_fetch_failure(down_time_secs),
{
    match down_time_secs {
        None => FailureAction::Abort,
        Some(secs) => {
            if secs > DOWN_TIME_LIMIT_SECS {
                FailureAction::Report
            } else {
                FailureAction::Ignore
            }
        },
    }
}

/// The title under which an item is shown: its own, or the feed's where it
/// has none.
pub fn item_title(item: &Item, feed: &Feed) -> (title: String)
    ensures
        title@ == match item.title {
            Some(t) => t@,
            None => feed.title@,
        },
{
    match &item.title {
        Some(t) => t.clone(),
        None => feed.title.clone(),
    }
}

/// The link that an item points to: its own, or the feed's where it has
/// none.
pub fn item_link(item: &Item, feed: &Feed) -> (link: String)
    ensures
        link@ == match item.link {
            Some(l) => l@,
            None => feed.link@,
        },
{
    match &item.link {
        Some(l) => l.clone(),
        None => feed.link.clone(),
    }
}

} // verus!

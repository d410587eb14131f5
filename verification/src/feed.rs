use vstd::prelude::*;

verus! {

/// A remotely hosted feed together with the chats subscribed to it.
#[derive(Clone, Debug)]
pub struct Feed {
    /// Canonical URL; the unique key of the feed.
    pub link: String,
    /// Display title.
    pub title: String,
    /// Re-fetch interval in minutes that the source advertises, if any.
    pub ttl: Option<u32>,
    /// Subscribed chats, in delivery order.
    pub subscribers: Vec<i64>,
}

/// What a fresh fetch changed with respect to the stored state of a feed.
#[derive(Clone, Debug)]
pub enum FeedUpdate {
    /// A batch of new items.
    Items(Vec<Item>),
    /// The feed now carries this title.
    Title(String),
}

/// One entry of a feed, as far as a notification shows it.
#[derive(Clone, Debug)]
pub struct Item {
    pub title: Option<String>,
    pub link: Option<String>,
}

} // verus!

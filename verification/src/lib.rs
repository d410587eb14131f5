//! The fetch scheduler and delivery pipeline of a feed notification bot:
//! when each feed is fetched again, how fetch starts are spread over a
//! window, how failures are classified, and how one notification is fanned
//! out to many subscribers.

pub mod commands;
pub mod config;
pub mod delivery;
pub mod feed;
pub mod fetch;
pub mod gardener;
pub mod listing;
pub mod queue;
pub mod schedule;
pub mod text;
pub mod throttle;

//! WebSub subscriptions and one-shot, uniquely keyed notification jobs for
//! livestream announcements.
//!
//! The crate holds the decisions of the notifier: which hub a feed names,
//! what is sent to it, which handler a pushed payload reaches, which timer
//! job a key owns, and what is announced when. Network, storage and the
//! timer engine are driven by the caller, which hands their outcomes in as
//! plain values.

pub mod clock;
pub mod cron;
pub mod data;
pub mod discord;
pub mod notifier;
pub mod pubsub;
pub mod text;
pub mod youtube;

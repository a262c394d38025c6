//! A verified core for a scheduled feed-to-post job: it normalizes RSS and
//! Atom feed entries, decides which entries are new relative to a cutoff
//! timestamp, applies per-feed title filters, and plans outbound posts and
//! error reports. Network fetching and the social-platform client live
//! outside this crate; the library works on plain values and returns plans
//! describing exactly what should be sent or logged.

pub mod dates;
pub mod feed;
pub mod filter;
pub mod parse;
pub mod pipeline;
pub mod text;

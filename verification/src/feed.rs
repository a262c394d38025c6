//! The data model: feed configuration, normalized feed entries, accounts,
//! and the run-wide configuration switches.

use vstd::prelude::*;

verus! {

/// The two supported feed formats, a closed enumeration.
#[derive(Clone, Copy, PartialEq, Eq, Structural)]
pub enum FeedFormat {
    Rss,
    Atom,
}

/// One configured feed: a name for logging, the URL to fetch, the declared
/// format, and the title-filter string (see `crate::filter`).
#[derive(Clone)]
pub struct Feed {
    pub name: String,
    pub url: String,
    pub feed_type: FeedFormat,
    pub filter: String,
}

/// One feed entry, normalized away from its source format: a title, a link
/// (empty where the source had none), and its publish time in epoch seconds.
#[derive(Clone)]
pub struct FeedEntry {
    pub title: String,
    pub link: String,
    pub published: i64,
}

/// The mathematical shape of a normalized entry: title, link, publish time.
pub type EntryModel = (Seq<char>, Seq<char>, int);

impl FeedEntry {
    pub open spec fn model(self) -> EntryModel {
        (self.title@, self.link@, self.published as int)
    }
}

/// One configured account: a name, its ordered feeds, and whether its posts
/// carry the account's location. The platform credentials and the raw
/// coordinates stay outside the library, with the platform client.
pub struct Account {
    pub name: String,
    pub feeds: Vec<Feed>,
    pub display_location: bool,
}

/// Run-wide switches and constants, fixed per deployment: whether posts are
/// really sent, whether feed failures notify an operator, the operator's
/// platform identity, and the polling interval the trigger fires at.
#[derive(Clone, Copy)]
pub struct RunConfig {
    pub posting_enabled: bool,
    pub notify_on_error: bool,
    pub operator_id: u64,
    pub poll_interval: i64,
}

} // verus!

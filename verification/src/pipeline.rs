//! The per-invocation pipeline: novelty detection, post planning, error
//! reporting, and the per-feed and per-account orchestration. The library
//! performs no I/O; for each feed it turns the fetched document (or the fetch
//! failure) into a `FeedOutcome` that says exactly which posts to send and
//! whether to report an error.

use vstd::prelude::*;

use crate::dates::utc_display;
use crate::dates::format_utc;
use crate::feed::Account;
use crate::feed::EntryModel;
use crate::feed::Feed;
use crate::feed::FeedEntry;
use crate::feed::FeedFormat;
use crate::feed::RunConfig;
use crate::filter::FilterExpression;
use crate::filter::FilterModel;
use crate::filter::model_passes;
use crate::filter::parse_filter;
use crate::filter::passes;
use crate::filter::spec_parse_filter;
use crate::parse::atom_parse;
use crate::parse::norm_atom;
use crate::parse::norm_rss;
use crate::parse::normalize_atom;
use crate::parse::normalize_rss;
use crate::parse::read_atom_entries;
use crate::parse::read_rss_items;
use crate::parse::rss_error_text;
use crate::parse::atom_error_text;
use crate::parse::entry_models;
use crate::parse::rss_parse;

verus! {

/// An entry is new exactly when it was published strictly after the cutoff;
/// an entry published at the cutoff itself counts as already seen.
pub fn is_new(entry_time: i64, cutoff: i64) -> (r: bool)
    ensures
        r == (entry_time > cutoff),
{
    entry_time > cutoff
}

/// The cutoff for one invocation: the trigger time minus the polling
/// interval.
pub fn derive_cutoff(invocation_time: i64, poll_interval: i64) -> (r: i64)
    requires
        0 <= poll_interval,
        i64::MIN <= invocation_time - poll_interval,
    ensures
        r == invocation_time - poll_interval,
{
    invocation_time - poll_interval
}

/// One planned outbound post: the composed message, whether the account's
/// location is attached, and whether the platform is really contacted (false
/// under the global posting switch; the message is still composed and
/// logged).
pub struct PostPlan {
    pub message: String,
    pub attach_location: bool,
    pub contact_platform: bool,
}

/// The shape of a planned post: message, attach-location, contact-platform.
pub type PostModel = (Seq<char>, bool, bool);

impl PostPlan {
    pub open spec fn model(self) -> PostModel {
        (self.message@, self.attach_location, self.contact_platform)
    }
}

pub open spec fn post_models(posts: Seq<PostPlan>) -> Seq<PostModel> {
    posts.map_values(|p: PostPlan| p.model())
}

/// A post's text: the entry's title, a newline, the entry's link.
pub open spec fn compose_message(title: Seq<char>, link: Seq<char>) -> Seq<char> {
    title + seq!['\n'] + link
}

/// Plans one post for an entry that passed every check.
pub fn plan_post(title: &str, link: &str, posting_enabled: bool, attach_location: bool) -> (r:
    PostPlan)
    ensures
        r.message@ == compose_message(title@, link@),
        r.attach_location == attach_location,
        r.contact_platform == posting_enabled,
{
    let mut message = title.to_owned();
    message.append("\n");
    message.append(link);
    proof {
        reveal_strlit("\n");
        assert("\n"@ =~= seq!['\n']);
    }
    PostPlan { message, attach_location, contact_platform: posting_enabled }
}

/// The posts planned for a sequence of entries, in source order: one for each
/// entry that is newer than the cutoff and passes the filter.
pub open spec fn spec_plan_posts(
    entries: Seq<EntryModel>,
    fm: FilterModel,
    cutoff: int,
    posting_enabled: bool,
    attach_location: bool,
) -> Seq<PostModel>
    decreases entries.len(),
{
    if entries.len() == 0 {
        Seq::empty()
    } else {
        let rest = spec_plan_posts(
            entries.drop_first(),
            fm,
            cutoff,
            posting_enabled,
            attach_location,
        );
        if entries[0].2 > cutoff && model_passes(fm, entries[0].0) {
            seq![
                (compose_message(entries[0].0, entries[0].1), attach_location, posting_enabled),
            ] + rest
        } else {
            rest
        }
    }
}

/// Plans the posts for a feed's normalized entries under its filter: an
/// entry is posted exactly when it is new and its title passes.
#[verifier::loop_isolation(false)]
pub fn plan_posts(
    entries: &Vec<FeedEntry>,
    expr: &FilterExpression,
    cutoff: i64,
    posting_enabled: bool,
    attach_location: bool,
) -> (r: Vec<PostPlan>)
    ensures
        post_models(r@) == spec_plan_posts(
            entry_models(entries@),
            (*expr).model(),
            cutoff as int,
            posting_enabled,
            attach_location,
        ),
{
    let ghost ems = entry_models(entries@);
    let ghost fm = (*expr).model();
    let ghost n = ems.len();
    let mut out: Vec<PostPlan> = Vec::new();
    let mut i: usize = 0;
    proof {
        assert(ems.subrange(0, n as int) =~= ems);
        assert(post_models(out@) + spec_plan_posts(ems, fm, cutoff as int, posting_enabled,
            attach_location) =~= spec_plan_posts(ems, fm, cutoff as int, posting_enabled,
            attach_location));
    }
    while i < entries.len()
        invariant
            0 <= i <= entries@.len(),
            spec_plan_posts(ems, fm, cutoff as int, posting_enabled, attach_location)
                == post_models(out@) + spec_plan_posts(
                ems.subrange(i as int, n as int),
                fm,
                cutoff as int,
                posting_enabled,
                attach_location,
            ),
        decreases entries@.len() - i,
    {
        let ghost suf = ems.subrange(i as int, n as int);
        proof {
            assert(suf[0] == ems[i as int]);
            assert(ems[i as int] == entries@[i as int].model());
            assert(suf.drop_first() =~= ems.subrange(i + 1, n as int));
        }
        let entry = &entries[i];
        if is_new(entry.published, cutoff) && passes(expr, entry.title.as_str()) {
            let plan = plan_post(
                entry.title.as_str(),
                entry.link.as_str(),
                posting_enabled,
                attach_location,
            );
            let ghost old_out = out@;
            out.push(plan);
            proof {
                assert(post_models(out@) =~= post_models(old_out).push(plan.model()));
                assert(spec_plan_posts(suf, fm, cutoff as int, posting_enabled, attach_location)
                    == seq![plan.model()] + spec_plan_posts(
                    suf.drop_first(),
                    fm,
                    cutoff as int,
                    posting_enabled,
                    attach_location,
                ));
                assert(post_models(old_out).push(plan.model()) + spec_plan_posts(
                    suf.drop_first(),
                    fm,
                    cutoff as int,
                    posting_enabled,
                    attach_location,
                ) =~= post_models(old_out) + (seq![plan.model()] + spec_plan_posts(
                    suf.drop_first(),
                    fm,
                    cutoff as int,
                    posting_enabled,
                    attach_location,
                )));
            }
        } else {
            proof {
                assert(spec_plan_posts(suf, fm, cutoff as int, posting_enabled, attach_location)
                    == spec_plan_posts(
                    suf.drop_first(),
                    fm,
                    cutoff as int,
                    posting_enabled,
                    attach_location,
                ));
            }
        }
        i += 1;
    }
    proof {
        assert(ems.subrange(n as int, n as int) =~= Seq::<EntryModel>::empty());
        assert(post_models(out@) + Seq::<PostModel>::empty() =~= post_models(out@));
    }
    out
}

/// One planned operator notification: the recipient's platform identity and
/// the message text.
pub struct Notification {
    pub recipient_id: u64,
    pub message: String,
}

/// One planned error report: the line to log, and the operator notification
/// to send where the notification switch is on.
pub struct ReportPlan {
    pub log_line: String,
    pub notification: Option<Notification>,
}

/// The text of an error report: the feed's name, the invocation time in
/// human-readable UTC, and the error's own text.
pub open spec fn report_text(feed_name: Seq<char>, invocation_time: int, error_text: Seq<char>)
    -> Seq<char> {
    "Feed: "@ + feed_name + " at "@ + utc_display(invocation_time) + " UTC"@ + seq!['\n']
        + error_text
}

/// Plans the report for a failed feed: the log line always; a notification
/// to the operator exactly when the notification switch is on, carrying the
/// same text. A notification that later fails to send is best-effort and
/// never planned away.
pub fn plan_report(feed_name: &str, invocation_time: i64, error_text: &str, cfg: &RunConfig) -> (r:
    ReportPlan)
    ensures
        r.log_line@ == report_text(feed_name@, invocation_time as int, error_text@),
        r.notification is Some <==> cfg.notify_on_error,
        r.notification matches Some(n) ==> n.recipient_id == cfg.operator_id && n.message@
            == r.log_line@,
{
    let mut line = "Feed: ".to_owned();
    line.append(feed_name);
    line.append(" at ");
    let ts = format_utc(invocation_time);
    line.append(ts.as_str());
    line.append(" UTC");
    line.append("\n");
    line.append(error_text);
    proof {
        reveal_strlit("\n");
        assert("\n"@ =~= seq!['\n']);
    }
    let notification = if cfg.notify_on_error {
        Some(Notification { recipient_id: cfg.operator_id, message: line.clone() })
    } else {
        None
    };
    ReportPlan { log_line: line, notification }
}

/// The diagnostic text for a filter string that mixes the include and
/// exclude markers.
pub open spec fn mixed_filter_text() -> Seq<char> {
    "filter mixes include and exclude markers"@
}

/// The diagnostic message for a mixed filter string.
pub fn mixed_filter_message() -> (r: String)
    ensures
        r@ == mixed_filter_text(),
{
    "filter mixes include and exclude markers".to_owned()
}

/// Everything one feed's processing decided: the posts to send, and the
/// error report where fetching or parsing failed.
pub struct FeedOutcome {
    pub posts: Vec<PostPlan>,
    pub report: Option<ReportPlan>,
}

/// The outcome reports the given error text and plans no posts.
pub open spec fn report_matches(
    out: FeedOutcome,
    feed: Feed,
    cfg: RunConfig,
    invocation_time: int,
    error_text: Seq<char>,
) -> bool {
    &&& out.posts@.len() == 0
    &&& out.report matches Some(rp) && {
        &&& rp.log_line@ == report_text(feed.name@, invocation_time, error_text)
        &&& (rp.notification is Some <==> cfg.notify_on_error)
        &&& (rp.notification matches Some(n) ==> n.recipient_id == cfg.operator_id && n.message@
            == rp.log_line@)
    }
}

/// The outcome reports some error text and plans no posts (for errors whose
/// text comes from an outside parser and is not pinned down further).
pub open spec fn reported_somehow(
    out: FeedOutcome,
    feed: Feed,
    cfg: RunConfig,
    invocation_time: int,
) -> bool {
    exists|error_text: Seq<char>| #[trigger] report_matches(
        out,
        feed,
        cfg,
        invocation_time,
        error_text,
    )
}

/// What processing one feed must yield, as a function of the feed's
/// configuration, the fetched document (or fetch failure), the cutoff, and
/// the run configuration.
pub open spec fn feed_outcome_matches(
    out: FeedOutcome,
    feed: Feed,
    content: Result<String, String>,
    cutoff: int,
    cfg: RunConfig,
    display_location: bool,
    invocation_time: int,
) -> bool {
    match content {
        Err(msg) => report_matches(out, feed, cfg, invocation_time, msg@),
        Ok(text) => match spec_parse_filter(feed.filter@) {
            None => report_matches(out, feed, cfg, invocation_time, mixed_filter_text()),
            Some(fm) => match feed.feed_type {
                FeedFormat::Rss => match rss_parse(text@) {
                    None => reported_somehow(out, feed, cfg, invocation_time),
                    Some(raws) => match norm_rss(raws) {
                        Err(d) => report_matches(out, feed, cfg, invocation_time, d.spec_text()),
                        Ok(entries) => out.report is None && post_models(out.posts@)
                            == spec_plan_posts(
                            entries,
                            fm,
                            cutoff,
                            cfg.posting_enabled,
                            display_location,
                        ),
                    },
                },
                FeedFormat::Atom => match atom_parse(text@) {
                    None => reported_somehow(out, feed, cfg, invocation_time),
                    Some(raws) => match norm_atom(raws) {
                        Err(d) => report_matches(out, feed, cfg, invocation_time, d.spec_text()),
                        Ok(entries) => out.report is None && post_models(out.posts@)
                            == spec_plan_posts(
                            entries,
                            fm,
                            cutoff,
                            cfg.posting_enabled,
                            display_location,
                        ),
                    },
                },
            },
        },
    }
}

/// Processes one feed: parses the fetched document in the feed's declared
/// format, normalizes its entries, and plans a post for each new, passing
/// entry; a fetch failure, a malformed document, a defective item, or a
/// mixed filter string yields one error report and no posts.
pub fn process_feed(
    feed: &Feed,
    content: &Result<String, String>,
    cutoff: i64,
    invocation_time: i64,
    cfg: &RunConfig,
    display_location: bool,
) -> (r: FeedOutcome)
    ensures
        feed_outcome_matches(
            r,
            *feed,
            *content,
            cutoff as int,
            *cfg,
            display_location,
            invocation_time as int,
        ),
{
    let text = match content {
        Err(msg) => {
            let rp = plan_report(feed.name.as_str(), invocation_time, msg.as_str(), cfg);
            return FeedOutcome { posts: Vec::new(), report: Some(rp) };
        },
        Ok(text) => text,
    };
    let expr = match parse_filter(feed.filter.as_str()) {
        None => {
            let msg = mixed_filter_message();
            let rp = plan_report(feed.name.as_str(), invocation_time, msg.as_str(), cfg);
            return FeedOutcome { posts: Vec::new(), report: Some(rp) };
        },
        Some(expr) => expr,
    };
    match feed.feed_type {
        FeedFormat::Rss => match read_rss_items(text.as_str()) {
            Err(e) => {
                let et = rss_error_text(&e);
                let rp = plan_report(feed.name.as_str(), invocation_time, et.as_str(), cfg);
                let out = FeedOutcome { posts: Vec::new(), report: Some(rp) };
                proof {
                    assert(report_matches(out, *feed, *cfg, invocation_time as int, et@));
                }
                out
            },
            Ok(raws) => match normalize_rss(&raws) {
                Err(d) => {
                    let dt = d.text();
                    let rp = plan_report(feed.name.as_str(), invocation_time, dt.as_str(), cfg);
                    FeedOutcome { posts: Vec::new(), report: Some(rp) }
                },
                Ok(entries) => {
                    let posts = plan_posts(
                        &entries,
                        &expr,
                        cutoff,
                        cfg.posting_enabled,
                        display_location,
                    );
                    FeedOutcome { posts, report: None }
                },
            },
        },
        FeedFormat::Atom => match read_atom_entries(text.as_str()) {
            Err(e) => {
                let et = atom_error_text(&e);
                let rp = plan_report(feed.name.as_str(), invocation_time, et.as_str(), cfg);
                let out = FeedOutcome { posts: Vec::new(), report: Some(rp) };
                proof {
                    assert(report_matches(out, *feed, *cfg, invocation_time as int, et@));
                }
                out
            },
            Ok(raws) => match normalize_atom(&raws) {
                Err(d) => {
                    let dt = d.text();
                    let rp = plan_report(feed.name.as_str(), invocation_time, dt.as_str(), cfg);
                    FeedOutcome { posts: Vec::new(), report: Some(rp) }
                },
                Ok(entries) => {
                    let posts = plan_posts(
                        &entries,
                        &expr,
                        cutoff,
                        cfg.posting_enabled,
                        display_location,
                    );
                    FeedOutcome { posts, report: None }
                },
            },
        },
    }
}

/// Processes every feed of one account, in configured order, each against
/// the content fetched for it. Feeds are independent: each outcome is a
/// function of that feed's configuration and content alone.
#[verifier::loop_isolation(false)]
pub fn run_account(
    account: &Account,
    contents: &Vec<Result<String, String>>,
    cutoff: i64,
    invocation_time: i64,
    cfg: &RunConfig,
) -> (r: Vec<FeedOutcome>)
    requires
        contents@.len() == account.feeds@.len(),
    ensures
        r@.len() == account.feeds@.len(),
        forall|i: int|
            0 <= i < r@.len() ==> feed_outcome_matches(
                #[trigger] r@[i],
                account.feeds@[i],
                contents@[i],
                cutoff as int,
                *cfg,
                account.display_location,
                invocation_time as int,
            ),
{
    let mut out: Vec<FeedOutcome> = Vec::new();
    let mut i: usize = 0;
    while i < account.feeds.len()
        invariant
            0 <= i <= account.feeds@.len(),
            out@.len() == i,
            forall|k: int|
                0 <= k < i ==> feed_outcome_matches(
                    #[trigger] out@[k],
                    account.feeds@[k],
                    contents@[k],
                    cutoff as int,
                    *cfg,
                    account.display_location,
                    invocation_time as int,
                ),
        decreases account.feeds@.len() - i,
    {
        let outcome = process_feed(
            &account.feeds[i],
            &contents[i],
            cutoff,
            invocation_time,
            cfg,
            account.display_location,
        );
        out.push(outcome);
        i += 1;
    }
    out
}

/// Whether a feed's processing fails before any entry can be posted: the
/// fetch failed, the filter string is a configuration error, the document is
/// malformed, or an item lacks a mandatory field or a readable date.
pub open spec fn feed_failed(feed: Feed, content: Result<String, String>) -> bool {
    match content {
        Err(_) => true,
        Ok(text) => match spec_parse_filter(feed.filter@) {
            None => true,
            Some(_) => match feed.feed_type {
                FeedFormat::Rss => rss_parse(text@) is None || norm_rss(rss_parse(text@).unwrap())
                    is Err,
                FeedFormat::Atom => atom_parse(text@) is None || norm_atom(
                    atom_parse(text@).unwrap(),
                ) is Err,
            },
        },
    }
}

/// A feed that fails to fetch or parse yields exactly one error report and
/// no posts; a feed that parses yields no report. Feeds are processed
/// independently, so a failing feed never touches its siblings' outcomes.
pub proof fn lemma_failed_feed_isolated(
    out: FeedOutcome,
    feed: Feed,
    content: Result<String, String>,
    cutoff: int,
    cfg: RunConfig,
    display_location: bool,
    invocation_time: int,
)
    requires
        feed_outcome_matches(out, feed, content, cutoff, cfg, display_location, invocation_time),
    ensures
        out.report is Some <==> feed_failed(feed, content),
        feed_failed(feed, content) ==> out.posts@.len() == 0,
{
}

/// Every planned post carries the attach-location flag it was planned with,
/// and contacts the platform exactly when posting is enabled.
pub proof fn lemma_plan_posts_flags(
    entries: Seq<EntryModel>,
    fm: FilterModel,
    cutoff: int,
    posting_enabled: bool,
    attach_location: bool,
)
    ensures
        forall|j: int|
            0 <= j < spec_plan_posts(entries, fm, cutoff, posting_enabled, attach_location).len()
                ==> (#[trigger] spec_plan_posts(
                entries,
                fm,
                cutoff,
                posting_enabled,
                attach_location,
            )[j]).1 == attach_location && spec_plan_posts(
                entries,
                fm,
                cutoff,
                posting_enabled,
                attach_location,
            )[j].2 == posting_enabled,
    decreases entries.len(),
{
    if entries.len() > 0 {
        lemma_plan_posts_flags(entries.drop_first(), fm, cutoff, posting_enabled, attach_location);
        let whole = spec_plan_posts(entries, fm, cutoff, posting_enabled, attach_location);
        let rest = spec_plan_posts(
            entries.drop_first(),
            fm,
            cutoff,
            posting_enabled,
            attach_location,
        );
        assert forall|j: int| 0 <= j < whole.len() implies whole[j].1 == attach_location
            && whole[j].2 == posting_enabled by {
            if entries[0].2 > cutoff && model_passes(fm, entries[0].0) {
                if j > 0 {
                    assert(whole[j] == rest[j - 1]);
                }
            } else {
                assert(whole[j] == rest[j]);
            }
        }
    }
}

/// With the global posting switch off, no planned post contacts the
/// platform — while each selected entry's message is still composed, as
/// `feed_outcome_matches` pins it.
pub proof fn lemma_posting_disabled(
    out: FeedOutcome,
    feed: Feed,
    content: Result<String, String>,
    cutoff: int,
    cfg: RunConfig,
    display_location: bool,
    invocation_time: int,
)
    requires
        feed_outcome_matches(out, feed, content, cutoff, cfg, display_location, invocation_time),
        !cfg.posting_enabled,
    ensures
        forall|j: int|
            0 <= j < out.posts@.len() ==> !(#[trigger] out.posts@[j]).contact_platform,
{
    lemma_failed_feed_isolated(
        out,
        feed,
        content,
        cutoff,
        cfg,
        display_location,
        invocation_time,
    );
    if !feed_failed(feed, content) {
        let text = content->Ok_0;
        let fm = spec_parse_filter(feed.filter@).unwrap();
        let entries = match feed.feed_type {
            FeedFormat::Rss => norm_rss(rss_parse(text@).unwrap())->Ok_0,
            FeedFormat::Atom => norm_atom(atom_parse(text@).unwrap())->Ok_0,
        };
        lemma_plan_posts_flags(entries, fm, cutoff, cfg.posting_enabled, display_location);
        assert forall|j: int| 0 <= j < out.posts@.len() implies !(#[trigger] out.posts@[j]).contact_platform by {
            assert(post_models(out.posts@)[j] == out.posts@[j].model());
        }
    }
}

} // verus!

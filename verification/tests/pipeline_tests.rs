use feed_poster::feed::Account;
use feed_poster::feed::Feed;
use feed_poster::feed::FeedFormat;
use feed_poster::feed::RunConfig;
use feed_poster::pipeline::derive_cutoff;
use feed_poster::pipeline::is_new;
use feed_poster::pipeline::plan_post;
use feed_poster::pipeline::process_feed;
use feed_poster::pipeline::run_account;

fn config(posting_enabled: bool, notify_on_error: bool) -> RunConfig {
    RunConfig { posting_enabled, notify_on_error, operator_id: 42, poll_interval: 3600 }
}

fn feed(name: &str, feed_type: FeedFormat, filter: &str) -> Feed {
    Feed {
        name: name.to_string(),
        url: "https://feeds.example/a.xml".to_string(),
        feed_type,
        filter: filter.to_string(),
    }
}

fn rss_doc(items: &[(&str, &str, &str)]) -> String {
    let mut body = String::new();
    for (title, link, date) in items {
        body.push_str(&format!(
            "<item><title>{}</title><link>{}</link><pubDate>{}</pubDate></item>",
            title, link, date
        ));
    }
    format!(
        "<rss version=\"2.0\"><channel><title>c</title><link>l</link>\
         <description>d</description>{}</channel></rss>",
        body
    )
}

#[test]
fn novelty_is_strictly_after_the_cutoff() {
    assert!(is_new(6, 5));
    assert!(!is_new(5, 5));
    assert!(!is_new(4, 5));
}

#[test]
fn cutoff_is_trigger_time_minus_interval() {
    assert_eq!(derive_cutoff(10000, 3600), 6400);
}

#[test]
fn post_message_is_title_newline_link() {
    let plan = plan_post("Rust news", "https://x/y", true, true);
    assert_eq!(plan.message, "Rust news\nhttps://x/y");
    assert!(plan.attach_location);
    assert!(plan.contact_platform);
}

#[test]
fn disabled_posting_still_composes_the_message() {
    let plan = plan_post("T", "L", false, false);
    assert_eq!(plan.message, "T\nL");
    assert!(!plan.contact_platform);
}

// Cutoff used below: 2024-01-01 12:00:00 UTC.
const T: i64 = 1704110400;

#[test]
fn new_rss_entries_become_posts() {
    let doc = rss_doc(&[
        ("old news", "https://x/old", "Mon, 01 Jan 2024 11:59:50 +0000"),
        ("Rust news", "https://x/rust", "Mon, 01 Jan 2024 12:00:05 +0000"),
    ]);
    let f = feed("r", FeedFormat::Rss, "");
    let out = process_feed(&f, &Ok(doc), T, T + 3600, &config(true, false), true);
    assert!(out.report.is_none());
    assert_eq!(out.posts.len(), 1);
    assert_eq!(out.posts[0].message, "Rust news\nhttps://x/rust");
    assert!(out.posts[0].attach_location);
    assert!(out.posts[0].contact_platform);
}

#[test]
fn scenario_include_and_exclude_feeds() {
    // Cutoff T. One feed yields an old entry (skipped) and a new "Rust news"
    // entry under INCLUDE:Rust (posted); a second feed yields a new "iPhone
    // event" entry under EXCLUDE:iPhone (not posted).
    let doc1 = rss_doc(&[
        ("old story", "https://x/old", "Mon, 01 Jan 2024 11:59:50 +0000"),
        ("Rust news", "https://x/rust", "Mon, 01 Jan 2024 12:00:05 +0000"),
    ]);
    let doc2 = rss_doc(&[("iPhone event", "https://x/ip", "Mon, 01 Jan 2024 12:00:08 +0000")]);
    let account = Account {
        name: "acct".to_string(),
        feeds: vec![
            feed("one", FeedFormat::Rss, "INCLUDE:Rust"),
            feed("two", FeedFormat::Rss, "EXCLUDE:iPhone"),
        ],
        display_location: false,
    };
    let contents = vec![Ok(doc1), Ok(doc2)];
    let outcomes = run_account(&account, &contents, T, T + 3600, &config(true, false));
    assert_eq!(outcomes.len(), 2);
    assert!(outcomes[0].report.is_none());
    assert_eq!(outcomes[0].posts.len(), 1);
    assert_eq!(outcomes[0].posts[0].message, "Rust news\nhttps://x/rust");
    assert!(outcomes[1].report.is_none());
    assert_eq!(outcomes[1].posts.len(), 0);
}

#[test]
fn atom_document_flows_through() {
    let doc = "<feed xmlns=\"http://www.w3.org/2005/Atom\">\
        <title>f</title><id>f</id><updated>2024-01-01T12:00:00Z</updated>\
        <entry><title>fresh</title><id>e1</id>\
        <updated>2024-01-01T12:00:08Z</updated>\
        <link href=\"https://x/fresh\"/></entry>\
        </feed>"
        .to_string();
    let f = feed("a", FeedFormat::Atom, "");
    let out = process_feed(&f, &Ok(doc), T, T + 3600, &config(true, false), false);
    assert!(out.report.is_none());
    // The entry has no published time, so its updated time (T+8) counts.
    assert_eq!(out.posts.len(), 1);
    assert_eq!(out.posts[0].message, "fresh\nhttps://x/fresh");
}

#[test]
fn fetch_failure_yields_one_report_and_no_posts() {
    let f = feed("broken", FeedFormat::Rss, "");
    let out = process_feed(&f, &Err("timed out".to_string()), T, 0, &config(true, true), false);
    assert_eq!(out.posts.len(), 0);
    let report = out.report.expect("a fetch failure must be reported");
    assert_eq!(report.log_line, "Feed: broken at 1970-01-01 00:00:00 UTC\ntimed out");
    let n = report.notification.expect("the notification switch is on");
    assert_eq!(n.recipient_id, 42);
    assert_eq!(n.message, report.log_line);
}

#[test]
fn malformed_document_yields_one_report_and_no_posts() {
    let f = feed("bad", FeedFormat::Rss, "");
    let out = process_feed(&f, &Ok("this is not xml".to_string()), T, 0, &config(true, false),
        false);
    assert_eq!(out.posts.len(), 0);
    let report = out.report.expect("a malformed document must be reported");
    assert!(report.notification.is_none());
}

#[test]
fn defective_item_yields_one_report_and_no_posts() {
    // The second item has no pubDate: the whole feed is rejected.
    let doc = "<rss version=\"2.0\"><channel><title>c</title><link>l</link>\
        <description>d</description>\
        <item><title>ok</title><link>x</link>\
        <pubDate>Mon, 01 Jan 2024 12:00:05 +0000</pubDate></item>\
        <item><title>no date</title><link>y</link></item>\
        </channel></rss>"
        .to_string();
    let f = feed("strict", FeedFormat::Rss, "");
    let out = process_feed(&f, &Ok(doc), T, 0, &config(true, false), false);
    assert_eq!(out.posts.len(), 0);
    let report = out.report.expect("a defective item must be reported");
    assert_eq!(report.log_line, "Feed: strict at 1970-01-01 00:00:00 UTC\nitem without a publish date");
}

#[test]
fn mixed_filter_yields_one_report_and_no_posts() {
    let doc = rss_doc(&[("t", "l", "Mon, 01 Jan 2024 12:00:05 +0000")]);
    let f = feed("conf", FeedFormat::Rss, "INCLUDE:a,EXCLUDE:b");
    let out = process_feed(&f, &Ok(doc), T, 0, &config(true, false), false);
    assert_eq!(out.posts.len(), 0);
    assert!(out.report.is_some());
}

#[test]
fn sibling_feeds_survive_a_failure() {
    let good = rss_doc(&[("Rust news", "https://x/rust", "Mon, 01 Jan 2024 12:00:05 +0000")]);
    let account = Account {
        name: "acct".to_string(),
        feeds: vec![feed("dead", FeedFormat::Rss, ""), feed("alive", FeedFormat::Rss, "")],
        display_location: false,
    };
    let contents = vec![Err("connection refused".to_string()), Ok(good)];
    let outcomes = run_account(&account, &contents, T, 0, &config(true, false));
    assert_eq!(outcomes.len(), 2);
    assert!(outcomes[0].report.is_some());
    assert_eq!(outcomes[0].posts.len(), 0);
    assert!(outcomes[1].report.is_none());
    assert_eq!(outcomes[1].posts.len(), 1);
}

#[test]
fn posting_switch_off_never_contacts_the_platform() {
    let doc = rss_doc(&[("Rust news", "https://x/rust", "Mon, 01 Jan 2024 12:00:05 +0000")]);
    let f = feed("dry", FeedFormat::Rss, "");
    let out = process_feed(&f, &Ok(doc), T, 0, &config(false, false), true);
    assert!(out.report.is_none());
    assert_eq!(out.posts.len(), 1);
    assert!(!out.posts[0].contact_platform);
    // The message is still composed for logging.
    assert_eq!(out.posts[0].message, "Rust news\nhttps://x/rust");
    assert!(out.posts[0].attach_location);
}

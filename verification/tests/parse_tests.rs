use feed_poster::parse::normalize_atom;
use feed_poster::parse::normalize_rss;
use feed_poster::parse::AtomEntryRaw;
use feed_poster::parse::ParseDefect;
use feed_poster::parse::RssItemRaw;

fn rss_item(title: Option<&str>, link: Option<&str>, date: Option<&str>) -> RssItemRaw {
    RssItemRaw {
        title: title.map(|s| s.to_string()),
        link: link.map(|s| s.to_string()),
        pub_date: date.map(|s| s.to_string()),
    }
}

#[test]
fn rss_items_normalize_in_order() {
    let items = vec![
        rss_item(Some("one"), Some("l1"), Some("2024-01-01T12:00:00Z")),
        rss_item(Some("two"), Some("l2"), Some("Mon, 01 Jan 2024 12:00:05 +0000")),
    ];
    let entries = normalize_rss(&items).unwrap();
    assert_eq!(entries.len(), 2);
    assert_eq!(entries[0].title, "one");
    assert_eq!(entries[0].link, "l1");
    assert_eq!(entries[0].published, 1704110400);
    assert_eq!(entries[1].title, "two");
    assert_eq!(entries[1].published, 1704110405);
}

#[test]
fn rss_item_without_title_rejects_the_feed() {
    let items = vec![rss_item(None, Some("l"), Some("2024-01-01T12:00:00Z"))];
    assert!(matches!(normalize_rss(&items), Err(ParseDefect::MissingTitle)));
}

#[test]
fn rss_item_without_date_rejects_the_feed() {
    let items = vec![rss_item(Some("t"), Some("l"), None)];
    assert!(matches!(normalize_rss(&items), Err(ParseDefect::MissingDate)));
}

#[test]
fn rss_item_with_unreadable_date_rejects_the_feed() {
    let items = vec![rss_item(Some("t"), Some("l"), Some("yesterday-ish"))];
    assert!(matches!(normalize_rss(&items), Err(ParseDefect::UnparsableDate)));
}

#[test]
fn rss_first_defect_wins() {
    let items = vec![
        rss_item(Some("ok"), Some("l"), Some("2024-01-01T12:00:00Z")),
        rss_item(Some("t"), Some("l"), None),
        rss_item(None, Some("l"), Some("2024-01-01T12:00:00Z")),
    ];
    assert!(matches!(normalize_rss(&items), Err(ParseDefect::MissingDate)));
}

#[test]
fn rss_missing_link_becomes_empty_string() {
    let items = vec![rss_item(Some("t"), None, Some("2024-01-01T12:00:00Z"))];
    let entries = normalize_rss(&items).unwrap();
    assert_eq!(entries[0].link, "");
}

#[test]
fn atom_entry_without_published_resolves_to_updated() {
    let entries = vec![AtomEntryRaw {
        title: "t".to_string(),
        links: vec!["l".to_string()],
        published: None,
        updated: 777,
    }];
    let out = normalize_atom(&entries).unwrap();
    assert_eq!(out[0].published, 777);
}

#[test]
fn atom_entry_with_published_keeps_it() {
    let entries = vec![AtomEntryRaw {
        title: "t".to_string(),
        links: vec!["a".to_string(), "b".to_string()],
        published: Some(123),
        updated: 777,
    }];
    let out = normalize_atom(&entries).unwrap();
    assert_eq!(out[0].published, 123);
    // The first link is the one used.
    assert_eq!(out[0].link, "a");
}

#[test]
fn atom_entry_without_links_rejects_the_feed() {
    let entries = vec![AtomEntryRaw {
        title: "t".to_string(),
        links: Vec::new(),
        published: Some(1),
        updated: 2,
    }];
    assert!(matches!(normalize_atom(&entries), Err(ParseDefect::MissingLink)));
}

#[test]
fn defect_texts_name_the_missing_field() {
    assert_eq!(ParseDefect::MissingTitle.text(), "item without a title");
    assert_eq!(ParseDefect::Malformed("boom".to_string()).text(), "boom");
}

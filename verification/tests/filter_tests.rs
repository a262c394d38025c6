use feed_poster::filter::parse_filter;
use feed_poster::filter::passes;
use feed_poster::filter::FilterExpression;

#[test]
fn no_filter_passes_everything() {
    let expr = parse_filter("").unwrap();
    assert!(matches!(expr, FilterExpression::NoFilter));
    assert!(passes(&expr, "anything at all"));
    assert!(passes(&expr, ""));
}

#[test]
fn unmarked_string_applies_no_filter() {
    let expr = parse_filter("just some words").unwrap();
    assert!(matches!(expr, FilterExpression::NoFilter));
    assert!(passes(&expr, "a title"));
}

#[test]
fn include_filter_keeps_matching_title() {
    let expr = parse_filter("INCLUDE:Rust").unwrap();
    assert!(matches!(expr, FilterExpression::Include(_)));
    assert!(passes(&expr, "Rust news"));
    assert!(!passes(&expr, "Go news"));
}

#[test]
fn include_filter_needs_only_one_match() {
    let expr = parse_filter("INCLUDE:alpha,beta").unwrap();
    assert!(passes(&expr, "the beta release"));
    assert!(passes(&expr, "alpha quality"));
    assert!(!passes(&expr, "gamma rays"));
}

#[test]
fn include_filter_is_case_sensitive() {
    let expr = parse_filter("INCLUDE:Rust").unwrap();
    assert!(!passes(&expr, "rust news"));
}

#[test]
fn include_with_empty_list_blocks_everything() {
    let expr = parse_filter("INCLUDE:").unwrap();
    match &expr {
        FilterExpression::Include(subs) => assert_eq!(subs.len(), 0),
        _ => panic!("expected an include filter"),
    }
    assert!(!passes(&expr, "any title"));
    assert!(!passes(&expr, ""));
}

#[test]
fn exclude_filter_blocks_matching_title() {
    let expr = parse_filter("EXCLUDE:iPhone,iPad").unwrap();
    assert!(matches!(expr, FilterExpression::Exclude(_)));
    assert!(!passes(&expr, "new iPhone event"));
    assert!(!passes(&expr, "iPad mini"));
    assert!(passes(&expr, "Mac event"));
}

#[test]
fn exclude_with_empty_list_passes_everything() {
    let expr = parse_filter("EXCLUDE:").unwrap();
    match &expr {
        FilterExpression::Exclude(subs) => assert_eq!(subs.len(), 0),
        _ => panic!("expected an exclude filter"),
    }
    assert!(passes(&expr, "any title"));
}

#[test]
fn mixed_markers_are_a_configuration_error() {
    assert!(parse_filter("INCLUDE:a,EXCLUDE:b").is_none());
    assert!(parse_filter("EXCLUDE:a,INCLUDE:b").is_none());
}

#[test]
fn comma_splitting_keeps_pieces_in_order() {
    let expr = parse_filter("INCLUDE:one,two,three").unwrap();
    match &expr {
        FilterExpression::Include(subs) => {
            assert_eq!(subs.len(), 3);
            assert_eq!(subs[0], "one");
            assert_eq!(subs[1], "two");
            assert_eq!(subs[2], "three");
        },
        _ => panic!("expected an include filter"),
    }
}

#[test]
fn empty_piece_in_list_matches_every_title() {
    // "a,,b" splits into "a", "", "b"; the empty substring is contained in
    // every title, so this include filter passes everything.
    let expr = parse_filter("INCLUDE:a,,b").unwrap();
    assert!(passes(&expr, "zzz"));
}

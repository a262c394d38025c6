//! Feed parsing. The two XML formats are read by outside parsers behind
//! trusted wrappers that hand back plain raw records; the normalization of
//! those records into `FeedEntry` values — mandatory fields, date parsing,
//! published/updated resolution — is verified here.

use vstd::prelude::*;

use crate::dates::feed_date_epoch;
use crate::dates::parse_feed_date;
use crate::feed::EntryModel;
use crate::feed::FeedEntry;
use crate::text::string_views;

verus! {

/// One RSS channel item as the outside parser reports it: every field of
/// interest may be absent.
pub struct RssItemRaw {
    pub title: Option<String>,
    pub link: Option<String>,
    pub pub_date: Option<String>,
}

/// One Atom feed entry as the outside parser reports it: a mandatory title
/// and update time, any number of links, an optional publish time (epoch
/// seconds).
pub struct AtomEntryRaw {
    pub title: String,
    pub links: Vec<String>,
    pub published: Option<i64>,
    pub updated: i64,
}

pub open spec fn opt_view(o: Option<String>) -> Option<Seq<char>> {
    match o {
        Some(s) => Some(s@),
        None => None,
    }
}

pub open spec fn opt_int(o: Option<i64>) -> Option<int> {
    match o {
        Some(t) => Some(t as int),
        None => None,
    }
}

/// The shape of a raw RSS item: title, link, publish-date string.
pub type RssItemModel = (Option<Seq<char>>, Option<Seq<char>>, Option<Seq<char>>);

/// The shape of a raw Atom entry: title, links, publish time, update time.
pub type AtomEntryModel = (Seq<char>, Seq<Seq<char>>, Option<int>, int);

impl RssItemRaw {
    pub open spec fn model(self) -> RssItemModel {
        (opt_view(self.title), opt_view(self.link), opt_view(self.pub_date))
    }
}

impl AtomEntryRaw {
    pub open spec fn model(self) -> AtomEntryModel {
        (self.title@, string_views(self.links@), opt_int(self.published), self.updated as int)
    }
}

pub open spec fn rss_models(items: Seq<RssItemRaw>) -> Seq<RssItemModel> {
    items.map_values(|it: RssItemRaw| it.model())
}

pub open spec fn atom_models(entries: Seq<AtomEntryRaw>) -> Seq<AtomEntryModel> {
    entries.map_values(|e: AtomEntryRaw| e.model())
}

pub open spec fn entry_models(entries: Seq<FeedEntry>) -> Seq<EntryModel> {
    entries.map_values(|e: FeedEntry| e.model())
}

/// The items an RSS document holds, or nothing where the document is
/// malformed.
pub uninterp spec fn rss_parse(text: Seq<char>) -> Option<Seq<RssItemModel>>;

/// The entries an Atom document holds, or nothing where the document is
/// malformed.
pub uninterp spec fn atom_parse(text: Seq<char>) -> Option<Seq<AtomEntryModel>>;

#[verifier::external_type_specification]
#[verifier::external_body]
pub struct ExRssError(rss::Error);

#[verifier::external_type_specification]
#[verifier::external_body]
pub struct ExAtomError(atom_syndication::Error);

/// Relies on `rss::Channel::read_from`: reads an RSS document and hands out
/// each item's title, link and publish-date string; the result is a function
/// of the document text alone.
#[verifier::external_body]
pub(crate) fn read_rss_items(text: &str) -> (r: Result<Vec<RssItemRaw>, rss::Error>)
    ensures
        r is Ok <==> rss_parse(text@) is Some,
        r matches Ok(items) ==> rss_parse(text@) == Some(rss_models(items@)),
{
    let channel = rss::Channel::read_from(text.as_bytes())?;
    Ok(channel
        .items()
        .iter()
        .map(|it| RssItemRaw {
            title: it.title().map(|v| v.to_string()),
            link: it.link().map(|v| v.to_string()),
            pub_date: it.pub_date().map(|v| v.to_string()),
        })
        .collect())
}

/// Relies on `atom_syndication::Feed`'s `FromStr` (and chrono's `timestamp`
/// for its date fields): reads an Atom document and hands out each entry's
/// title, link targets, and publish/update times in epoch seconds; the result
/// is a function of the document text alone.
#[verifier::external_body]
pub(crate) fn read_atom_entries(text: &str) -> (r: Result<Vec<AtomEntryRaw>, atom_syndication::Error>)
    ensures
        r is Ok <==> atom_parse(text@) is Some,
        r matches Ok(entries) ==> atom_parse(text@) == Some(atom_models(entries@)),
{
    let feed: atom_syndication::Feed = text.parse()?;
    Ok(feed
        .entries()
        .iter()
        .map(|e| AtomEntryRaw {
            title: e.title().value.clone(),
            links: e.links().iter().map(|l| l.href().to_string()).collect(),
            published: e.published().map(|d| d.timestamp()),
            updated: e.updated().timestamp(),
        })
        .collect())
}

/// Relies on `rss::Error`'s `Display` implementation for a diagnostic
/// message.
#[verifier::external_body]
pub(crate) fn rss_error_text(e: &rss::Error) -> String {
    e.to_string()
}

/// Relies on `atom_syndication::Error`'s `Display` implementation for a
/// diagnostic message.
#[verifier::external_body]
pub(crate) fn atom_error_text(e: &atom_syndication::Error) -> String {
    e.to_string()
}

/// Why a feed's document was rejected: a structurally malformed document
/// (with the parser's message), or an item that lacks a mandatory field or
/// carries an unreadable date.
#[derive(Debug)]
pub enum ParseDefect {
    Malformed(String),
    MissingTitle,
    MissingDate,
    UnparsableDate,
    MissingLink,
}

impl ParseDefect {
    pub open spec fn spec_text(self) -> Seq<char> {
        match self {
            ParseDefect::Malformed(m) => m@,
            ParseDefect::MissingTitle => "item without a title"@,
            ParseDefect::MissingDate => "item without a publish date"@,
            ParseDefect::UnparsableDate => "item with an unreadable publish date"@,
            ParseDefect::MissingLink => "entry without a link"@,
        }
    }

    /// The diagnostic text of this defect.
    pub fn text(&self) -> (r: String)
        ensures
            r@ == self.spec_text(),
    {
        match self {
            ParseDefect::Malformed(m) => m.clone(),
            ParseDefect::MissingTitle => "item without a title".to_owned(),
            ParseDefect::MissingDate => "item without a publish date".to_owned(),
            ParseDefect::UnparsableDate => "item with an unreadable publish date".to_owned(),
            ParseDefect::MissingLink => "entry without a link".to_owned(),
        }
    }
}

/// How one raw RSS item normalizes: title and publish date are mandatory,
/// the date string must parse, and a missing link becomes the empty string.
pub open spec fn norm_rss_item(it: RssItemModel) -> Result<EntryModel, ParseDefect> {
    if it.0 is None {
        Err(ParseDefect::MissingTitle)
    } else if it.2 is None {
        Err(ParseDefect::MissingDate)
    } else if feed_date_epoch(it.2.unwrap()) is None {
        Err(ParseDefect::UnparsableDate)
    } else {
        Ok(
            (
                it.0.unwrap(),
                if it.1 is Some {
                    it.1.unwrap()
                } else {
                    Seq::empty()
                },
                feed_date_epoch(it.2.unwrap()).unwrap(),
            ),
        )
    }
}

/// How a whole RSS item list normalizes: the entries in order, or the defect
/// of the first bad item.
pub open spec fn norm_rss(items: Seq<RssItemModel>) -> Result<Seq<EntryModel>, ParseDefect>
    decreases items.len(),
{
    if items.len() == 0 {
        Ok(Seq::empty())
    } else {
        match norm_rss_item(items[0]) {
            Err(d) => Err(d),
            Ok(e) => match norm_rss(items.drop_first()) {
                Ok(rest) => Ok(seq![e] + rest),
                Err(d) => Err(d),
            },
        }
    }
}

/// How one raw Atom entry normalizes: at least one link is mandatory (the
/// first is used), and an entry without a publish time resolves to its
/// update time.
pub open spec fn norm_atom_entry(e: AtomEntryModel) -> Result<EntryModel, ParseDefect> {
    if e.1.len() == 0 {
        Err(ParseDefect::MissingLink)
    } else {
        Ok(
            (
                e.0,
                e.1[0],
                if e.2 is Some {
                    e.2.unwrap()
                } else {
                    e.3
                },
            ),
        )
    }
}

/// How a whole Atom entry list normalizes: the entries in order, or the
/// defect of the first bad entry.
pub open spec fn norm_atom(entries: Seq<AtomEntryModel>) -> Result<Seq<EntryModel>, ParseDefect>
    decreases entries.len(),
{
    if entries.len() == 0 {
        Ok(Seq::empty())
    } else {
        match norm_atom_entry(entries[0]) {
            Err(d) => Err(d),
            Ok(e) => match norm_atom(entries.drop_first()) {
                Ok(rest) => Ok(seq![e] + rest),
                Err(d) => Err(d),
            },
        }
    }
}

proof fn lemma_norm_rss_all_ok(items: Seq<RssItemModel>, entries: Seq<EntryModel>)
    requires
        entries.len() == items.len(),
        forall|k: int|
            0 <= k < items.len() ==> #[trigger] norm_rss_item(items[k]) == Ok::<
                EntryModel,
                ParseDefect,
            >(entries[k]),
    ensures
        norm_rss(items) == Ok::<Seq<EntryModel>, ParseDefect>(entries),
    decreases items.len(),
{
    if items.len() == 0 {
        assert(entries =~= Seq::<EntryModel>::empty());
    } else {
        lemma_norm_rss_all_ok(items.drop_first(), entries.drop_first());
        assert(seq![entries[0]] + entries.drop_first() =~= entries);
    }
}

proof fn lemma_norm_rss_first_bad(items: Seq<RssItemModel>, b: int)
    requires
        0 <= b < items.len(),
        forall|k: int| 0 <= k < b ==> #[trigger] norm_rss_item(items[k]) is Ok,
        norm_rss_item(items[b]) is Err,
    ensures
        norm_rss(items) is Err,
        norm_rss(items) == Err::<Seq<EntryModel>, ParseDefect>(
            norm_rss_item(items[b])->Err_0,
        ),
    decreases b,
{
    if b > 0 {
        lemma_norm_rss_first_bad(items.drop_first(), b - 1);
    }
}

proof fn lemma_norm_atom_all_ok(entries: Seq<AtomEntryModel>, out: Seq<EntryModel>)
    requires
        out.len() == entries.len(),
        forall|k: int|
            0 <= k < entries.len() ==> #[trigger] norm_atom_entry(entries[k]) == Ok::<
                EntryModel,
                ParseDefect,
            >(out[k]),
    ensures
        norm_atom(entries) == Ok::<Seq<EntryModel>, ParseDefect>(out),
    decreases entries.len(),
{
    if entries.len() == 0 {
        assert(out =~= Seq::<EntryModel>::empty());
    } else {
        lemma_norm_atom_all_ok(entries.drop_first(), out.drop_first());
        assert(seq![out[0]] + out.drop_first() =~= out);
    }
}

proof fn lemma_norm_atom_first_bad(entries: Seq<AtomEntryModel>, b: int)
    requires
        0 <= b < entries.len(),
        forall|k: int| 0 <= k < b ==> #[trigger] norm_atom_entry(entries[k]) is Ok,
        norm_atom_entry(entries[b]) is Err,
    ensures
        norm_atom(entries) is Err,
        norm_atom(entries) == Err::<Seq<EntryModel>, ParseDefect>(
            norm_atom_entry(entries[b])->Err_0,
        ),
    decreases b,
{
    if b > 0 {
        lemma_norm_atom_first_bad(entries.drop_first(), b - 1);
    }
}

/// The publish time an entry resolves to: its own publish time where it has
/// one, its update time otherwise.
pub fn entry_time(published: Option<i64>, updated: i64) -> (r: i64)
    ensures
        published matches Some(p) ==> r == p,
        published is None ==> r == updated,
{
    match published {
        Some(p) => p,
        None => updated,
    }
}

/// Normalizes raw RSS items in order; the first item lacking a title or a
/// readable publish date rejects the whole list.
#[verifier::loop_isolation(false)]
pub fn normalize_rss(items: &Vec<RssItemRaw>) -> (r: Result<Vec<FeedEntry>, ParseDefect>)
    ensures
        r matches Ok(es) ==> norm_rss(rss_models(items@)) == Ok::<Seq<EntryModel>, ParseDefect>(
            entry_models(es@),
        ),
        r matches Err(d) ==> norm_rss(rss_models(items@)) == Err::<Seq<EntryModel>, ParseDefect>(
            d,
        ),
{
    let ghost ms = rss_models(items@);
    let mut out: Vec<FeedEntry> = Vec::new();
    let mut i: usize = 0;
    while i < items.len()
        invariant
            0 <= i <= items@.len(),
            out@.len() == i,
            forall|k: int|
                0 <= k < i ==> #[trigger] norm_rss_item(ms[k]) == Ok::<EntryModel, ParseDefect>(
                    entry_models(out@)[k],
                ),
        decreases items@.len() - i,
    {
        let it = &items[i];
        proof {
            assert(ms[i as int] == items@[i as int].model());
        }
        let title = match &it.title {
            Some(t) => t.clone(),
            None => {
                proof {
                    lemma_norm_rss_first_bad(ms, i as int);
                }
                return Err(ParseDefect::MissingTitle);
            },
        };
        let date = match &it.pub_date {
            Some(d) => d,
            None => {
                proof {
                    lemma_norm_rss_first_bad(ms, i as int);
                }
                return Err(ParseDefect::MissingDate);
            },
        };
        let published = match parse_feed_date(date.as_str()) {
            Some(t) => t,
            None => {
                proof {
                    lemma_norm_rss_first_bad(ms, i as int);
                }
                return Err(ParseDefect::UnparsableDate);
            },
        };
        let link = match &it.link {
            Some(l) => l.clone(),
            None => String::new(),
        };
        let entry = FeedEntry { title, link, published };
        let ghost old_out = out@;
        out.push(entry);
        proof {
            assert(entry_models(out@) =~= entry_models(old_out).push(entry.model()));
            assert(norm_rss_item(ms[i as int]) == Ok::<EntryModel, ParseDefect>(entry.model()));
        }
        i += 1;
    }
    proof {
        lemma_norm_rss_all_ok(ms, entry_models(out@));
    }
    Ok(out)
}

/// Normalizes raw Atom entries in order; the first entry without a link
/// rejects the whole list. An entry without a publish time resolves to its
/// update time.
#[verifier::loop_isolation(false)]
pub fn normalize_atom(entries: &Vec<AtomEntryRaw>) -> (r: Result<Vec<FeedEntry>, ParseDefect>)
    ensures
        r matches Ok(es) ==> norm_atom(atom_models(entries@)) == Ok::<
            Seq<EntryModel>,
            ParseDefect,
        >(entry_models(es@)),
        r matches Err(d) ==> norm_atom(atom_models(entries@)) == Err::<
            Seq<EntryModel>,
            ParseDefect,
        >(d),
{
    let ghost ms = atom_models(entries@);
    let mut out: Vec<FeedEntry> = Vec::new();
    let mut i: usize = 0;
    while i < entries.len()
        invariant
            0 <= i <= entries@.len(),
            out@.len() == i,
            forall|k: int|
                0 <= k < i ==> #[trigger] norm_atom_entry(ms[k]) == Ok::<EntryModel, ParseDefect>(
                    entry_models(out@)[k],
                ),
        decreases entries@.len() - i,
    {
        let e = &entries[i];
        proof {
            assert(ms[i as int] == entries@[i as int].model());
        }
        if e.links.len() == 0 {
            proof {
                lemma_norm_atom_first_bad(ms, i as int);
            }
            return Err(ParseDefect::MissingLink);
        }
        let link = e.links[0].clone();
        let published = entry_time(e.published, e.updated);
        let entry = FeedEntry { title: e.title.clone(), link, published };
        let ghost old_out = out@;
        out.push(entry);
        proof {
            assert(entry_models(out@) =~= entry_models(old_out).push(entry.model()));
            assert(string_views(e.links@)[0] == e.links@[0]@);
            assert(norm_atom_entry(ms[i as int]) == Ok::<EntryModel, ParseDefect>(entry.model()));
        }
        i += 1;
    }
    proof {
        lemma_norm_atom_all_ok(ms, entry_models(out@));
    }
    Ok(out)
}

} // verus!

//! Per-feed title filters. A filter is written as a single string: empty
//! applies no filter, `INCLUDE:` followed by a comma-separated list keeps a
//! title only when it contains at least one listed substring, and `EXCLUDE:`
//! followed by such a list keeps a title only when it contains none. A string
//! mixing both markers is a configuration error.

use vstd::prelude::*;

use crate::text::contains_seq;
use crate::text::contains_substring;
use crate::text::has_prefix;
use crate::text::split_on_commas;
use crate::text::split_commas;
use crate::text::starts_with;
use crate::text::string_views;

verus! {

/// A parsed filter expression: exactly one of the three variants.
pub enum FilterExpression {
    NoFilter,
    Include(Vec<String>),
    Exclude(Vec<String>),
}

/// The mathematical shape of a filter expression, over character sequences.
#[verifier::ext_equal]
pub enum FilterModel {
    NoFilter,
    Include(Seq<Seq<char>>),
    Exclude(Seq<Seq<char>>),
}

impl FilterExpression {
    /// The model of this expression: its substrings as character sequences.
    pub open spec fn model(self) -> FilterModel {
        match self {
            FilterExpression::NoFilter => FilterModel::NoFilter,
            FilterExpression::Include(subs) => FilterModel::Include(string_views(subs@)),
            FilterExpression::Exclude(subs) => FilterModel::Exclude(string_views(subs@)),
        }
    }
}

/// The title contains at least one of the given substrings.
pub open spec fn any_contained(subs: Seq<Seq<char>>, title: Seq<char>) -> bool {
    exists|i: int| 0 <= i < subs.len() && #[trigger] contains_seq(title, subs[i])
}

/// The title contains none of the given substrings.
pub open spec fn none_contained(subs: Seq<Seq<char>>, title: Seq<char>) -> bool {
    forall|i: int| 0 <= i < subs.len() ==> !#[trigger] contains_seq(title, subs[i])
}

/// Whether a title passes a filter: an include filter demands at least one of
/// its substrings in the title (so an empty include list passes nothing); an
/// exclude filter forbids every one of its substrings (so an empty exclude
/// list passes everything).
pub open spec fn model_passes(fm: FilterModel, title: Seq<char>) -> bool {
    match fm {
        FilterModel::NoFilter => true,
        FilterModel::Include(subs) => any_contained(subs, title),
        FilterModel::Exclude(subs) => none_contained(subs, title),
    }
}

/// Whether a title passes a parsed filter expression.
pub open spec fn filter_passes(expr: FilterExpression, title: Seq<char>) -> bool {
    model_passes(expr.model(), title)
}

pub open spec fn include_marker() -> Seq<char> {
    "INCLUDE:"@
}

pub open spec fn exclude_marker() -> Seq<char> {
    "EXCLUDE:"@
}

/// The meaning of a filter string: empty applies no filter; a string with the
/// include (exclude) marker as prefix is an include (exclude) filter over the
/// comma-separated list after the marker, with an empty list for an empty
/// remainder; a remainder holding the opposite marker is a configuration
/// error; any other string applies no filter.
pub open spec fn spec_parse_filter(s: Seq<char>) -> Option<FilterModel> {
    if s.len() == 0 {
        Some(FilterModel::NoFilter)
    } else if has_prefix(s, include_marker()) {
        let rest = s.subrange(include_marker().len() as int, s.len() as int);
        if contains_seq(rest, exclude_marker()) {
            None
        } else if rest.len() == 0 {
            Some(FilterModel::Include(Seq::empty()))
        } else {
            Some(FilterModel::Include(split_on_commas(rest)))
        }
    } else if has_prefix(s, exclude_marker()) {
        let rest = s.subrange(exclude_marker().len() as int, s.len() as int);
        if contains_seq(rest, include_marker()) {
            None
        } else if rest.len() == 0 {
            Some(FilterModel::Exclude(Seq::empty()))
        } else {
            Some(FilterModel::Exclude(split_on_commas(rest)))
        }
    } else {
        Some(FilterModel::NoFilter)
    }
}

/// Parses a filter string; `None` marks the configuration error of mixing
/// the include and exclude markers in one expression.
pub fn parse_filter(s: &str) -> (r: Option<FilterExpression>)
    ensures
        r is Some <==> spec_parse_filter(s@) is Some,
        r matches Some(e) ==> spec_parse_filter(s@) == Some(e.model()),
{
    proof {
        reveal_strlit("INCLUDE:");
        reveal_strlit("EXCLUDE:");
    }
    let len = s.unicode_len();
    if len == 0 {
        return Some(FilterExpression::NoFilter);
    }
    if starts_with(s, "INCLUDE:") {
        let rest = s.substring_char(8, len);
        proof {
            assert(rest@ == s@.subrange(include_marker().len() as int, s@.len() as int));
        }
        if contains_substring(rest, "EXCLUDE:") {
            return None;
        }
        if rest.unicode_len() == 0 {
            let subs: Vec<String> = Vec::new();
            let e = FilterExpression::Include(subs);
            proof {
                assert(e.model() =~~= FilterModel::Include(Seq::empty()));
            }
            return Some(e);
        }
        return Some(FilterExpression::Include(split_commas(rest)));
    }
    if starts_with(s, "EXCLUDE:") {
        let rest = s.substring_char(8, len);
        proof {
            assert(rest@ == s@.subrange(exclude_marker().len() as int, s@.len() as int));
        }
        if contains_substring(rest, "INCLUDE:") {
            return None;
        }
        if rest.unicode_len() == 0 {
            let subs: Vec<String> = Vec::new();
            let e = FilterExpression::Exclude(subs);
            proof {
                assert(e.model() =~~= FilterModel::Exclude(Seq::empty()));
            }
            return Some(e);
        }
        return Some(FilterExpression::Exclude(split_commas(rest)));
    }
    Some(FilterExpression::NoFilter)
}

/// Decides whether a title passes a filter expression.
#[verifier::loop_isolation(false)]
pub fn passes(expr: &FilterExpression, title: &str) -> (r: bool)
    ensures
        r == filter_passes(*expr, title@),
{
    match expr {
        FilterExpression::NoFilter => true,
        FilterExpression::Include(subs) => {
            let ghost m = string_views(subs@);
            let mut i: usize = 0;
            while i < subs.len()
                invariant
                    m == string_views(subs@),
                    0 <= i <= subs@.len(),
                    forall|k: int| 0 <= k < i ==> !#[trigger] contains_seq(title@, m[k]),
                decreases subs@.len() - i,
            {
                if contains_substring(title, subs[i].as_str()) {
                    proof {
                        assert(m.len() == subs@.len());
                        assert(m[i as int] == subs@[i as int]@);
                        assert(contains_seq(title@, m[i as int]));
                        assert(any_contained(m, title@));
                    }
                    return true;
                }
                proof {
                    assert(m[i as int] == subs@[i as int]@);
                }
                i += 1;
            }
            false
        },
        FilterExpression::Exclude(subs) => {
            let ghost m = string_views(subs@);
            let mut i: usize = 0;
            while i < subs.len()
                invariant
                    m == string_views(subs@),
                    0 <= i <= subs@.len(),
                    forall|k: int| 0 <= k < i ==> !#[trigger] contains_seq(title@, m[k]),
                decreases subs@.len() - i,
            {
                if contains_substring(title, subs[i].as_str()) {
                    proof {
                        assert(m.len() == subs@.len());
                        assert(m[i as int] == subs@[i as int]@);
                        assert(contains_seq(title@, m[i as int]));
                        assert(!none_contained(m, title@));
                    }
                    return false;
                }
                proof {
                    assert(m[i as int] == subs@[i as int]@);
                }
                i += 1;
            }
            true
        },
    }
}

} // verus!

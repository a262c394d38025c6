//! Character-level string utilities: substring containment, prefix tests,
//! and splitting on commas. These back the title-filter semantics.

use vstd::prelude::*;

verus! {

/// The views of a sequence of strings.
pub open spec fn string_views(ss: Seq<String>) -> Seq<Seq<char>> {
    ss.map_values(|p: String| p@)
}

/// `needle` occurs as a contiguous run of characters inside `hay`.
pub open spec fn contains_seq(hay: Seq<char>, needle: Seq<char>) -> bool {
    exists|i: int|
        0 <= i && i + needle.len() <= hay.len() && #[trigger] hay.subrange(i, i + needle.len())
            == needle
}

/// `p` is a prefix of `s`.
pub open spec fn has_prefix(s: Seq<char>, p: Seq<char>) -> bool {
    p.len() <= s.len() && s.subrange(0, p.len() as int) == p
}

/// Does `needle` occur in `hay` starting at position `at`?
fn matches_at(hay: &str, needle: &str, at: usize, hay_len: usize, needle_len: usize) -> (r: bool)
    requires
        hay_len == hay@.len(),
        needle_len == needle@.len(),
        at + needle_len <= hay_len,
    ensures
        r == (hay@.subrange(at as int, at + needle@.len()) == needle@),
{
    let mut j: usize = 0;
    while j < needle_len
        invariant
            hay_len == hay@.len(),
            needle_len == needle@.len(),
            at + needle_len <= hay_len,
            0 <= j <= needle_len,
            forall|k: int| 0 <= k < j ==> hay@[at + k] == needle@[k],
        decreases needle_len - j,
    {
        if hay.get_char(at + j) != needle.get_char(j) {
            proof {
                assert(hay@.subrange(at as int, at + needle@.len())[j as int] != needle@[j as int]);
            }
            return false;
        }
        j += 1;
    }
    proof {
        assert(hay@.subrange(at as int, at + needle@.len()) =~= needle@);
    }
    true
}

/// Substring search; decides `contains_seq` on the views.
pub fn contains_substring(hay: &str, needle: &str) -> (r: bool)
    ensures
        r == contains_seq(hay@, needle@),
{
    let hay_len = hay.unicode_len();
    let needle_len = needle.unicode_len();
    if needle_len > hay_len {
        return false;
    }
    if needle_len == 0 {
        proof {
            assert(hay@.subrange(0, 0 + needle@.len() as int) =~= needle@);
            assert(contains_seq(hay@, needle@));
        }
        return true;
    }
    let mut i: usize = 0;
    while i <= hay_len - needle_len
        invariant
            hay_len == hay@.len(),
            needle_len == needle@.len(),
            0 < needle_len <= hay_len,
            0 <= i <= hay_len - needle_len + 1,
            forall|k: int|
                0 <= k < i ==> #[trigger] hay@.subrange(k, k + needle@.len()) != needle@,
        decreases hay_len - needle_len + 1 - i,
    {
        if matches_at(hay, needle, i, hay_len, needle_len) {
            return true;
        }
        i += 1;
    }
    false
}

/// Prefix test; decides `has_prefix` on the views.
pub fn starts_with(s: &str, p: &str) -> (r: bool)
    ensures
        r == has_prefix(s@, p@),
{
    let s_len = s.unicode_len();
    let p_len = p.unicode_len();
    if p_len > s_len {
        return false;
    }
    matches_at(s, p, 0, s_len, p_len)
}

/// Single-character containment, decided on the view.
pub fn contains_char(s: &str, c: char) -> (r: bool)
    ensures
        r == s@.contains(c),
{
    let len = s.unicode_len();
    let mut i: usize = 0;
    while i < len
        invariant
            len == s@.len(),
            0 <= i <= len,
            forall|k: int| 0 <= k < i ==> s@[k] != c,
        decreases len - i,
    {
        if s.get_char(i) == c {
            return true;
        }
        i += 1;
    }
    false
}

/// The pieces of `s` between its commas, in order. The empty sequence of
/// characters splits into one empty piece.
pub open spec fn split_on_commas(s: Seq<char>) -> Seq<Seq<char>>
    decreases s.len(),
{
    if s.len() == 0 {
        seq![Seq::<char>::empty()]
    } else if s[0] == ',' {
        seq![Seq::<char>::empty()] + split_on_commas(s.drop_first())
    } else {
        let rest = split_on_commas(s.drop_first());
        seq![seq![s[0]] + rest[0]] + rest.drop_first()
    }
}

pub proof fn lemma_split_len(s: Seq<char>)
    ensures
        split_on_commas(s).len() >= 1,
    decreases s.len(),
{
    if s.len() == 0 {
    } else if s[0] == ',' {
        lemma_split_len(s.drop_first());
    } else {
        lemma_split_len(s.drop_first());
    }
}

/// If the first comma of `s` stands at `k`, the pieces of `s` are the run
/// before it followed by the pieces of what stands after it.
proof fn lemma_split_first_comma(s: Seq<char>, k: int)
    requires
        0 <= k < s.len(),
        s[k] == ',',
        forall|j: int| 0 <= j < k ==> s[j] != ',',
    ensures
        split_on_commas(s) == seq![s.subrange(0, k)] + split_on_commas(
            s.subrange(k + 1, s.len() as int),
        ),
    decreases k,
{
    if k == 0 {
        assert(s.drop_first() =~= s.subrange(1, s.len() as int));
        assert(s.subrange(0, 0) =~= Seq::<char>::empty());
        assert(seq![Seq::<char>::empty()] + split_on_commas(s.drop_first()) =~~= seq![
            s.subrange(0, 0),
        ] + split_on_commas(s.subrange(1, s.len() as int)));
    } else {
        let tail = s.drop_first();
        lemma_split_first_comma(tail, k - 1);
        lemma_split_len(tail.subrange(k, tail.len() as int));
        let rest = split_on_commas(tail);
        assert(split_on_commas(s) == seq![seq![s[0]] + rest[0]] + rest.drop_first());
        assert(rest == seq![tail.subrange(0, k - 1)] + split_on_commas(
            tail.subrange(k, tail.len() as int),
        ));
        assert(rest[0] == tail.subrange(0, k - 1));
        assert(seq![s[0]] + tail.subrange(0, k - 1) =~= s.subrange(0, k));
        assert(rest.drop_first() =~~= split_on_commas(tail.subrange(k, tail.len() as int)));
        assert(tail.subrange(k, tail.len() as int) =~= s.subrange(k + 1, s.len() as int));
        assert(split_on_commas(s) =~~= seq![s.subrange(0, k)] + split_on_commas(
            s.subrange(k + 1, s.len() as int),
        ));
    }
}

/// A run without commas is a single piece.
proof fn lemma_split_no_comma(s: Seq<char>)
    requires
        forall|j: int| 0 <= j < s.len() ==> s[j] != ',',
    ensures
        split_on_commas(s) == seq![s],
    decreases s.len(),
{
    if s.len() == 0 {
        assert(Seq::<char>::empty() =~= s);
    } else {
        lemma_split_no_comma(s.drop_first());
        assert(seq![s[0]] + s.drop_first() =~= s);
        assert(split_on_commas(s) =~~= seq![s]);
    }
}

/// Splits `s` on commas; the views of the returned pieces are exactly
/// `split_on_commas(s@)`.
pub fn split_commas(s: &str) -> (r: Vec<String>)
    ensures
        string_views(r@) == split_on_commas(s@),
{
    let len = s.unicode_len();
    let mut out: Vec<String> = Vec::new();
    let mut start: usize = 0;
    let mut i: usize = 0;
    proof {
        assert(s@.subrange(0, len as int) =~= s@);
        assert(string_views(out@) + split_on_commas(s@) =~~= split_on_commas(s@));
    }
    while i < len
        invariant
            len == s@.len(),
            0 <= start <= i <= len,
            forall|j: int| start <= j < i ==> s@[j] != ',',
            split_on_commas(s@) == string_views(out@) + split_on_commas(
                s@.subrange(start as int, len as int),
            ),
        decreases len - i,
    {
        if s.get_char(i) == ',' {
            let piece = s.substring_char(start, i).to_owned();
            proof {
                let suffix = s@.subrange(start as int, len as int);
                lemma_split_first_comma(suffix, i - start);
                assert(suffix.subrange(0, i - start) =~= s@.subrange(start as int, i as int));
                assert(suffix.subrange(i - start + 1, suffix.len() as int) =~= s@.subrange(
                    i + 1,
                    len as int,
                ));
            }
            let ghost old_out = out@;
            out.push(piece);
            proof {
                assert(string_views(out@) =~= string_views(old_out).push(piece@));
                assert(split_on_commas(s@) =~~= string_views(out@) + split_on_commas(
                    s@.subrange(i + 1, len as int),
                ));
            }
            start = i + 1;
        }
        i += 1;
    }
    let piece = s.substring_char(start, len).to_owned();
    proof {
        lemma_split_no_comma(s@.subrange(start as int, len as int));
    }
    let ghost old_out = out@;
    out.push(piece);
    proof {
        assert(string_views(out@) =~= string_views(old_out).push(piece@));
        assert(split_on_commas(s@) =~~= string_views(out@));
    }
    out
}

} // verus!

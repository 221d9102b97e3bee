//! String utilities the dispatch engine is built on: character-exact string
//! comparison, splitting on a separator character, and last-wins lookup in a
//! list of key/value pairs (the executable stand-in for a hash map whose
//! later inserts override earlier ones).

use vstd::prelude::*;
use vstd::string::*;

verus! {

/// The views of a sequence of owned strings.
pub open spec fn strs_view(v: Seq<String>) -> Seq<Seq<char>> {
    v.map_values(|x: String| x@)
}

/// The views of a sequence of key/value string pairs.
pub open spec fn pairs_view(v: Seq<(String, String)>) -> Seq<(Seq<char>, Seq<char>)> {
    v.map_values(|p: (String, String)| (p.0@, p.1@))
}

/// Splitting a character sequence on a separator, exactly as `str::split`
/// does: every occurrence of the separator ends a segment, empty segments are
/// kept, and the empty input yields one empty segment.
pub open spec fn spec_split(s: Seq<char>, sep: char) -> Seq<Seq<char>>
    decreases s.len(),
{
    if s.len() == 0 {
        seq![Seq::<char>::empty()]
    } else {
        let rest = spec_split(s.drop_last(), sep);
        if s.last() == sep {
            rest.push(Seq::<char>::empty())
        } else {
            rest.update(rest.len() - 1, rest.last().push(s.last()))
        }
    }
}

pub proof fn lemma_split_len(s: Seq<char>, sep: char)
    ensures
        spec_split(s, sep).len() >= 1,
    decreases s.len(),
{
    if s.len() > 0 {
        lemma_split_len(s.drop_last(), sep);
    }
}

/// Last-wins lookup in an association list: the value of the last pair whose
/// key equals `key`, as a hash map filled by repeated inserts would hold it.
pub open spec fn spec_lookup(pairs: Seq<(Seq<char>, Seq<char>)>, key: Seq<char>) -> Option<
    Seq<char>,
>
    decreases pairs.len(),
{
    if pairs.len() == 0 {
        None
    } else if pairs.last().0 == key {
        Some(pairs.last().1)
    } else {
        spec_lookup(pairs.drop_last(), key)
    }
}

/// Character-exact comparison of two string slices.
pub fn str_eq(a: &str, b: &str) -> (r: bool)
    ensures
        r == (a@ == b@),
{
    let n: usize = a.unicode_len();
    if n != b.unicode_len() {
        return false;
    }
    let mut i: usize = 0;
    while i < n
        invariant
            n == a@.len(),
            n == b@.len(),
            0 <= i <= n,
            forall|k: int| 0 <= k < i ==> a@[k] == b@[k],
        decreases n - i,
    {
        if a.get_char(i) != b.get_char(i) {
            return false;
        }
        i = i + 1;
    }
    proof {
        assert(a@ =~= b@);
    }
    true
}

proof fn lemma_split_step(s: Seq<char>, sep: char, i: int)
    requires
        0 <= i < s.len(),
    ensures
        s[i] == sep ==> spec_split(s.take(i + 1), sep) == spec_split(s.take(i), sep).push(
            Seq::<char>::empty(),
        ),
        s[i] != sep ==> spec_split(s.take(i + 1), sep) == spec_split(s.take(i), sep).update(
            spec_split(s.take(i), sep).len() - 1,
            spec_split(s.take(i), sep).last().push(s[i]),
        ),
{
    let t = s.take(i + 1);
    assert(t.drop_last() =~= s.take(i));
    assert(t.last() == s[i]);
}

/// Split a string slice on a separator character, keeping empty segments.
pub fn split_char(s: &str, sep: char) -> (segs: Vec<String>)
    ensures
        strs_view(segs@) == spec_split(s@, sep),
        segs@.len() >= 1,
{
    let n: usize = s.unicode_len();
    let mut segs: Vec<String> = Vec::new();
    let mut start: usize = 0;
    let mut i: usize = 0;
    proof {
        assert(s@.take(0) =~= Seq::<char>::empty());
        assert(s@.subrange(0, 0) =~= Seq::<char>::empty());
        assert(strs_view(segs@).push(s@.subrange(0, 0)) =~= seq![Seq::<char>::empty()]);
    }
    while i < n
        invariant
            n == s@.len(),
            0 <= start <= i <= n,
            strs_view(segs@).push(s@.subrange(start as int, i as int)) == spec_split(
                s@.take(i as int),
                sep,
            ),
        decreases n - i,
    {
        let ghost prev = segs@;
        let c = s.get_char(i);
        proof {
            lemma_split_step(s@, sep, i as int);
        }
        if c == sep {
            let piece = s.substring_char(start, i).to_owned();
            segs.push(piece);
            proof {
                assert(strs_view(segs@) =~= strs_view(prev).push(s@.subrange(
                    start as int,
                    i as int,
                )));
                assert(s@.subrange(i + 1, i + 1) =~= Seq::<char>::empty());
                assert(strs_view(segs@).push(s@.subrange(i + 1, i + 1)) =~= spec_split(
                    s@.take(i as int),
                    sep,
                ).push(Seq::<char>::empty()));
            }
            start = i + 1;
        } else {
            proof {
                let old_split = spec_split(s@.take(i as int), sep);
                assert(old_split.last() == s@.subrange(start as int, i as int));
                assert(s@.subrange(start as int, i as int).push(s@[i as int]) =~= s@.subrange(
                    start as int,
                    i + 1,
                ));
                assert(strs_view(segs@).push(s@.subrange(start as int, i + 1)) =~= old_split.update(
                    old_split.len() - 1,
                    old_split.last().push(s@[i as int]),
                ));
            }
        }
        i = i + 1;
    }
    let last_piece = s.substring_char(start, n).to_owned();
    let ghost prev = segs@;
    segs.push(last_piece);
    proof {
        assert(s@.take(n as int) =~= s@);
        assert(strs_view(segs@) =~= strs_view(prev).push(s@.subrange(start as int, n as int)));
    }
    segs
}

/// Last-wins lookup of `key` among string pairs, the executable counterpart
/// of `spec_lookup`.
pub fn lookup_value(pairs: &Vec<(String, String)>, key: &str) -> (r: Option<String>)
    ensures
        match r {
            Some(v) => spec_lookup(pairs_view(pairs@), key@) == Some(v@),
            None => spec_lookup(pairs_view(pairs@), key@) is None,
        },
{
    let mut i: usize = pairs.len();
    proof {
        assert(pairs_view(pairs@).take(pairs@.len() as int) =~= pairs_view(pairs@));
    }
    while i > 0
        invariant
            0 <= i <= pairs@.len(),
            spec_lookup(pairs_view(pairs@), key@) == spec_lookup(
                pairs_view(pairs@).take(i as int),
                key@,
            ),
        decreases i,
    {
        i = i - 1;
        let p = &pairs[i];
        proof {
            assert(pairs_view(pairs@).take(i + 1).last() == pairs_view(pairs@)[i as int]);
            assert(pairs_view(pairs@).take(i + 1).drop_last() =~= pairs_view(pairs@).take(i as int));
        }
        if str_eq(p.0.as_str(), key) {
            return Some(p.1.clone());
        }
    }
    None
}

} // verus!

//! The path-pattern matcher.  A pattern is a slash-delimited template whose
//! segments are either literals or named parameters (a leading `:`).  A
//! candidate path matches when it has exactly the same number of segments and
//! every literal segment agrees; each parameter segment binds the candidate
//! segment at its position, even an empty one.

use vstd::prelude::*;
use vstd::string::*;
use crate::strutil::{pairs_view, spec_lookup, spec_split, split_char, str_eq, strs_view};

verus! {

/// A parameter segment: nonempty and starting with the marker character.
pub open spec fn seg_is_param(seg: Seq<char>) -> bool {
    seg.len() > 0 && seg[0] == ':'
}

/// The name a parameter segment binds: everything after the marker.
pub open spec fn param_name(seg: Seq<char>) -> Seq<char> {
    seg.subrange(1, seg.len() as int)
}

/// Lockstep agreement of a pattern's segments with a candidate's: equal
/// counts, and byte-for-byte equality at every literal position.
pub open spec fn segs_match(pat: Seq<Seq<char>>, cand: Seq<Seq<char>>) -> bool {
    &&& pat.len() == cand.len()
    &&& forall|i: int| 0 <= i < pat.len() && !seg_is_param(pat[i]) ==> pat[i] == cand[i]
}

/// The parameter bindings a match produces, in segment order: one pair per
/// parameter segment, binding its name to the candidate segment at the same
/// position.
pub open spec fn spec_bindings(pat: Seq<Seq<char>>, cand: Seq<Seq<char>>) -> Seq<
    (Seq<char>, Seq<char>),
>
    decreases pat.len(),
{
    if pat.len() == 0 || cand.len() == 0 {
        Seq::empty()
    } else {
        let rest = spec_bindings(pat.drop_last(), cand.drop_last());
        if seg_is_param(pat.last()) {
            rest.push((param_name(pat.last()), cand.last()))
        } else {
            rest
        }
    }
}

/// Whether the template `pattern` matches the candidate `path`, both split
/// on the path separator.
pub open spec fn spec_pattern_match(pattern: Seq<char>, path: Seq<char>) -> bool {
    segs_match(spec_split(pattern, '/'), spec_split(path, '/'))
}

/// The bindings extracted when the template `pattern` matches `path`.
pub open spec fn spec_pattern_bindings(pattern: Seq<char>, path: Seq<char>) -> Seq<
    (Seq<char>, Seq<char>),
> {
    spec_bindings(spec_split(pattern, '/'), spec_split(path, '/'))
}

/// An immutable path template, compiled once at registration time.
/// Equality is by raw template string.
#[derive(Debug, Hash)]
pub struct Path {
    inner: String,
}

impl View for Path {
    type V = Seq<char>;

    closed spec fn view(&self) -> Seq<char> {
        self.inner@
    }
}

impl PartialEq for Path {
    fn eq(&self, other: &Path) -> (r: bool) {
        self.inner == other.inner
    }
}

impl vstd::std_specs::cmp::PartialEqSpecImpl for Path {
    open spec fn obeys_eq_spec() -> bool {
        true
    }

    open spec fn eq_spec(&self, other: &Path) -> bool {
        self@ == other@
    }
}

fn is_param_seg(seg: &str) -> (r: bool)
    ensures
        r == seg_is_param(seg@),
{
    let n: usize = seg.unicode_len();
    n >= 1 && seg.get_char(0) == ':'
}

fn match_segments(pat: &Vec<String>, cand: &Vec<String>) -> (r: Option<Vec<(String, String)>>)
    ensures
        (r is Some) == segs_match(strs_view(pat@), strs_view(cand@)),
        r matches Some(ps) ==> pairs_view(ps@) == spec_bindings(strs_view(pat@), strs_view(cand@)),
{
    let ghost pv = strs_view(pat@);
    let ghost cv = strs_view(cand@);
    if pat.len() != cand.len() {
        return None;
    }
    let n: usize = pat.len();
    let mut params: Vec<(String, String)> = Vec::new();
    let mut i: usize = 0;
    proof {
        assert(pairs_view(params@) =~= spec_bindings(pv.take(0), cv.take(0)));
    }
    while i < n
        invariant
            n == pv.len(),
            n == cv.len(),
            n == pat@.len(),
            n == cand@.len(),
            pv == strs_view(pat@),
            cv == strs_view(cand@),
            0 <= i <= n,
            forall|k: int| 0 <= k < i && !seg_is_param(pv[k]) ==> pv[k] == cv[k],
            pairs_view(params@) == spec_bindings(pv.take(i as int), cv.take(i as int)),
        decreases n - i,
    {
        let ghost prev = params@;
        proof {
            assert(pv.take(i + 1).drop_last() =~= pv.take(i as int));
            assert(cv.take(i + 1).drop_last() =~= cv.take(i as int));
            assert(pv.take(i + 1).last() == pv[i as int]);
            assert(cv.take(i + 1).last() == cv[i as int]);
        }
        let pseg = &pat[i];
        if is_param_seg(pseg.as_str()) {
            let name = pseg.as_str().substring_char(1, pseg.as_str().unicode_len()).to_owned();
            let value = cand[i].clone();
            params.push((name, value));
            proof {
                assert(name@ == param_name(pv[i as int]));
                assert(pairs_view(params@) =~= pairs_view(prev).push(
                    (param_name(pv[i as int]), cv[i as int]),
                ));
            }
        } else {
            if !str_eq(pseg.as_str(), cand[i].as_str()) {
                proof {
                    assert(!seg_is_param(pv[i as int]) && pv[i as int] != cv[i as int]);
                }
                return None;
            }
        }
        i = i + 1;
    }
    proof {
        assert(pv.take(n as int) =~= pv);
        assert(cv.take(n as int) =~= cv);
    }
    Some(params)
}

impl Path {
    /// Compile a template string into a path pattern.
    pub fn new(path: &str) -> (r: Self)
        ensures
            r@ == path@,
    {
        Path { inner: path.to_owned() }
    }

    /// The raw template string this pattern was compiled from.
    pub fn template(&self) -> (r: &str)
        ensures
            r@ == self@,
    {
        self.inner.as_str()
    }

    /// Match this pattern against a candidate path.  `Some` holds exactly
    /// when the candidate has the same segment count and agrees on every
    /// literal segment; the returned pairs are the parameter bindings, in
    /// segment order.
    pub fn pattern_match(&self, other: &String) -> (r: Option<Vec<(String, String)>>)
        ensures
            (r is Some) == spec_pattern_match(self@, other@),
            r matches Some(ps) ==> pairs_view(ps@) == spec_pattern_bindings(self@, other@),
    {
        let psegs = split_char(self.inner.as_str(), '/');
        let csegs = split_char(other.as_str(), '/');
        match_segments(&psegs, &csegs)
    }
}

/// Law: for a pattern and a candidate of equal segment count, the bindings
/// name exactly the pattern's parameter segments, and a parameter that no
/// later parameter segment shadows is bound to the candidate segment at its
/// own position.
pub proof fn lemma_bindings_exact(pat: Seq<Seq<char>>, cand: Seq<Seq<char>>)
    requires
        pat.len() == cand.len(),
    ensures
        forall|name: Seq<char>|
            (spec_lookup(spec_bindings(pat, cand), name) is Some) <==> (exists|i: int|
                0 <= i < pat.len() && seg_is_param(pat[i]) && param_name(pat[i]) == name),
        forall|i: int|
            (0 <= i < pat.len() && seg_is_param(pat[i]) && (forall|j: int|
                i < j < pat.len() && seg_is_param(pat[j]) ==> param_name(pat[j]) != param_name(
                    pat[i],
                ))) ==> spec_lookup(spec_bindings(pat, cand), param_name(pat[i])) == Some(cand[i]),
    decreases pat.len(),
{
    if pat.len() == 0 {
    } else {
        let pp = pat.drop_last();
        let cp = cand.drop_last();
        lemma_bindings_exact(pp, cp);
        let rest = spec_bindings(pp, cp);
        let k = pat.len() - 1;
        if seg_is_param(pat[k]) {
            let b = spec_bindings(pat, cand);
            assert(b == rest.push((param_name(pat[k]), cand[k])));
            assert(b.drop_last() =~= rest);
            assert forall|name: Seq<char>|
                (spec_lookup(b, name) is Some) <==> (exists|i: int|
                    0 <= i < pat.len() && seg_is_param(pat[i]) && param_name(pat[i])
                        == name) by {
                if spec_lookup(b, name) is Some {
                    if name == param_name(pat[k]) {
                        assert(0 <= k < pat.len() && seg_is_param(pat[k]) && param_name(pat[k])
                            == name);
                    } else {
                        assert(spec_lookup(rest, name) is Some);
                        let i = choose|i: int|
                            0 <= i < pp.len() && seg_is_param(pp[i]) && param_name(pp[i]) == name;
                        assert(pat[i] == pp[i]);
                    }
                }
                if exists|i: int|
                    0 <= i < pat.len() && seg_is_param(pat[i]) && param_name(pat[i]) == name {
                    let i = choose|i: int|
                        0 <= i < pat.len() && seg_is_param(pat[i]) && param_name(pat[i]) == name;
                    if name == param_name(pat[k]) {
                        assert(spec_lookup(b, name) == Some(cand[k]));
                    } else {
                        assert(i < k);
                        assert(pp[i] == pat[i]);
                        assert(spec_lookup(rest, name) is Some);
                        assert(spec_lookup(b, name) == spec_lookup(rest, name));
                    }
                }
            }
            assert forall|i: int|
                (0 <= i < pat.len() && seg_is_param(pat[i]) && (forall|j: int|
                    i < j < pat.len() && seg_is_param(pat[j]) ==> param_name(pat[j]) != param_name(
                        pat[i],
                    ))) implies spec_lookup(b, param_name(pat[i])) == Some(cand[i]) by {
                if i == k {
                    assert(spec_lookup(b, param_name(pat[k])) == Some(cand[k]));
                } else {
                    assert(param_name(pat[k]) != param_name(pat[i]));
                    assert(spec_lookup(b, param_name(pat[i])) == spec_lookup(
                        rest,
                        param_name(pat[i]),
                    ));
                    assert(pp[i] == pat[i]);
                    assert(forall|j: int|
                        i < j < pp.len() && seg_is_param(pp[j]) ==> param_name(pp[j]) != param_name(
                            pp[i],
                        ));
                    assert(spec_lookup(rest, param_name(pp[i])) == Some(cp[i]));
                }
            }
        } else {
            let b = spec_bindings(pat, cand);
            assert(b == rest);
            assert forall|name: Seq<char>|
                (spec_lookup(b, name) is Some) <==> (exists|i: int|
                    0 <= i < pat.len() && seg_is_param(pat[i]) && param_name(pat[i])
                        == name) by {
                if spec_lookup(b, name) is Some {
                    let i = choose|i: int|
                        0 <= i < pp.len() && seg_is_param(pp[i]) && param_name(pp[i]) == name;
                    assert(pat[i] == pp[i]);
                }
                if exists|i: int|
                    0 <= i < pat.len() && seg_is_param(pat[i]) && param_name(pat[i]) == name {
                    let i = choose|i: int|
                        0 <= i < pat.len() && seg_is_param(pat[i]) && param_name(pat[i]) == name;
                    assert(i != k);
                    assert(pp[i] == pat[i]);
                    assert(spec_lookup(rest, name) is Some);
                }
            }
            assert forall|i: int|
                (0 <= i < pat.len() && seg_is_param(pat[i]) && (forall|j: int|
                    i < j < pat.len() && seg_is_param(pat[j]) ==> param_name(pat[j]) != param_name(
                        pat[i],
                    ))) implies spec_lookup(b, param_name(pat[i])) == Some(cand[i]) by {
                assert(i != k);
                assert(pp[i] == pat[i]);
                assert(forall|j: int|
                    i < j < pp.len() && seg_is_param(pp[j]) ==> param_name(pp[j]) != param_name(
                        pp[i],
                    ));
                assert(spec_lookup(rest, param_name(pp[i])) == Some(cp[i]));
            }
        }
    }
}

} // verus!

//! The per-request value that travels through the pipeline: method, path,
//! query string, headers, the path parameters filled in at route resolution,
//! and the free-form attributes filters may set for later stages.  The
//! connection layer builds one from each inbound wire request.

use vstd::prelude::*;
use vstd::string::*;
use crate::strutil::{pairs_view, spec_split, split_char, spec_lookup, lookup_value};

verus! {

/// A ghost model of a request: every field as a sequence of plain values.
pub struct ReqModel {
    pub method: Seq<char>,
    pub path: Seq<char>,
    pub query: Seq<char>,
    pub headers: Seq<(Seq<char>, Seq<char>)>,
    pub path_params: Seq<(Seq<char>, Seq<char>)>,
    pub attributes: Seq<(Seq<char>, Seq<char>)>,
}

/// The key/value pair a query-string piece parses to: the part before the
/// first `=` is the key; the part between the first and second `=` is the
/// value, empty when there is no `=`.
pub open spec fn spec_query_pair(kv: Seq<char>) -> (Seq<char>, Seq<char>) {
    let parts = spec_split(kv, '=');
    (parts[0], if parts.len() >= 2 {
        parts[1]
    } else {
        Seq::empty()
    })
}

/// The query string parsed into pairs: split on `&`, then each piece on `=`.
/// A key that occurs twice keeps both pairs; lookup takes the last.
pub open spec fn spec_url_params(query: Seq<char>) -> Seq<(Seq<char>, Seq<char>)> {
    spec_split(query, '&').map_values(|kv: Seq<char>| spec_query_pair(kv))
}

/// A mutable per-request value, owned by exactly one pipeline at a time.
#[derive(Debug)]
pub struct HttpRequest {
    pub method: String,
    pub path: String,
    pub query: String,
    pub headers: Vec<(String, String)>,
    pub path_params: Vec<(String, String)>,
    pub attributes: Vec<(String, String)>,
}

impl View for HttpRequest {
    type V = ReqModel;

    open spec fn view(&self) -> ReqModel {
        ReqModel {
            method: self.method@,
            path: self.path@,
            query: self.query@,
            headers: pairs_view(self.headers@),
            path_params: pairs_view(self.path_params@),
            attributes: pairs_view(self.attributes@),
        }
    }
}

impl HttpRequest {
    /// Wrap an inbound request's plain parts.  Path parameters and
    /// attributes start empty.
    pub fn new(method: String, path: String, query: String, headers: Vec<(String, String)>) -> (r:
        Self)
        ensures
            r.method == method,
            r.path == path,
            r.query == query,
            r.headers == headers,
            r.path_params@.len() == 0,
            r.attributes@.len() == 0,
    {
        HttpRequest {
            method,
            path,
            query,
            headers,
            path_params: Vec::new(),
            attributes: Vec::new(),
        }
    }

    /// Replace the path parameters, as route resolution does after a match.
    pub fn set_path_params(&mut self, path_params: Vec<(String, String)>)
        ensures
            *final(self) == (HttpRequest { path_params, ..*old(self) }),
    {
        self.path_params = path_params;
    }

    pub fn method(&self) -> (r: &String)
        ensures
            r == &self.method,
    {
        &self.method
    }

    /// Mutable access to the method, for filters that rewrite it.
    pub fn method_mut(&mut self) -> (r: &mut String)
        ensures
            *r == old(self).method,
            *final(self) == (HttpRequest { method: *final(r), ..*old(self) }),
    {
        &mut self.method
    }

    pub fn path(&self) -> (r: &str)
        ensures
            r@ == self.path@,
    {
        self.path.as_str()
    }

    pub fn headers(&self) -> (r: &Vec<(String, String)>)
        ensures
            r == &self.headers,
    {
        &self.headers
    }

    pub fn path_params(&self) -> (r: &Vec<(String, String)>)
        ensures
            r == &self.path_params,
    {
        &self.path_params
    }

    pub fn attributes(&self) -> (r: &Vec<(String, String)>)
        ensures
            r == &self.attributes,
    {
        &self.attributes
    }

    /// Mutable access to the attributes, for filters that set them.
    pub fn attributes_mut(&mut self) -> (r: &mut Vec<(String, String)>)
        ensures
            *r == old(self).attributes,
            *final(self) == (HttpRequest { attributes: *final(r), ..*old(self) }),
    {
        &mut self.attributes
    }

    /// Append a free-form attribute; a later pair with the same key wins on
    /// lookup, as an insert into a map would.
    pub fn set_attribute(&mut self, key: String, value: String)
        ensures
            final(self).attributes@ == old(self).attributes@.push((key, value)),
            *final(self) == (HttpRequest { attributes: final(self).attributes, ..*old(self) }),
    {
        self.attributes.push((key, value));
    }

    /// Look up a header by exact name, last occurrence winning.
    pub fn header(&self, name: &str) -> (r: Option<String>)
        ensures
            match r {
                Some(v) => spec_lookup(self@.headers, name@) == Some(v@),
                None => spec_lookup(self@.headers, name@) is None,
            },
    {
        lookup_value(&self.headers, name)
    }

    /// Parse the query string into key/value pairs: split on `&`, then each
    /// piece on `=`; a piece without `=` yields an empty value.
    pub fn url_params(&self) -> (r: Vec<(String, String)>)
        ensures
            pairs_view(r@) == spec_url_params(self.query@),
    {
        let pieces = split_char(self.query.as_str(), '&');
        let ghost pieces_v = crate::strutil::strs_view(pieces@);
        let n: usize = pieces.len();
        let mut out: Vec<(String, String)> = Vec::new();
        let mut i: usize = 0;
        proof {
            assert(pairs_view(out@) =~= pieces_v.map_values(|kv: Seq<char>| spec_query_pair(kv)).take(0));
        }
        while i < n
            invariant
                n == pieces@.len(),
                pieces_v == crate::strutil::strs_view(pieces@),
                pieces_v == spec_split(self.query@, '&'),
                0 <= i <= n,
                pairs_view(out@) == pieces_v.map_values(|kv: Seq<char>| spec_query_pair(kv)).take(
                    i as int,
                ),
            decreases n - i,
        {
            let ghost prev = out@;
            let piece = &pieces[i];
            let parts = split_char(piece.as_str(), '=');
            proof {
                crate::strutil::lemma_split_len(piece@, '=');
            }
            let key = parts[0].clone();
            let value = if parts.len() >= 2 {
                parts[1].clone()
            } else {
                String::new()
            };
            out.push((key, value));
            proof {
                let f = |kv: Seq<char>| spec_query_pair(kv);
                assert(crate::strutil::strs_view(parts@) == spec_split(piece@, '='));
                assert((key@, value@) == spec_query_pair(pieces_v[i as int]));
                assert(pairs_view(out@) =~= pairs_view(prev).push((key@, value@)));
                assert(pairs_view(out@) =~= pieces_v.map_values(f).take(i + 1));
            }
            i = i + 1;
        }
        proof {
            let f = |kv: Seq<char>| spec_query_pair(kv);
            assert(pieces_v.map_values(f).take(n as int) =~= pieces_v.map_values(f));
        }
        out
    }
}

} // verus!

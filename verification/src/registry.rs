//! The route and filter registry.  Both tables are append-only: the
//! embedding application populates them during an explicit build phase and
//! the serving phase only reads them.  Routes keep registration order; the
//! filter table is kept ascending by order key, a filter with an equal key
//! standing after every earlier registration with that key.

use vstd::prelude::*;
use vstd::string::*;
use crate::pattern::{spec_pattern_match, Path};
use crate::predicate::Predicate;
use crate::strutil::str_eq;

verus! {

/// A registered route: an exact method, a compiled path pattern, and the
/// token under which the embedding application keeps the route's handler.
pub struct RouteInfo {
    pub method: String,
    pub path: Path,
    pub handler: usize,
}

impl RouteInfo {
    pub fn new(method: String, path: Path, handler: usize) -> (r: Self)
        ensures
            r.method == method,
            r.path == path,
            r.handler == handler,
    {
        RouteInfo { method, path, handler }
    }

    pub fn method(&self) -> (r: &str)
        ensures
            r@ == self.method@,
    {
        self.method.as_str()
    }

    pub fn path(&self) -> (r: &Path)
        ensures
            r == &self.path,
    {
        &self.path
    }

    pub fn handler(&self) -> (r: usize)
        ensures
            r == self.handler,
    {
        self.handler
    }
}

/// A registered filter: its predicate, its order key, and the token under
/// which the embedding application keeps the filter's handler.
pub struct FilterInfo {
    pub predicate: Predicate,
    pub order: u32,
    pub handler: usize,
}

impl FilterInfo {
    pub fn new(predicate: Predicate, order: u32, handler: usize) -> (r: Self)
        ensures
            r.predicate == predicate,
            r.order == order,
            r.handler == handler,
    {
        FilterInfo { predicate, order, handler }
    }

    pub fn predicate(&self) -> (r: &Predicate)
        ensures
            r == &self.predicate,
    {
        &self.predicate
    }

    pub fn order(&self) -> (r: u32)
        ensures
            r == self.order,
    {
        self.order
    }

    pub fn handler(&self) -> (r: usize)
        ensures
            r == self.handler,
    {
        self.handler
    }
}

/// The HTTP methods the registration interface accepts.
pub open spec fn spec_method_supported(m: Seq<char>) -> bool {
    ||| m == "GET"@
    ||| m == "POST"@
    ||| m == "PUT"@
    ||| m == "DELETE"@
    ||| m == "HEAD"@
    ||| m == "OPTIONS"@
    ||| m == "PATCH"@
    ||| m == "TRACE"@
    ||| m == "CONNECT"@
}

/// Whether a method name is one the registration interface accepts.
pub fn method_supported(m: &str) -> (r: bool)
    ensures
        r == spec_method_supported(m@),
{
    str_eq(m, "GET") || str_eq(m, "POST") || str_eq(m, "PUT") || str_eq(m, "DELETE") || str_eq(
        m,
        "HEAD",
    ) || str_eq(m, "OPTIONS") || str_eq(m, "PATCH") || str_eq(m, "TRACE") || str_eq(m, "CONNECT")
}

/// A route matches a request when the method is equal as an exact string and
/// the pattern matches the path.
pub open spec fn spec_route_matches(rt: RouteInfo, method: Seq<char>, path: Seq<char>) -> bool {
    rt.method@ == method && spec_pattern_match(rt.path@, path)
}

/// The filter table ascending by order key.
pub open spec fn filters_sorted(s: Seq<FilterInfo>) -> bool {
    forall|i: int, j: int| 0 <= i < j < s.len() ==> s[i].order <= s[j].order
}

/// The position a new filter with the given order key is inserted at: right
/// after every entry whose key is less than or equal, so registrations with
/// an equal key keep their relative order.
pub open spec fn filter_insert_pos(s: Seq<FilterInfo>, order: u32) -> int
    decreases s.len(),
{
    if s.len() == 0 {
        0
    } else if s[0].order <= order {
        1 + filter_insert_pos(s.drop_first(), order)
    } else {
        0
    }
}

pub proof fn lemma_filter_insert_pos(s: Seq<FilterInfo>, order: u32)
    requires
        filters_sorted(s),
    ensures
        0 <= filter_insert_pos(s, order) <= s.len(),
        forall|i: int| 0 <= i < filter_insert_pos(s, order) ==> s[i].order <= order,
        forall|i: int| filter_insert_pos(s, order) <= i < s.len() ==> s[i].order > order,
    decreases s.len(),
{
    if s.len() > 0 {
        let t = s.drop_first();
        assert(filters_sorted(t)) by {
            assert(forall|i: int, j: int|
                0 <= i < j < t.len() ==> t[i] == s[i + 1] && t[j] == s[j + 1]);
        }
        lemma_filter_insert_pos(t, order);
        if s[0].order <= order {
            let p = 1 + filter_insert_pos(t, order);
            assert(forall|i: int| 1 <= i < p ==> s[i] == t[i - 1]);
            assert(forall|i: int| p <= i < s.len() ==> s[i] == t[i - 1]);
        }
    }
}

/// The process-wide registry: the ordered route table and the order-sorted
/// filter table.  Populated before serving begins, read-only afterwards.
pub struct Registry {
    pub(crate) routes: Vec<RouteInfo>,
    pub(crate) filters: Vec<FilterInfo>,
}

impl Registry {
    /// The registered routes, in registration order.
    pub closed spec fn spec_routes(&self) -> Seq<RouteInfo> {
        self.routes@
    }

    /// The registered filters, ascending by order key.
    pub closed spec fn spec_filters(&self) -> Seq<FilterInfo> {
        self.filters@
    }

    /// The registry invariant: the filter table is sorted by order key.
    pub open spec fn wf(&self) -> bool {
        filters_sorted(self.spec_filters())
    }

    /// An empty registry, ready for the build phase.
    pub fn new() -> (r: Self)
        ensures
            r.spec_routes().len() == 0,
            r.spec_filters().len() == 0,
            r.wf(),
    {
        Registry { routes: Vec::new(), filters: Vec::new() }
    }

    /// Append a route; routes keep strict registration order.
    pub fn register_route(&mut self, route: RouteInfo)
        ensures
            final(self).spec_routes() == old(self).spec_routes().push(route),
            final(self).spec_filters() == old(self).spec_filters(),
            old(self).wf() ==> final(self).wf(),
    {
        self.routes.push(route);
    }

    /// Insert a filter at its order position: after every registered filter
    /// whose order key is less than or equal (so ties keep registration
    /// order), before every one whose key is greater.
    pub fn register_filter(&mut self, filter: FilterInfo)
        requires
            old(self).wf(),
        ensures
            final(self).wf(),
            final(self).spec_routes() == old(self).spec_routes(),
            final(self).spec_filters() == old(self).spec_filters().insert(
                filter_insert_pos(old(self).spec_filters(), filter.order),
                filter,
            ),
            forall|i: int|
                0 <= i < filter_insert_pos(old(self).spec_filters(), filter.order) ==> old(
                    self,
                ).spec_filters()[i].order <= filter.order,
            forall|i: int|
                filter_insert_pos(old(self).spec_filters(), filter.order) <= i < old(
                    self,
                ).spec_filters().len() ==> old(self).spec_filters()[i].order > filter.order,
    {
        proof {
            lemma_filter_insert_pos(self.filters@, filter.order);
        }
        let ghost orig = self.filters@;
        let ghost pos = filter_insert_pos(orig, filter.order);
        let n: usize = self.filters.len();
        let mut i: usize = 0;
        while i < n && self.filters[i].order <= filter.order
            invariant
                n == self.filters@.len(),
                self.filters@ == orig,
                0 <= i <= n,
                forall|k: int| 0 <= k < i ==> orig[k].order <= filter.order,
            decreases n - i,
        {
            i = i + 1;
        }
        proof {
            if i < n {
                assert(orig[i as int].order > filter.order);
            }
            assert(i == pos) by {
                if (i as int) < pos {
                    assert(orig[i as int].order <= filter.order);
                } else if pos < (i as int) {
                    assert(orig[pos].order > filter.order);
                    assert(orig[pos].order <= filter.order);
                }
            }
        }
        self.filters.insert(i, filter);
        proof {
            let s = self.filters@;
            assert(filters_sorted(s)) by {
                assert(forall|k: int| 0 <= k < pos ==> s[k] == orig[k]);
                assert(s[pos] == filter);
                assert(forall|k: int| pos < k < s.len() ==> s[k] == orig[k - 1]);
            }
        }
    }

    /// All registered routes, in registration order.
    pub fn all_routes(&self) -> (r: &Vec<RouteInfo>)
        ensures
            r@ == self.spec_routes(),
    {
        &self.routes
    }

    /// All registered filters, ascending by order key, stable for ties.
    pub fn all_filters(&self) -> (r: &Vec<FilterInfo>)
        ensures
            r@ == self.spec_filters(),
    {
        &self.filters
    }

    /// Resolve a request to the first registered route whose method and
    /// pattern both match; `None` when no route matches.
    pub fn resolve(&self, method: &str, path: &String) -> (r: Option<usize>)
        ensures
            match r {
                Some(i) => 0 <= i < self.spec_routes().len() && spec_route_matches(
                    self.spec_routes()[i as int],
                    method@,
                    path@,
                ) && forall|k: int|
                    0 <= k < i ==> !spec_route_matches(self.spec_routes()[k], method@, path@),
                None => forall|k: int|
                    0 <= k < self.spec_routes().len() ==> !spec_route_matches(
                        self.spec_routes()[k],
                        method@,
                        path@,
                    ),
            },
    {
        let n: usize = self.routes.len();
        let mut i: usize = 0;
        while i < n
            invariant
                n == self.spec_routes().len(),
                0 <= i <= n,
                forall|k: int|
                    0 <= k < i ==> !spec_route_matches(self.spec_routes()[k], method@, path@),
            decreases n - i,
        {
            let rt = &self.routes[i];
            if str_eq(rt.method.as_str(), method) && rt.path.pattern_match(path).is_some() {
                return Some(i);
            }
            i = i + 1;
        }
        None
    }
}

} // verus!

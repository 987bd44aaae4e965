//! The route table: the ordered routes of a configuration document, queried
//! per request for the first route whose host prefix matches the request's
//! host. Declaration order is semantically significant — when several
//! prefixes match the same host, the earliest-declared route wins.

use vstd::prelude::*;

use crate::config::{Root, RootView, Route, RouteView};

verus! {

/// A host value matches a route's prefix exactly when the host is non-empty
/// and the prefix is a literal character prefix of it. An empty host matches
/// nothing; matching is exact — no wildcards, case folding or port stripping.
pub open spec fn route_matches(catch: Seq<char>, host: Seq<char>) -> bool {
    host.len() > 0 && catch.is_prefix_of(host)
}

/// Index of the first route (in declaration order) whose prefix matches the
/// host, if any.
pub open spec fn spec_find_route(routes: Seq<RouteView>, host: Seq<char>) -> Option<int>
    decreases routes.len(),
{
    if routes.len() == 0 {
        None
    } else if route_matches(routes[0].catch, host) {
        Some(0)
    } else {
        match spec_find_route(routes.skip(1), host) {
            Some(i) => Some(i + 1),
            None => None,
        }
    }
}

/// `spec_find_route` answers `Some(i)` exactly when `i` is the earliest
/// matching index, and `None` exactly when no route matches.
pub proof fn lemma_find_route_is_first_match(routes: Seq<RouteView>, host: Seq<char>)
    ensures
        match spec_find_route(routes, host) {
            Some(i) => 0 <= i < routes.len() && route_matches(routes[i].catch, host)
                && (forall|j: int| 0 <= j < i ==> !route_matches(routes[j].catch, host)),
            None => forall|j: int|
                0 <= j < routes.len() ==> !route_matches(routes[j].catch, host),
        },
    decreases routes.len(),
{
    if routes.len() > 0 && !route_matches(routes[0].catch, host) {
        let rest = routes.skip(1);
        lemma_find_route_is_first_match(rest, host);
        match spec_find_route(rest, host) {
            Some(k) => {
                assert(routes[k + 1] == rest[k]);
                assert forall|j: int| 0 <= j < k + 1 implies !route_matches(
                    routes[j].catch,
                    host,
                ) by {
                    if j > 0 {
                        assert(routes[j] == rest[j - 1]);
                    }
                }
            },
            None => {
                assert forall|j: int| 0 <= j < routes.len() implies !route_matches(
                    routes[j].catch,
                    host,
                ) by {
                    if j > 0 {
                        assert(routes[j] == rest[j - 1]);
                    }
                }
            },
        }
    }
}

/// Conversely: an index that matches and is preceded only by non-matching
/// routes is the one `spec_find_route` answers.
pub proof fn lemma_first_match_found(routes: Seq<RouteView>, host: Seq<char>, i: int)
    requires
        0 <= i < routes.len(),
        route_matches(routes[i].catch, host),
        forall|j: int| 0 <= j < i ==> !route_matches(routes[j].catch, host),
    ensures
        spec_find_route(routes, host) == Some(i),
{
    lemma_find_route_is_first_match(routes, host);
    match spec_find_route(routes, host) {
        Some(k) => {
            if k < i {
                assert(!route_matches(routes[k].catch, host));
            }
            if i < k {
                assert(!route_matches(routes[i].catch, host));
            }
        },
        None => {
            assert(!route_matches(routes[i].catch, host));
        },
    }
}

/// Order stability: of two overlapping routes, both matching the same host,
/// the earliest-declared one (or one declared still earlier) is the route the
/// table resolves to; the later route is never chosen.
pub proof fn lemma_order_stability(routes: Seq<RouteView>, host: Seq<char>, r1: int, r2: int)
    requires
        0 <= r1 < r2 < routes.len(),
        route_matches(routes[r1].catch, host),
        route_matches(routes[r2].catch, host),
    ensures
        spec_find_route(routes, host) matches Some(i) && i <= r1,
{
    lemma_find_route_is_first_match(routes, host);
    match spec_find_route(routes, host) {
        Some(i) => {
            if i > r1 {
                assert(!route_matches(routes[r1].catch, host));
            }
        },
        None => {
            assert(!route_matches(routes[r1].catch, host));
        },
    }
}

/// Fallback-only: on a host that no configured prefix matches, the table
/// resolves to no route at all.
pub proof fn lemma_no_match_falls_back(routes: Seq<RouteView>, host: Seq<char>)
    requires
        forall|j: int| 0 <= j < routes.len() ==> !route_matches(routes[j].catch, host),
    ensures
        spec_find_route(routes, host) is None,
{
    lemma_find_route_is_first_match(routes, host);
    match spec_find_route(routes, host) {
        Some(i) => {
            assert(!route_matches(routes[i].catch, host));
        },
        None => {},
    }
}

/// The ordered route table, exactly the routes of the document it was built
/// from, in declaration order. Read-only after startup.
pub struct RouteTable {
    pub routes: Vec<Route>,
}

/// Mathematical model of a [`RouteTable`].
#[verifier::ext_equal]
pub struct RouteTableView {
    pub routes: Seq<RouteView>,
}

impl View for RouteTable {
    type V = RouteTableView;

    open spec fn view(&self) -> RouteTableView {
        RouteTableView { routes: self.routes.deep_view() }
    }
}

/// The table a document gives rise to: its routes, verbatim.
pub open spec fn spec_table_of(root: RootView) -> RouteTableView {
    RouteTableView { routes: root.routes }
}

/// Round trip: a table built from a document — any table meeting
/// [`RouteTable::build`]'s contract — answers every host query exactly as
/// matching prefixes directly against the document's own route sequence does,
/// call for call.
pub proof fn lemma_build_round_trip(root: RootView, table: RouteTableView, host: Seq<char>)
    requires
        table == spec_table_of(root),
    ensures
        spec_find_route(table.routes, host) == spec_find_route(root.routes, host),
{
}

/// True exactly when `prefix` is a literal character prefix of `s`.
/// `s_len` must be the character length of `s`, counted once by the caller.
fn is_char_prefix(prefix: &str, s: &str, s_len: usize) -> (r: bool)
    requires
        s_len == s@.len(),
    ensures
        r == prefix@.is_prefix_of(s@),
{
    let p_len = prefix.unicode_len();
    if p_len > s_len {
        return false;
    }
    let mut i: usize = 0;
    while i < p_len
        invariant
            0 <= i <= p_len,
            p_len == prefix@.len(),
            p_len <= s_len == s@.len(),
            forall|k: int| 0 <= k < i ==> prefix@[k] == s@[k],
        decreases p_len - i,
    {
        if prefix.get_char(i) != s.get_char(i) {
            assert(!prefix@.is_prefix_of(s@)) by {
                assert(prefix@[i as int] != s@.subrange(0, p_len as int)[i as int]);
            }
            return false;
        }
        i += 1;
    }
    assert(prefix@ =~= s@.subrange(0, p_len as int));
    true
}

impl RouteTable {
    /// Builds the table from a loaded document, preserving the declaration
    /// order of its routes verbatim.
    pub fn build(root: &Root) -> (t: RouteTable)
        ensures
            t@ == spec_table_of(root@),
    {
        let mut routes: Vec<Route> = Vec::new();
        let mut i: usize = 0;
        while i < root.routes.len()
            invariant
                i <= root.routes.len(),
                routes@.len() == i,
                forall|k: int| 0 <= k < i ==> routes@[k]@ == root.routes@[k]@,
            decreases root.routes.len() - i,
        {
            let src_route = &root.routes[i];
            let mut nodes: Vec<String> = Vec::new();
            let mut j: usize = 0;
            while j < src_route.nodes.len()
                invariant
                    j <= src_route.nodes.len(),
                    nodes@.len() == j,
                    forall|k: int| 0 <= k < j ==> nodes@[k]@ == src_route.nodes@[k]@,
                decreases src_route.nodes.len() - j,
            {
                nodes.push(src_route.nodes[j].clone());
                j += 1;
            }
            let built = Route { catch: src_route.catch.clone(), nodes };
            proof {
                assert(built@.nodes =~~= src_route@.nodes);
                assert(built@ =~~= root.routes@[i as int]@);
            }
            routes.push(built);
            i += 1;
        }
        let t = RouteTable { routes };
        proof {
            assert(t@.routes =~= root.routes.deep_view());
            assert(t@ =~= spec_table_of(root@));
        }
        t
    }

    /// Returns the index of the first route (in declaration order) whose
    /// prefix matches the host, and `None` when the host is empty or no
    /// prefix matches.
    pub fn find_route(&self, host: &str) -> (r: Option<usize>)
        ensures
            match r {
                Some(i) => spec_find_route(self@.routes, host@) == Some(i as int),
                None => spec_find_route(self@.routes, host@) is None,
            },
    {
        let host_len = host.unicode_len();
        if host_len == 0 {
            proof {
                lemma_no_match_falls_back(self@.routes, host@);
            }
            return None;
        }
        let mut i: usize = 0;
        while i < self.routes.len()
            invariant
                0 <= i <= self.routes.len(),
                host_len == host@.len(),
                host_len > 0,
                self.routes.deep_view().len() == self.routes.len(),
                forall|j: int|
                    0 <= j < i ==> !route_matches(self.routes.deep_view()[j].catch, host@),
            decreases self.routes.len() - i,
        {
            if is_char_prefix(self.routes[i].catch.as_str(), host, host_len) {
                proof {
                    lemma_first_match_found(self@.routes, host@, i as int);
                }
                return Some(i);
            }
            i += 1;
        }
        proof {
            lemma_no_match_falls_back(self@.routes, host@);
        }
        None
    }
}

} // verus!

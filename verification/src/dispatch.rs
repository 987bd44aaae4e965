//! The per-request dispatch decision: match the request's host against the
//! route table, pick a backend from the matched route's pool, or fall back to
//! a diagnostic response when nothing matches. The decision only reads the
//! table and draws one random index, so concurrent invocations are
//! independent.

use vstd::prelude::*;

use crate::routing::{spec_find_route, RouteTable};
use crate::selector::choose_backend;

verus! {

/// The outcome of one dispatch decision.
#[derive(Debug, PartialEq, Eq)]
pub enum DispatchOutcome {
    /// A route matched and a backend was chosen from its pool: the request is
    /// to be handed to the forwarding engine, addressed to `backend`.
    Forward { route: usize, backend: String },
    /// The host was absent or empty, or no route's prefix matched it: the
    /// request is to be answered with the fallback response.
    NoMatch,
    /// A route matched but its pool was empty: the request fails on its own,
    /// without affecting the listener or any other request.
    EmptyPool { route: usize },
}

/// Decides one request: the first route whose prefix matches the host wins,
/// and one of its backends is chosen at random; an absent host, an empty
/// host, or a host no prefix matches falls back; a matched route with an
/// empty pool fails just this request.
pub fn dispatch(table: &RouteTable, host: Option<&str>) -> (r: DispatchOutcome)
    ensures
        match host {
            None => r is NoMatch,
            Some(h) => match spec_find_route(table@.routes, h@) {
                None => r is NoMatch,
                Some(i) => if table@.routes[i].nodes.len() == 0 {
                    r matches DispatchOutcome::EmptyPool { route } && route == i
                } else {
                    r matches DispatchOutcome::Forward { route, backend } && route == i
                        && exists|k: int|
                        0 <= k < table@.routes[i].nodes.len() && backend@
                            == table@.routes[i].nodes[k]
                },
            },
        },
{
    match host {
        None => DispatchOutcome::NoMatch,
        Some(h) => match table.find_route(h) {
            None => DispatchOutcome::NoMatch,
            Some(i) => {
                proof {
                    crate::routing::lemma_find_route_is_first_match(table@.routes, h@);
                }
                let pool = &table.routes[i].nodes;
                match choose_backend(pool) {
                    Ok(backend) => {
                        proof {
                            let k = choose|k: int| 0 <= k < pool@.len() && backend@ == pool@[k]@;
                            assert(table@.routes[i as int].nodes[k] == pool@[k]@);
                        }
                        DispatchOutcome::Forward { route: i, backend }
                    },
                    Err(_) => DispatchOutcome::EmptyPool { route: i },
                }
            },
        },
    }
}

/// The fallback response body for an unmatched request: with debugging
/// enabled, the rendered request, for the operator to inspect; otherwise an
/// empty body. Either way the response is a success — a missing match is
/// never a client-facing error.
pub fn fallback_body(debug: bool, rendered: String) -> (r: String)
    ensures
        debug ==> r@ == rendered@,
        !debug ==> r@ == Seq::<char>::empty(),
{
    if debug {
        rendered
    } else {
        String::new()
    }
}

} // verus!

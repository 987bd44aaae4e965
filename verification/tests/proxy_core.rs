use rload::config::{validate_schema, ConfigError, Root, Route};
use rload::dispatch::{dispatch, fallback_body, DispatchOutcome};
use rload::routing::RouteTable;
use rload::selector::{choose_backend, EmptyPoolError};

fn route(catch: &str, nodes: &[&str]) -> Route {
    Route {
        catch: catch.to_string(),
        nodes: nodes.iter().map(|n| n.to_string()).collect(),
    }
}

fn root_with(debug: bool, routes: Vec<Route>) -> Root {
    Root {
        schema: "rload".to_string(),
        version: "1".to_string(),
        debug,
        listen: "127.0.0.1:8000".to_string(),
        routes,
    }
}

/// First match wins: of two routes whose prefixes both match the host, the
/// earliest-declared one is resolved.
#[test]
fn order_stability_prefers_earliest_route() {
    let root = root_with(
        false,
        vec![
            route("api.", &["10.0.0.1:8080"]),
            route("api.example", &["10.0.0.9:8080"]),
        ],
    );
    let table = RouteTable::build(&root);
    assert_eq!(table.find_route("api.example.com"), Some(0));
    match dispatch(&table, Some("api.example.com")) {
        DispatchOutcome::Forward { route, backend } => {
            assert_eq!(route, 0);
            assert_eq!(backend, "10.0.0.1:8080");
        }
        other => panic!("expected a forward, got {:?}", other),
    }
}

/// A host that no prefix matches is never forwarded: the outcome is NoMatch,
/// so the forwarding engine is never handed the request.
#[test]
fn unmatched_host_never_forwards() {
    let root = root_with(
        false,
        vec![
            route("api.", &["10.0.0.1:8080"]),
            route("web.", &["10.0.0.2:8080"]),
        ],
    );
    let table = RouteTable::build(&root);
    assert_eq!(table.find_route("unknown.example.com"), None);
    assert_eq!(
        dispatch(&table, Some("unknown.example.com")),
        DispatchOutcome::NoMatch
    );
}

/// Matching is an exact byte-for-byte prefix test: no case folding and no
/// port stripping.
#[test]
fn matching_is_exact_prefix() {
    let root = root_with(
        false,
        vec![
            route("Api.", &["10.0.0.1:8080"]),
            route("example.com", &["10.0.0.2:8080"]),
        ],
    );
    let table = RouteTable::build(&root);
    assert_eq!(table.find_route("api.example.com"), None);
    assert_eq!(table.find_route("Api.example.com"), Some(0));
    assert_eq!(table.find_route("example.com:8080"), Some(1));
}

/// An absent or empty host matches no route at all.
#[test]
fn empty_or_absent_host_matches_nothing() {
    let root = root_with(false, vec![route("api.", &["10.0.0.1:8080"])]);
    let table = RouteTable::build(&root);
    assert_eq!(table.find_route(""), None);
    assert_eq!(dispatch(&table, Some("")), DispatchOutcome::NoMatch);
    assert_eq!(dispatch(&table, None), DispatchOutcome::NoMatch);
}

/// Uniformity: over many draws from a pool of three, each backend shows up
/// with frequency near one third.
#[test]
fn selection_is_roughly_uniform() {
    let pool: Vec<String> = vec![
        "10.0.0.1:8080".to_string(),
        "10.0.0.2:8080".to_string(),
        "10.0.0.3:8080".to_string(),
    ];
    let mut counts = [0usize; 3];
    for _ in 0..10_000 {
        let picked = choose_backend(&pool).expect("pool is non-empty");
        let at = pool
            .iter()
            .position(|n| *n == picked)
            .expect("picked backend must come from the pool");
        counts[at] += 1;
    }
    for &c in counts.iter() {
        assert!(
            2800 <= c && c <= 3900,
            "count {} strays too far from 3333",
            c
        );
    }
}

/// Round trip: the built table answers every host exactly as matching
/// prefixes by hand against the document's own route list does.
#[test]
fn round_trip_table_matches_document() {
    let root = root_with(
        true,
        vec![
            route("api.", &["10.0.0.1:8080"]),
            route("web.", &["10.0.0.2:8080", "10.0.0.3:8080"]),
            route("api.example", &["10.0.0.4:8080"]),
            route("", &["10.0.0.5:8080"]),
        ],
    );
    let table = RouteTable::build(&root);
    let hosts = [
        "api.example.com",
        "web.example.com",
        "api",
        "web.",
        "nothing.example.com",
        "",
        "x",
    ];
    for host in hosts.iter() {
        let manual = if host.is_empty() {
            None
        } else {
            root.routes.iter().position(|r| host.starts_with(&r.catch))
        };
        assert_eq!(table.find_route(host), manual, "host {:?}", host);
    }
}

/// Scenario: a request whose host matches `api.` is forwarded to one of the
/// two configured backend nodes.
#[test]
fn api_host_forwards_to_configured_pool() {
    let root = root_with(
        false,
        vec![route("api.", &["10.0.0.1:8080", "10.0.0.2:8080"])],
    );
    let table = RouteTable::build(&root);
    match dispatch(&table, Some("api.example.com")) {
        DispatchOutcome::Forward { route, backend } => {
            assert_eq!(route, 0);
            assert!(backend == "10.0.0.1:8080" || backend == "10.0.0.2:8080");
        }
        other => panic!("expected a forward, got {:?}", other),
    }
}

/// Scenario: with debugging enabled, the fallback body is the rendered
/// request, so the operator can inspect unmatched traffic.
#[test]
fn debug_fallback_carries_rendered_request() {
    let root = root_with(true, vec![route("api.", &["10.0.0.1:8080"])]);
    let table = RouteTable::build(&root);
    assert_eq!(
        dispatch(&table, Some("unknown.example.com")),
        DispatchOutcome::NoMatch
    );
    let rendered =
        "GET /index.html HTTP/1.1\nhost: unknown.example.com\naccept: */*".to_string();
    let body = fallback_body(root.debug, rendered.clone());
    assert_eq!(body, rendered);
    assert!(body.contains("GET"));
    assert!(body.contains("/index.html"));
    assert!(body.contains("host: unknown.example.com"));
}

/// Scenario: with debugging disabled, a request without a host falls back to
/// an empty body.
#[test]
fn quiet_fallback_is_empty() {
    let root = root_with(false, vec![route("api.", &["10.0.0.1:8080"])]);
    let table = RouteTable::build(&root);
    assert_eq!(dispatch(&table, None), DispatchOutcome::NoMatch);
    let rendered = "GET / HTTP/1.1".to_string();
    assert_eq!(fallback_body(root.debug, rendered), "");
}

/// Scenario: a document with the wrong schema name is rejected before
/// anything else can happen.
#[test]
fn wrong_schema_is_rejected() {
    let mut root = root_with(false, vec![]);
    root.schema = "wrong".to_string();
    assert_eq!(validate_schema(&root), Err(ConfigError::SchemaMismatch));
}

/// The expected schema name is accepted.
#[test]
fn right_schema_is_accepted() {
    let root = root_with(false, vec![route("api.", &["10.0.0.1:8080"])]);
    assert_eq!(validate_schema(&root), Ok(()));
}

/// Scenario: a matched route with an empty pool fails only its own request;
/// requests to other routes still succeed.
#[test]
fn empty_pool_fails_only_its_own_request() {
    let root = root_with(
        false,
        vec![route("api.", &[]), route("web.", &["10.0.0.2:8080"])],
    );
    let table = RouteTable::build(&root);
    assert_eq!(
        dispatch(&table, Some("api.example.com")),
        DispatchOutcome::EmptyPool { route: 0 }
    );
    match dispatch(&table, Some("web.example.com")) {
        DispatchOutcome::Forward { route, backend } => {
            assert_eq!(route, 1);
            assert_eq!(backend, "10.0.0.2:8080");
        }
        other => panic!("expected a forward, got {:?}", other),
    }
}

/// Choosing from an empty pool reports the error instead of crashing.
#[test]
fn choosing_from_empty_pool_errs() {
    let pool: Vec<String> = Vec::new();
    assert_eq!(choose_backend(&pool), Err(EmptyPoolError));
}

/// A pool of one always yields that one backend.
#[test]
fn singleton_pool_always_chosen() {
    let pool = vec!["10.0.0.7:8080".to_string()];
    for _ in 0..100 {
        assert_eq!(choose_backend(&pool), Ok("10.0.0.7:8080".to_string()));
    }
}

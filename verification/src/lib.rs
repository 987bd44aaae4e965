//! Routing core of a host-based reverse proxy.
//!
//! A static configuration document declares an ordered list of routes, each a
//! host-name prefix together with a pool of interchangeable backend nodes.
//! Per request, the dispatcher matches the request's `Host` header against the
//! routes in declaration order (first match wins), picks one backend from the
//! matched route's pool at random, and otherwise falls back to a diagnostic
//! response.

pub mod config;
pub mod dispatch;
pub mod routing;
pub mod selector;

//! The static configuration model: routes, the document root, and schema
//! validation. Everything here is built once at startup and never mutated.

use vstd::prelude::*;

verus! {

/// One configured route: a host-name prefix (`catch`) and the ordered pool of
/// backend nodes that may serve a request whose host starts with that prefix.
pub struct Route {
    pub catch: String,
    pub nodes: Vec<String>,
}

/// Mathematical model of a [`Route`]: the prefix and the pool as sequences.
#[verifier::ext_equal]
pub struct RouteView {
    pub catch: Seq<char>,
    pub nodes: Seq<Seq<char>>,
}

impl View for Route {
    type V = RouteView;

    open spec fn view(&self) -> RouteView {
        RouteView { catch: self.catch@, nodes: self.nodes.deep_view() }
    }
}

impl DeepView for Route {
    type V = RouteView;

    open spec fn deep_view(&self) -> RouteView {
        self.view()
    }
}

/// The configuration document: schema identification, the debug toggle, the
/// listen address, and the ordered route declarations.
pub struct Root {
    pub schema: String,
    pub version: String,
    pub debug: bool,
    pub listen: String,
    pub routes: Vec<Route>,
}

/// Mathematical model of a [`Root`] document.
#[verifier::ext_equal]
pub struct RootView {
    pub schema: Seq<char>,
    pub version: Seq<char>,
    pub debug: bool,
    pub listen: Seq<char>,
    pub routes: Seq<RouteView>,
}

impl View for Root {
    type V = RootView;

    open spec fn view(&self) -> RootView {
        RootView {
            schema: self.schema@,
            version: self.version@,
            debug: self.debug,
            listen: self.listen@,
            routes: self.routes.deep_view(),
        }
    }
}

/// Why loading a configuration document failed. All three are fatal to
/// startup: the process must not bind a listener on any of them.
#[derive(Debug, PartialEq, Eq, Clone, Copy)]
pub enum ConfigError {
    /// The configuration file could not be opened.
    Unreadable,
    /// The file's contents could not be parsed into the expected structure.
    Malformed,
    /// The document's schema name is not the expected literal.
    SchemaMismatch,
}

/// A document is acceptable exactly when its schema name is this literal.
pub open spec fn valid_schema(schema: Seq<char>) -> bool {
    schema == "rload"@
}

/// Accepts a parsed document exactly when its schema name matches, and
/// otherwise rejects it with [`ConfigError::SchemaMismatch`].
pub fn validate_schema(root: &Root) -> (r: Result<(), ConfigError>)
    ensures
        r is Ok <==> valid_schema(root@.schema),
        r is Err ==> r == Result::<(), ConfigError>::Err(ConfigError::SchemaMismatch),
{
    let expected: String = "rload".to_owned();
    if root.schema == expected {
        Ok(())
    } else {
        Err(ConfigError::SchemaMismatch)
    }
}

} // verus!

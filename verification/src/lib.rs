//! An embeddable HTTP server core: requests are run through an ordered chain
//! of filters and then dispatched to the first registered route whose method
//! and path pattern match.  This crate holds the dispatch engine itself - the
//! path-pattern matcher, the route and filter registry, the filter chain and
//! route resolution step machine, and the response formatter.  The connection
//! layer (sockets, TLS, the HTTP wire protocol) drives the engine from outside
//! through `Registry::dispatch_begin` and `Registry::dispatch_resume`.

pub mod strutil;
pub mod pattern;
pub mod predicate;
pub mod error;
pub mod request;
pub mod registry;
pub mod response;
pub mod dispatch;
pub mod server;

pub use pattern::Path;
pub use predicate::Predicate;
pub use registry::FilterInfo;
pub use registry::Registry;
pub use registry::RouteInfo;
pub use dispatch::Chain;
pub use dispatch::PipelineStep;

//! A verified tool registry and dispatch layer for tx3 protocol definitions.
//!
//! The library discovers protocol definitions (from a registry answer or a
//! local directory scan), derives one callable operation per transaction of
//! each protocol, decodes incoming operation names, coerces caller-supplied
//! string arguments into the protocol's native parameter types, and builds
//! the request forwarded to the transaction-resolution service. Compilation
//! of tx3 source text is delegated to the tx3 compiler behind a small set of
//! trusted wrappers; everything around those calls is verified.

pub mod builder;
pub mod coerce;
pub mod compiler;
pub mod errors;
pub mod forward;
pub mod loader;
pub mod model;
pub mod opname;
pub mod parse;
pub mod scan;
pub mod server;
pub mod text;

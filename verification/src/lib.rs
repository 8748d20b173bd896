//! Bootstrap support for a native database client runtime.
//!
//! The library models the pure logic of the bootstrap: formatting the
//! connection string, the embedded asset bundle and its extraction plan,
//! splicing a directory into the process search path, the bootstrapper's
//! runtime-readiness state machine, and the administrative script's
//! session state machine. The surrounding process (filesystem, environment
//! variable, database protocol) is driven by an unverified shell that asks
//! this library for every decision.

pub mod bundle;
pub mod client;
pub mod script;
pub mod search_path;
pub mod strutil;

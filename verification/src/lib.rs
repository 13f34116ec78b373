//! JsExec: JavaScript execution in sandboxed workerd isolates, with an
//! AWS Lambda-style function layer on top.
//!
//! This crate holds the verified core: configuration defaults, the text the
//! runtime generates for workerd, the parsing of what workerd sends back, the
//! import rewriting, the rules of the function registry (names, versions,
//! aliases), invocation bookkeeping and the in-memory script store.
pub mod activation;
pub mod bundler;
pub mod ids;
pub mod import_transform;
pub mod json;
pub mod lambda;
pub mod patterns;
pub mod plexus_env;
pub mod pool;
pub mod runner;
pub mod text;
pub mod types;

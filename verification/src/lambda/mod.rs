//! AWS Lambda-style functions: configuration, types, the rules of the
//! registry (names, versions, aliases), invocation bookkeeping, metrics
//! records and the handler wrapper.
pub mod activation;
pub mod config;
pub mod context;
pub mod init;
pub mod invoker;
pub mod metrics;
pub mod pool_adapter;
pub mod registry;
pub mod runtime;
pub mod types;
pub mod versioning;

//! The pool of workerd workers.
pub mod manager;
pub mod worker;

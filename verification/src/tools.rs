//! The engine runner, the analyzer built on it, and the source locator.

pub mod codeql;
pub mod filesystem;
pub mod query;
pub mod record;
pub mod analyzer;
pub mod semantics;

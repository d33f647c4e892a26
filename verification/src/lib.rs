//! Semantic code queries against a prebuilt code database.
//!
//! The library holds every decision of the pipeline: how a query workspace is
//! laid out and driven, how tabular results become typed records, which source
//! lines answer a question, and how override chains are resolved. Whatever
//! touches the file system or spawns the engine is left to the caller, who
//! performs the requests the library hands out and feeds the replies back.

pub mod error;
pub mod text;
pub mod tools;
pub mod utils;

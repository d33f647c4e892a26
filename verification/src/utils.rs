//! Decoding of tabular text.

pub mod utils;

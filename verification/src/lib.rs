//! An incremental local content-search library.
//!
//! The crate wraps an external inverted-index engine (tantivy) and an
//! external directory walker (ignore) behind a verified core: index
//! metadata and staleness decisions, file-discovery policy, the
//! incremental update protocol, score-threshold filtering, and the
//! mapping of token positions back to source lines.

pub mod args;
pub mod color_mode;
pub mod common;
pub mod engine;
pub mod error;
pub mod field_map;
pub mod file_index;
pub mod generic_index;
pub mod language;
pub mod location;
pub mod meta;
pub mod opts;
pub mod walk;

//! Converts documents between JSON, YAML, TOML and XML.
//!
//! The library resolves which formats and I/O endpoints a run uses, decodes
//! raw text into a format-tagged document value, and encodes that value for
//! the chosen target format. The format grammars themselves are handled by
//! the underlying serialization crates; the resolution rules, the dispatch,
//! and the XML root-tag post-processing are verified here.

pub mod codec;
pub mod errors;
pub mod formats;
pub mod paths;
pub mod plan;
pub mod strip;
pub mod value;

pub use errors::ConvError;
pub use formats::Format;

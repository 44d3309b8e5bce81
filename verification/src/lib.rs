//! Core of a static site generator: route resolution, content-entry loading,
//! metadata decoding, tree indexing, collection binding and RSS assembly.
//!
//! File reading and writing, YAML parsing, template rendering and XML
//! serialization are external collaborators; the decisions and data
//! transformations between them live here and carry contracts.

pub mod collection;
pub mod config;
pub mod content;
pub mod dates;
pub mod entry;
pub mod error;
pub mod generator;
pub mod index;
pub mod location;
pub mod meta;
pub mod minifier;
pub mod paths;
pub mod rss;
pub mod text;
pub mod values;

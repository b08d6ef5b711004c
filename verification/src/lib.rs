//! Resolve a dotted query path, such as `a.b.c`, within a JSON document.
//!
//! A pattern is normalized into a slash-delimited structural pointer, the
//! pointer's segments are navigated through the document tree (objects by key,
//! arrays by decimal index), and the value found is rendered back to JSON
//! text, compact or indented. Every failure kind carries a stable process exit
//! code. Parsing and serialization are entrusted to serde_json; everything
//! between them is specified and verified.

/// The trusted boundary to serde_json: parsing input text and rendering results.
pub mod codec;
/// The failure kinds and their exit codes.
pub mod error;
/// Navigation of a document tree along path segments, and key listing.
pub mod nav;
/// Dotted patterns, structural pointers, and the maps between them.
pub mod path;
/// The whole pipeline: load, resolve, render.
pub mod query;
/// The document tree and its mathematical model.
pub mod value;

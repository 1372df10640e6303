//! Front-end analysis stage of a bridge-code generator.
//!
//! The crate consumes a namespace-nested tree of declaration items (the
//! output of an external header-to-AST translator, re-modelled as plain
//! values in [`ast`]), classifies each item into an API variant, resolves
//! namespace nesting, detects forward declarations, deduplicates by
//! qualified name, filters by block lists, injects synthetic APIs from
//! configuration, and validates must-generate directives.  A second,
//! generic engine lifts a list of APIs from one analysis phase to the next
//! while isolating per-item failures.

pub mod types;
pub mod convert_error;
pub mod ast;
pub mod config;
pub mod api;
pub mod apivec;
pub mod error_reporter;
pub mod utilities;
pub mod parse_foreign_mod;
pub mod analysis;
pub mod parse_bindgen;

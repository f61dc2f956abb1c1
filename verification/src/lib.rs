//! Build-time companion-type generation for closed variant types.
//!
//! The crate reads an annotated variant-type declaration (a type name, an
//! ordered list of variants with their field shapes, and raw token sequences
//! for each attribute site) and produces companion source text: a payload-free
//! "key" mirror of the type, equality relations between the two, per-variant
//! string comparison logic, and string-based serialize/deserialize logic.
//! Every stage is a pure function from tokens and declarations to either
//! emitted text or a precise diagnostic.

pub mod compare_str;
pub mod decl;
pub mod enum_of_keys;
pub mod enum_of_keys_impl;
pub mod errors;
pub mod simple_serde;
pub mod strutil;
pub mod tokens;

pub use enum_of_keys::{CowStr, HasKeyEnum, KeyEnum, KeyModel, KeyValue, LookupByKey, TaggedValue};

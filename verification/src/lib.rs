//! A type-to-schema derivation engine.
//!
//! Given the structured description of one type definition — a struct or an
//! enum, with documentation and an optional content-wrapping key — the
//! library classifies its shape and assembles a language-independent schema
//! tree of named, documented fields, enumerations of sub-types, or
//! enumerations of constant values.

pub mod blockchain_config;
pub mod builder;
pub mod decl;
pub mod digits;
pub mod laws;
pub mod schema;

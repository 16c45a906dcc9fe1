//! Bridge between an external schema-composition engine and a host build
//! pipeline: the engine reports each problem as a JSON object, and this crate
//! decodes such an object into a typed [`diagnostic::Diagnostic`], renders it
//! as a single human-readable line, and converts it into the host's
//! `BuildError` taxonomy.

pub mod convert;
pub mod diagnostic;
pub mod json;

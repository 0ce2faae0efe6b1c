//! Renders each variant of an enum through its own `#[template]`.
//!
//! The library takes a plain description of an enum definition and produces
//! the source text of the code that gives the enum one uniform `render`
//! capability: one auxiliary struct per variant that borrows the variant's
//! fields and carries the variant's template, a `match` that dispatches to
//! them, the enum's own template metadata, and a `Display` adapter.

pub mod text;
pub mod model;
pub mod extract;
pub mod generics;
pub mod variant;
pub mod expand;
pub mod laws;

pub use expand::derive_enum_template;

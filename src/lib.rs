//! Generation of data-transfer struct definitions from an OData metadata
//! document: a verified model of the parsed XML tree, the schema queries over
//! it, the type mapping and field rendering, and the per-entity emission.

pub mod xml;
pub mod schema;
pub mod render;
pub mod emit;
pub mod generate;
pub mod laws;

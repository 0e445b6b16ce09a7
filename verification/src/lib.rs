//! Normalises the identifiers of an IDL document to lowerCamelCase and frames
//! the serialised document as a TypeScript type declaration.

pub mod casing;
pub mod emit;
pub mod laws;
pub mod model;
pub mod normalize;
pub mod version;

//! Configuration: schema, defaults, layering of sources and the sources
//! themselves.
pub mod args;
pub mod env;
pub mod layer;
pub mod parser;
pub mod schema;
pub mod validate;

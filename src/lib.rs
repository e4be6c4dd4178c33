//! Compiles XML Schema documents into a type model and renders that model as
//! Rust source text.
pub mod text;
pub mod naming;
pub mod xml;
pub mod types;
pub mod error;
pub mod parser;
pub mod merge;
pub mod case;
pub mod generator;
pub mod schema;
pub mod laws;
pub mod builder;

//! Answers GraphQL introspection queries (`__schema`, `__type`) against a
//! schema document, rendering the schema's type system as a generic value tree.
pub mod ast;
pub mod describe;
pub mod error;
pub mod introspection;
pub mod laws;
pub mod response;
pub mod schema;
pub mod value;

//! Serving an OpenAPI document from a web application: a write-once store for
//! the document, the replies that export it as JSON and YAML, and the table
//! of routes that a configuration asks for.

pub mod cache;
pub mod export;
pub mod routes;
pub mod config;
pub mod initializer;

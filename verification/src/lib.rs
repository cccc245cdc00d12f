//! A tool registry and dispatch engine for a server that offers block-explorer
//! lookups as named, typed tools.

pub mod backend;
pub mod blob;
pub mod catalog;
pub mod decode;
pub mod dispatcher;
pub mod endpoint;
pub mod failure;
pub mod json;
pub mod registry;
pub mod render;
pub mod schema;
pub mod text;

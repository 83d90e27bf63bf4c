//! An order service: one order record, decoded from a JSON document, held in a
//! reader/writer store and rendered as an HTML page.

pub mod json;
pub mod loader;
pub mod model;
pub mod render;
pub mod store;

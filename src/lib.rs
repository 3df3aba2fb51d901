//! Node storage for an array-language syntax tree: a bounded, append-only
//! store of nodes, the references it hands out, and a renderer that turns a
//! stored tree back into source-like text.

pub mod decimal;
pub mod node;
pub mod pool;
pub mod render;
pub mod laws;

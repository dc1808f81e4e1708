//! A verified core for a design-file tree explorer: the recursive document
//! model decoded from a remote design tool, path addressing into it, the
//! UI-facing presentation tree with its expand/select state, and the
//! matcher/extractor registry that recognizes UI component patterns in
//! document nodes. Fetching, decoding and rendering live outside, in the
//! surrounding shell.

pub mod gen;
pub mod node_util;
pub mod schema;
pub mod session;
pub mod strutil;
pub mod tree;

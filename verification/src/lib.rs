//! Call-site instrumentation for JavaScript modules.
//!
//! The heart of the crate is a single syntactic pass over one module's
//! syntax tree: calls and constructions of symbols imported from configured
//! packages receive an extra argument describing where and how they were
//! invoked (file, line, enclosing scope, a forwarding closure, and the raw
//! text of the caller-supplied arguments).

pub mod ast;
pub mod binding;
pub mod config;
pub mod inject;
pub mod laws;
pub mod matcher;
pub mod menubar;
pub mod meta;
pub mod oauth;
pub mod source;
pub mod spotlight;
pub mod visitor;
pub mod window_state;

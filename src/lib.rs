//! Prefixes the module references of a program: static import and export
//! specifiers, and the string argument of `require(...)` calls.
pub mod ast;
pub mod rewrite;
pub mod config;
pub mod laws;

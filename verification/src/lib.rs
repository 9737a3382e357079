//! Translator stage of a source-code formatter: converts function-like
//! syntax constructs (function declarations, class/object methods, return
//! and throw statements) into a layout-agnostic document tree.  A separate
//! width-aware renderer (out of scope here) later decides actual line
//! breaks; every stylistic decision is encoded as document structure.

pub mod config;
pub mod construct;
pub mod doc;
pub mod function;
pub mod laws;
pub mod method;
pub mod statement;

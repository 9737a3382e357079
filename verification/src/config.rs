//! Formatting configuration and the semicolon resolver: call sites never
//! branch on configuration directly, they ask for the terminator document.

use vstd::prelude::*;

use crate::doc::{Doc, DocModel};

verus! {

/// Global style configuration, read-only from the translator's view.
#[derive(Debug, Clone, Copy, PartialEq, Eq)]
pub struct FormatConfig {
    /// Whether statement terminators (semicolons) are emitted.
    pub semi: bool,
}

/// The shape of the configured statement terminator.
pub open spec fn semicolon_doc() -> DocModel {
    DocModel::Text(";"@)
}

/// The semicolon resolver: the terminator document to emit, or nothing
/// when semicolons are configured off.
pub fn semicolon(cfg: &FormatConfig) -> (r: Option<Doc>)
    ensures
        cfg.semi ==> (r matches Some(d) && d@ == semicolon_doc()),
        !cfg.semi ==> r is None,
{
    if cfg.semi {
        Some(Doc::Text(";"))
    } else {
        None
    }
}

} // verus!

//! Build-time asset compression: validate a (path, level) parameter pair,
//! resolve the path against a project-root anchor, and deflate-compress the
//! file's bytes into a payload fit for embedding as a constant.

use vstd::prelude::*;

pub mod compress;
pub mod params;

verus! {

/// A half-open byte range `[start, end)` into the raw argument text,
/// used to point diagnostics at the offending token.
#[derive(Clone, Copy, Debug, PartialEq, Eq, Structural)]
pub struct Span {
    pub start: usize,
    pub end: usize,
}

} // verus!

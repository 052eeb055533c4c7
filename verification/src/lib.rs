//! Verified core of a shell-prompt renderer.
//!
//! The heart of the library is the version-control prober: starting from a
//! working directory it walks ancestor directories for a repository marker,
//! resolves a pointer-file redirection, classifies the head reference, resolves
//! a symbolic reference, and formats a short revision identifier. All parsing
//! and decision logic is verified here; the surrounding program performs the
//! filesystem reads and feeds their outcomes back as events.

pub mod decor;
pub mod git;
pub mod hg;
pub mod paths;
pub mod probe;
pub mod prompt;
pub mod text;

use vstd::prelude::*;

verus! {

/// Width of the short revision identifier shown in the prompt, in characters.
pub const SHORT_ID_LEN: usize = 14;

} // verus!

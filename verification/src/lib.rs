//! Verified core of a utility that atomically exchanges the positions (or
//! names) of two filesystem entries by a three-step rename sequence through
//! a temporary sibling name.
//!
//! The library holds the logic: path representation, the safety checks that
//! guard the swap, the temporary-name derivation, and the computation of the
//! exact rename sequence. The caller resolves user input to canonical paths,
//! performs the renames of the returned plan in order, and stops at the
//! first failure.

pub mod engine;
pub mod error;
pub mod model;
pub mod path;

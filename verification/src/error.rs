//! The failure taxonomy of the swap, and the classification of path
//! resolution outcomes.

use vstd::prelude::*;

use vstd::string::StringExecFns;

use crate::path::{AbsPath, rendered_path};

verus! {

/// Everything that can go wrong during a swap. Every error is terminal for
/// the run: no component retries or falls back.
#[derive(Debug)]
pub enum SwapError {
    /// A filesystem call failed for a reason other than non-existence. The
    /// first field is the path that caused it, the second the rendered
    /// underlying cause, kept for diagnostics.
    IoFailure(String, String),
    /// A supplied path does not resolve to an existing entry; carries the
    /// path as the user supplied it.
    PathNotFound(String),
    /// Both operands resolve to the same entry.
    IdenticalPaths,
    /// One operand is a directory and the other lies inside it.
    NestedSwap,
    /// A resolved path has no parent directory component; only the
    /// filesystem root can reach this.
    MissingParent(AbsPath),
}

/// The one human-readable line that describes an error to the user.
pub open spec fn message_of(e: SwapError) -> Seq<char> {
    match e {
        SwapError::IoFailure(path, cause) => "I/O error for path '"@ + path@ + "': "@ + cause@,
        SwapError::PathNotFound(path) => "Error: Path not found: '"@ + path@ + "'"@,
        SwapError::IdenticalPaths => "Error: The two paths are identical. Nothing to swap."@,
        SwapError::NestedSwap => "Error: Cannot swap a directory with its own subdirectory. This is a safety prevention."@,
        SwapError::MissingParent(p) => "Error: Could not determine the parent directory of '"@
            + rendered_path(p@) + "'."@,
    }
}

impl SwapError {
    /// Renders the error as its one-line description.
    pub fn message(&self) -> (r: String)
        ensures
            r@ == message_of(*self),
    {
        match self {
            SwapError::IoFailure(path, cause) => {
                let mut s = "I/O error for path '".to_owned();
                s.append(path.as_str());
                s.append("': ");
                s.append(cause.as_str());
                s
            },
            SwapError::PathNotFound(path) => {
                let mut s = "Error: Path not found: '".to_owned();
                s.append(path.as_str());
                s.append("'");
                s
            },
            SwapError::IdenticalPaths => "Error: The two paths are identical. Nothing to swap.".to_owned(),
            SwapError::NestedSwap => "Error: Cannot swap a directory with its own subdirectory. This is a safety prevention.".to_owned(),
            SwapError::MissingParent(p) => {
                let mut s = "Error: Could not determine the parent directory of '".to_owned();
                let rendered = p.render();
                s.append(rendered.as_str());
                s.append("'.");
                s
            },
        }
    }
}

/// What came back from canonicalizing one user-supplied path: the resolver
/// itself lives with the caller, which reports its outcome here as plain
/// values.
#[derive(Debug)]
pub enum ResolveOutcome {
    /// Canonicalization succeeded and the target exists.
    Resolved(AbsPath),
    /// The target does not exist.
    NotFound,
    /// Any other resolution failure, with its rendered cause.
    Failed(String),
}

/// Turns a resolution outcome into the resolved path or the exact error the
/// run reports for it: non-existence becomes `PathNotFound`, every other
/// failure becomes `IoFailure`, both carrying the path as supplied.
pub fn classify_resolution(outcome: ResolveOutcome, raw: String) -> (r: Result<
    AbsPath,
    SwapError,
>)
    ensures
        match outcome {
            ResolveOutcome::Resolved(p) => r matches Ok(q) && q == p,
            ResolveOutcome::NotFound => r matches Err(SwapError::PathNotFound(s)) && s@ == raw@,
            ResolveOutcome::Failed(c) => r matches Err(SwapError::IoFailure(s, c2)) && s@ == raw@
                && c2@ == c@,
        },
{
    match outcome {
        ResolveOutcome::Resolved(p) => Ok(p),
        ResolveOutcome::NotFound => Err(SwapError::PathNotFound(raw)),
        ResolveOutcome::Failed(c) => Err(SwapError::IoFailure(raw, c)),
    }
}

} // verus!

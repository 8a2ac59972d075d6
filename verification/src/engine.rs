//! The swap engine: safety validation, temporary-name derivation, and the
//! computation of the three-move rename sequence for each mode.

use vstd::prelude::*;
use vstd::string::StringExecFns;

use crate::error::{classify_resolution, ResolveOutcome, SwapError};
use crate::path::{AbsPath, PathView, is_prefix_of};

verus! {

/// Which of the two swap variants to perform.
#[derive(Clone, Copy, Debug)]
pub enum SwapMode {
    /// The entries trade containing directories and keep their own names.
    LocationSwap,
    /// The entries stay in their own directories and trade names.
    NameSwap,
}

/// One atomic rename: the entry at `from` moves to `to`. The destination
/// must not exist when the rename is performed.
#[derive(Debug)]
pub struct MoveOp {
    pub from: AbsPath,
    pub to: AbsPath,
}

impl View for MoveOp {
    type V = (PathView, PathView);

    open spec fn view(&self) -> (PathView, PathView) {
        (self.from@, self.to@)
    }
}

/// The full rename sequence of one swap, to be performed strictly in
/// order; each move must complete before the next is attempted.
#[derive(Debug)]
pub struct SwapPlan {
    pub moves: Vec<MoveOp>,
}

impl View for SwapPlan {
    type V = Seq<(PathView, PathView)>;

    open spec fn view(&self) -> Seq<(PathView, PathView)> {
        self.moves@.map_values(|m: MoveOp| m@)
    }
}

/// The path that sits beside `p` in the same parent directory, under the
/// name `name`.
pub open spec fn sibling_with_name(p: PathView, name: Seq<char>) -> PathView {
    p.drop_last().push(name)
}

/// The fixed marker that separates an entry's own name from the unique
/// identifier in a temporary name.
pub open spec fn temp_marker() -> Seq<char> {
    ".swap."@
}

/// The temporary name derived from an entry's name and a unique
/// identifier.
pub open spec fn temp_name_of(name: Seq<char>, id: Seq<char>) -> Seq<char> {
    name + temp_marker() + id
}

/// The three moves of a location swap of `a` and `b` with temporary
/// identifier `id`: `a` steps aside to its temporary sibling, `b` moves
/// into `a`'s parent under its own name, and the parked entry moves into
/// `b`'s parent under `a`'s name.
pub open spec fn location_swap_moves(a: PathView, b: PathView, id: Seq<char>) -> Seq<
    (PathView, PathView),
> {
    let t = sibling_with_name(a, temp_name_of(a.last(), id));
    seq![(a, t), (b, sibling_with_name(a, b.last())), (t, sibling_with_name(b, a.last()))]
}

/// The three moves of a name swap of `a` and `b` with temporary
/// identifier `id`: `a` steps aside to its temporary sibling, `b` takes
/// `a`'s name inside its own parent, and the parked entry takes `b`'s name
/// inside `a`'s parent.
pub open spec fn name_swap_moves(a: PathView, b: PathView, id: Seq<char>) -> Seq<
    (PathView, PathView),
> {
    let t = sibling_with_name(a, temp_name_of(a.last(), id));
    seq![(a, t), (b, sibling_with_name(b, a.last())), (t, sibling_with_name(a, b.last()))]
}

/// The move sequence that the given mode prescribes.
pub open spec fn moves_for(mode: SwapMode, a: PathView, b: PathView, id: Seq<char>) -> Seq<
    (PathView, PathView),
> {
    match mode {
        SwapMode::LocationSwap => location_swap_moves(a, b, id),
        SwapMode::NameSwap => name_swap_moves(a, b, id),
    }
}

/// What a planning function returns for operands `a` and `b`: on success,
/// the move sequence of the mode with some freshly drawn 36-character
/// identifier; otherwise exactly the `MissingParent` error of the first
/// operand that is the filesystem root.
pub open spec fn plan_outcome(
    r: Result<SwapPlan, SwapError>,
    mode: SwapMode,
    a: PathView,
    b: PathView,
) -> bool {
    match r {
        Ok(plan) => a.len() > 0 && b.len() > 0 && (exists|id: Seq<char>|
            id.len() == 36 && plan@ == #[trigger] moves_for(mode, a, b, id)),
        Err(e) => {
            ||| (e matches SwapError::MissingParent(p) && a.len() == 0 && p@ == a)
            ||| (e matches SwapError::MissingParent(p) && a.len() > 0 && b.len() == 0 && p@ == b)
        },
    }
}

/// Relies on `uuid::Uuid::new_v4` and its `Display` rendering: a freshly
/// generated random identifier in hyphenated form, which is always exactly
/// 36 characters long. The value itself is random, so nothing more is
/// promised of it.
#[verifier::external_body]
fn fresh_unique_id() -> (r: String)
    ensures
        r@.len() == 36,
{
    uuid::Uuid::new_v4().to_string()
}

/// Derives the temporary sibling of `original_path` for the identifier
/// `id`: same parent directory, name extended by the marker and `id`. Only
/// the root has no parent to place the sibling in.
pub fn temporary_sibling(original_path: &AbsPath, id: &String) -> (r: Result<AbsPath, SwapError>)
    ensures
        match r {
            Ok(t) => original_path@.len() > 0 && t@ == sibling_with_name(
                original_path@,
                temp_name_of(original_path@.last(), id@),
            ),
            Err(e) => e matches SwapError::MissingParent(p) && original_path@.len() == 0 && p@
                == original_path@,
        },
{
    let parent = match original_path.parent() {
        Some(p) => p,
        None => {
            return Err(SwapError::MissingParent(original_path.clone()));
        },
    };
    let name = match original_path.file_name() {
        Some(n) => n,
        // the parent existed, so the path has a final component
        None => unreached(),
    };
    let mut temp_name = name.clone();
    temp_name.append(".swap.");
    temp_name.append(id.as_str());
    Ok(parent.join(temp_name))
}

/// Computes the temporary sibling path used as the pivot of one swap,
/// embedding a freshly generated identifier. The path is only computed,
/// never created; a collision with an existing entry is treated as
/// negligible and not re-checked.
pub fn generate_temporary_path(original_path: &AbsPath) -> (r: Result<AbsPath, SwapError>)
    ensures
        match r {
            Ok(t) => original_path@.len() > 0 && (exists|id: Seq<char>|
                id.len() == 36 && t@ == sibling_with_name(
                    original_path@,
                    #[trigger] temp_name_of(original_path@.last(), id),
                )),
            Err(e) => e matches SwapError::MissingParent(p) && original_path@.len() == 0 && p@
                == original_path@,
        },
{
    let id = fresh_unique_id();
    temporary_sibling(original_path, &id)
}

/// The safety gate in front of any swap: rejects two operands that resolve
/// to the same entry, and a directory paired with one of its own
/// descendants, in either argument order. A pure predicate; it mutates
/// nothing.
pub fn validate_swap(
    path1: &AbsPath,
    path1_is_dir: bool,
    path2: &AbsPath,
    path2_is_dir: bool,
) -> (r: Result<(), SwapError>)
    ensures
        match r {
            Ok(_) => path1@ != path2@ && !(path1_is_dir && is_prefix_of(path1@, path2@)) && !(
            path2_is_dir && is_prefix_of(path2@, path1@)),
            Err(e) => {
                ||| (e matches SwapError::IdenticalPaths && path1@ == path2@)
                ||| (e matches SwapError::NestedSwap && path1@ != path2@ && ((path1_is_dir
                    && is_prefix_of(path1@, path2@)) || (path2_is_dir && is_prefix_of(
                    path2@,
                    path1@,
                ))))
            },
        },
{
    if path1.is_same_entry(path2) {
        return Err(SwapError::IdenticalPaths);
    }
    if path1_is_dir && path2.starts_with(path1) {
        return Err(SwapError::NestedSwap);
    }
    if path2_is_dir && path1.starts_with(path2) {
        return Err(SwapError::NestedSwap);
    }
    Ok(())
}

/// Plans a location swap: the entry at `path1` and the entry at `path2`
/// trade containing directories and keep their own names, via the
/// three-move sequence of `location_swap_moves`.
pub fn swap_locations(path1: &AbsPath, path2: &AbsPath) -> (r: Result<SwapPlan, SwapError>)
    ensures
        plan_outcome(r, SwapMode::LocationSwap, path1@, path2@),
{
    plan_moves(path1, path2, SwapMode::LocationSwap)
}

/// Plans a name swap: the entries stay in their own directories and trade
/// names, via the three-move sequence of `name_swap_moves`.
pub fn swap_names(path1: &AbsPath, path2: &AbsPath) -> (r: Result<SwapPlan, SwapError>)
    ensures
        plan_outcome(r, SwapMode::NameSwap, path1@, path2@),
{
    plan_moves(path1, path2, SwapMode::NameSwap)
}

/// Shared body of the two planning functions: checks the parents, derives
/// the pivot, and lays out the three moves of the requested mode.
fn plan_moves(path1: &AbsPath, path2: &AbsPath, mode: SwapMode) -> (r: Result<SwapPlan, SwapError>)
    ensures
        plan_outcome(r, mode, path1@, path2@),
{
    let parent1 = match path1.parent() {
        Some(p) => p,
        None => {
            return Err(SwapError::MissingParent(path1.clone()));
        },
    };
    let parent2 = match path2.parent() {
        Some(p) => p,
        None => {
            return Err(SwapError::MissingParent(path2.clone()));
        },
    };
    let name1 = match path1.file_name() {
        Some(n) => n.clone(),
        // the parent existed, so the path has a final component
        None => unreached(),
    };
    let name2 = match path2.file_name() {
        Some(n) => n.clone(),
        None => unreached(),
    };

    // In a location swap the first final destination keeps `a`'s parent;
    // in a name swap it keeps `b`'s parent. The other destination is the
    // opposite combination.
    let (mid_dest, last_dest) = match mode {
        SwapMode::LocationSwap => (parent1.join(name2), parent2.join(name1)),
        SwapMode::NameSwap => (parent2.join(name1), parent1.join(name2)),
    };

    let temp_path = match generate_temporary_path(path1) {
        Ok(t) => t,
        // the parent check above already ruled the root out
        Err(_) => unreached(),
    };

    let mut moves: Vec<MoveOp> = Vec::new();
    moves.push(MoveOp { from: path1.clone(), to: temp_path.clone() });
    moves.push(MoveOp { from: path2.clone(), to: mid_dest });
    moves.push(MoveOp { from: temp_path, to: last_dest });
    let plan = SwapPlan { moves };

    proof {
        let id = choose|id: Seq<char>|
            id.len() == 36 && temp_path@ == sibling_with_name(
                path1@,
                #[trigger] temp_name_of(path1@.last(), id),
            );
        assert(plan@ =~= moves_for(mode, path1@, path2@, id));
    }
    Ok(plan)
}

/// The whole run of one swap, after the caller has resolved both operand
/// paths: classifies the two resolution outcomes in order, applies the
/// safety gate, and plans the rename sequence of the requested mode. A
/// resolution failure of the first operand is reported before anything is
/// checked of the second; any error means no move is prescribed.
pub fn run(
    outcome1: ResolveOutcome,
    raw1: String,
    path1_is_dir: bool,
    outcome2: ResolveOutcome,
    raw2: String,
    path2_is_dir: bool,
    mode: SwapMode,
) -> (r: Result<SwapPlan, SwapError>)
    ensures
        match outcome1 {
            ResolveOutcome::NotFound => r matches Err(SwapError::PathNotFound(s)) && s@ == raw1@,
            ResolveOutcome::Failed(c) => r matches Err(SwapError::IoFailure(s, c2)) && s@ == raw1@
                && c2@ == c@,
            ResolveOutcome::Resolved(p1) => match outcome2 {
                ResolveOutcome::NotFound => r matches Err(SwapError::PathNotFound(s)) && s@
                    == raw2@,
                ResolveOutcome::Failed(c) => r matches Err(SwapError::IoFailure(s, c2)) && s@
                    == raw2@ && c2@ == c@,
                ResolveOutcome::Resolved(p2) => if p1@ == p2@ {
                    r matches Err(SwapError::IdenticalPaths)
                } else if (path1_is_dir && is_prefix_of(p1@, p2@)) || (path2_is_dir
                    && is_prefix_of(p2@, p1@)) {
                    r matches Err(SwapError::NestedSwap)
                } else {
                    plan_outcome(r, mode, p1@, p2@)
                },
            },
        },
{
    let path1 = match classify_resolution(outcome1, raw1) {
        Ok(p) => p,
        Err(e) => {
            return Err(e);
        },
    };
    let path2 = match classify_resolution(outcome2, raw2) {
        Ok(p) => p,
        Err(e) => {
            return Err(e);
        },
    };
    match validate_swap(&path1, path1_is_dir, &path2, path2_is_dir) {
        Ok(_) => {},
        Err(e) => {
            return Err(e);
        },
    }
    match mode {
        SwapMode::LocationSwap => swap_locations(&path1, &path2),
        SwapMode::NameSwap => swap_names(&path1, &path2),
    }
}

} // verus!

use std::collections::HashMap;

use pathswap::engine::{
    generate_temporary_path, run, swap_locations, swap_names, temporary_sibling, validate_swap,
    SwapMode, SwapPlan,
};
use pathswap::error::{classify_resolution, ResolveOutcome, SwapError};
use pathswap::path::AbsPath;

fn p(parts: &[&str]) -> AbsPath {
    AbsPath::new(parts.iter().map(|s| s.to_string()).collect())
}

fn comps(path: &AbsPath) -> Vec<String> {
    path.components().clone()
}

fn key(parts: &[&str]) -> Vec<String> {
    parts.iter().map(|s| s.to_string()).collect()
}

/// Replays a plan against a model filesystem: each key is the path at
/// which an entry is rooted, each value the entry's identity (its whole
/// subtree travels with it). Mirrors what three successful renames do,
/// and checks the preconditions a real rename needs.
fn apply_plan(fs: &mut HashMap<Vec<String>, u32>, plan: &SwapPlan) {
    for m in plan.moves.iter() {
        let from = comps(&m.from);
        let to = comps(&m.to);
        assert!(fs.contains_key(&from), "move source must exist");
        assert!(
            to == from || !fs.contains_key(&to),
            "move destination must be vacant"
        );
        let v = fs.remove(&from).unwrap();
        fs.insert(to, v);
    }
}

fn assert_temp_shape(plan: &SwapPlan, original_name: &str) {
    assert_eq!(plan.moves.len(), 3);
    let temp = comps(&plan.moves[0].to);
    let temp_name = temp.last().unwrap();
    let marker_prefix = format!("{}.swap.", original_name);
    assert!(temp_name.starts_with(&marker_prefix));
    assert_eq!(temp_name.len(), original_name.len() + ".swap.".len() + 36);
    // the pivot parked in move one is exactly what move three picks up
    assert_eq!(comps(&plan.moves[2].from), temp);
}

#[test]
fn location_swap_exchanges_across_parents() {
    let a = p(&["data", "a"]);
    let b = p(&["home", "b"]);
    let plan = swap_locations(&a, &b).unwrap();
    assert_temp_shape(&plan, "a");
    assert_eq!(comps(&plan.moves[0].from), key(&["data", "a"]));
    assert_eq!(comps(&plan.moves[1].from), key(&["home", "b"]));
    assert_eq!(comps(&plan.moves[1].to), key(&["data", "b"]));
    assert_eq!(comps(&plan.moves[2].to), key(&["home", "a"]));

    let mut fs = HashMap::new();
    fs.insert(key(&["data", "a"]), 1);
    fs.insert(key(&["home", "b"]), 2);
    apply_plan(&mut fs, &plan);
    assert_eq!(fs.len(), 2);
    assert_eq!(fs.get(&key(&["home", "a"])), Some(&1));
    assert_eq!(fs.get(&key(&["data", "b"])), Some(&2));
    assert!(!fs.keys().any(|k| k.iter().any(|c| c.contains(".swap."))));
}

#[test]
fn location_swap_same_parent_leaves_entries_in_place() {
    // With both operands in one directory, trading containing directories
    // while keeping names sends each entry back to its own path: the
    // sequence parks the first entry, renames the second onto itself, and
    // unparks the first.
    let a = p(&["tmp", "a"]);
    let b = p(&["tmp", "b"]);
    let plan = swap_locations(&a, &b).unwrap();
    assert_temp_shape(&plan, "a");
    assert_eq!(comps(&plan.moves[1].to), key(&["tmp", "b"]));
    assert_eq!(comps(&plan.moves[2].to), key(&["tmp", "a"]));

    let mut fs = HashMap::new();
    fs.insert(key(&["tmp", "a"]), 10);
    fs.insert(key(&["tmp", "b"]), 20);
    apply_plan(&mut fs, &plan);
    assert_eq!(fs.len(), 2);
    assert_eq!(fs.get(&key(&["tmp", "a"])), Some(&10));
    assert_eq!(fs.get(&key(&["tmp", "b"])), Some(&20));
    assert!(!fs.keys().any(|k| k.iter().any(|c| c.contains(".swap."))));
}

#[test]
fn name_swap_exchanges_contents_of_sibling_files() {
    let foo = p(&["tmp", "foo"]);
    let bar = p(&["tmp", "bar"]);
    let plan = swap_names(&foo, &bar).unwrap();
    assert_temp_shape(&plan, "foo");
    assert_eq!(comps(&plan.moves[1].from), key(&["tmp", "bar"]));
    assert_eq!(comps(&plan.moves[1].to), key(&["tmp", "foo"]));
    assert_eq!(comps(&plan.moves[2].to), key(&["tmp", "bar"]));

    let mut fs = HashMap::new();
    fs.insert(key(&["tmp", "foo"]), 1);
    fs.insert(key(&["tmp", "bar"]), 2);
    apply_plan(&mut fs, &plan);
    assert_eq!(fs.len(), 2);
    assert_eq!(fs.get(&key(&["tmp", "bar"])), Some(&1));
    assert_eq!(fs.get(&key(&["tmp", "foo"])), Some(&2));
    assert!(!fs.keys().any(|k| k.iter().any(|c| c.contains(".swap."))));
}

#[test]
fn name_swap_across_parents_trades_names_not_places() {
    let a = p(&["data", "a"]);
    let b = p(&["home", "b"]);
    let plan = swap_names(&a, &b).unwrap();
    let mut fs = HashMap::new();
    fs.insert(key(&["data", "a"]), 1);
    fs.insert(key(&["home", "b"]), 2);
    apply_plan(&mut fs, &plan);
    assert_eq!(fs.len(), 2);
    assert_eq!(fs.get(&key(&["data", "b"])), Some(&1));
    assert_eq!(fs.get(&key(&["home", "a"])), Some(&2));
}

#[test]
fn location_swap_of_same_named_entries_exchanges_them() {
    // The middle destination is the first operand's original path, legal
    // only because move one has already vacated it.
    let a = p(&["x", "foo"]);
    let b = p(&["y", "foo"]);
    let plan = swap_locations(&a, &b).unwrap();
    assert_eq!(comps(&plan.moves[1].to), key(&["x", "foo"]));
    assert_eq!(comps(&plan.moves[2].to), key(&["y", "foo"]));

    let mut fs = HashMap::new();
    fs.insert(key(&["x", "foo"]), 1);
    fs.insert(key(&["y", "foo"]), 2);
    apply_plan(&mut fs, &plan);
    assert_eq!(fs.len(), 2);
    assert_eq!(fs.get(&key(&["y", "foo"])), Some(&1));
    assert_eq!(fs.get(&key(&["x", "foo"])), Some(&2));
}

#[test]
fn location_swap_round_trip_restores_original_state() {
    let a = p(&["data", "a"]);
    let b = p(&["home", "b"]);
    let mut fs = HashMap::new();
    fs.insert(key(&["data", "a"]), 1);
    fs.insert(key(&["home", "b"]), 2);

    let plan1 = swap_locations(&a, &b).unwrap();
    apply_plan(&mut fs, &plan1);

    let a_moved = p(&["home", "a"]);
    let b_moved = p(&["data", "b"]);
    let plan2 = swap_locations(&a_moved, &b_moved).unwrap();
    apply_plan(&mut fs, &plan2);

    assert_eq!(fs.len(), 2);
    assert_eq!(fs.get(&key(&["data", "a"])), Some(&1));
    assert_eq!(fs.get(&key(&["home", "b"])), Some(&2));
}

#[test]
fn identical_paths_always_rejected() {
    let a = p(&["tmp", "a"]);
    let r = validate_swap(&a, true, &p(&["tmp", "a"]), true);
    assert!(matches!(r, Err(SwapError::IdenticalPaths)));

    for mode in [SwapMode::LocationSwap, SwapMode::NameSwap] {
        let r = run(
            ResolveOutcome::Resolved(p(&["tmp", "a"])),
            "/tmp/a".to_string(),
            false,
            ResolveOutcome::Resolved(p(&["tmp", "a"])),
            "/tmp/a".to_string(),
            false,
            mode,
        );
        // no plan comes back, so no move is ever issued
        assert!(matches!(r, Err(SwapError::IdenticalPaths)));
    }
}

#[test]
fn nested_paths_rejected_in_both_orders() {
    let parent = p(&["tmp", "dir"]);
    let child = p(&["tmp", "dir", "inner"]);
    let r = validate_swap(&parent, true, &child, false);
    assert!(matches!(r, Err(SwapError::NestedSwap)));
    let r = validate_swap(&child, false, &parent, true);
    assert!(matches!(r, Err(SwapError::NestedSwap)));

    for mode in [SwapMode::LocationSwap, SwapMode::NameSwap] {
        let r = run(
            ResolveOutcome::Resolved(p(&["tmp", "dir"])),
            "/tmp/dir".to_string(),
            true,
            ResolveOutcome::Resolved(p(&["tmp", "dir", "inner"])),
            "/tmp/dir/inner".to_string(),
            false,
            mode,
        );
        assert!(matches!(r, Err(SwapError::NestedSwap)));
        let r = run(
            ResolveOutcome::Resolved(p(&["tmp", "dir", "inner"])),
            "/tmp/dir/inner".to_string(),
            false,
            ResolveOutcome::Resolved(p(&["tmp", "dir"])),
            "/tmp/dir".to_string(),
            true,
            mode,
        );
        assert!(matches!(r, Err(SwapError::NestedSwap)));
    }
}

#[test]
fn nesting_check_needs_the_directory_flag() {
    // Prefix alone is not enough: the safety check fires only when the
    // enclosing operand really is a directory.
    let outer = p(&["tmp", "dir"]);
    let inner = p(&["tmp", "dir", "inner"]);
    let r = validate_swap(&outer, false, &inner, false);
    assert!(r.is_ok());
}

#[test]
fn unresolved_first_path_reported_before_anything_else() {
    // Even though the second operand would fail validation too, the first
    // resolution failure wins, and no plan (hence no mutation) results.
    let r = run(
        ResolveOutcome::NotFound,
        "missing".to_string(),
        false,
        ResolveOutcome::NotFound,
        "also-missing".to_string(),
        false,
        SwapMode::LocationSwap,
    );
    match r {
        Err(SwapError::PathNotFound(raw)) => assert_eq!(raw, "missing"),
        other => panic!("unexpected outcome: {:?}", other),
    }
}

#[test]
fn unresolved_second_path_reported_after_first_resolves() {
    let r = run(
        ResolveOutcome::Resolved(p(&["tmp", "a"])),
        "/tmp/a".to_string(),
        false,
        ResolveOutcome::NotFound,
        "gone".to_string(),
        false,
        SwapMode::NameSwap,
    );
    match r {
        Err(SwapError::PathNotFound(raw)) => assert_eq!(raw, "gone"),
        other => panic!("unexpected outcome: {:?}", other),
    }
}

#[test]
fn resolution_io_failure_keeps_path_and_cause() {
    let r = classify_resolution(
        ResolveOutcome::Failed("permission denied".to_string()),
        "secret".to_string(),
    );
    match r {
        Err(SwapError::IoFailure(path, cause)) => {
            assert_eq!(path, "secret");
            assert_eq!(cause, "permission denied");
        }
        other => panic!("unexpected outcome: {:?}", other),
    }
}

#[test]
fn classify_resolution_passes_resolved_path_through() {
    let r = classify_resolution(
        ResolveOutcome::Resolved(p(&["tmp", "a"])),
        "/tmp/a".to_string(),
    );
    assert_eq!(comps(&r.unwrap()), key(&["tmp", "a"]));
}

#[test]
fn swapping_the_root_reports_missing_parent() {
    let root = p(&[]);
    let other = p(&["tmp", "a"]);
    match swap_locations(&root, &other) {
        Err(SwapError::MissingParent(path)) => assert_eq!(path.depth(), 0),
        other => panic!("unexpected outcome: {:?}", other),
    }
    match swap_names(&other, &root) {
        Err(SwapError::MissingParent(path)) => assert_eq!(path.depth(), 0),
        other => panic!("unexpected outcome: {:?}", other),
    }
    match generate_temporary_path(&root) {
        Err(SwapError::MissingParent(path)) => assert_eq!(path.depth(), 0),
        other => panic!("unexpected outcome: {:?}", other),
    }
}

#[test]
fn temporary_sibling_appends_marker_and_identifier() {
    let a = p(&["tmp", "a"]);
    let id = "0123".to_string();
    let t = temporary_sibling(&a, &id).unwrap();
    assert_eq!(comps(&t), key(&["tmp", "a.swap.0123"]));
}

#[test]
fn generated_temporary_names_are_fresh_each_time() {
    let a = p(&["tmp", "a"]);
    let t1 = generate_temporary_path(&a).unwrap();
    let t2 = generate_temporary_path(&a).unwrap();
    let n1 = comps(&t1).last().unwrap().clone();
    let n2 = comps(&t2).last().unwrap().clone();
    assert!(n1.starts_with("a.swap."));
    assert_eq!(n1.len(), "a.swap.".len() + 36);
    assert_ne!(n1, n2);
}

#[test]
fn successful_run_plans_the_mode_that_was_asked() {
    let r = run(
        ResolveOutcome::Resolved(p(&["tmp", "foo"])),
        "/tmp/foo".to_string(),
        false,
        ResolveOutcome::Resolved(p(&["tmp", "bar"])),
        "/tmp/bar".to_string(),
        false,
        SwapMode::NameSwap,
    );
    let plan = r.unwrap();
    let mut fs = HashMap::new();
    fs.insert(key(&["tmp", "foo"]), 7);
    fs.insert(key(&["tmp", "bar"]), 8);
    apply_plan(&mut fs, &plan);
    assert_eq!(fs.get(&key(&["tmp", "bar"])), Some(&7));
    assert_eq!(fs.get(&key(&["tmp", "foo"])), Some(&8));
}

//! An abstract model of the filesystem, and the laws that the swap
//! sequences obey on it.
//!
//! The model tracks entries at the granularity the swap works with: each
//! key is the absolute path at which an entry is rooted, each value the
//! identity of that entry together with its whole subtree. A rename
//! re-roots one entry; it never copies and never merges, so an entry's
//! identity is preserved across any number of moves.

use vstd::prelude::*;

use crate::engine::{location_swap_moves, name_swap_moves, sibling_with_name, temp_name_of};
use crate::path::{PathView, is_prefix_of};

verus! {

/// An abstract filesystem: tracked entries by the path of their root.
pub type FsModel = Map<PathView, nat>;

/// One rename applied to the model: the entry rooted at `from` is
/// re-rooted at `to`, subtree and all. Where `from` is no tracked entry
/// the model is unchanged (the real rename would fail and end the run
/// before any later move).
pub open spec fn apply_move(fs: FsModel, from: PathView, to: PathView) -> FsModel {
    if fs.dom().contains(from) {
        fs.remove(from).insert(to, fs[from])
    } else {
        fs
    }
}

/// A move sequence applied strictly in order.
pub open spec fn apply_moves(fs: FsModel, moves: Seq<(PathView, PathView)>) -> FsModel
    decreases moves.len(),
{
    if moves.len() == 0 {
        fs
    } else {
        apply_moves(apply_move(fs, moves[0].0, moves[0].1), moves.drop_first())
    }
}

/// Unfolds `apply_moves` for the three-element sequences every swap plan
/// consists of.
proof fn lemma_apply_three(fs: FsModel, m: Seq<(PathView, PathView)>)
    requires
        m.len() == 3,
    ensures
        apply_moves(fs, m) == apply_move(
            apply_move(apply_move(fs, m[0].0, m[0].1), m[1].0, m[1].1),
            m[2].0,
            m[2].1,
        ),
{
    reveal_with_fuel(apply_moves, 4);
    assert(m.drop_first()[0] == m[1]);
    assert(m.drop_first().drop_first()[0] == m[2]);
    assert(m.drop_first().drop_first().drop_first().len() == 0);
}

/// The two final destinations of a swap differ whenever the operands do:
/// were `a`'s parent joined with `b`'s name the same path as `b`'s parent
/// joined with `a`'s name, the operands themselves would coincide.
proof fn lemma_cross_siblings_distinct(a: PathView, b: PathView)
    requires
        a.len() > 0,
        b.len() > 0,
        a != b,
    ensures
        sibling_with_name(a, b.last()) != sibling_with_name(b, a.last()),
{
    let d_mid = sibling_with_name(a, b.last());
    let d_last = sibling_with_name(b, a.last());
    if d_mid == d_last {
        assert(d_mid.len() == a.len());
        assert(d_last.len() == b.len());
        assert forall|i: int| 0 <= i < a.len() implies a[i] == b[i] by {
            if i < a.len() - 1 {
                assert(d_mid[i] == a[i]);
                assert(d_last[i] == b[i]);
            } else {
                assert(d_mid[a.len() - 1] == b.last());
                assert(d_last[b.len() - 1] == a.last());
            }
        }
        assert(a =~= b);
    }
}

/// The algebraic heart of the swap: a three-move sequence through a fresh
/// pivot `t` exchanges the entries at `a` and `b`, placing `b`'s entry at
/// `d_mid` and `a`'s entry at `d_last`, and leaves every other tracked
/// entry untouched. Each destination must be vacant when its move runs,
/// which is what the vacancy hypotheses say of the initial state.
proof fn lemma_pivot_sequence(
    fs: FsModel,
    a: PathView,
    b: PathView,
    t: PathView,
    d_mid: PathView,
    d_last: PathView,
)
    requires
        fs.dom().contains(a),
        fs.dom().contains(b),
        a != b,
        !fs.dom().contains(t),
        t != d_mid,
        t != d_last,
        d_mid == a || d_mid == b || !fs.dom().contains(d_mid),
        d_last == a || d_last == b || !fs.dom().contains(d_last),
    ensures
        apply_moves(fs, seq![(a, t), (b, d_mid), (t, d_last)]) =~= fs.remove(a).remove(b).insert(
            d_mid,
            fs[b],
        ).insert(d_last, fs[a]),
{
    let m = seq![(a, t), (b, d_mid), (t, d_last)];
    lemma_apply_three(fs, m);
    let fs1 = apply_move(fs, a, t);
    let fs2 = apply_move(fs1, b, d_mid);
    let fs3 = apply_move(fs2, t, d_last);
    assert(fs1 == fs.remove(a).insert(t, fs[a]));
    assert(fs2 == fs1.remove(b).insert(d_mid, fs1[b]));
    assert(fs3 == fs2.remove(t).insert(d_last, fs2[t]));
}

/// The location swap law: after the three moves of
/// `location_swap_moves(a, b, id)`, the entry formerly at `a` is rooted at
/// `b`'s original parent under `a`'s original name, the entry formerly at
/// `b` at `a`'s original parent under `b`'s original name; nothing remains
/// at the temporary name, and every other tracked entry is untouched.
///
/// Besides validity of the operands (distinct, non-nested, neither the
/// root), the hypotheses say that the pivot is fresh and that each
/// destination is vacant when its move runs — which the temporary-name
/// generation and the upstream checks make overwhelmingly likely, and
/// which the real rename sequence requires to succeed.
pub proof fn lemma_location_swap_exchanges(fs: FsModel, a: PathView, b: PathView, id: Seq<char>)
    requires
        a.len() > 0,
        b.len() > 0,
        a != b,
        !is_prefix_of(a, b),
        !is_prefix_of(b, a),
        fs.dom().contains(a),
        fs.dom().contains(b),
        !fs.dom().contains(sibling_with_name(a, temp_name_of(a.last(), id))),
        sibling_with_name(a, temp_name_of(a.last(), id)) != sibling_with_name(a, b.last()),
        sibling_with_name(a, temp_name_of(a.last(), id)) != sibling_with_name(b, a.last()),
        sibling_with_name(a, b.last()) == a || sibling_with_name(a, b.last()) == b
            || !fs.dom().contains(sibling_with_name(a, b.last())),
        sibling_with_name(b, a.last()) == a || sibling_with_name(b, a.last()) == b
            || !fs.dom().contains(sibling_with_name(b, a.last())),
    ensures
        apply_moves(fs, location_swap_moves(a, b, id)) =~= fs.remove(a).remove(b).insert(
            sibling_with_name(a, b.last()),
            fs[b],
        ).insert(sibling_with_name(b, a.last()), fs[a]),
        apply_moves(fs, location_swap_moves(a, b, id))[sibling_with_name(b, a.last())] == fs[a],
        apply_moves(fs, location_swap_moves(a, b, id))[sibling_with_name(a, b.last())] == fs[b],
        !apply_moves(fs, location_swap_moves(a, b, id)).dom().contains(
            sibling_with_name(a, temp_name_of(a.last(), id)),
        ),
        forall|p: PathView|
            fs.dom().contains(p) && p != a && p != b ==> apply_moves(
                fs,
                location_swap_moves(a, b, id),
            ).dom().contains(p) && apply_moves(fs, location_swap_moves(a, b, id))[p] == fs[p],
{
    let t = sibling_with_name(a, temp_name_of(a.last(), id));
    let d_mid = sibling_with_name(a, b.last());
    let d_last = sibling_with_name(b, a.last());
    lemma_pivot_sequence(fs, a, b, t, d_mid, d_last);
    assert(location_swap_moves(a, b, id) =~= seq![(a, t), (b, d_mid), (t, d_last)]);
    lemma_cross_siblings_distinct(a, b);
}

/// The name swap law: after the three moves of `name_swap_moves(a, b, id)`,
/// the entry formerly at `a` stands in its own parent under `b`'s original
/// name, the entry formerly at `b` in its own parent under `a`'s original
/// name; nothing remains at the temporary name, and every other tracked
/// entry is untouched. Hypotheses as in the location swap law.
pub proof fn lemma_name_swap_exchanges(fs: FsModel, a: PathView, b: PathView, id: Seq<char>)
    requires
        a.len() > 0,
        b.len() > 0,
        a != b,
        !is_prefix_of(a, b),
        !is_prefix_of(b, a),
        fs.dom().contains(a),
        fs.dom().contains(b),
        !fs.dom().contains(sibling_with_name(a, temp_name_of(a.last(), id))),
        sibling_with_name(a, temp_name_of(a.last(), id)) != sibling_with_name(b, a.last()),
        sibling_with_name(a, temp_name_of(a.last(), id)) != sibling_with_name(a, b.last()),
        sibling_with_name(b, a.last()) == a || sibling_with_name(b, a.last()) == b
            || !fs.dom().contains(sibling_with_name(b, a.last())),
        sibling_with_name(a, b.last()) == a || sibling_with_name(a, b.last()) == b
            || !fs.dom().contains(sibling_with_name(a, b.last())),
    ensures
        apply_moves(fs, name_swap_moves(a, b, id)) =~= fs.remove(a).remove(b).insert(
            sibling_with_name(b, a.last()),
            fs[b],
        ).insert(sibling_with_name(a, b.last()), fs[a]),
        apply_moves(fs, name_swap_moves(a, b, id))[sibling_with_name(a, b.last())] == fs[a],
        apply_moves(fs, name_swap_moves(a, b, id))[sibling_with_name(b, a.last())] == fs[b],
        !apply_moves(fs, name_swap_moves(a, b, id)).dom().contains(
            sibling_with_name(a, temp_name_of(a.last(), id)),
        ),
        forall|p: PathView|
            fs.dom().contains(p) && p != a && p != b ==> apply_moves(
                fs,
                name_swap_moves(a, b, id),
            ).dom().contains(p) && apply_moves(fs, name_swap_moves(a, b, id))[p] == fs[p],
{
    let t = sibling_with_name(a, temp_name_of(a.last(), id));
    let d_mid = sibling_with_name(b, a.last());
    let d_last = sibling_with_name(a, b.last());
    lemma_pivot_sequence(fs, a, b, t, d_mid, d_last);
    assert(name_swap_moves(a, b, id) =~= seq![(a, t), (b, d_mid), (t, d_last)]);
    lemma_cross_siblings_distinct(a, b);
}


/// The exposure after a mid-sequence failure, which the design accepts
/// rather than rolling back. Every swap sequence begins `(a, t)` and
/// continues `(b, d_mid)`, where `t` is the fresh pivot and `d_mid` the
/// second entry's final destination in the chosen mode. If the first move
/// fails, nothing has changed yet. Once the first move has run, the first
/// entry sits parked at the pivot and the second is untouched. Once the
/// second has run as well, the second entry has reached its final
/// destination while the first is still parked; only the closing move
/// eliminates the temporary name.
pub proof fn lemma_partial_failure_exposure(
    fs: FsModel,
    a: PathView,
    b: PathView,
    t: PathView,
    d_mid: PathView,
)
    requires
        fs.dom().contains(a),
        fs.dom().contains(b),
        a != b,
        !fs.dom().contains(t),
        t != d_mid,
        d_mid == a || d_mid == b || !fs.dom().contains(d_mid),
    ensures
        ({
            let after_one = apply_move(fs, a, t);
            &&& after_one[t] == fs[a]
            &&& !after_one.dom().contains(a)
            &&& after_one[b] == fs[b]
            &&& forall|p: PathView|
                fs.dom().contains(p) && p != a ==> after_one.dom().contains(p) && after_one[p]
                    == fs[p]
        }),
        ({
            let after_two = apply_move(apply_move(fs, a, t), b, d_mid);
            &&& after_two[t] == fs[a]
            &&& after_two[d_mid] == fs[b]
            &&& forall|p: PathView|
                fs.dom().contains(p) && p != a && p != b ==> after_two.dom().contains(p)
                    && after_two[p] == fs[p]
        }),
{
}

/// The round-trip law: a location swap of `a` and `b`, followed by a
/// location swap of the two relocated entries, returns every tracked
/// entry to its original place. The hypotheses are those of a first
/// successful swap, then those of a second one re-issued against the new
/// paths: the relocated pair is again distinct and non-nested, the second
/// pivot is fresh, and the second run's destinations — the original `a`
/// and `b`, now vacated — need no further hypothesis.
pub proof fn lemma_location_swap_round_trip(
    fs: FsModel,
    a: PathView,
    b: PathView,
    id1: Seq<char>,
    id2: Seq<char>,
)
    requires
        a.len() > 0,
        b.len() > 0,
        a != b,
        !is_prefix_of(a, b),
        !is_prefix_of(b, a),
        fs.dom().contains(a),
        fs.dom().contains(b),
        !fs.dom().contains(sibling_with_name(a, temp_name_of(a.last(), id1))),
        sibling_with_name(a, temp_name_of(a.last(), id1)) != sibling_with_name(a, b.last()),
        sibling_with_name(a, temp_name_of(a.last(), id1)) != sibling_with_name(b, a.last()),
        sibling_with_name(a, b.last()) == a || sibling_with_name(a, b.last()) == b
            || !fs.dom().contains(sibling_with_name(a, b.last())),
        sibling_with_name(b, a.last()) == a || sibling_with_name(b, a.last()) == b
            || !fs.dom().contains(sibling_with_name(b, a.last())),
        !is_prefix_of(sibling_with_name(b, a.last()), sibling_with_name(a, b.last())),
        !is_prefix_of(sibling_with_name(a, b.last()), sibling_with_name(b, a.last())),
        !fs.dom().contains(
            sibling_with_name(sibling_with_name(b, a.last()), temp_name_of(a.last(), id2)),
        ),
        sibling_with_name(sibling_with_name(b, a.last()), temp_name_of(a.last(), id2)) != a,
        sibling_with_name(sibling_with_name(b, a.last()), temp_name_of(a.last(), id2)) != b,
        sibling_with_name(sibling_with_name(b, a.last()), temp_name_of(a.last(), id2))
            != sibling_with_name(b, a.last()),
        sibling_with_name(sibling_with_name(b, a.last()), temp_name_of(a.last(), id2))
            != sibling_with_name(a, b.last()),
    ensures
        apply_moves(
            apply_moves(fs, location_swap_moves(a, b, id1)),
            location_swap_moves(
                sibling_with_name(b, a.last()),
                sibling_with_name(a, b.last()),
                id2,
            ),
        ) =~= fs,
{
    let ap = sibling_with_name(b, a.last());
    let bp = sibling_with_name(a, b.last());
    let t2 = sibling_with_name(ap, temp_name_of(a.last(), id2));
    lemma_location_swap_exchanges(fs, a, b, id1);
    lemma_cross_siblings_distinct(a, b);
    let fs1 = apply_moves(fs, location_swap_moves(a, b, id1));
    assert(ap.last() == a.last());
    assert(bp.last() == b.last());
    assert(ap.drop_last() =~= b.drop_last());
    assert(bp.drop_last() =~= a.drop_last());
    assert(sibling_with_name(ap, bp.last()) =~= b);
    assert(sibling_with_name(bp, ap.last()) =~= a);
    assert(sibling_with_name(ap, temp_name_of(ap.last(), id2)) == t2);
    lemma_location_swap_exchanges(fs1, ap, bp, id2);
    let fs2 = apply_moves(fs1, location_swap_moves(ap, bp, id2));
    assert(fs2 =~= fs1.remove(ap).remove(bp).insert(b, fs1[bp]).insert(a, fs1[ap]));
    assert(fs2 =~= fs);
}

} // verus!

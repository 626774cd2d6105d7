//! The Separating-Axis-Theorem narrow phase, as a mathematical function.
//!
//! Two convex shapes overlap exactly when no axis separates their
//! projections. The candidate axes for two (possibly degenerate)
//! rectangles are the two primary directions and their perpendiculars.
//! For each axis the projections of both vertex sets give an interval
//! overlap; a nested interval gets a correction and may flip the axis;
//! the axis with the least adjusted overlap is the separating axis, its
//! sign fixed by the nesting flip and by which body's projection reaches
//! further along it, and the contact vertex is the minimum-projection
//! corner of the incident body.
//!
//! Everything here is stated over exact integers; only the reported
//! `min_overlap` is saturated into `i64` at the very end.

use vstd::pervasive::VecAdditionalExecFns;
use vstd::prelude::*;

use crate::fx::{abs1, clamp64, lemma_fx_mul_neg_one, spec_fx_neg, FX_ONE};
use crate::traits::BodyView;
use crate::vec2d::Vec2D;

verus! {

/// Componentwise saturating negation of a vector.
pub open spec fn spec_neg_v2(v: Vec2D) -> Vec2D {
    Vec2D { x: spec_fx_neg(v.x), y: spec_fx_neg(v.y) }
}

/// The greatest projection of any vertex onto `axis`.
pub open spec fn proj_max(axis: Vec2D, verts: Seq<Vec2D>) -> i64
    decreases verts.len(),
{
    if verts.len() <= 1 {
        Vec2D::spec_dot(axis, verts[0])
    } else {
        let prev = proj_max(axis, verts.drop_last());
        let last = Vec2D::spec_dot(axis, verts.last());
        if last > prev {
            last
        } else {
            prev
        }
    }
}

/// The least projection of any vertex onto `axis`.
pub open spec fn proj_min(axis: Vec2D, verts: Seq<Vec2D>) -> i64
    decreases verts.len(),
{
    if verts.len() <= 1 {
        Vec2D::spec_dot(axis, verts[0])
    } else {
        let prev = proj_min(axis, verts.drop_last());
        let last = Vec2D::spec_dot(axis, verts.last());
        if last < prev {
            last
        } else {
            prev
        }
    }
}

/// The first vertex attaining the least projection onto `axis`: the
/// colliding-vertex candidate of this axis.
pub open spec fn proj_min_vertex(axis: Vec2D, verts: Seq<Vec2D>) -> Vec2D
    decreases verts.len(),
{
    if verts.len() <= 1 {
        verts[0]
    } else {
        let prev = proj_min_vertex(axis, verts.drop_last());
        if Vec2D::spec_dot(axis, verts.last()) < proj_min(axis, verts.drop_last()) {
            verts.last()
        } else {
            prev
        }
    }
}

/// The projection folds compute what their names say: every vertex
/// projects between `proj_min` and `proj_max`, both bounds are
/// attained, and the colliding-vertex candidate is a vertex attaining
/// the least projection.
pub proof fn lemma_proj_bounds(axis: Vec2D, verts: Seq<Vec2D>)
    requires
        verts.len() >= 1,
    ensures
        forall|i: int|
            0 <= i < verts.len() ==> proj_min(axis, verts) <= #[trigger] Vec2D::spec_dot(
                axis,
                verts[i],
            ) <= proj_max(axis, verts),
        exists|i: int| 0 <= i < verts.len() && Vec2D::spec_dot(axis, verts[i]) == proj_max(
            axis,
            verts,
        ),
        exists|i: int|
            0 <= i < verts.len() && verts[i] == proj_min_vertex(axis, verts) && Vec2D::spec_dot(
                axis,
                verts[i],
            ) == proj_min(axis, verts),
    decreases verts.len(),
{
    if verts.len() == 1 {
        assert(Vec2D::spec_dot(axis, verts[0]) == proj_max(axis, verts));
        assert(verts[0] == proj_min_vertex(axis, verts) && Vec2D::spec_dot(axis, verts[0])
            == proj_min(axis, verts));
    } else {
        let shorter = verts.drop_last();
        lemma_proj_bounds(axis, shorter);
        assert(forall|i: int| 0 <= i < shorter.len() ==> shorter[i] == verts[i]);
        let high = choose|i: int|
            0 <= i < shorter.len() && Vec2D::spec_dot(axis, shorter[i]) == proj_max(axis, shorter);
        let low = choose|i: int|
            0 <= i < shorter.len() && shorter[i] == proj_min_vertex(axis, shorter)
                && Vec2D::spec_dot(axis, shorter[i]) == proj_min(axis, shorter);
        if Vec2D::spec_dot(axis, verts.last()) > proj_max(axis, shorter) {
            assert(Vec2D::spec_dot(axis, verts[verts.len() - 1]) == proj_max(axis, verts));
        } else {
            assert(Vec2D::spec_dot(axis, verts[high]) == proj_max(axis, verts));
        }
        if Vec2D::spec_dot(axis, verts.last()) < proj_min(axis, shorter) {
            assert(verts[verts.len() - 1] == proj_min_vertex(axis, verts) && Vec2D::spec_dot(
                axis,
                verts[verts.len() - 1],
            ) == proj_min(axis, verts));
        } else {
            assert(verts[low] == proj_min_vertex(axis, verts) && Vec2D::spec_dot(axis, verts[low])
                == proj_min(axis, verts));
        }
    }
}

/// The four candidate separating axes: each body's perpendicular and
/// primary direction, first body first.
pub open spec fn sat_axes(da: Vec2D, db: Vec2D) -> Seq<Vec2D> {
    seq![da.spec_normal(), da, db.spec_normal(), db]
}

/// Plain interval overlap of the two projections on `axis`:
/// `min(max1, max2) - max(min1, min2)`, exact.
pub open spec fn overlap_raw(axis: Vec2D, va: Seq<Vec2D>, vb: Seq<Vec2D>) -> int {
    vstd::math::min(proj_max(axis, va) as int, proj_max(axis, vb) as int) - vstd::math::max(
        proj_min(axis, va) as int,
        proj_min(axis, vb) as int,
    )
}

/// One projection interval strictly contains the other on `axis`.
pub open spec fn contained(axis: Vec2D, va: Seq<Vec2D>, vb: Seq<Vec2D>) -> bool {
    let max1 = proj_max(axis, va);
    let min1 = proj_min(axis, va);
    let max2 = proj_max(axis, vb);
    let min2 = proj_min(axis, vb);
    (max1 > max2 && min1 < min2) || (max1 < max2 && min1 > min2)
}

/// The correction a nested interval adds to the plain overlap: the
/// smaller of the two interval-edge distances.
pub open spec fn correction(axis: Vec2D, va: Seq<Vec2D>, vb: Seq<Vec2D>) -> int {
    if contained(axis, va, vb) {
        vstd::math::min(
            abs1(proj_min(axis, va) - proj_min(axis, vb)),
            abs1(proj_max(axis, va) - proj_max(axis, vb)),
        )
    } else {
        0
    }
}

/// A nested interval whose far edges are at least as close as its near
/// edges also flips the axis sign.
pub open spec fn flip_contained(axis: Vec2D, va: Seq<Vec2D>, vb: Seq<Vec2D>) -> bool {
    contained(axis, va, vb) && abs1(proj_min(axis, va) - proj_min(axis, vb)) >= abs1(
        proj_max(axis, va) - proj_max(axis, vb),
    )
}

/// The adjusted overlap on `axis`: plain overlap plus nesting
/// correction, exact.
pub open spec fn overlap_adj(axis: Vec2D, va: Seq<Vec2D>, vb: Seq<Vec2D>) -> int {
    overlap_raw(axis, va, vb) + correction(axis, va, vb)
}

/// Some candidate axis among the first `n` separates the two vertex
/// sets: its plain overlap is not positive.
pub open spec fn separated(va: Seq<Vec2D>, da: Vec2D, vb: Seq<Vec2D>, db: Vec2D) -> bool {
    exists|i: int| 0 <= i < 4 && overlap_raw(sat_axes(da, db)[i], va, vb) <= 0
}

/// The index among the first `n` candidate axes with the least adjusted
/// overlap; the earliest wins a tie, as a running strict minimum does.
pub open spec fn best_idx_upto(
    va: Seq<Vec2D>,
    da: Vec2D,
    vb: Seq<Vec2D>,
    db: Vec2D,
    n: int,
) -> int
    decreases n,
{
    if n <= 1 {
        0
    } else {
        let prev = best_idx_upto(va, da, vb, db, n - 1);
        if overlap_adj(sat_axes(da, db)[n - 1], va, vb) < overlap_adj(
            sat_axes(da, db)[prev],
            va,
            vb,
        ) {
            n - 1
        } else {
            prev
        }
    }
}

/// The axis index the search settles on.
pub open spec fn best_idx(va: Seq<Vec2D>, da: Vec2D, vb: Seq<Vec2D>, db: Vec2D) -> int {
    best_idx_upto(va, da, vb, db, 4)
}

/// The settled index always lies among the candidates seen so far.
pub proof fn lemma_best_idx_range(va: Seq<Vec2D>, da: Vec2D, vb: Seq<Vec2D>, db: Vec2D, n: int)
    requires
        n >= 1,
    ensures
        0 <= best_idx_upto(va, da, vb, db, n) < n,
    decreases n,
{
    if n > 1 {
        lemma_best_idx_range(va, da, vb, db, n - 1);
    }
}

/// The settled index carries the least adjusted overlap of all the
/// candidates seen so far.
pub proof fn lemma_best_idx_least(va: Seq<Vec2D>, da: Vec2D, vb: Seq<Vec2D>, db: Vec2D, n: int)
    requires
        n >= 1,
    ensures
        forall|j: int|
            0 <= j < n ==> overlap_adj(
                sat_axes(da, db)[best_idx_upto(va, da, vb, db, n)],
                va,
                vb,
            ) <= #[trigger] overlap_adj(sat_axes(da, db)[j], va, vb),
    decreases n,
{
    if n > 1 {
        lemma_best_idx_least(va, da, vb, db, n - 1);
    }
}

/// The chosen axis after its two sign adjustments: the nesting flip,
/// then the flip keyed to which body's projection reaches further
/// along the candidate axis.
pub open spec fn axis_oriented(
    va: Seq<Vec2D>,
    da: Vec2D,
    vb: Seq<Vec2D>,
    db: Vec2D,
    k: int,
) -> Vec2D {
    let a = sat_axes(da, db)[k];
    let a1 = if flip_contained(a, va, vb) {
        spec_neg_v2(a)
    } else {
        a
    };
    let flip_toward = if k < 2 {
        proj_max(a, va) > proj_max(a, vb)
    } else {
        proj_max(a, va) < proj_max(a, vb)
    };
    if flip_toward {
        spec_neg_v2(a1)
    } else {
        a1
    }
}

/// The full narrow-phase result on two vertex sets with their primary
/// directions: `None` exactly when some candidate axis separates them,
/// else the least adjusted overlap (saturated into `i64`), the chosen
/// axis with its sign adjustments applied (negated once more when it
/// came from the first body's candidates), and the contact vertex read
/// from the incident body.
pub open spec fn sat_seqs(va: Seq<Vec2D>, da: Vec2D, vb: Seq<Vec2D>, db: Vec2D) -> Option<
    (i64, Vec2D, Vec2D),
> {
    if separated(va, da, vb, db) {
        None
    } else {
        let k = best_idx(va, da, vb, db);
        let oriented = axis_oriented(va, da, vb, db, k);
        let min_overlap = clamp64(overlap_adj(sat_axes(da, db)[k], va, vb)) as i64;
        if k >= 2 {
            Some((min_overlap, oriented, proj_min_vertex(oriented, va)))
        } else {
            Some((min_overlap, spec_neg_v2(oriented), proj_min_vertex(oriented, vb)))
        }
    }
}

/// The narrow-phase result on two bodies' tentative states.
pub open spec fn sat_views(a: BodyView, b: BodyView) -> Option<(i64, Vec2D, Vec2D)> {
    sat_seqs(a.vertex_potential, a.direction, b.vertex_potential, b.direction)
}

/// Projection of a vertex list onto an axis: greatest and least
/// projection values, and the first vertex attaining the least.
pub fn projection_on_axis(axis: &Vec2D, verts: &Vec<Vec2D>) -> (r: (i64, i64, Vec2D))
    requires
        verts@.len() >= 1,
    ensures
        r.0 == proj_max(*axis, verts@),
        r.1 == proj_min(*axis, verts@),
        r.2 == proj_min_vertex(*axis, verts@),
{
    let mut max = Vec2D::dot(axis, &verts[0]);
    let mut min = max;
    let mut collision_vertex = verts[0];
    let mut i: usize = 1;
    proof {
        assert(verts@.subrange(0, 1).len() == 1);
        assert(verts@.subrange(0, 1)[0] == verts@[0]);
    }
    while i < verts.len()
        invariant
            1 <= i <= verts@.len(),
            max == proj_max(*axis, verts@.subrange(0, i as int)),
            min == proj_min(*axis, verts@.subrange(0, i as int)),
            collision_vertex == proj_min_vertex(*axis, verts@.subrange(0, i as int)),
        decreases verts@.len() - i,
    {
        let p = Vec2D::dot(axis, &verts[i]);
        proof {
            let pre = verts@.subrange(0, i as int);
            let cur = verts@.subrange(0, i + 1);
            assert(cur.drop_last() =~= pre);
            assert(cur.last() == verts@[i as int]);
        }
        if p < min {
            min = p;
            collision_vertex = verts[i];
        }
        if p > max {
            max = p;
        }
        i = i + 1;
    }
    proof {
        assert(verts@.subrange(0, verts@.len() as int) =~= verts@);
    }
    (max, min, collision_vertex)
}

/// A reported collision always carries a strictly positive
/// penetration: every candidate axis overlapped, and the nesting
/// correction only adds.
pub proof fn lemma_sat_overlap_positive(va: Seq<Vec2D>, da: Vec2D, vb: Seq<Vec2D>, db: Vec2D)
    requires
        sat_seqs(va, da, vb, db) is Some,
    ensures
        sat_seqs(va, da, vb, db)->Some_0.0 > 0,
{
    let k = best_idx(va, da, vb, db);
    lemma_best_idx_range(va, da, vb, db, 4);
    if overlap_raw(sat_axes(da, db)[k], va, vb) <= 0 {
        assert(separated(va, da, vb, db));
    }
    assert(correction(sat_axes(da, db)[k], va, vb) >= 0);
}

/// Exchanging the two bodies changes nothing an axis reports: the
/// interval overlap, the nesting test, its correction and its flip are
/// all symmetric in the two vertex sets.
proof fn lemma_axis_swap(axis: Vec2D, va: Seq<Vec2D>, vb: Seq<Vec2D>)
    ensures
        overlap_raw(axis, vb, va) == overlap_raw(axis, va, vb),
        contained(axis, vb, va) == contained(axis, va, vb),
        correction(axis, vb, va) == correction(axis, va, vb),
        flip_contained(axis, vb, va) == flip_contained(axis, va, vb),
        overlap_adj(axis, vb, va) == overlap_adj(axis, va, vb),
{
}

/// No two candidate axes report the same adjusted overlap: under this
/// hypothesis the search settles on the same geometric axis whichever
/// body comes first.
pub open spec fn distinct_overlaps(va: Seq<Vec2D>, da: Vec2D, vb: Seq<Vec2D>, db: Vec2D) -> bool {
    forall|i: int, j: int|
        0 <= i < 4 && 0 <= j < 4 && i != j ==> (#[trigger] overlap_adj(
            sat_axes(da, db)[i],
            va,
            vb,
        )) != (#[trigger] overlap_adj(sat_axes(da, db)[j], va, vb))
}

/// The narrow phase is symmetric in its two bodies: the same pairs
/// collide, the reported penetration is identical, and — when no two
/// axes tie on their adjusted overlap — the reported axes are exact
/// saturating negations of each other and the contact vertex is the
/// same point.
/// Separation carries over to the swapped call, axis by axis: each
/// candidate axis of one call is a candidate axis of the other.
proof fn lemma_separated_swap(va: Seq<Vec2D>, da: Vec2D, vb: Seq<Vec2D>, db: Vec2D)
    ensures
        separated(va, da, vb, db) <==> separated(vb, db, va, da),
{
    let axes1 = sat_axes(da, db);
    let axes2 = sat_axes(db, da);
    assert(axes2[0] == axes1[2]);
    assert(axes2[1] == axes1[3]);
    assert(axes2[2] == axes1[0]);
    assert(axes2[3] == axes1[1]);
    lemma_axis_swap(axes1[0], va, vb);
    lemma_axis_swap(axes1[1], va, vb);
    lemma_axis_swap(axes1[2], va, vb);
    lemma_axis_swap(axes1[3], va, vb);
    if separated(va, da, vb, db) {
        let i = choose|i: int| 0 <= i < 4 && overlap_raw(axes1[i], va, vb) <= 0;
        let j = if i < 2 {
            i + 2
        } else {
            i - 2
        };
        assert(overlap_raw(axes2[j], vb, va) <= 0);
        assert(separated(vb, db, va, da));
    }
    if separated(vb, db, va, da) {
        let i = choose|i: int| 0 <= i < 4 && overlap_raw(axes2[i], vb, va) <= 0;
        let j = if i < 2 {
            i + 2
        } else {
            i - 2
        };
        assert(overlap_raw(axes1[j], va, vb) <= 0);
        assert(separated(va, da, vb, db));
    }
}

/// The two searches settle on the same least adjusted overlap; with no
/// tie, on the same geometric axis, seen two places apart in the two
/// candidate orders.
#[verifier::rlimit(100)]
proof fn lemma_best_swap(va: Seq<Vec2D>, da: Vec2D, vb: Seq<Vec2D>, db: Vec2D)
    ensures
        overlap_adj(
            sat_axes(db, da)[best_idx(vb, db, va, da)],
            vb,
            va,
        ) == overlap_adj(sat_axes(da, db)[best_idx(va, da, vb, db)], va, vb),
        distinct_overlaps(va, da, vb, db) ==> best_idx(va, da, vb, db) == (
        if best_idx(vb, db, va, da) < 2 {
            best_idx(vb, db, va, da) + 2
        } else {
            best_idx(vb, db, va, da) - 2
        }),
{
    let axes1 = sat_axes(da, db);
    let axes2 = sat_axes(db, da);
    assert(axes2[0] == axes1[2]);
    assert(axes2[1] == axes1[3]);
    assert(axes2[2] == axes1[0]);
    assert(axes2[3] == axes1[1]);
    lemma_axis_swap(axes1[0], va, vb);
    lemma_axis_swap(axes1[1], va, vb);
    lemma_axis_swap(axes1[2], va, vb);
    lemma_axis_swap(axes1[3], va, vb);
    let k1 = best_idx(va, da, vb, db);
    let k2 = best_idx(vb, db, va, da);
    lemma_best_idx_range(va, da, vb, db, 4);
    lemma_best_idx_range(vb, db, va, da, 4);
    lemma_best_idx_least(va, da, vb, db, 4);
    lemma_best_idx_least(vb, db, va, da, 4);
    let k2m = if k2 < 2 {
        k2 + 2
    } else {
        k2 - 2
    };
    let k1m = if k1 < 2 {
        k1 + 2
    } else {
        k1 - 2
    };
    assert(overlap_adj(axes2[k2], vb, va) == overlap_adj(axes1[k2m], va, vb));
    assert(overlap_adj(axes1[k1], va, vb) <= overlap_adj(sat_axes(da, db)[k2m], va, vb));
    assert(overlap_adj(axes2[k2], vb, va) <= overlap_adj(sat_axes(db, da)[k1m], vb, va));
    assert(overlap_adj(sat_axes(db, da)[k1m], vb, va) == overlap_adj(axes1[k1], va, vb));
    if distinct_overlaps(va, da, vb, db) && k2m != k1 {
        assert(overlap_adj(sat_axes(da, db)[k2m], va, vb) != overlap_adj(
            sat_axes(da, db)[k1],
            va,
            vb,
        ));
    }
}

/// The narrow phase is symmetric in its two bodies: the same pairs
/// collide, the reported penetration is identical, and — when no two
/// axes tie on their adjusted overlap — the reported axes are exact
/// saturating negations of each other and the contact vertex is the
/// same point.
#[verifier::rlimit(100)]
pub proof fn lemma_sat_symmetric(va: Seq<Vec2D>, da: Vec2D, vb: Seq<Vec2D>, db: Vec2D)
    requires
        va.len() >= 1,
        vb.len() >= 1,
    ensures
        sat_seqs(va, da, vb, db) is Some <==> sat_seqs(vb, db, va, da) is Some,
        sat_seqs(va, da, vb, db) is Some ==> sat_seqs(va, da, vb, db)->Some_0.0 == sat_seqs(
            vb,
            db,
            va,
            da,
        )->Some_0.0,
        sat_seqs(va, da, vb, db) is Some && distinct_overlaps(va, da, vb, db) ==> {
            let first = sat_seqs(va, da, vb, db)->Some_0;
            let second = sat_seqs(vb, db, va, da)->Some_0;
            &&& (second.1 == spec_neg_v2(first.1) || first.1 == spec_neg_v2(second.1))
            &&& second.2 == first.2
        },
{
    lemma_separated_swap(va, da, vb, db);
    if !separated(va, da, vb, db) {
        lemma_best_swap(va, da, vb, db);
        let axes1 = sat_axes(da, db);
        let axes2 = sat_axes(db, da);
        let k1 = best_idx(va, da, vb, db);
        let k2 = best_idx(vb, db, va, da);
        lemma_best_idx_range(va, da, vb, db, 4);
        lemma_best_idx_range(vb, db, va, da, 4);
        if distinct_overlaps(va, da, vb, db) {
            assert(axes2[0] == axes1[2]);
            assert(axes2[1] == axes1[3]);
            assert(axes2[2] == axes1[0]);
            assert(axes2[3] == axes1[1]);
            lemma_axis_swap(axes1[k1], va, vb);
            let a = axes1[k1];
            assert(axes2[k2] == a);
            assert(axis_oriented(vb, db, va, da, k2) == axis_oriented(va, da, vb, db, k1));
            assert((k2 >= 2) == !(k1 >= 2));
        }
    }
}

/// One axis of the narrow-phase search: project both vertex sets onto
/// candidate axis `i`, stop on separation, apply the nesting correction
/// and its axis flip, and fold the axis into the running minimum.
/// Returns `(separated, least adjusted overlap, oriented axis, whether
/// the chosen axis came from the second body)` for the first `i + 1`
/// axes.
#[verifier::rlimit(100)]
pub(crate) fn examine_axis(
    axes: &mut Vec<Vec2D>,
    i: usize,
    verts1: &Vec<Vec2D>,
    verts2: &Vec<Vec2D>,
    min_overlap: Option<i128>,
    smallest_axis: Vec2D,
    main_object: bool,
    Ghost(da): Ghost<Vec2D>,
    Ghost(db): Ghost<Vec2D>,
) -> (r: (bool, i128, Vec2D, bool))
    requires
        verts1@.len() >= 1,
        verts2@.len() >= 1,
        i < 4,
        old(axes)@.len() == 4,
        forall|j: int| i <= j < 4 ==> old(axes)@[j] == sat_axes(da, db)[j],
        i == 0 <==> min_overlap is None,
        i >= 1 ==> {
            let k = best_idx_upto(verts1@, da, verts2@, db, i as int);
            &&& min_overlap == Some(overlap_adj(sat_axes(da, db)[k], verts1@, verts2@) as i128)
            &&& smallest_axis == axis_oriented(verts1@, da, verts2@, db, k)
            &&& main_object == (k >= 2)
        },
    ensures
        final(axes)@.len() == 4,
        forall|j: int| 0 <= j < 4 && j != i ==> final(axes)@[j] == old(axes)@[j],
        r.0 ==> overlap_raw(sat_axes(da, db)[i as int], verts1@, verts2@) <= 0,
        !r.0 ==> {
            let k = best_idx_upto(verts1@, da, verts2@, db, i as int + 1);
            &&& overlap_raw(sat_axes(da, db)[i as int], verts1@, verts2@) > 0
            &&& final(axes)@[i as int] == (if flip_contained(
                sat_axes(da, db)[i as int],
                verts1@,
                verts2@,
            ) {
                spec_neg_v2(sat_axes(da, db)[i as int])
            } else {
                sat_axes(da, db)[i as int]
            })
            &&& r.1 == overlap_adj(sat_axes(da, db)[k], verts1@, verts2@) as i128
            &&& r.2 == axis_oriented(verts1@, da, verts2@, db, k)
            &&& r.3 == (k >= 2)
        },
{
    let ghost axes0 = sat_axes(da, db);
    let ghost va = verts1@;
    let ghost vb = verts2@;
    let axis = axes[i];
    let (max1, min1, _) = projection_on_axis(&axis, verts1);
    let (max2, min2, _) = projection_on_axis(&axis, verts2);

    let lesser_max: i128 = if max1 < max2 {
        max1 as i128
    } else {
        max2 as i128
    };
    let greater_min: i128 = if min1 > min2 {
        min1 as i128
    } else {
        min2 as i128
    };
    let mut overlap: i128 = lesser_max - greater_min;
    assert(overlap == overlap_raw(axes0[i as int], va, vb));
    if overlap <= 0 {
        return (true, 0, smallest_axis, main_object);
    }

    if (max1 > max2 && min1 < min2) || (max1 < max2 && min1 > min2) {
        let min_edge: i128 = if (min1 as i128) < (min2 as i128) {
            min2 as i128 - min1 as i128
        } else {
            min1 as i128 - min2 as i128
        };
        let max_edge: i128 = if (max1 as i128) < (max2 as i128) {
            max2 as i128 - max1 as i128
        } else {
            max1 as i128 - max2 as i128
        };
        if min_edge < max_edge {
            overlap = overlap + min_edge;
        } else {
            overlap = overlap + max_edge;
            let flipped = axis.mul_n(-FX_ONE);
            proof {
                lemma_fx_mul_neg_one(axis.x);
                lemma_fx_mul_neg_one(axis.y);
            }
            axes.set(i, flipped);
        }
    }
    assert(overlap == overlap_adj(axes0[i as int], va, vb));
    assert(axes@[i as int] == (if flip_contained(axes0[i as int], va, vb) {
        spec_neg_v2(axes0[i as int])
    } else {
        axes0[i as int]
    }));

    let update = match min_overlap {
        Some(j) => overlap < j,
        None => true,
    };
    let mut new_overlap = match min_overlap {
        Some(j) => j,
        None => 0,
    };
    let mut new_axis = smallest_axis;
    let mut new_main = main_object;
    if update {
        new_overlap = overlap;
        new_axis = axes[i];
        if i < 2 {
            new_main = false;
            if max1 > max2 {
                proof {
                    lemma_fx_mul_neg_one(new_axis.x);
                    lemma_fx_mul_neg_one(new_axis.y);
                }
                new_axis = new_axis.mul_n(-FX_ONE);
            }
        } else {
            new_main = true;
            if max1 < max2 {
                proof {
                    lemma_fx_mul_neg_one(new_axis.x);
                    lemma_fx_mul_neg_one(new_axis.y);
                }
                new_axis = new_axis.mul_n(-FX_ONE);
            }
        }
    }
    proof {
        let wi = i as int;
        lemma_best_idx_range(va, da, vb, db, wi + 1);
        if wi == 0 {
            assert(best_idx_upto(va, da, vb, db, 1) == 0);
            assert(new_axis == axis_oriented(va, da, vb, db, 0));
        } else {
            let prev = best_idx_upto(va, da, vb, db, wi);
            if update {
                assert(best_idx_upto(va, da, vb, db, wi + 1) == wi);
                assert(new_axis == axis_oriented(va, da, vb, db, wi));
            } else {
                assert(best_idx_upto(va, da, vb, db, wi + 1) == prev);
            }
        }
    }
    (false, new_overlap, new_axis, new_main)
}

} // verus!

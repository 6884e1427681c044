//! Axis-aligned collision detection over a list of boxes.
//!
//! A box is centred on its owner's position and reaches half its width and
//! half its height to each side. All comparisons are made on doubled
//! coordinates, so that the halves stay whole numbers.

use crate::components::Collider;
use crate::components::EntityId;
use crate::components::Transform;
use crate::math::Vec2;
use vstd::prelude::*;

verus! {

/// Whether the open intervals around `ca` and `cb`, of lengths `ea` and `eb`,
/// share a point: the upper end of each lies strictly above the lower end of
/// the other. Intervals that only touch do not overlap.
pub open spec fn intervals_overlap(ca: int, ea: int, cb: int, eb: int) -> bool {
    &&& 2 * ca + ea > 2 * cb - eb
    &&& 2 * ca - ea < 2 * cb + eb
}

/// Whether the box `a` centred on `pa` and the box `b` centred on `pb`
/// overlap on both axes.
pub open spec fn boxes_overlap(pa: Vec2, a: Collider, pb: Vec2, b: Collider) -> bool {
    &&& intervals_overlap(pa.x as int, a.width as int, pb.x as int, b.width as int)
    &&& intervals_overlap(pa.y as int, a.height as int, pb.y as int, b.height as int)
}

/// Whether two entries of a list of boxes overlap.
pub open spec fn hit(a: (EntityId, Transform, Collider), b: (EntityId, Transform, Collider)) -> bool {
    boxes_overlap(a.1.position, a.2, b.1.position, b.2)
}

/// The overlaps of entry `i` with the entries after it and before `j`, in
/// list order.
pub open spec fn row_pairs(s: Seq<(EntityId, Transform, Collider)>, i: int, j: int) -> Seq<
    (EntityId, EntityId),
>
    decreases j - i,
{
    if j <= i + 1 {
        Seq::empty()
    } else {
        let before = row_pairs(s, i, j - 1);
        if hit(s[i], s[j - 1]) {
            before.push((s[i].0, s[j - 1].0))
        } else {
            before
        }
    }
}

/// The overlaps whose earlier entry stands before `n`, ordered by the earlier
/// entry and then by the later one.
pub open spec fn pairs_before(s: Seq<(EntityId, Transform, Collider)>, n: int) -> Seq<
    (EntityId, EntityId),
>
    decreases n,
{
    if n <= 0 {
        Seq::empty()
    } else {
        pairs_before(s, n - 1) + row_pairs(s, n - 1, s.len() as int)
    }
}

/// Every overlapping pair of entries of `s`, the earlier entry first.
pub open spec fn colliding_pairs(s: Seq<(EntityId, Transform, Collider)>) -> Seq<
    (EntityId, EntityId),
> {
    pairs_before(s, s.len() as int)
}

/// Whether no identifier occurs in two entries of `s`.
pub open spec fn distinct_ids(s: Seq<(EntityId, Transform, Collider)>) -> bool {
    forall|i: int, j: int| 0 <= i < j < s.len() ==> s[i].0 != s[j].0
}

/// Decides `boxes_overlap`.
pub fn overlaps(pa: Vec2, a: Collider, pb: Vec2, b: Collider) -> (r: bool)
    ensures
        r == boxes_overlap(pa, a, pb, b),
{
    let ax: i128 = 2 * (pa.x as i128);
    let ay: i128 = 2 * (pa.y as i128);
    let bx: i128 = 2 * (pb.x as i128);
    let by: i128 = 2 * (pb.y as i128);
    let aw: i128 = a.width as i128;
    let ah: i128 = a.height as i128;
    let bw: i128 = b.width as i128;
    let bh: i128 = b.height as i128;
    ax + aw > bx - bw && ax - aw < bx + bw && ay + ah > by - bh && ay - ah < by + bh
}

/// Checks every pair of entries once and returns those that overlap.
pub fn find_collisions(solids: &Vec<(EntityId, Transform, Collider)>) -> (pairs: Vec<
    (EntityId, EntityId),
>)
    ensures
        pairs@ == colliding_pairs(solids@),
{
    let n = solids.len();
    let mut pairs: Vec<(EntityId, EntityId)> = Vec::new();
    let mut i: usize = 0;
    while i < n
        invariant
            n == solids@.len(),
            i <= n,
            pairs@ == pairs_before(solids@, i as int),
        decreases n - i,
    {
        let ghost done = pairs@;
        let mut j: usize = i + 1;
        while j < n
            invariant
                n == solids@.len(),
                i < n,
                i < j <= n,
                pairs@ == done + row_pairs(solids@, i as int, j as int),
            decreases n - j,
        {
            let a = solids[i];
            let b = solids[j];
            if overlaps(a.1.position, a.2, b.1.position, b.2) {
                pairs.push((a.0, b.0));
            }
            j += 1;
        }
        i += 1;
    }
    pairs
}

/// Whether `p` names the entries `i` and `k` of `s`, `i` before `k`, and the
/// two overlap.
pub open spec fn reports(
    s: Seq<(EntityId, Transform, Collider)>,
    i: int,
    k: int,
    p: (EntityId, EntityId),
) -> bool {
    &&& 0 <= i < k < s.len()
    &&& hit(s[i], s[k])
    &&& p == (s[i].0, s[k].0)
}

/// Overlap does not depend on which box is named first.
pub proof fn lemma_overlap_symmetric(pa: Vec2, a: Collider, pb: Vec2, b: Collider)
    ensures
        boxes_overlap(pa, a, pb, b) == boxes_overlap(pb, b, pa, a),
{
}

/// Boxes that share an edge do not overlap: where the right edge of `a` is
/// the left edge of `b`, or the top edge of `a` the bottom edge of `b`, there
/// is no collision, in either order.
pub proof fn lemma_touching_is_no_overlap(pa: Vec2, a: Collider, pb: Vec2, b: Collider)
    requires
        2 * pa.x + a.width == 2 * pb.x - b.width || 2 * pa.y + a.height == 2 * pb.y - b.height,
    ensures
        !boxes_overlap(pa, a, pb, b),
        !boxes_overlap(pb, b, pa, a),
{
}

proof fn lemma_row_pairs(s: Seq<(EntityId, Transform, Collider)>, i: int, j: int, p: (EntityId, EntityId))
    requires
        0 <= i < s.len(),
        j <= s.len(),
    ensures
        row_pairs(s, i, j).contains(p) <==> exists|k: int| k < j && #[trigger] reports(s, i, k, p),
    decreases j - i,
{
    if j > i + 1 {
        lemma_row_pairs(s, i, j - 1, p);
        let before = row_pairs(s, i, j - 1);
        let x = (s[i].0, s[j - 1].0);
        if hit(s[i], s[j - 1]) {
            if p == x {
                assert(reports(s, i, j - 1, p));
                assert(before.push(x)[before.len() as int] == p);
            }
            if before.contains(p) {
                let q = choose|q: int| 0 <= q < before.len() && before[q] == p;
                assert(before.push(x)[q] == p);
            }
        }
    }
}

proof fn lemma_pairs_before(s: Seq<(EntityId, Transform, Collider)>, n: int, p: (EntityId, EntityId))
    requires
        n <= s.len(),
    ensures
        pairs_before(s, n).contains(p) <==> exists|i: int, k: int|
            i < n && #[trigger] reports(s, i, k, p),
    decreases n,
{
    if n > 0 {
        lemma_pairs_before(s, n - 1, p);
        lemma_row_pairs(s, n - 1, s.len() as int, p);
        let a = pairs_before(s, n - 1);
        let b = row_pairs(s, n - 1, s.len() as int);
        if a.contains(p) {
            let q = choose|q: int| 0 <= q < a.len() && a[q] == p;
            assert((a + b)[q] == p);
        }
        if b.contains(p) {
            let q = choose|q: int| 0 <= q < b.len() && b[q] == p;
            assert((a + b)[a.len() + q] == p);
        }
    }
}

/// A pair is reported exactly where it names two entries that overlap, the
/// earlier entry first.
pub proof fn lemma_reported_iff_overlapping(
    s: Seq<(EntityId, Transform, Collider)>,
    p: (EntityId, EntityId),
)
    ensures
        colliding_pairs(s).contains(p) <==> exists|i: int, k: int| #[trigger] reports(s, i, k, p),
{
    lemma_pairs_before(s, s.len() as int, p);
}

proof fn lemma_row_pairs_once(s: Seq<(EntityId, Transform, Collider)>, i: int, j: int)
    requires
        distinct_ids(s),
        0 <= i < s.len(),
        j <= s.len(),
    ensures
        row_pairs(s, i, j).no_duplicates(),
    decreases j - i,
{
    if j > i + 1 {
        lemma_row_pairs_once(s, i, j - 1);
        let before = row_pairs(s, i, j - 1);
        let x = (s[i].0, s[j - 1].0);
        if hit(s[i], s[j - 1]) {
            assert forall|q: int| 0 <= q < before.len() implies before[q] != x by {
                lemma_row_pairs(s, i, j - 1, before[q]);
            }
        }
    }
}

proof fn lemma_pairs_before_once(s: Seq<(EntityId, Transform, Collider)>, n: int)
    requires
        distinct_ids(s),
        n <= s.len(),
    ensures
        pairs_before(s, n).no_duplicates(),
    decreases n,
{
    if n > 0 {
        lemma_pairs_before_once(s, n - 1);
        lemma_row_pairs_once(s, n - 1, s.len() as int);
        let a = pairs_before(s, n - 1);
        let b = row_pairs(s, n - 1, s.len() as int);
        assert forall|q: int, r: int| 0 <= q < a.len() && 0 <= r < b.len() implies a[q] != b[r] by {
            lemma_pairs_before(s, n - 1, a[q]);
            lemma_row_pairs(s, n - 1, s.len() as int, b[r]);
        }
        vstd::seq_lib::lemma_no_dup_in_concat(a, b);
    }
}

/// Where no identifier stands for two boxes, no pair is reported twice.
pub proof fn lemma_no_pair_reported_twice(s: Seq<(EntityId, Transform, Collider)>)
    requires
        distinct_ids(s),
    ensures
        colliding_pairs(s).no_duplicates(),
{
    lemma_pairs_before_once(s, s.len() as int);
}

/// Where no identifier stands for two boxes, two boxes that overlap are
/// reported as one pair, the earlier entry first: that pair occurs once, and
/// the pair in the other order does not occur. It does not matter which of
/// the two boxes the overlap is stated from.
pub proof fn lemma_overlap_reported_once(s: Seq<(EntityId, Transform, Collider)>, i: int, j: int)
    requires
        distinct_ids(s),
        0 <= i < j < s.len(),
        hit(s[i], s[j]) || hit(s[j], s[i]),
    ensures
        colliding_pairs(s).to_multiset().count((s[i].0, s[j].0)) == 1,
        !colliding_pairs(s).contains((s[j].0, s[i].0)),
{
    let pairs = colliding_pairs(s);
    let p = (s[i].0, s[j].0);
    let r = (s[j].0, s[i].0);
    lemma_overlap_symmetric(s[i].1.position, s[i].2, s[j].1.position, s[j].2);
    assert(reports(s, i, j, p));
    lemma_reported_iff_overlapping(s, p);
    lemma_no_pair_reported_twice(s);
    pairs.lemma_multiset_has_no_duplicates();
    vstd::seq_lib::to_multiset_contains(pairs, p);
    lemma_reported_iff_overlapping(s, r);
}

/// Boxes that do not overlap are not reported, in either order.
pub proof fn lemma_disjoint_not_reported(s: Seq<(EntityId, Transform, Collider)>, i: int, j: int)
    requires
        distinct_ids(s),
        0 <= i < j < s.len(),
        !hit(s[i], s[j]),
    ensures
        !colliding_pairs(s).contains((s[i].0, s[j].0)),
        !colliding_pairs(s).contains((s[j].0, s[i].0)),
{
    let pairs = colliding_pairs(s);
    let p = (s[i].0, s[j].0);
    let r = (s[j].0, s[i].0);
    lemma_reported_iff_overlapping(s, p);
    lemma_reported_iff_overlapping(s, r);
    if pairs.contains(p) {
        let (a, b) = choose|a: int, b: int| #[trigger] reports(s, a, b, p);
        lemma_same_id_same_entry(s, a, i);
        lemma_same_id_same_entry(s, b, j);
    }
    if pairs.contains(r) {
        let (a, b) = choose|a: int, b: int| #[trigger] reports(s, a, b, r);
        lemma_same_id_same_entry(s, a, j);
        lemma_same_id_same_entry(s, b, i);
    }
}

/// A reported pair names two entries of the list, the earlier one first,
/// that overlap; where no identifier stands for two boxes, the two
/// identifiers differ.
pub proof fn lemma_reported_names_two_entries(
    s: Seq<(EntityId, Transform, Collider)>,
    p: (EntityId, EntityId),
)
    requires
        colliding_pairs(s).contains(p),
    ensures
        exists|i: int, j: int| #[trigger] reports(s, i, j, p),
        distinct_ids(s) ==> p.0 != p.1,
{
    lemma_reported_iff_overlapping(s, p);
    let (i, j) = choose|i: int, j: int| #[trigger] reports(s, i, j, p);
    assert(reports(s, i, j, p));
}

/// Where no identifier stands for two boxes, no two entities are reported
/// in both orders.
pub proof fn lemma_never_both_orders(
    s: Seq<(EntityId, Transform, Collider)>,
    a: EntityId,
    b: EntityId,
)
    requires
        distinct_ids(s),
    ensures
        !(colliding_pairs(s).contains((a, b)) && colliding_pairs(s).contains((b, a))),
{
    let pairs = colliding_pairs(s);
    if pairs.contains((a, b)) && pairs.contains((b, a)) {
        lemma_reported_iff_overlapping(s, (a, b));
        lemma_reported_iff_overlapping(s, (b, a));
        let (i, j) = choose|i: int, j: int| #[trigger] reports(s, i, j, (a, b));
        let (m, n) = choose|m: int, n: int| #[trigger] reports(s, m, n, (b, a));
        lemma_same_id_same_entry(s, i, n);
        lemma_same_id_same_entry(s, j, m);
    }
}

proof fn lemma_same_id_same_entry(s: Seq<(EntityId, Transform, Collider)>, a: int, b: int)
    requires
        distinct_ids(s),
        0 <= a < s.len(),
        0 <= b < s.len(),
        s[a].0 == s[b].0,
    ensures
        a == b,
{
}

} // verus!

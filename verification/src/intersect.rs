//! Scene-intersection protocol: the acceptance window for ray parameters
//! and the selection of the nearest reported hit.
//!
//! The front end evaluates the intersection arithmetic on IEEE-754 floats
//! and maps each candidate ray parameter to a `u32` key through an
//! order-preserving encoding (for non-negative floats the raw bit pattern
//! already orders this way), so the comparisons that drive the protocol
//! can be carried out — and verified — over plain unsigned integers.

use vstd::prelude::*;

verus! {

/// A ray-parameter key is accepted when it lies in the half-open window
/// `[lo, hi)`: the lower bound is inclusive, the upper bound exclusive.
pub open spec fn in_window(t: u32, lo: u32, hi: u32) -> bool {
    lo <= t && t < hi
}

/// Of the two roots of a quadratic intersection, tried in the fixed order
/// in which the intersection routine produces them (the nearer root first
/// for a forward ray), the first one accepted by the window `[lo, hi)`.
pub fn first_in_window(t0: u32, t1: u32, lo: u32, hi: u32) -> (r: Option<u32>)
    ensures
        in_window(t0, lo, hi) ==> r == Some(t0),
        !in_window(t0, lo, hi) && in_window(t1, lo, hi) ==> r == Some(t1),
        !in_window(t0, lo, hi) && !in_window(t1, lo, hi) ==> r is None,
{
    if lo <= t0 && t0 < hi {
        Some(t0)
    } else if lo <= t1 && t1 < hi {
        Some(t1)
    } else {
        None
    }
}

/// Index `i` points at a reported hit that is nearest along the ray: no
/// other reported candidate carries a smaller parameter key.
pub open spec fn selected(cands: Seq<Option<u32>>, i: int) -> bool {
    &&& 0 <= i < cands.len()
    &&& cands[i] is Some
    &&& forall|j: int|
        0 <= j < cands.len() && cands[j] is Some ==> cands[i]->0 <= cands[j]->0
}

/// Composite query over the scene's objects: entry `k` of `candidates` is
/// the accepted parameter key that object `k` reported, or `None` where it
/// reported no hit. Returns the index of the nearest reported hit — the
/// last such index when several candidates are equally near — and `None`
/// only when no object reported a hit.
pub fn nearest(candidates: &Vec<Option<u32>>) -> (r: Option<usize>)
    ensures
        match r {
            Some(i) => {
                &&& selected(candidates@, i as int)
                &&& forall|j: int|
                    i < j < candidates@.len() && candidates@[j] is Some
                        ==> candidates@[i as int]->0 < candidates@[j]->0
            },
            None => forall|j: int| 0 <= j < candidates@.len() ==> candidates@[j] is None,
        },
{
    let mut have: bool = false;
    let mut best_i: usize = 0;
    let mut best_t: u32 = 0;
    let mut k: usize = 0;
    while k < candidates.len()
        invariant
            k <= candidates@.len(),
            have ==> {
                &&& best_i < k
                &&& candidates@[best_i as int] is Some
                &&& candidates@[best_i as int]->0 == best_t
                &&& forall|j: int|
                    0 <= j < k && candidates@[j] is Some ==> best_t <= candidates@[j]->0
                &&& forall|j: int|
                    best_i < j < k && candidates@[j] is Some ==> best_t < candidates@[j]->0
            },
            !have ==> forall|j: int| 0 <= j < k ==> candidates@[j] is None,
        decreases candidates@.len() - k,
    {
        match candidates[k] {
            Some(t) => {
                if !have || t <= best_t {
                    have = true;
                    best_i = k;
                    best_t = t;
                }
            },
            None => {},
        }
        k = k + 1;
    }
    if have {
        Some(best_i)
    } else {
        None
    }
}

/// The nearest reported hit is as near whatever the order of the objects:
/// two scenes whose objects report the same hits, merely listed in another
/// order, select hits with one and the same parameter key.
pub proof fn lemma_nearest_order_independent(
    a: Seq<Option<u32>>,
    b: Seq<Option<u32>>,
    i: int,
    j: int,
)
    requires
        a.to_multiset() == b.to_multiset(),
        selected(a, i),
        selected(b, j),
    ensures
        a[i]->0 == b[j]->0,
{
    a.to_multiset_ensures();
    b.to_multiset_ensures();
    assert(a.contains(a[i]));
    assert(a.to_multiset().count(a[i]) > 0);
    assert(b.to_multiset().count(a[i]) > 0);
    assert(b.contains(a[i]));
    let k = choose|k: int| 0 <= k < b.len() && b[k] == a[i];
    assert(b[j]->0 <= a[i]->0);
    assert(b.contains(b[j]));
    assert(b.to_multiset().count(b[j]) > 0);
    assert(a.to_multiset().count(b[j]) > 0);
    assert(a.contains(b[j]));
    let m = choose|m: int| 0 <= m < a.len() && a[m] == b[j];
    assert(a[i]->0 <= b[j]->0);
}

} // verus!

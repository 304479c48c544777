//! Back-to-front ordering of instances by their distance to the camera.
//!
//! Distances arrive as integer keys whose order matches the order of the
//! squared distances (a larger key is farther from the camera).
use vstd::prelude::*;

verus! {

/// Instance `a` is drawn before instance `b`: it is farther from the camera,
/// or as far and earlier in the collection (ties keep input order).
pub open spec fn draws_before(keys: Seq<u32>, a: int, b: int) -> bool {
    keys[a] > keys[b] || (keys[a] == keys[b] && a < b)
}

/// `order` lists every index of `keys` exactly once, farthest first, with
/// equal keys in increasing index order.
pub open spec fn is_back_to_front(keys: Seq<u32>, order: Seq<usize>) -> bool {
    &&& order.len() == keys.len()
    &&& forall|p: int| 0 <= p < order.len() ==> #[trigger] order[p] < keys.len()
    &&& forall|k: usize| k < keys.len() ==> #[trigger] order.contains(k)
    &&& forall|p: int, q: int|
        0 <= p < q < order.len() ==> draws_before(keys, #[trigger] order[p] as int, #[trigger] order[q] as int)
}

proof fn lemma_orders_agree_up_to(keys: Seq<u32>, a: Seq<usize>, b: Seq<usize>, p: int)
    requires
        is_back_to_front(keys, a),
        is_back_to_front(keys, b),
        0 <= p < a.len(),
    ensures
        forall|j: int| 0 <= j <= p ==> a[j] == b[j],
    decreases p,
{
    if p > 0 {
        lemma_orders_agree_up_to(keys, a, b, p - 1);
    }
    if a[p] != b[p] {
        let x = a[p];
        let y = b[p];
        assert(b.contains(x));
        let q = choose|q: int| 0 <= q < b.len() && b[q] == x;
        assert(a.contains(y));
        let r = choose|r: int| 0 <= r < a.len() && a[r] == y;
        if q < p {
            assert(draws_before(keys, a[q] as int, a[p] as int));
        }
        if r < p {
            assert(draws_before(keys, b[r] as int, b[p] as int));
        }
        assert(draws_before(keys, b[p] as int, b[q] as int));
        assert(draws_before(keys, a[p] as int, a[r] as int));
    }
}

/// The back-to-front order of a sequence of keys is unique, so the
/// ordering functions below are fully determined by their keys.
pub proof fn lemma_back_to_front_unique(keys: Seq<u32>, a: Seq<usize>, b: Seq<usize>)
    requires
        is_back_to_front(keys, a),
        is_back_to_front(keys, b),
    ensures
        a == b,
{
    assert forall|p: int| 0 <= p < a.len() implies a[p] == b[p] by {
        lemma_orders_agree_up_to(keys, a, b, p);
    }
    assert(a =~= b);
}

/// The items of `items` taken in the sequence of indices `order`.
pub open spec fn permuted<T>(items: Seq<T>, order: Seq<usize>) -> Seq<T> {
    Seq::new(order.len(), |p: int| items[order[p] as int])
}

/// `run` lists every index in `lo..hi` exactly once, in back-to-front order.
pub open spec fn is_sorted_run(keys: Seq<u32>, run: Seq<usize>, lo: int, hi: int) -> bool {
    &&& run.len() == hi - lo
    &&& forall|p: int| 0 <= p < run.len() ==> lo <= #[trigger] run[p] < hi
    &&& forall|k: usize| lo <= k < hi ==> #[trigger] run.contains(k)
    &&& forall|p: int, q: int|
        0 <= p < q < run.len() ==> draws_before(keys, #[trigger] run[p] as int, #[trigger] run[q] as int)
}

/// Merges the sorted run of `lo..mid` with the sorted run of `mid..hi`.
fn merge_runs(
    keys: &Vec<u32>,
    a: &Vec<usize>,
    b: &Vec<usize>,
    lo: Ghost<int>,
    mid: Ghost<int>,
    hi: Ghost<int>,
) -> (out: Vec<usize>)
    requires
        0 <= lo@ <= mid@ <= hi@ <= keys.len(),
        is_sorted_run(keys@, a@, lo@, mid@),
        is_sorted_run(keys@, b@, mid@, hi@),
    ensures
        is_sorted_run(keys@, out@, lo@, hi@),
{
    let mut out: Vec<usize> = Vec::with_capacity(a.len() + b.len());
    let mut i: usize = 0;
    let mut j: usize = 0;
    while i < a.len() || j < b.len()
        invariant
            0 <= lo@ <= mid@ <= hi@ <= keys.len(),
            is_sorted_run(keys@, a@, lo@, mid@),
            is_sorted_run(keys@, b@, mid@, hi@),
            i <= a.len(),
            j <= b.len(),
            out.len() == i + j,
            forall|p: int| 0 <= p < out.len() ==> lo@ <= #[trigger] out@[p] < hi@,
            forall|p: int| 0 <= p < i ==> out@.contains(#[trigger] a@[p]),
            forall|p: int| 0 <= p < j ==> out@.contains(#[trigger] b@[p]),
            forall|p: int, q: int|
                0 <= p < q < out.len() ==> draws_before(
                    keys@,
                    #[trigger] out@[p] as int,
                    #[trigger] out@[q] as int,
                ),
            forall|p: int, q: int|
                0 <= p < out.len() && i <= q < a.len() ==> draws_before(
                    keys@,
                    #[trigger] out@[p] as int,
                    #[trigger] a@[q] as int,
                ),
            forall|p: int, q: int|
                0 <= p < out.len() && j <= q < b.len() ==> draws_before(
                    keys@,
                    #[trigger] out@[p] as int,
                    #[trigger] b@[q] as int,
                ),
        decreases a.len() + b.len() - i - j,
    {
        let ghost before = out@;
        let take_a = j >= b.len() || (i < a.len() && (keys[a[i]] > keys[b[j]] || (keys[a[i]]
            == keys[b[j]] && a[i] < b[j])));
        let x = if take_a {
            a[i]
        } else {
            b[j]
        };
        proof {
            if take_a {
                assert forall|q: int| j <= q < b.len() implies draws_before(
                    keys@,
                    x as int,
                    #[trigger] b@[q] as int,
                ) by {
                    if q > j {
                        assert(draws_before(keys@, b@[j as int] as int, b@[q] as int));
                    }
                }
            } else {
                assert(!draws_before(keys@, a@[i as int] as int, b@[j as int] as int) || i >= a.len());
                assert forall|q: int| i <= q < a.len() implies draws_before(
                    keys@,
                    x as int,
                    #[trigger] a@[q] as int,
                ) by {
                    assert(a@[q] != b@[j as int]);
                    if q > i {
                        assert(draws_before(keys@, a@[i as int] as int, a@[q] as int));
                    }
                }
            }
        }
        out.push(x);
        if take_a {
            i = i + 1;
        } else {
            j = j + 1;
        }
        proof {
            assert(out@[before.len() as int] == x);
            assert forall|p: int| 0 <= p < before.len() implies out@[p] == before[p] by {}
            assert forall|k: usize| #[trigger] before.contains(k) implies out@.contains(k) by {
                let w = choose|w: int| 0 <= w < before.len() && before[w] == k;
                assert(out@[w] == k);
            }
        }
    }
    proof {
        assert forall|k: usize| lo@ <= k < hi@ implies #[trigger] out@.contains(k) by {
            if k < mid@ {
                assert(a@.contains(k));
            } else {
                assert(b@.contains(k));
            }
        }
    }
    out
}

/// The sorted run of the indices `lo..hi`.
fn sort_run(keys: &Vec<u32>, lo: usize, hi: usize) -> (run: Vec<usize>)
    requires
        lo <= hi <= keys.len(),
    ensures
        is_sorted_run(keys@, run@, lo as int, hi as int),
    decreases hi - lo,
{
    if hi - lo == 0 {
        Vec::new()
    } else if hi - lo == 1 {
        let run = vec![lo];
        assert(run@.contains(lo) && run@[0] == lo);
        run
    } else {
        let mid = lo + (hi - lo) / 2;
        let a = sort_run(keys, lo, mid);
        let b = sort_run(keys, mid, hi);
        merge_runs(keys, &a, &b, Ghost(lo as int), Ghost(mid as int), Ghost(hi as int))
    }
}

/// The indices of `keys` in back-to-front order: farthest first, ties in
/// input order.
pub fn back_to_front_order(keys: &Vec<u32>) -> (order: Vec<usize>)
    ensures
        is_back_to_front(keys@, order@),
{
    sort_run(keys, 0, keys.len())
}

/// A copy of `instances` in back-to-front order; `keys[i]` is the distance
/// key of `instances[i]`.
pub fn sort_back_to_front<T: Copy>(instances: &Vec<T>, keys: &Vec<u32>) -> (sorted: Vec<T>)
    requires
        keys.len() == instances.len(),
    ensures
        exists|order: Seq<usize>|
            is_back_to_front(keys@, order) && sorted@ == permuted(instances@, order),
{
    let order = back_to_front_order(keys);
    let mut sorted: Vec<T> = Vec::new();
    let mut p: usize = 0;
    while p < order.len()
        invariant
            keys.len() == instances.len(),
            is_back_to_front(keys@, order@),
            p <= order.len(),
            sorted.len() == p,
            forall|j: int| 0 <= j < p ==> sorted@[j] == instances@[#[trigger] order@[j] as int],
        decreases order.len() - p,
    {
        let item = instances[order[p]];
        sorted.push(item);
        p = p + 1;
    }
    assert(sorted@ =~= permuted(instances@, order@));
    sorted
}

} // verus!

//! Stable ordering of items by a numeric key.
use vstd::prelude::*;

verus! {

/// `order` lists the positions of `keys` sorted by key, positions with equal
/// keys keeping their original order: a stable sort's permutation.
pub open spec fn stable_sorting(keys: Seq<u32>, order: Seq<int>) -> bool {
    &&& order.len() == keys.len()
    &&& forall|j: int| 0 <= j < order.len() ==> 0 <= #[trigger] order[j] < keys.len()
    &&& forall|a: int, b: int| 0 <= a < b < order.len() ==> #[trigger] order[a] != #[trigger] order[b]
    &&& forall|a: int, b: int| 0 <= a <= b < order.len() ==> keys[#[trigger] order[a]] <= keys[#[trigger] order[b]]
    &&& forall|a: int, b: int|
        0 <= a < b < order.len() && keys[#[trigger] order[a]] == keys[#[trigger] order[b]] ==> order[a] < order[b]
}

/// First position whose key exceeds `k` in a sorted key list: where a new
/// item with key `k` goes after every item with a key up to `k`.
fn upper_position(sorted: &Vec<u32>, k: u32) -> (p: usize)
    requires
        forall|a: int, b: int| 0 <= a <= b < sorted@.len() ==> sorted@[a] <= sorted@[b],
    ensures
        p <= sorted@.len(),
        forall|j: int| 0 <= j < p ==> sorted@[j] <= k,
        forall|j: int| p <= j < sorted@.len() ==> sorted@[j] > k,
{
    let mut p: usize = 0;
    while p < sorted.len() && sorted[p] <= k
        invariant
            p <= sorted@.len(),
            forall|a: int, b: int| 0 <= a <= b < sorted@.len() ==> sorted@[a] <= sorted@[b],
            forall|j: int| 0 <= j < p ==> sorted@[j] <= k,
        decreases sorted@.len() - p,
    {
        p = p + 1;
    }
    p
}

/// `items` sorted by `keys` (the key of `items[j]` is `keys[j]`); items with
/// equal keys keep their order.
pub fn stable_sort_by_key<T>(items: Vec<T>, keys: &Vec<u32>) -> (res: Vec<T>)
    requires
        items@.len() == keys@.len(),
    ensures
        exists|order: Seq<int>| #[trigger] stable_sorting(keys@, order) && res@.len() == items@.len()
            && forall|j: int| 0 <= j < order.len() ==> #[trigger] res@[j] == items@[order[j]],
{
    let ghost orig = items@;
    let n = items.len();
    let mut rest = items;
    let mut out: Vec<T> = Vec::new();
    let mut out_keys: Vec<u32> = Vec::new();
    let ghost mut order: Seq<int> = Seq::empty();
    let mut i: usize = 0;
    while i < n
        invariant
            n == orig.len(),
            n == keys@.len(),
            i <= n,
            rest@ == orig.subrange(i as int, n as int),
            out@.len() == i,
            out_keys@.len() == i,
            order.len() == i,
            forall|j: int| 0 <= j < i ==> 0 <= #[trigger] order[j] < i,
            forall|a: int, b: int| 0 <= a < b < i ==> #[trigger] order[a] != #[trigger] order[b],
            forall|j: int| 0 <= j < i ==> #[trigger] out_keys@[j] == keys@[order[j]],
            forall|j: int| 0 <= j < i ==> #[trigger] out@[j] == orig[order[j]],
            forall|a: int, b: int| 0 <= a <= b < i ==> out_keys@[a] <= out_keys@[b],
            forall|a: int, b: int| 0 <= a < b < i && out_keys@[a] == out_keys@[b] ==> order[a] < order[b],
        decreases n - i,
    {
        let x = rest.remove(0);
        assert(rest@ =~= orig.subrange(i + 1, n as int));
        let k = keys[i];
        let p = upper_position(&out_keys, k);
        let ghost ok = out_keys@;
        let ghost oi = out@;
        let ghost oo = order;
        out_keys.insert(p, k);
        out.insert(p, x);
        proof {
            order = oo.insert(p as int, i as int);
            assert forall|j: int| 0 <= j < i + 1 implies #[trigger] out_keys@[j] == keys@[order[j]] by {
                if j < p {
                    assert(out_keys@[j] == ok[j]);
                } else if j > p {
                    assert(out_keys@[j] == ok[j - 1]);
                }
            }
            assert forall|j: int| 0 <= j < i + 1 implies #[trigger] out@[j] == orig[order[j]] by {
                if j < p {
                    assert(out@[j] == oi[j]);
                } else if j > p {
                    assert(out@[j] == oi[j - 1]);
                }
            }
            assert forall|j: int| 0 <= j < i + 1 implies 0 <= #[trigger] order[j] < i + 1 by {
                if j < p {
                    assert(order[j] == oo[j]);
                } else if j > p {
                    assert(order[j] == oo[j - 1]);
                }
            }
            assert forall|a: int, b: int| 0 <= a < b < i + 1 implies #[trigger] order[a] != #[trigger] order[b] by {
                if a != p && b != p {
                    let a0 = if a < p { a } else { a - 1 };
                    let b0 = if b < p { b } else { b - 1 };
                    assert(order[a] == oo[a0]);
                    assert(order[b] == oo[b0]);
                } else if a == p {
                    let b0 = if b < p { b } else { b - 1 };
                    assert(order[b] == oo[b0]);
                } else {
                    let a0 = if a < p { a } else { a - 1 };
                    assert(order[a] == oo[a0]);
                }
            }
            assert forall|a: int, b: int| 0 <= a <= b < i + 1 implies out_keys@[a] <= out_keys@[b] by {
                let a0 = if a < p { a } else { a - 1 };
                let b0 = if b < p { b } else { b - 1 };
                if a != p && b != p {
                    assert(out_keys@[a] == ok[a0]);
                    assert(out_keys@[b] == ok[b0]);
                } else if a == p && b != p {
                    if b > p {
                        assert(out_keys@[b] == ok[b - 1]);
                    }
                } else if b == p && a != p {
                    assert(out_keys@[a] == ok[a]);
                }
            }
            assert forall|a: int, b: int| 0 <= a < b < i + 1 && out_keys@[a] == out_keys@[b] implies order[a] < order[b] by {
                let a0 = if a < p { a } else { a - 1 };
                let b0 = if b < p { b } else { b - 1 };
                if a != p && b != p {
                    assert(out_keys@[a] == ok[a0]);
                    assert(out_keys@[b] == ok[b0]);
                    assert(order[a] == oo[a0]);
                    assert(order[b] == oo[b0]);
                } else if a == p {
                    assert(out_keys@[b] == ok[b - 1]);
                } else {
                    assert(order[a] == oo[a]);
                }
            }
        }
        i = i + 1;
    }
    assert forall|a: int, b: int| 0 <= a <= b < order.len() implies keys@[#[trigger] order[a]] <= keys@[#[trigger] order[b]] by {
        assert(out_keys@[a] == keys@[order[a]]);
        assert(out_keys@[b] == keys@[order[b]]);
    }
    assert forall|a: int, b: int|
        0 <= a < b < order.len() && keys@[#[trigger] order[a]] == keys@[#[trigger] order[b]] implies order[a] < order[b] by {
        assert(out_keys@[a] == keys@[order[a]]);
        assert(out_keys@[b] == keys@[order[b]]);
    }
    assert(stable_sorting(keys@, order));
    out
}

} // verus!

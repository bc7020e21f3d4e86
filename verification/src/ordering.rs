use vstd::prelude::*;

verus! {

/// `idx` holds each of `0 .. n` exactly once.
pub open spec fn is_perm_of_range(idx: Seq<int>, n: int) -> bool {
    &&& idx.len() == n
    &&& forall|i: int| 0 <= i < n ==> 0 <= #[trigger] idx[i] < n
    &&& forall|i: int, j: int| #![trigger idx[i], idx[j]] 0 <= i < j < n ==> idx[i] != idx[j]
    &&& forall|v: int| 0 <= v < n ==> #[trigger] idx.contains(v)
}

/// `idx` lists the positions of `keys` in ascending order of their values,
/// positions with equal values kept in their original order: the unique
/// permutation a stable sort by `keys` performs.
pub open spec fn is_stable_sort_perm(idx: Seq<int>, keys: Seq<u16>) -> bool {
    &&& is_perm_of_range(idx, keys.len() as int)
    &&& forall|i: int, j: int|
        #![trigger idx[i], idx[j]]
        0 <= i < j < idx.len() ==> (keys[idx[i]] < keys[idx[j]] || (keys[idx[i]] == keys[idx[j]]
            && idx[i] < idx[j]))
}

/// The sequence whose element `i` is `s[idx[i]]`.
pub open spec fn apply_indices<T>(idx: Seq<int>, s: Seq<T>) -> Seq<T> {
    Seq::new(idx.len(), |i: int| s[idx[i]])
}

/// Every track number is present.
pub open spec fn all_tracks_present(tracks: Seq<Option<u16>>) -> bool {
    forall|i: int| 0 <= i < tracks.len() ==> #[trigger] tracks[i] is Some
}

/// The present track numbers, positionwise.
pub open spec fn unwrap_tracks(tracks: Seq<Option<u16>>) -> Seq<u16> {
    Seq::new(tracks.len(), |i: int| tracks[i]->0)
}

/// What the ordering policy owes: when every item has a track number the
/// result is the items rearranged by the stable sort of those numbers, and
/// otherwise the result is the input, exactly and in order.
pub open spec fn correct_order<T>(items: Seq<T>, tracks: Seq<Option<u16>>, r: Seq<T>) -> bool {
    if tracks.len() == items.len() && all_tracks_present(tracks) {
        exists|idx: Seq<int>|
            #[trigger] is_stable_sort_perm(idx, unwrap_tracks(tracks)) && r == apply_indices(
                idx,
                items,
            )
    } else {
        r == items
    }
}

#[verifier::external_type_specification]
#[verifier::external_body]
pub struct ExPermutation(permutation::Permutation);

/// The index sequence a permutation rearranges a slice by: element `i` of
/// `Permutation::apply_slice(p, s)` is element `perm_of(p)[i]` of `s`.
pub uninterp spec fn perm_of(p: permutation::Permutation) -> Seq<int>;

/// Relies on permutation::sort: it sorts the identity index vector with
/// std's stable `sort_by_key` on the slice's values, so the returned
/// permutation rearranges a slice by the stable ascending order of `keys`.
#[verifier::external_body]
fn sort_perm(keys: &Vec<u16>) -> (p: permutation::Permutation)
    ensures
        is_stable_sort_perm(perm_of(p), keys@),
{
    permutation::sort(&keys[..])
}

/// Relies on Permutation::apply_slice: element `i` of the result is element
/// `perm_of(p)[i]` of the input, cloned. It panics unless the slice's
/// length equals the permutation's, which the precondition gives.
#[verifier::external_body]
fn apply_perm<T: Clone + DeepView>(p: &permutation::Permutation, items: &Vec<T>) -> (r: Vec<T>)
    requires
        is_perm_of_range(perm_of(*p), items@.len() as int),
    ensures
        r.deep_view() == apply_indices(perm_of(*p), items.deep_view()),
{
    p.apply_slice(&items[..])
}

/// Rearranges `items` by the stable ascending order of their track numbers,
/// or returns them unchanged when any track number is absent.
pub fn order_by_tracks<T: Clone + DeepView>(items: Vec<T>, tracks: &Vec<Option<u16>>) -> (r: Vec<
    T,
>)
    requires
        items@.len() == tracks@.len(),
    ensures
        correct_order(items.deep_view(), tracks@, r.deep_view()),
        r@.len() == items@.len(),
{
    let n = tracks.len();
    let mut i: usize = 0;
    while i < n
        invariant
            n == tracks@.len(),
            i <= n,
            forall|j: int| 0 <= j < i ==> #[trigger] tracks@[j] is Some,
        decreases n - i,
    {
        if tracks[i].is_none() {
            return items;
        }
        i += 1;
    }
    let mut keys: Vec<u16> = Vec::new();
    i = 0;
    while i < n
        invariant
            n == tracks@.len(),
            i <= n,
            all_tracks_present(tracks@),
            keys@ =~= unwrap_tracks(tracks@).subrange(0, i as int),
        decreases n - i,
    {
        keys.push(tracks[i].unwrap());
        proof {
            assert(keys@ =~= unwrap_tracks(tracks@).subrange(0, i + 1));
        }
        i += 1;
    }
    proof {
        assert(keys@ =~= unwrap_tracks(tracks@));
    }
    let p = sort_perm(&keys);
    let r = apply_perm(&p, &items);
    proof {
        let idx = perm_of(p);
        assert(is_stable_sort_perm(idx, unwrap_tracks(tracks@)));
        assert(r.deep_view() == apply_indices(idx, items.deep_view()));
        assert(r@.len() == r.deep_view().len());
        assert(items@.len() == items.deep_view().len());
    }
    r
}

/// Rearranging a sequence by a permutation of its positions keeps exactly
/// its elements.
pub proof fn lemma_apply_indices_multiset<T>(idx: Seq<int>, s: Seq<T>)
    requires
        is_perm_of_range(idx, s.len() as int),
    ensures
        apply_indices(idx, s).to_multiset() == s.to_multiset(),
    decreases s.len(),
{
    broadcast use vstd::seq_lib::group_to_multiset_ensures;
    broadcast use vstd::multiset::group_multiset_axioms;

    let n = s.len() as int;
    let a = apply_indices(idx, s);
    if n == 0 {
        assert(a =~= s);
    } else {
        assert(idx.contains(n - 1));
        let j = choose|j: int| 0 <= j < idx.len() && idx[j] == n - 1;
        let idx2 = idx.remove(j);
        let s2 = s.drop_last();
        assert(idx2.len() == n - 1);
        assert forall|i: int| 0 <= i < n - 1 implies 0 <= #[trigger] idx2[i] < n - 1 by {
            if i < j {
                assert(idx2[i] == idx[i]);
                assert(idx[i] != idx[j]);
            } else {
                assert(idx2[i] == idx[i + 1]);
                assert(idx[i + 1] != idx[j]);
            }
        }
        assert forall|p: int, q: int| #![trigger idx2[p], idx2[q]] 0 <= p < q < n - 1 implies
            idx2[p] != idx2[q] by {
            if q < j {
                assert(idx2[p] == idx[p] && idx2[q] == idx[q]);
            } else if p < j {
                assert(idx2[p] == idx[p] && idx2[q] == idx[q + 1]);
            } else {
                assert(idx2[p] == idx[p + 1] && idx2[q] == idx[q + 1]);
            }
        }
        assert forall|v: int| 0 <= v < n - 1 implies #[trigger] idx2.contains(v) by {
            assert(idx.contains(v));
            let i = choose|i: int| 0 <= i < idx.len() && idx[i] == v;
            if i < j {
                assert(idx2[i] == v);
            } else {
                assert(i != j);
                assert(idx2[i - 1] == idx[i]);
            }
        }
        assert(is_perm_of_range(idx2, n - 1));
        assert forall|k: int| 0 <= k < n - 1 implies #[trigger] apply_indices(idx2, s2)[k]
            == a.remove(j)[k] by {
            if k < j {
                assert(idx2[k] == idx[k]);
                assert(a.remove(j)[k] == a[k]);
            } else {
                assert(idx2[k] == idx[k + 1]);
                assert(a.remove(j)[k] == a[k + 1]);
            }
        }
        assert(apply_indices(idx2, s2) =~= a.remove(j));
        lemma_apply_indices_multiset(idx2, s2);
        assert(a[j] == s.last());
        assert(s =~= s2.push(s.last()));
        assert(s.to_multiset() =~= s2.to_multiset().insert(s.last()));
        assert(a.remove(j).to_multiset() =~= a.to_multiset().remove(a[j]));
        assert(a.contains(s.last()));
        assert(a.to_multiset().count(s.last()) > 0);
        assert(a.to_multiset() =~= a.to_multiset().remove(s.last()).insert(s.last()));
        assert(a.to_multiset() =~= s.to_multiset());
    }
}

/// The ordering policy returns a permutation of its input: the result holds
/// exactly the items that were handed in, however the tracks came out.
pub proof fn lemma_order_preserves_items<T>(items: Seq<T>, tracks: Seq<Option<u16>>, r: Seq<T>)
    requires
        correct_order(items, tracks, r),
    ensures
        r.to_multiset() == items.to_multiset(),
{
    if tracks.len() == items.len() && all_tracks_present(tracks) {
        let idx = choose|idx: Seq<int>|
            #[trigger] is_stable_sort_perm(idx, unwrap_tracks(tracks)) && r == apply_indices(
                idx,
                items,
            );
        lemma_apply_indices_multiset(idx, items);
    }
}

/// The items paired with their track numbers, positionwise.
pub open spec fn zip_tracks<T>(items: Seq<T>, tracks: Seq<Option<u16>>) -> Seq<(T, u16)> {
    Seq::new(items.len(), |i: int| (items[i], tracks[i]->0))
}

/// No two positions hold the same track number.
pub open spec fn no_repeated_tracks(tracks: Seq<Option<u16>>) -> bool {
    forall|i: int, j: int|
        #![trigger tracks[i], tracks[j]]
        0 <= i < j < tracks.len() ==> tracks[i]->0 != tracks[j]->0
}

/// The keys of the pairs strictly ascend.
pub open spec fn sorted_strictly_by_key<T>(z: Seq<(T, u16)>) -> bool {
    forall|i: int, j: int| #![trigger z[i], z[j]] 0 <= i < j < z.len() ==> z[i].1 < z[j].1
}

proof fn lemma_sorted_strict_unique<T>(x: Seq<(T, u16)>, y: Seq<(T, u16)>)
    requires
        sorted_strictly_by_key(x),
        sorted_strictly_by_key(y),
        x.to_multiset() == y.to_multiset(),
    ensures
        x =~= y,
    decreases x.len(),
{
    broadcast use vstd::seq_lib::group_to_multiset_ensures;
    broadcast use vstd::multiset::group_multiset_axioms;

    if x.len() == 0 {
        assert(y.to_multiset().len() == 0);
        assert(x =~= y);
    } else {
        assert(x.to_multiset().len() == x.len());
        assert(y.to_multiset().len() == y.len());
        assert(y.len() == x.len());
        assert(x.contains(x[0]));
        assert(y.to_multiset().count(x[0]) > 0);
        assert(y.contains(x[0]));
        let k = choose|k: int| 0 <= k < y.len() && y[k] == x[0];
        assert(y.contains(y[0]));
        assert(x.to_multiset().count(y[0]) > 0);
        assert(x.contains(y[0]));
        let m = choose|m: int| 0 <= m < x.len() && x[m] == y[0];
        assert(x[0].1 <= x[m].1);
        assert(y[0].1 <= y[k].1);
        assert(x[0].1 == y[0].1);
        assert(k == 0);
        assert(y[0] == x[0]);
        let xt = x.drop_first();
        let yt = y.drop_first();
        assert(x.remove(0) =~= xt);
        assert(y.remove(0) =~= yt);
        assert(xt.to_multiset() =~= x.to_multiset().remove(x[0]));
        assert(yt.to_multiset() =~= y.to_multiset().remove(y[0]));
        assert(xt.to_multiset() == yt.to_multiset());
        assert forall|i: int, j: int| #![trigger xt[i], xt[j]] 0 <= i < j < xt.len() implies
            xt[i].1 < xt[j].1 by {
            assert(xt[i] == x[i + 1] && xt[j] == x[j + 1]);
        }
        assert forall|i: int, j: int| #![trigger yt[i], yt[j]] 0 <= i < j < yt.len() implies
            yt[i].1 < yt[j].1 by {
            assert(yt[i] == y[i + 1] && yt[j] == y[j + 1]);
        }
        lemma_sorted_strict_unique(xt, yt);
        assert forall|i: int| 0 <= i < x.len() implies #[trigger] x[i] == y[i] by {
            if i > 0 {
                assert(x[i] == xt[i - 1] && y[i] == yt[i - 1]);
            }
        }
        assert(x =~= y);
    }
}

/// Ordering determinism: two listings that pair the same items with the
/// same track numbers — every number present and none repeated — are
/// ordered to the same sequence, whatever order they were listed in.
pub proof fn lemma_ordering_deterministic<T>(
    items1: Seq<T>,
    tracks1: Seq<Option<u16>>,
    r1: Seq<T>,
    items2: Seq<T>,
    tracks2: Seq<Option<u16>>,
    r2: Seq<T>,
)
    requires
        items1.len() == tracks1.len(),
        items2.len() == tracks2.len(),
        all_tracks_present(tracks1),
        all_tracks_present(tracks2),
        no_repeated_tracks(tracks1),
        no_repeated_tracks(tracks2),
        zip_tracks(items1, tracks1).to_multiset() == zip_tracks(items2, tracks2).to_multiset(),
        correct_order(items1, tracks1, r1),
        correct_order(items2, tracks2, r2),
    ensures
        r1 == r2,
{
    let z1 = zip_tracks(items1, tracks1);
    let z2 = zip_tracks(items2, tracks2);
    let idx1 = choose|idx: Seq<int>|
        #[trigger] is_stable_sort_perm(idx, unwrap_tracks(tracks1)) && r1 == apply_indices(
            idx,
            items1,
        );
    let idx2 = choose|idx: Seq<int>|
        #[trigger] is_stable_sort_perm(idx, unwrap_tracks(tracks2)) && r2 == apply_indices(
            idx,
            items2,
        );
    let w1 = apply_indices(idx1, z1);
    let w2 = apply_indices(idx2, z2);
    lemma_apply_indices_multiset(idx1, z1);
    lemma_apply_indices_multiset(idx2, z2);
    lemma_applied_zip_sorted(items1, tracks1, idx1);
    lemma_applied_zip_sorted(items2, tracks2, idx2);
    lemma_sorted_strict_unique(w1, w2);
    assert forall|i: int| 0 <= i < r1.len() implies #[trigger] r1[i] == r2[i] by {
        assert(w1[i] == z1[idx1[i]]);
        assert(w2[i] == z2[idx2[i]]);
        assert(r1[i] == items1[idx1[i]]);
        assert(r2[i] == items2[idx2[i]]);
        assert(w1[i].0 == r1[i] && w2[i].0 == r2[i]);
        assert(w1[i] == w2[i]);
    }
    assert(r1 =~= r2);
}

proof fn lemma_applied_zip_sorted<T>(items: Seq<T>, tracks: Seq<Option<u16>>, idx: Seq<int>)
    requires
        items.len() == tracks.len(),
        all_tracks_present(tracks),
        no_repeated_tracks(tracks),
        is_stable_sort_perm(idx, unwrap_tracks(tracks)),
    ensures
        sorted_strictly_by_key(apply_indices(idx, zip_tracks(items, tracks))),
{
    let z = zip_tracks(items, tracks);
    let w = apply_indices(idx, z);
    let keys = unwrap_tracks(tracks);
    assert forall|p: int, q: int| #![trigger w[p], w[q]] 0 <= p < q < w.len() implies w[p].1
        < w[q].1 by {
        assert(w[p] == z[idx[p]]);
        assert(w[q] == z[idx[q]]);
        assert(w[p].1 == keys[idx[p]]);
        assert(w[q].1 == keys[idx[q]]);
        assert(idx[p] != idx[q]);
        if idx[p] < idx[q] {
            assert(tracks[idx[p]]->0 != tracks[idx[q]]->0);
        } else {
            assert(tracks[idx[q]]->0 != tracks[idx[p]]->0);
        }
        assert(keys[idx[p]] != keys[idx[q]]);
    }
}

} // verus!

use vstd::prelude::*;

verus! {

/// `(key of a, index of a)` comes before `(key of b, index of b)`.
pub open spec fn key_index_before(ka: usize, ia: int, kb: usize, ib: int) -> bool {
    ka < kb || (ka == kb && ia < ib)
}

/// `p` lists every index of `keys` once, in increasing order of key and, among equal keys,
/// of index: the order in which a stable sort by key puts the elements.
pub open spec fn stable_order(keys: Seq<usize>, p: Seq<int>) -> bool {
    &&& p.len() == keys.len()
    &&& forall|k: int| 0 <= k < p.len() ==> 0 <= #[trigger] p[k] < keys.len()
    &&& forall|k: int, l: int|
        0 <= k < l < p.len() ==> key_index_before(keys[p[k]], p[k], keys[p[l]], p[l])
}

/// The keys of keyed items.
pub open spec fn keys_of<T>(items: Seq<(usize, T)>) -> Seq<usize> {
    items.map_values(|e: (usize, T)| e.0)
}

/// `sorted` is `items` stably sorted by key, the element at `k` being `items[p[k]]`.
pub open spec fn stably_sorted_as<T>(items: Seq<(usize, T)>, sorted: Seq<(usize, T)>, p: Seq<int>) -> bool {
    &&& stable_order(keys_of(items), p)
    &&& sorted.len() == items.len()
    &&& forall|k: int| 0 <= k < sorted.len() ==> #[trigger] sorted[k] == items[p[k]]
}

/// `items` sorted by key, items with equal keys kept in their order (`sort_by_key`).
pub fn stable_sort_by_key<T>(items: Vec<(usize, T)>) -> (r: Vec<(usize, T)>)
    ensures
        exists|p: Seq<int>| stably_sorted_as(items@, r@, p),
{
    let ghost all = items@;
    let mut sorted: Vec<(usize, T)> = Vec::new();
    let ghost mut p: Seq<int> = Seq::empty();
    for e in it: items.into_iter()
        invariant
            it.seq() == all,
            sorted@.len() == it.index(),
            p.len() == it.index(),
            forall|k: int| 0 <= k < p.len() ==> 0 <= #[trigger] p[k] < it.index(),
            forall|k: int| 0 <= k < sorted@.len() ==> #[trigger] sorted@[k] == all[p[k]],
            forall|k: int, l: int|
                0 <= k < l < p.len() ==> key_index_before(all[p[k]].0, p[k], all[p[l]].0, p[l]),
    {
        let ghost i = it.index() as int;
        assert(e == all[i]);
        let key = e.0;
        let mut pos = sorted.len();
        while pos > 0 && sorted[pos - 1].0 > key
            invariant
                pos <= sorted@.len(),
                forall|k: int| pos <= k < sorted@.len() ==> #[trigger] sorted@[k].0 > key,
            decreases pos,
        {
            pos = pos - 1;
        }
        proof {
            // everything before `pos` has a key no greater than `key`
            assert forall|k: int| 0 <= k < pos implies #[trigger] sorted@[k].0 <= key by {
                if pos > 0 {
                    assert(sorted@[pos - 1].0 <= key);
                    if k < pos - 1 {
                        assert(key_index_before(all[p[k]].0, p[k], all[p[pos - 1]].0, p[pos - 1]));
                    }
                }
            }
        }
        let ghost old_sorted = sorted@;
        let ghost old_p = p;
        sorted.insert(pos, e);
        proof {
            p = old_p.insert(pos as int, i);
            assert forall|k: int| 0 <= k < sorted@.len() implies #[trigger] sorted@[k] == all[p[k]] by {
                if k < pos {
                    assert(sorted@[k] == old_sorted[k]);
                } else if k > pos {
                    assert(sorted@[k] == old_sorted[k - 1]);
                }
            }
            assert forall|k: int, l: int|
                0 <= k < l < p.len() implies key_index_before(all[p[k]].0, p[k], all[p[l]].0, p[l]) by {
                if k < pos && l < pos {
                } else if k < pos && l == pos {
                    assert(old_sorted[k].0 <= key);
                    assert(old_sorted[k] == all[old_p[k]]);
                } else if k < pos && l > pos {
                    assert(p[l] == old_p[l - 1]);
                } else if k == pos {
                    assert(old_sorted[l - 1].0 > key);
                    assert(old_sorted[l - 1] == all[old_p[l - 1]]);
                } else {
                    assert(p[k] == old_p[k - 1]);
                    assert(p[l] == old_p[l - 1]);
                }
            }
        }
    }
    proof {
        let keys = keys_of(all);
        assert forall|k: int, l: int| 0 <= k < l < p.len() implies key_index_before(keys[p[k]], p[k], keys[p[l]], p[l]) by {
            assert(keys[p[k]] == all[p[k]].0);
            assert(keys[p[l]] == all[p[l]].0);
        }
        assert(stably_sorted_as(all, sorted@, p));
    }
    sorted
}

} // verus!

//! Grouping of positions by equal keys, in order of first appearance.
use std::collections::HashMap;
use vstd::prelude::*;
use vstd::hash_map::StringHashMap;

verus! {

broadcast use vstd::std_specs::hash::group_hash_axioms;

/// `groups` partitions the positions `0..keys.len()` by equal key: every group is a
/// non-empty increasing list of positions with one key, distinct groups have distinct
/// keys, and every position lies in the group of its key.
pub open spec fn partitions<K>(groups: Seq<Seq<usize>>, keys: Seq<K>) -> bool {
    &&& forall|g: int| 0 <= g < groups.len() ==> (#[trigger] groups[g]).len() > 0
    &&& forall|g: int, a: int, b: int|
        0 <= g < groups.len() && 0 <= a < b < groups[g].len() ==> (#[trigger] groups[g][a]) < (
        #[trigger] groups[g][b])
    &&& forall|g: int, a: int|
        0 <= g < groups.len() && 0 <= a < groups[g].len() ==> (#[trigger] groups[g][a]) < keys.len()
            && keys[groups[g][a] as int] == keys[groups[g][0] as int]
    &&& forall|g: int, h: int|
        0 <= g < h < groups.len() ==> keys[(#[trigger] groups[g])[0] as int] != keys[(
        #[trigger] groups[h])[0] as int]
    &&& forall|i: int| 0 <= i < keys.len() ==> #[trigger] covers(groups, i)
    &&& forall|g: int, h: int| 0 <= g < h < groups.len() ==> (#[trigger] groups[g])[0] < (#[trigger] groups[h])[0]
}

/// The groups of `groups` that have at least two members, in order.
pub open spec fn keep_shared(groups: Seq<Seq<usize>>) -> Seq<Seq<usize>>
    decreases groups.len(),
{
    if groups.len() == 0 {
        groups
    } else if groups.last().len() >= 2 {
        keep_shared(groups.drop_last()).push(groups.last())
    } else {
        keep_shared(groups.drop_last())
    }
}

/// The groups with at least two members, in order.
pub fn keep_shared_groups(groups: Vec<Vec<usize>>) -> (r: Vec<Vec<usize>>)
    ensures
        r@.map_values(|v: Vec<usize>| v@) == keep_shared(groups@.map_values(|v: Vec<usize>| v@)),
{
    let ghost all = groups@.map_values(|v: Vec<usize>| v@);
    let mut r: Vec<Vec<usize>> = Vec::new();
    let mut rest = groups;
    let mut i: usize = 0;
    let n = rest.len();
    // take groups from the front by reversing once
    let mut rev: Vec<Vec<usize>> = Vec::new();
    while rest.len() > 0
        invariant
            rest@.len() + rev@.len() == n,
            n == all.len(),
            forall|k: int| 0 <= k < rest@.len() ==> (#[trigger] rest@[k])@ == all[k],
            forall|k: int| 0 <= k < rev@.len() ==> (#[trigger] rev@[k])@ == all[n - 1 - k],
        decreases rest@.len(),
    {
        let g = rest.pop().unwrap();
        rev.push(g);
    }
    while rev.len() > 0
        invariant
            i + rev@.len() == n,
            n == all.len(),
            forall|k: int| 0 <= k < rev@.len() ==> (#[trigger] rev@[k])@ == all[n - 1 - k],
            r@.map_values(|v: Vec<usize>| v@) == keep_shared(all.take(i as int)),
        decreases rev@.len(),
    {
        let g = rev.pop().unwrap();
        assert(g@ == all[i as int]);
        assert(all.take(i as int + 1).drop_last() =~= all.take(i as int));
        if g.len() >= 2 {
            let ghost before = r@;
            r.push(g);
            assert(r@.map_values(|v: Vec<usize>| v@) =~= before.map_values(|v: Vec<usize>| v@).push(all[i as int]));
        }
        i = i + 1;
    }
    assert(all.take(n as int) =~= all);
    r
}

/// Position `i` lies in one of `groups`.
pub open spec fn covers(groups: Seq<Seq<usize>>, i: int) -> bool {
    exists|g: int, a: int| 0 <= g < groups.len() && 0 <= a < groups[g].len() && #[trigger] groups[g][a] == i
}

/// Positions grouped by equal size.
pub fn group_by_size(sizes: &[u64]) -> (groups: Vec<Vec<usize>>)
    ensures
        partitions(groups@.map_values(|v: Vec<usize>| v@), sizes@),
{
    let mut index: HashMap<u64, usize> = HashMap::new();
    let mut groups: Vec<Vec<usize>> = Vec::new();
    let mut i: usize = 0;
    while i < sizes.len()
        invariant
            i <= sizes@.len(),
            forall|k: u64| #[trigger] index@.contains_key(k) ==> index@[k] < groups@.len() && groups@[index@[k] as int]@.len() > 0
                && sizes@[groups@[index@[k] as int]@[0] as int] == k,
            forall|g: int| 0 <= g < groups@.len() ==> (#[trigger] groups@[g])@.len() > 0
                && index@.contains_key(sizes@[groups@[g]@[0] as int]) && index@[sizes@[groups@[g]@[0] as int]] == g,
            forall|g: int, a: int, b: int|
                0 <= g < groups@.len() && 0 <= a < b < groups@[g]@.len() ==> (#[trigger] groups@[g]@[a]) < (
                #[trigger] groups@[g]@[b]),
            forall|g: int, a: int|
                0 <= g < groups@.len() && 0 <= a < groups@[g]@.len() ==> (#[trigger] groups@[g]@[a]) < i
                    && sizes@[groups@[g]@[a] as int] == sizes@[groups@[g]@[0] as int],
            forall|j: int| 0 <= j < i ==> index@.contains_key(#[trigger] sizes@[j]) && groups@[index@[sizes@[j]] as int]@.contains(j as usize),
            forall|g: int, h: int| 0 <= g < h < groups@.len() ==> (#[trigger] groups@[g])@[0] < (#[trigger] groups@[h])@[0],
        decreases sizes.len() - i,
    {
        let key = sizes[i];
        let ghost old_groups = groups@;
        match index.get(&key) {
            Some(g) => {
                let g = *g;
                let mut group = groups[g].clone();
                group.push(i);
                groups.set(g, group);
                proof {
                    assert forall|j: int| 0 <= j <= i implies index@.contains_key(#[trigger] sizes@[j]) && groups@[index@[sizes@[j]] as int]@.contains(j as usize) by {
                        if j < i {
                            let gj = index@[sizes@[j]] as int;
                            if gj == g {
                                let w = choose|w: int| 0 <= w < old_groups[gj]@.len() && old_groups[gj]@[w] == j as usize;
                                assert(groups@[gj]@[w] == j as usize);
                            } else {
                                assert(groups@[gj] == old_groups[gj]);
                            }
                        } else {
                            assert(groups@[g as int]@[groups@[g as int]@.len() - 1] == i);
                        }
                    }
                }
            },
            None => {
                let mut group: Vec<usize> = Vec::new();
                group.push(i);
                let g = groups.len();
                groups.push(group);
                index.insert(key, g);
                proof {
                    assert forall|j: int| 0 <= j <= i implies index@.contains_key(#[trigger] sizes@[j]) && groups@[index@[sizes@[j]] as int]@.contains(j as usize) by {
                        if j < i {
                            let gj = index@[sizes@[j]] as int;
                            assert(sizes@[j] != key);
                            assert(groups@[gj] == old_groups[gj]);
                        } else {
                            assert(groups@[g as int]@[0] == i);
                        }
                    }
                }
            },
        }
        i = i + 1;
    }
    let ghost gs = groups@.map_values(|v: Vec<usize>| v@);
    assert forall|ii: int| 0 <= ii < sizes@.len() implies #[trigger] covers(gs, ii) by {
        let g = index@[sizes@[ii]] as int;
        let a = choose|a: int| 0 <= a < groups@[g]@.len() && groups@[g]@[a] == ii as usize;
        assert(gs[g][a] == ii);
    }
    assert forall|g: int, h: int| 0 <= g < h < gs.len() implies sizes@[(#[trigger] gs[g])[0] as int] != sizes@[(
        #[trigger] gs[h])[0] as int] by {
        assert(gs[g] == groups@[g]@);
        assert(gs[h] == groups@[h]@);
    }
    assert forall|g: int, h: int| 0 <= g < h < gs.len() implies (#[trigger] gs[g])[0] < (#[trigger] gs[h])[0] by {
        assert(gs[g] == groups@[g]@);
        assert(gs[h] == groups@[h]@);
    }
    groups
}

/// Positions grouped by equal text.
pub fn group_by_text(texts: &[String]) -> (groups: Vec<Vec<usize>>)
    ensures
        partitions(groups@.map_values(|v: Vec<usize>| v@), texts@.map_values(|t: String| t@)),
{
    let ghost keys = texts@.map_values(|t: String| t@);
    let mut index: StringHashMap<usize> = StringHashMap::new();
    let mut groups: Vec<Vec<usize>> = Vec::new();
    let mut i: usize = 0;
    while i < texts.len()
        invariant
            i <= texts@.len(),
            keys == texts@.map_values(|t: String| t@),
            forall|k: Seq<char>| #[trigger] index@.contains_key(k) ==> index@[k] < groups@.len() && groups@[index@[k] as int]@.len() > 0
                && keys[groups@[index@[k] as int]@[0] as int] == k,
            forall|g: int| 0 <= g < groups@.len() ==> (#[trigger] groups@[g])@.len() > 0
                && index@.contains_key(keys[groups@[g]@[0] as int]) && index@[keys[groups@[g]@[0] as int]] == g,
            forall|g: int, a: int, b: int|
                0 <= g < groups@.len() && 0 <= a < b < groups@[g]@.len() ==> (#[trigger] groups@[g]@[a]) < (
                #[trigger] groups@[g]@[b]),
            forall|g: int, a: int|
                0 <= g < groups@.len() && 0 <= a < groups@[g]@.len() ==> (#[trigger] groups@[g]@[a]) < i
                    && keys[groups@[g]@[a] as int] == keys[groups@[g]@[0] as int],
            forall|j: int| 0 <= j < i ==> index@.contains_key(#[trigger] keys[j]) && groups@[index@[keys[j]] as int]@.contains(j as usize),
            forall|g: int, h: int| 0 <= g < h < groups@.len() ==> (#[trigger] groups@[g])@[0] < (#[trigger] groups@[h])@[0],
        decreases texts.len() - i,
    {
        let key: &String = &texts[i];
        assert(keys[i as int] == key@);
        let ghost old_groups = groups@;
        match index.get(key.as_str()) {
            Some(g) => {
                let g = *g;
                let mut group = groups[g].clone();
                group.push(i);
                groups.set(g, group);
                proof {
                    assert forall|j: int| 0 <= j <= i implies index@.contains_key(#[trigger] keys[j]) && groups@[index@[keys[j]] as int]@.contains(j as usize) by {
                        if j < i {
                            let gj = index@[keys[j]] as int;
                            if gj == g {
                                let w = choose|w: int| 0 <= w < old_groups[gj]@.len() && old_groups[gj]@[w] == j as usize;
                                assert(groups@[gj]@[w] == j as usize);
                            } else {
                                assert(groups@[gj] == old_groups[gj]);
                            }
                        } else {
                            assert(groups@[g as int]@[groups@[g as int]@.len() - 1] == i);
                        }
                    }
                }
            },
            None => {
                let mut group: Vec<usize> = Vec::new();
                group.push(i);
                let g = groups.len();
                groups.push(group);
                index.insert(key.clone(), g);
                proof {
                    assert forall|j: int| 0 <= j <= i implies index@.contains_key(#[trigger] keys[j]) && groups@[index@[keys[j]] as int]@.contains(j as usize) by {
                        if j < i {
                            let gj = index@[keys[j]] as int;
                            assert(keys[j] != key@);
                            assert(groups@[gj] == old_groups[gj]);
                        } else {
                            assert(groups@[g as int]@[0] == i);
                        }
                    }
                }
            },
        }
        i = i + 1;
    }
    let ghost gs = groups@.map_values(|v: Vec<usize>| v@);
    assert forall|ii: int| 0 <= ii < keys.len() implies #[trigger] covers(gs, ii) by {
        let g = index@[keys[ii]] as int;
        let a = choose|a: int| 0 <= a < groups@[g]@.len() && groups@[g]@[a] == ii as usize;
        assert(gs[g][a] == ii);
    }
    assert forall|g: int, h: int| 0 <= g < h < gs.len() implies keys[(#[trigger] gs[g])[0] as int] != keys[(
        #[trigger] gs[h])[0] as int] by {
        assert(gs[g] == groups@[g]@);
        assert(gs[h] == groups@[h]@);
    }
    assert forall|g: int, h: int| 0 <= g < h < gs.len() implies (#[trigger] gs[g])[0] < (#[trigger] gs[h])[0] by {
        assert(gs[g] == groups@[g]@);
        assert(gs[h] == groups@[h]@);
    }
    groups
}

} // verus!

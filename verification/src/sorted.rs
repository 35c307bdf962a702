//! Stable sorted insertion: the model of pushing an item and re-sorting with a stable sort.
use vstd::prelude::*;

verus! {

/// Position at which `x` is inserted: before the first element it strictly precedes.
pub open spec fn insert_pos<T>(s: Seq<T>, x: T, before: spec_fn(T, T) -> bool) -> int
    decreases s.len(),
{
    if s.len() == 0 {
        0
    } else if before(x, s[0]) {
        0
    } else {
        1 + insert_pos(s.drop_first(), x, before)
    }
}

/// `s` with `x` inserted where a stable sort puts an item pushed at the end.
pub open spec fn insert_sorted<T>(s: Seq<T>, x: T, before: spec_fn(T, T) -> bool) -> Seq<T> {
    let k = insert_pos(s, x, before);
    s.take(k) + seq![x] + s.skip(k)
}

/// No element strictly precedes an earlier one.
pub open spec fn is_sorted<T>(s: Seq<T>, before: spec_fn(T, T) -> bool) -> bool {
    forall|i: int, j: int| 0 <= i < j < s.len() ==> !before(s[j], s[i])
}

/// The relation is transitive.
pub open spec fn transitive<T>(before: spec_fn(T, T) -> bool) -> bool {
    forall|a: T, b: T, c: T| #[trigger] before(a, b) && #[trigger] before(b, c) ==> before(a, c)
}

/// The relation is irreflexive.
pub open spec fn irreflexive<T>(before: spec_fn(T, T) -> bool) -> bool {
    forall|a: T| !#[trigger] before(a, a)
}

/// The stable sort of a sequence, as repeated insertion.
pub open spec fn sort_by<T>(s: Seq<T>, before: spec_fn(T, T) -> bool) -> Seq<T>
    decreases s.len(),
{
    if s.len() == 0 {
        s
    } else {
        insert_sorted(sort_by(s.drop_last(), before), s.last(), before)
    }
}

/// The insertion position is the first index that `x` strictly precedes.
pub proof fn lemma_insert_pos<T>(s: Seq<T>, x: T, before: spec_fn(T, T) -> bool, k: int)
    requires
        0 <= k <= s.len(),
        forall|j: int| 0 <= j < k ==> !before(x, #[trigger] s[j]),
        k < s.len() ==> before(x, s[k]),
    ensures
        insert_pos(s, x, before) == k,
    decreases s.len(),
{
    if s.len() == 0 {
    } else if k == 0 {
    } else {
        assert(!before(x, s[0]));
        let t = s.drop_first();
        assert forall|j: int| 0 <= j < k - 1 implies !before(x, #[trigger] t[j]) by {
            assert(t[j] == s[j + 1]);
        }
        if k < s.len() {
            assert(t[k - 1] == s[k]);
        }
        lemma_insert_pos(t, x, before, k - 1);
    }
}

proof fn lemma_insert_pos_bounds<T>(s: Seq<T>, x: T, before: spec_fn(T, T) -> bool)
    ensures
        0 <= insert_pos(s, x, before) <= s.len(),
        forall|j: int| 0 <= j < insert_pos(s, x, before) ==> !before(x, #[trigger] s[j]),
        insert_pos(s, x, before) < s.len() ==> before(x, s[insert_pos(s, x, before)]),
    decreases s.len(),
{
    if s.len() > 0 && !before(x, s[0]) {
        let t = s.drop_first();
        lemma_insert_pos_bounds(t, x, before);
        assert forall|j: int| 0 <= j < insert_pos(s, x, before) implies !before(x, #[trigger] s[j]) by {
            if j > 0 {
                assert(s[j] == t[j - 1]);
            }
        }
        if insert_pos(s, x, before) < s.len() {
            assert(s[insert_pos(s, x, before)] == t[insert_pos(t, x, before)]);
        }
    }
}

/// Inserting into a sorted sequence keeps it sorted.
pub proof fn lemma_insert_sorted_sorted<T>(s: Seq<T>, x: T, before: spec_fn(T, T) -> bool)
    requires
        is_sorted(s, before),
        transitive(before),
        irreflexive(before),
    ensures
        is_sorted(insert_sorted(s, x, before), before),
        insert_sorted(s, x, before).len() == s.len() + 1,
        insert_sorted(s, x, before).to_multiset() == s.to_multiset().insert(x),
{
    lemma_insert_pos_bounds(s, x, before);
    let k = insert_pos(s, x, before);
    let r = insert_sorted(s, x, before);
    assert(r.len() == s.len() + 1);
    assert forall|i: int| 0 <= i < r.len() implies #[trigger] r[i] == (if i < k {
        s[i]
    } else if i == k {
        x
    } else {
        s[i - 1]
    }) by {}
    assert forall|i: int, j: int| 0 <= i < j < r.len() implies !before(r[j], r[i]) by {
        if j < k {
        } else if j == k {
            assert(r[i] == s[i]);
        } else if i == k {
            // x precedes s[k], and s[j - 1] does not precede s[k]
            assert(r[j] == s[j - 1]);
            if before(s[j - 1], x) {
                assert(before(x, s[k]));
                assert(before(s[j - 1], s[k]));
                if j - 1 == k {
                    assert(!before(s[k], s[k]));
                }
            }
        } else if i < k {
            assert(r[i] == s[i]);
            assert(r[j] == s[j - 1]);
        } else {
            assert(r[i] == s[i - 1]);
            assert(r[j] == s[j - 1]);
        }
    }
    assert(s =~= s.take(k) + s.skip(k));
    vstd::seq_lib::lemma_multiset_commutative(s.take(k), s.skip(k));
    vstd::seq_lib::lemma_multiset_commutative(s.take(k) + seq![x], s.skip(k));
    vstd::seq_lib::lemma_multiset_commutative(s.take(k), seq![x]);
    assert(seq![x] =~= Seq::<T>::empty().push(x));
    Seq::<T>::empty().to_multiset_ensures();
    seq![x].to_multiset_ensures();
}

/// Keeping the first `n` items after inserting into the first `n` gives the first `n` of
/// inserting into the whole.
pub proof fn lemma_insert_take<T>(s: Seq<T>, x: T, before: spec_fn(T, T) -> bool, n: int)
    requires
        0 <= n < s.len(),
    ensures
        insert_sorted(s.take(n), x, before).take(n) == insert_sorted(s, x, before).take(n),
{
    let t = s.take(n);
    lemma_insert_pos_bounds(s, x, before);
    let k = insert_pos(s, x, before);
    let m = if k < n { k } else { n };
    assert forall|j: int| 0 <= j < m implies !before(x, #[trigger] t[j]) by {
        assert(t[j] == s[j]);
    }
    if m < t.len() {
        assert(t[m] == s[k]);
    }
    lemma_insert_pos(t, x, before, m);
    let a = insert_sorted(t, x, before);
    let b = insert_sorted(s, x, before);
    assert forall|i: int| 0 <= i < n implies #[trigger] a[i] == b[i] by {
        if i < m {
            assert(a[i] == t[i]);
            assert(b[i] == s[i]);
        } else if i == m {
            assert(a[i] == x);
            assert(b[i] == x);
        } else {
            assert(a[i] == t[i - 1]);
            assert(b[i] == s[i - 1]);
        }
    }
    assert(a.take(n) =~= b.take(n));
}

/// The stable sort is sorted and a permutation.
pub proof fn lemma_sort_by<T>(s: Seq<T>, before: spec_fn(T, T) -> bool)
    requires
        transitive(before),
        irreflexive(before),
    ensures
        is_sorted(sort_by(s, before), before),
        sort_by(s, before).to_multiset() == s.to_multiset(),
        sort_by(s, before).len() == s.len(),
    decreases s.len(),
{
    if s.len() > 0 {
        lemma_sort_by(s.drop_last(), before);
        lemma_insert_sorted_sorted(sort_by(s.drop_last(), before), s.last(), before);
        assert(s.drop_last().push(s.last()) =~= s);
        s.drop_last().to_multiset_ensures();
    }
}

/// Two sorted orderings of the same items are the same sequence when no two different items
/// are tied.
pub proof fn lemma_sorted_unique<T>(a: Seq<T>, b: Seq<T>, before: spec_fn(T, T) -> bool)
    requires
        is_sorted(a, before),
        is_sorted(b, before),
        a.to_multiset() == b.to_multiset(),
        forall|x: T, y: T| a.contains(x) && a.contains(y) && x != y ==> before(x, y) || before(y, x),
    ensures
        a == b,
    decreases a.len(),
{
    a.to_multiset_ensures();
    b.to_multiset_ensures();
    if a.len() > 0 {
        assert(a.contains(a[0]));
        assert(a.to_multiset().count(a[0]) > 0);
        assert(b.to_multiset().count(a[0]) > 0);
        assert(b.contains(a[0]));
        assert(b.len() > 0);
        assert(b.contains(b[0]));
        assert(b.to_multiset().count(b[0]) > 0);
        assert(a.contains(b[0]));
        if a[0] != b[0] {
            let j = choose|j: int| 0 <= j < b.len() && b[j] == a[0];
            let i = choose|i: int| 0 <= i < a.len() && a[i] == b[0];
            assert(j > 0 && i > 0);
            assert(!before(b[j], b[0]));
            assert(!before(a[i], a[0]));
        }
        let a1 = a.drop_first();
        let b1 = b.drop_first();
        assert(a.remove(0) =~= a1);
        assert(b.remove(0) =~= b1);
        assert forall|x: T, y: T| a1.contains(x) && a1.contains(y) && x != y implies before(x, y) || before(y, x) by {
            let i = choose|i: int| 0 <= i < a1.len() && a1[i] == x;
            let k = choose|k: int| 0 <= k < a1.len() && a1[k] == y;
            assert(a[i + 1] == x && a[k + 1] == y);
            assert(a.contains(x) && a.contains(y));
        }
        assert(is_sorted(a1, before)) by {
            assert forall|i: int, j: int| 0 <= i < j < a1.len() implies !before(a1[j], a1[i]) by {
                assert(a1[i] == a[i + 1] && a1[j] == a[j + 1]);
            }
        }
        assert(is_sorted(b1, before)) by {
            assert forall|i: int, j: int| 0 <= i < j < b1.len() implies !before(b1[j], b1[i]) by {
                assert(b1[i] == b[i + 1] && b1[j] == b[j + 1]);
            }
        }
        lemma_sorted_unique(a1, b1, before);
        assert(a =~= b) by {
            assert forall|i: int| 0 <= i < a.len() implies a[i] == b[i] by {
                if i > 0 {
                    assert(a[i] == a1[i - 1] && b[i] == b1[i - 1]);
                }
            }
        }
    } else {
        assert(b.len() == 0);
        assert(a =~= b);
    }
}

/// `before` is a strict weak order: irreflexive, transitive, and an element that precedes
/// another precedes or is preceded by any third element.
pub open spec fn strict_weak<T>(before: spec_fn(T, T) -> bool) -> bool {
    &&& transitive(before)
    &&& irreflexive(before)
    &&& forall|a: T, b: T, c: T|
        #![trigger before(a, b), before(b, c)]
        before(a, c) ==> before(a, b) || before(b, c)
}

/// `less` computes `before` on every pair of references.
pub open spec fn computes<T, F: Fn(&T, &T) -> bool>(less: F, before: spec_fn(T, T) -> bool) -> bool {
    &&& forall|a: &T, b: &T| #[trigger] less.requires((a, b))
    &&& forall|a: &T, b: &T, r: bool| less.ensures((a, b), r) ==> r == before(*a, *b)
}

/// Sorts `v` by `before`: the result is a permutation of `v` in which no element strictly
/// precedes an earlier one.
pub fn merge_sort<T, F: Fn(&T, &T) -> bool>(v: Vec<T>, less: &F, Ghost(before): Ghost<spec_fn(T, T) -> bool>) -> (r: Vec<T>)
    requires
        strict_weak(before),
        computes(*less, before),
    ensures
        is_sorted(r@, before),
        r@.to_multiset() == v@.to_multiset(),
    decreases v@.len(),
{
    if v.len() <= 1 {
        proof {
            assert forall|i: int, j: int| 0 <= i < j < v@.len() implies !before(v@[j], v@[i]) by {}
        }
        return v;
    }
    let mut left = v;
    let ghost whole = left@;
    let mid = left.len() / 2;
    let right = left.split_off(mid);
    proof {
        assert(whole =~= left@ + right@);
        vstd::seq_lib::lemma_multiset_commutative(left@, right@);
    }
    let ls = merge_sort(left, less, Ghost(before));
    let rs = merge_sort(right, less, Ghost(before));
    merge(ls, rs, less, Ghost(before))
}

proof fn lemma_pop_multiset<T>(old_s: Seq<T>, new_s: Seq<T>, x: T)
    requires
        old_s.len() > 0,
        new_s == old_s.subrange(0, old_s.len() - 1),
        x == old_s[old_s.len() - 1],
    ensures
        old_s.to_multiset() == new_s.to_multiset().insert(x),
{
    assert(old_s =~= new_s.push(x));
    new_s.to_multiset_ensures();
}

fn merge<T, F: Fn(&T, &T) -> bool>(left: Vec<T>, right: Vec<T>, less: &F, Ghost(before): Ghost<spec_fn(T, T) -> bool>) -> (r: Vec<T>)
    requires
        strict_weak(before),
        computes(*less, before),
        is_sorted(left@, before),
        is_sorted(right@, before),
    ensures
        is_sorted(r@, before),
        r@.to_multiset() == left@.to_multiset().add(right@.to_multiset()),
{
    let ghost total = left@.to_multiset().add(right@.to_multiset());
    let mut l = left;
    let mut rr = right;
    // `out` holds the merged elements, greatest first.
    let mut out: Vec<T> = Vec::new();
    proof {
        broadcast use vstd::multiset::group_multiset_axioms;
        Seq::<T>::empty().to_multiset_ensures();
        assert(out@.to_multiset().add(l@.to_multiset()).add(rr@.to_multiset()) =~= total);
    }
    while l.len() > 0 || rr.len() > 0
        invariant
            strict_weak(before),
            computes(*less, before),
            is_sorted(l@, before),
            is_sorted(rr@, before),
            forall|i: int, j: int| 0 <= i < j < out@.len() ==> !before(#[trigger] out@[i], #[trigger] out@[j]),
            forall|i: int, j: int| 0 <= i < out@.len() && 0 <= j < l@.len() ==> !before(#[trigger] out@[i], #[trigger] l@[j]),
            forall|i: int, j: int| 0 <= i < out@.len() && 0 <= j < rr@.len() ==> !before(#[trigger] out@[i], #[trigger] rr@[j]),
            out@.to_multiset().add(l@.to_multiset()).add(rr@.to_multiset()) == total,
        decreases l@.len() + rr@.len(),
    {
        let take_left = if l.len() == 0 {
            false
        } else if rr.len() == 0 {
            true
        } else {
            less(&rr[rr.len() - 1], &l[l.len() - 1])
        };
        let ghost old_l = l@;
        let ghost old_r = rr@;
        let ghost old_out = out@;
        if take_left {
            let x = l.pop().unwrap();
            proof {
                let ln = old_l.len() - 1;
                assert forall|j: int| 0 <= j < l@.len() implies !before(x, #[trigger] l@[j]) by {
                    assert(l@[j] == old_l[j]);
                }
                assert forall|j: int| 0 <= j < rr@.len() implies !before(x, #[trigger] rr@[j]) by {
                    let rn = old_r.len() - 1;
                    assert(before(old_r[rn], x));
                    if before(x, rr@[j]) {
                        assert(before(old_r[rn], rr@[j]));
                        if j < rn {
                        } else {
                            assert(!before(old_r[rn], old_r[rn]));
                        }
                    }
                }
                lemma_pop_multiset(old_l, l@, x);
            }
            out.push(x);
        } else {
            let x = rr.pop().unwrap();
            proof {
                let rn = old_r.len() - 1;
                assert forall|j: int| 0 <= j < rr@.len() implies !before(x, #[trigger] rr@[j]) by {
                    assert(rr@[j] == old_r[j]);
                }
                assert forall|j: int| 0 <= j < l@.len() implies !before(x, #[trigger] l@[j]) by {
                    let ln = old_l.len() - 1;
                    assert(!before(x, old_l[ln]));
                    assert(!before(old_l[ln], l@[j]));
                    if before(x, l@[j]) {
                        assert(before(x, old_l[ln]) || before(old_l[ln], l@[j]));
                    }
                }
                lemma_pop_multiset(old_r, rr@, x);
            }
            out.push(x);
        }
        proof {
            broadcast use vstd::multiset::group_multiset_axioms;
            old_out.to_multiset_ensures();
            assert forall|i: int, j: int| 0 <= i < j < out@.len() implies !before(#[trigger] out@[i], #[trigger] out@[j]) by {
                if j < old_out.len() {
                    assert(out@[i] == old_out[i]);
                    assert(out@[j] == old_out[j]);
                } else {
                    assert(out@[i] == old_out[i]);
                    if take_left {
                        assert(!before(old_out[i], old_l[old_l.len() - 1]));
                    } else {
                        assert(!before(old_out[i], old_r[old_r.len() - 1]));
                    }
                }
            }
            assert forall|i: int, j: int| 0 <= i < out@.len() && 0 <= j < l@.len() implies !before(#[trigger] out@[i], #[trigger] l@[j]) by {
                assert(l@[j] == old_l[j]);
                if i < old_out.len() {
                    assert(out@[i] == old_out[i]);
                }
            }
            assert forall|i: int, j: int| 0 <= i < out@.len() && 0 <= j < rr@.len() implies !before(#[trigger] out@[i], #[trigger] rr@[j]) by {
                assert(rr@[j] == old_r[j]);
                if i < old_out.len() {
                    assert(out@[i] == old_out[i]);
                }
            }
            assert(out@.to_multiset().add(l@.to_multiset()).add(rr@.to_multiset()) =~= total);
        }
    }
    proof {
        broadcast use vstd::multiset::group_multiset_axioms;
        Seq::<T>::empty().to_multiset_ensures();
        assert(l@ =~= Seq::<T>::empty());
        assert(rr@ =~= Seq::<T>::empty());
    }
    let ghost merged = out@;
    let mut r: Vec<T> = Vec::new();
    proof {
        broadcast use vstd::multiset::group_multiset_axioms;
        assert(r@.to_multiset().add(out@.to_multiset()) =~= total);
    }
    while out.len() > 0
        invariant
            out@ == merged.take(merged.len() - r@.len()),
            r@.len() <= merged.len(),
            forall|k: int| 0 <= k < r@.len() ==> #[trigger] r@[k] == merged[merged.len() - 1 - k],
            forall|i: int, j: int| 0 <= i < j < merged.len() ==> !before(#[trigger] merged[i], #[trigger] merged[j]),
            r@.to_multiset().add(out@.to_multiset()) == total,
        decreases out@.len(),
    {
        let ghost old_out = out@;
        let ghost old_r = r@;
        let x = out.pop().unwrap();
        proof {
            lemma_pop_multiset(old_out, out@, x);
            old_r.to_multiset_ensures();
        }
        r.push(x);
        proof {
            broadcast use vstd::multiset::group_multiset_axioms;
            assert(out@ =~= merged.take(merged.len() - r@.len()));
            assert(r@.to_multiset().add(out@.to_multiset()) =~= total);
        }
    }
    proof {
        broadcast use vstd::multiset::group_multiset_axioms;
        Seq::<T>::empty().to_multiset_ensures();
        assert(out@ =~= Seq::<T>::empty());
        assert(r@.to_multiset() =~= total);
        assert forall|i: int, j: int| 0 <= i < j < r@.len() implies !before(r@[j], r@[i]) by {
            assert(r@[j] == merged[merged.len() - 1 - j]);
            assert(r@[i] == merged[merged.len() - 1 - i]);
        }
    }
    r
}

} // verus!

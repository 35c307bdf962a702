//! Orderings used to rank records: lexicographic text order and stable sorted insertion.
use vstd::prelude::*;
use crate::sorted::strict_weak;

verus! {

/// Lexicographic order on texts by character code: `a < b`.
pub open spec fn text_lt(a: Seq<char>, b: Seq<char>) -> bool
    decreases a.len(),
{
    if b.len() == 0 {
        false
    } else if a.len() == 0 {
        true
    } else if a[0] != b[0] {
        a[0] < b[0]
    } else {
        text_lt(a.drop_first(), b.drop_first())
    }
}

/// Three-way comparison of texts: -1, 0 or 1.
pub open spec fn text_order(a: Seq<char>, b: Seq<char>) -> int {
    if text_lt(a, b) {
        -1
    } else if a == b {
        0
    } else {
        1
    }
}

proof fn lemma_text_lt_step(a: Seq<char>, b: Seq<char>, i: int)
    requires
        0 <= i <= a.len(),
        i <= b.len(),
        forall|k: int| 0 <= k < i ==> a[k] == b[k],
    ensures
        text_lt(a, b) == text_lt(a.subrange(i, a.len() as int), b.subrange(i, b.len() as int)),
    decreases i,
{
    if i == 0 {
        assert(a.subrange(0, a.len() as int) =~= a);
        assert(b.subrange(0, b.len() as int) =~= b);
    } else {
        assert(a.len() > 0 && b.len() > 0);
        assert(a[0] == b[0]);
        let a1 = a.drop_first();
        let b1 = b.drop_first();
        assert forall|k: int| 0 <= k < i - 1 implies a1[k] == b1[k] by {
            assert(a1[k] == a[k + 1]);
            assert(b1[k] == b[k + 1]);
        }
        lemma_text_lt_step(a1, b1, i - 1);
        assert(a1.subrange(i - 1, a1.len() as int) =~= a.subrange(i, a.len() as int));
        assert(b1.subrange(i - 1, b1.len() as int) =~= b.subrange(i, b.len() as int));
    }
}

/// `text_lt` is irreflexive.
pub proof fn lemma_text_lt_irrefl(a: Seq<char>)
    ensures
        !text_lt(a, a),
    decreases a.len(),
{
    if a.len() > 0 {
        lemma_text_lt_irrefl(a.drop_first());
    }
}

/// `text_lt` is transitive.
pub proof fn lemma_text_lt_trans(a: Seq<char>, b: Seq<char>, c: Seq<char>)
    requires
        text_lt(a, b),
        text_lt(b, c),
    ensures
        text_lt(a, c),
    decreases a.len(),
{
    if a.len() > 0 && b.len() > 0 && c.len() > 0 && a[0] == b[0] && b[0] == c[0] {
        lemma_text_lt_trans(a.drop_first(), b.drop_first(), c.drop_first());
    }
}

/// `text_lt` is total on distinct texts.
pub proof fn lemma_text_lt_total(a: Seq<char>, b: Seq<char>)
    ensures
        a == b || text_lt(a, b) || text_lt(b, a),
    decreases a.len(),
{
    if a.len() > 0 && b.len() > 0 && a[0] == b[0] {
        lemma_text_lt_total(a.drop_first(), b.drop_first());
        if a.drop_first() == b.drop_first() {
            assert(a =~= seq![a[0]] + a.drop_first());
            assert(b =~= seq![b[0]] + b.drop_first());
        }
    } else if a.len() == 0 && b.len() == 0 {
        assert(a =~= b);
    }
}

/// Three-way comparison of texts by character code.
pub fn compare_text_chars(a: &[char], b: &[char]) -> (r: i8)
    ensures
        r as int == text_order(a@, b@),
{
    let mut i: usize = 0;
    while i < a.len() && i < b.len()
        invariant
            i <= a@.len(),
            i <= b@.len(),
            forall|k: int| 0 <= k < i ==> a@[k] == b@[k],
        decreases a.len() - i,
    {
        if a[i] != b[i] {
            proof {
                lemma_text_lt_step(a@, b@, i as int);
                lemma_text_lt_step(b@, a@, i as int);
                assert(a@.subrange(i as int, a@.len() as int)[0] == a@[i as int]);
                assert(b@.subrange(i as int, b@.len() as int)[0] == b@[i as int]);
                assert(a@ != b@);
            }
            if a[i] < b[i] {
                return -1;
            } else {
                return 1;
            }
        }
        i = i + 1;
    }
    proof {
        lemma_text_lt_step(a@, b@, i as int);
        lemma_text_lt_step(b@, a@, i as int);
        if a@.len() == b@.len() {
            assert(a@ =~= b@);
            lemma_text_lt_irrefl(a@);
        }
    }
    if a.len() < b.len() {
        assert(a@ != b@);
        -1
    } else if a.len() == b.len() {
        0
    } else {
        assert(a@ != b@);
        1
    }
}

/// Lexicographic order on keys made of two numbers and a text.
pub open spec fn key_lt(a: (int, int, Seq<char>), b: (int, int, Seq<char>)) -> bool {
    a.0 < b.0 || (a.0 == b.0 && (a.1 < b.1 || (a.1 == b.1 && text_lt(a.2, b.2))))
}

/// Lexicographic order on keys made of a text and a number.
pub open spec fn text_key_lt(a: (Seq<char>, int), b: (Seq<char>, int)) -> bool {
    text_lt(a.0, b.0) || (a.0 == b.0 && a.1 < b.1)
}

/// An order that compares items by their `key_lt` keys is a strict weak order.
pub proof fn lemma_key_order<T>(before: spec_fn(T, T) -> bool, key: spec_fn(T) -> (int, int, Seq<char>))
    requires
        forall|a: T, b: T| #[trigger] before(a, b) == key_lt(key(a), key(b)),
    ensures
        strict_weak(before),
{
    assert forall|a: T, b: T, c: T| #[trigger] before(a, b) && #[trigger] before(b, c) implies before(a, c) by {
        let (ka, kb, kc) = (key(a), key(b), key(c));
        if ka.0 == kb.0 && kb.0 == kc.0 && ka.1 == kb.1 && kb.1 == kc.1 {
            lemma_text_lt_trans(ka.2, kb.2, kc.2);
        }
    }
    assert forall|a: T| #[trigger] before(a, a) == false by {
        lemma_text_lt_irrefl(key(a).2);
    }
    assert forall|a: T, b: T, c: T|
        #![trigger before(a, b), before(b, c)]
        before(a, c) implies before(a, b) || before(b, c) by {
        let (ka, kb, kc) = (key(a), key(b), key(c));
        lemma_text_lt_total(ka.2, kb.2);
        lemma_text_lt_total(kb.2, kc.2);
        if text_lt(kb.2, ka.2) && text_lt(kc.2, kb.2) {
            lemma_text_lt_trans(kc.2, kb.2, ka.2);
        }
        if text_lt(kc.2, ka.2) {
            lemma_text_lt_irrefl(ka.2);
            if text_lt(ka.2, kc.2) {
                lemma_text_lt_trans(ka.2, kc.2, ka.2);
            }
        }
        if ka.2 == kb.2 && text_lt(ka.2, kc.2) {
        }
    }
}

/// Lexicographic order on keys made of a number and two texts.
pub open spec fn key2_lt(a: (int, Seq<char>, Seq<char>), b: (int, Seq<char>, Seq<char>)) -> bool {
    a.0 < b.0 || (a.0 == b.0 && (text_lt(a.1, b.1) || (a.1 == b.1 && text_lt(a.2, b.2))))
}

/// `key2_lt` is a strict total order on keys.
pub proof fn lemma_key2_lt(a: (int, Seq<char>, Seq<char>), b: (int, Seq<char>, Seq<char>), c: (int, Seq<char>, Seq<char>))
    ensures
        !key2_lt(a, a),
        key2_lt(a, b) && key2_lt(b, c) ==> key2_lt(a, c),
        a == b || key2_lt(a, b) || key2_lt(b, a),
{
    lemma_text_lt_irrefl(a.1);
    lemma_text_lt_irrefl(a.2);
    lemma_text_lt_total(a.1, b.1);
    lemma_text_lt_total(a.2, b.2);
    if key2_lt(a, b) && key2_lt(b, c) {
        if a.0 == b.0 && b.0 == c.0 {
            if text_lt(a.1, b.1) && text_lt(b.1, c.1) {
                lemma_text_lt_trans(a.1, b.1, c.1);
            }
            if a.1 == b.1 && b.1 == c.1 {
                lemma_text_lt_trans(a.2, b.2, c.2);
            }
        }
    }
    if a.0 == b.0 && a.1 == b.1 && a.2 == b.2 {
        assert(a == b);
    }
}

/// An order that compares items by their `key2_lt` keys is a strict weak order.
pub proof fn lemma_key2_order<T>(before: spec_fn(T, T) -> bool, key: spec_fn(T) -> (int, Seq<char>, Seq<char>))
    requires
        forall|a: T, b: T| #[trigger] before(a, b) == key2_lt(key(a), key(b)),
    ensures
        strict_weak(before),
{
    assert forall|a: T, b: T, c: T| #[trigger] before(a, b) && #[trigger] before(b, c) implies before(a, c) by {
        lemma_key2_lt(key(a), key(b), key(c));
    }
    assert forall|a: T| #[trigger] before(a, a) == false by {
        lemma_key2_lt(key(a), key(a), key(a));
    }
    assert forall|a: T, b: T, c: T|
        #![trigger before(a, b), before(b, c)]
        before(a, c) implies before(a, b) || before(b, c) by {
        lemma_key2_lt(key(a), key(b), key(c));
        lemma_key2_lt(key(b), key(a), key(c));
        lemma_key2_lt(key(c), key(b), key(a));
        lemma_key2_lt(key(b), key(c), key(a));
        lemma_key2_lt(key(a), key(c), key(b));
        lemma_key2_lt(key(c), key(a), key(b));
    }
}

/// An order that compares items by their `text_key_lt` keys is a strict weak order.
pub proof fn lemma_text_key_order<T>(before: spec_fn(T, T) -> bool, key: spec_fn(T) -> (Seq<char>, int))
    requires
        forall|a: T, b: T| #[trigger] before(a, b) == text_key_lt(key(a), key(b)),
    ensures
        strict_weak(before),
{
    assert forall|a: T, b: T, c: T| #[trigger] before(a, b) && #[trigger] before(b, c) implies before(a, c) by {
        let (ka, kb, kc) = (key(a), key(b), key(c));
        if text_lt(ka.0, kb.0) && text_lt(kb.0, kc.0) {
            lemma_text_lt_trans(ka.0, kb.0, kc.0);
        }
    }
    assert forall|a: T| #[trigger] before(a, a) == false by {
        lemma_text_lt_irrefl(key(a).0);
    }
    assert forall|a: T, b: T, c: T|
        #![trigger before(a, b), before(b, c)]
        before(a, c) implies before(a, b) || before(b, c) by {
        let (ka, kb, kc) = (key(a), key(b), key(c));
        lemma_text_lt_total(ka.0, kb.0);
        lemma_text_lt_total(kb.0, kc.0);
        if text_lt(kb.0, ka.0) && text_lt(kc.0, kb.0) {
            lemma_text_lt_trans(kc.0, kb.0, ka.0);
        }
        if text_lt(ka.0, kc.0) && text_lt(kb.0, ka.0) && text_lt(kc.0, kb.0) {
        }
        if text_lt(kc.0, ka.0) && text_lt(ka.0, kc.0) {
            lemma_text_lt_trans(ka.0, kc.0, ka.0);
            lemma_text_lt_irrefl(ka.0);
        }
        if text_lt(ka.0, kc.0) && kb.0 == kc.0 {
        }
        if text_lt(ka.0, kc.0) && text_lt(kb.0, ka.0) {
            if kb.0 == kc.0 {
                lemma_text_lt_trans(kb.0, ka.0, kc.0);
                lemma_text_lt_trans(ka.0, kc.0, ka.0);
                lemma_text_lt_irrefl(ka.0);
            }
        }
    }
}

} // verus!

//! Three-way comparisons as integers (-1, 0, 1) and the laws that make a comparison a
//! strict weak order: built from numbers and texts, chained column after column, reversed
//! for a descending column, and read through a projection, a comparison stays one.
use vstd::prelude::*;
use crate::order::{lemma_text_lt_irrefl, lemma_text_lt_total, lemma_text_lt_trans, text_lt, text_order};
use crate::sorted::strict_weak;

verus! {

/// `c` is a three-way comparison: swapping the arguments negates it, and "not after" is
/// transitive.
pub open spec fn is_comparison<T>(c: spec_fn(T, T) -> int) -> bool {
    &&& forall|a: T, b: T| #[trigger] c(a, b) == -c(b, a)
    &&& forall|a: T, b: T, x: T| #[trigger] c(a, b) <= 0 && #[trigger] c(b, x) <= 0 ==> c(a, x) <= 0
}

/// "Strictly before" under a comparison.
pub open spec fn before_of<T>(c: spec_fn(T, T) -> int) -> spec_fn(T, T) -> bool {
    |a: T, b: T| c(a, b) < 0
}

/// A tie is followed by the second comparison.
pub open spec fn chained<T>(first: spec_fn(T, T) -> int, second: spec_fn(T, T) -> int) -> spec_fn(T, T) -> int {
    |a: T, b: T| if first(a, b) == 0 { second(a, b) } else { first(a, b) }
}

/// The comparison read backwards.
pub open spec fn reversed<T>(c: spec_fn(T, T) -> int) -> spec_fn(T, T) -> int {
    |a: T, b: T| -c(a, b)
}

/// The comparison of what `f` gives.
pub open spec fn projected<T, U>(c: spec_fn(U, U) -> int, f: spec_fn(T) -> U) -> spec_fn(T, T) -> int {
    |a: T, b: T| c(f(a), f(b))
}

/// Numbers compared.
pub open spec fn int_comparison() -> spec_fn(int, int) -> int {
    |a: int, b: int| if a < b { -1int } else if a == b { 0int } else { 1int }
}

/// Texts compared by character code.
pub open spec fn text_comparison() -> spec_fn(Seq<char>, Seq<char>) -> int {
    |a: Seq<char>, b: Seq<char>| text_order(a, b)
}

/// Under a comparison, "strictly before" is a strict weak order.
pub proof fn lemma_comparison_orders<T>(c: spec_fn(T, T) -> int)
    requires
        is_comparison(c),
    ensures
        strict_weak(before_of(c)),
{
    let b = before_of(c);
    assert forall|x: T, y: T, z: T| #[trigger] b(x, y) && #[trigger] b(y, z) implies b(x, z) by {
        assert(c(x, y) <= 0 && c(y, z) <= 0);
        if c(x, z) == 0 {
            assert(c(z, x) == 0);
            assert(c(y, z) <= 0 && c(z, x) <= 0);
            assert(c(y, x) <= 0);
            assert(c(x, y) == -c(y, x));
        }
    }
    assert forall|x: T| !#[trigger] b(x, x) by {
        assert(c(x, x) == -c(x, x));
    }
    assert forall|x: T, y: T, z: T|
        #![trigger b(x, y), b(y, z)]
        b(x, z) implies b(x, y) || b(y, z) by {
        if !b(x, y) && !b(y, z) {
            assert(c(y, x) == -c(x, y));
            assert(c(z, y) == -c(y, z));
            assert(c(z, y) <= 0 && c(y, x) <= 0);
            assert(c(z, x) <= 0);
            assert(c(x, z) == -c(z, x));
        }
    }
}

/// Ties under a comparison are interchangeable: a tie with `b` compares with `x` as `b` does.
proof fn lemma_tie<T>(c: spec_fn(T, T) -> int, a: T, b: T, x: T)
    requires
        is_comparison(c),
        c(a, b) == 0,
    ensures
        c(a, x) <= 0 <==> c(b, x) <= 0,
        c(a, x) < 0 <==> c(b, x) < 0,
{
    assert(c(b, a) == -c(a, b));
    assert(c(x, a) == -c(a, x));
    assert(c(x, b) == -c(b, x));
    if c(b, x) <= 0 {
        assert(c(a, b) <= 0 && c(b, x) <= 0);
    }
    if c(a, x) <= 0 {
        assert(c(b, a) <= 0 && c(a, x) <= 0);
    }
    if c(x, a) <= 0 {
        assert(c(x, a) <= 0 && c(a, b) <= 0);
    }
    if c(x, b) <= 0 {
        assert(c(x, b) <= 0 && c(b, a) <= 0);
    }
}

/// A strict step followed by a non-strict one is strict.
proof fn lemma_strict_then_le<T>(c: spec_fn(T, T) -> int, a: T, b: T, x: T)
    requires
        is_comparison(c),
        c(a, b) < 0,
        c(b, x) <= 0,
    ensures
        c(a, x) < 0,
{
    assert(c(a, b) <= 0 && c(b, x) <= 0);
    if c(a, x) == 0 {
        lemma_tie(c, a, x, b);
        assert(c(x, b) == -c(b, x));
        assert(c(b, a) == -c(a, b));
        assert(c(x, b) <= 0 && c(b, a) <= 0);
    }
}

/// A non-strict step followed by a strict one is strict.
proof fn lemma_le_then_strict<T>(c: spec_fn(T, T) -> int, a: T, b: T, x: T)
    requires
        is_comparison(c),
        c(a, b) <= 0,
        c(b, x) < 0,
    ensures
        c(a, x) < 0,
{
    assert(c(a, b) <= 0 && c(b, x) <= 0);
    if c(a, x) == 0 {
        lemma_tie(c, x, a, b);
        assert(c(x, a) == -c(a, x));
    }
}

/// Chaining two comparisons gives a comparison.
pub proof fn lemma_chained<T>(first: spec_fn(T, T) -> int, second: spec_fn(T, T) -> int)
    requires
        is_comparison(first),
        is_comparison(second),
    ensures
        is_comparison(chained(first, second)),
{
    let c = chained(first, second);
    assert forall|a: T, b: T| #[trigger] c(a, b) == -c(b, a) by {
        assert(first(a, b) == -first(b, a));
        assert(second(a, b) == -second(b, a));
    }
    assert forall|a: T, b: T, x: T| #[trigger] c(a, b) <= 0 && #[trigger] c(b, x) <= 0 implies c(a, x) <= 0 by {
        assert(first(a, b) <= 0);
        assert(first(b, x) <= 0);
        if first(a, b) < 0 {
            lemma_strict_then_le(first, a, b, x);
        } else if first(b, x) < 0 {
            lemma_le_then_strict(first, a, b, x);
        } else {
            lemma_tie(first, a, b, x);
            lemma_tie(first, b, x, a);
            assert(first(x, a) == -first(a, x));
            assert(first(a, x) == 0);
            assert(second(a, b) <= 0 && second(b, x) <= 0);
        }
    }
}

/// Reading a comparison backwards gives a comparison.
pub proof fn lemma_reversed<T>(c: spec_fn(T, T) -> int)
    requires
        is_comparison(c),
    ensures
        is_comparison(reversed(c)),
{
    let r = reversed(c);
    assert forall|a: T, b: T| #[trigger] r(a, b) == -r(b, a) by {
        assert(c(a, b) == -c(b, a));
    }
    assert forall|a: T, b: T, x: T| #[trigger] r(a, b) <= 0 && #[trigger] r(b, x) <= 0 implies r(a, x) <= 0 by {
        assert(c(b, a) == -c(a, b));
        assert(c(x, b) == -c(b, x));
        assert(c(x, b) <= 0 && c(b, a) <= 0);
        assert(c(x, a) == -c(a, x));
    }
}

/// Comparing what a function gives is a comparison.
pub proof fn lemma_projected<T, U>(c: spec_fn(U, U) -> int, f: spec_fn(T) -> U)
    requires
        is_comparison(c),
    ensures
        is_comparison(projected(c, f)),
{
    let p = projected(c, f);
    assert forall|a: T, b: T| #[trigger] p(a, b) == -p(b, a) by {
        assert(c(f(a), f(b)) == -c(f(b), f(a)));
    }
    assert forall|a: T, b: T, x: T| #[trigger] p(a, b) <= 0 && #[trigger] p(b, x) <= 0 implies p(a, x) <= 0 by {
        assert(c(f(a), f(b)) <= 0 && c(f(b), f(x)) <= 0);
    }
}

/// Numbers compared form a comparison.
pub proof fn lemma_int_comparison()
    ensures
        is_comparison(int_comparison()),
{
    let c = int_comparison();
    assert forall|a: int, b: int| #[trigger] c(a, b) == -c(b, a) by {}
    assert forall|a: int, b: int, x: int| #[trigger] c(a, b) <= 0 && #[trigger] c(b, x) <= 0 implies c(a, x) <= 0 by {}
}

/// Texts compared by character code form a comparison.
pub proof fn lemma_text_comparison()
    ensures
        is_comparison(text_comparison()),
{
    let c = text_comparison();
    assert forall|a: Seq<char>, b: Seq<char>| #[trigger] c(a, b) == -c(b, a) by {
        lemma_text_lt_total(a, b);
        lemma_text_lt_irrefl(a);
        if text_lt(a, b) && text_lt(b, a) {
            lemma_text_lt_trans(a, b, a);
        }
    }
    assert forall|a: Seq<char>, b: Seq<char>, x: Seq<char>| #[trigger] c(a, b) <= 0 && #[trigger] c(b, x) <= 0 implies c(a, x) <= 0 by {
        lemma_text_lt_irrefl(a);
        if text_lt(a, b) && text_lt(b, x) {
            lemma_text_lt_trans(a, b, x);
        }
        if text_lt(a, x) {
        } else if a == x {
        } else {
            assert(text_lt(a, b) || a == b);
            assert(text_lt(b, x) || b == x);
        }
    }
}

} // verus!

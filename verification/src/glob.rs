//! Wildcard matching of file names, where `*` stands for any run of characters.
use vstd::prelude::*;
use crate::text::chars_of;

verus! {

/// `s` matches the pattern `p`, in which `*` matches any (possibly empty) run of
/// characters and every other character matches itself.
pub open spec fn glob(s: Seq<char>, p: Seq<char>) -> bool
    decreases p.len(), s.len(),
{
    if p.len() == 0 {
        s.len() == 0
    } else if p[0] == '*' {
        glob(s, p.drop_first()) || (s.len() > 0 && glob(s.drop_first(), p))
    } else {
        s.len() > 0 && s[0] == p[0] && glob(s.drop_first(), p.drop_first())
    }
}

/// Matching of the suffixes `s[i..]` and `p[j..]`.
pub open spec fn glob_suffix(s: Seq<char>, p: Seq<char>, i: int, j: int) -> bool {
    glob(s.subrange(i, s.len() as int), p.subrange(j, p.len() as int))
}

proof fn lemma_glob_step(s: Seq<char>, p: Seq<char>, i: int, j: int)
    requires
        0 <= i <= s.len(),
        0 <= j <= p.len(),
    ensures
        glob_suffix(s, p, i, j) == if j == p.len() {
            i == s.len()
        } else if p[j] == '*' {
            glob_suffix(s, p, i, j + 1) || (i < s.len() && glob_suffix(s, p, i + 1, j))
        } else {
            i < s.len() && s[i] == p[j] && glob_suffix(s, p, i + 1, j + 1)
        },
{
    let ss = s.subrange(i, s.len() as int);
    let pp = p.subrange(j, p.len() as int);
    if j < p.len() {
        assert(pp.drop_first() =~= p.subrange(j + 1, p.len() as int));
    }
    if i < s.len() {
        assert(ss.drop_first() =~= s.subrange(i + 1, s.len() as int));
    }
}

/// Whether a file name matches a wildcard pattern (`*` matches any run of characters).
pub fn glob_matches(file_name: &str, pattern: &str) -> (b: bool)
    ensures
        b == glob(file_name@, pattern@),
{
    let s = chars_of(file_name);
    let p = chars_of(pattern);
    let n = s.len();
    let m = p.len();
    // next[i] == glob_suffix(s, p, i, j + 1) while row j is computed
    let mut next: Vec<bool> = Vec::new();
    let mut i: usize = 0;
    while i < n
        invariant
            i <= n,
            n == s@.len(),
            next@.len() == i,
            forall|k: int| 0 <= k < i ==> next@[k] == (k == n),
        decreases n - i,
    {
        next.push(false);
        i = i + 1;
    }
    next.push(true);
    let len = next.len();
    assert(len == n + 1);
    assert forall|k: int| 0 <= k <= n implies next@[k] == glob_suffix(s@, p@, k, m as int) by {
        lemma_glob_step(s@, p@, k, m as int);
    }
    let mut j: usize = m;
    while j > 0
        invariant
            j <= m,
            n == s@.len(),
            m == p@.len(),
            len == n + 1,
            next@.len() == n + 1,
            forall|k: int| 0 <= k <= n ==> next@[k] == glob_suffix(s@, p@, k, j as int),
        decreases j,
    {
        j = j - 1;
        let pc = p[j];
        // cur[k] for k from n down to 0, built back to front in `rev`
        let mut cur: Vec<bool> = next.clone();
        let mut k: usize = len;
        while k > 0
            invariant
                k <= n + 1,
                j < m,
                n == s@.len(),
                m == p@.len(),
                pc == p@[j as int],
                len == n + 1,
                next@.len() == n + 1,
                cur@.len() == n + 1,
                forall|t: int| 0 <= t <= n ==> next@[t] == glob_suffix(s@, p@, t, j + 1),
                forall|t: int| k <= t <= n ==> cur@[t] == glob_suffix(s@, p@, t, j as int),
            decreases k,
        {
            k = k - 1;
            proof {
                lemma_glob_step(s@, p@, k as int, j as int);
            }
            let value = if pc == '*' {
                next[k] || (k < n && cur[k + 1])
            } else {
                k < n && s[k] == pc && next[k + 1]
            };
            cur.set(k, value);
        }
        next = cur;
    }
    assert(s@.subrange(0, n as int) =~= s@);
    assert(p@.subrange(0, m as int) =~= p@);
    next[0]
}

} // verus!

//! Windows path text: separators, components, file name, extension and parent.
//!
//! Paths are held as text. Both `\` and `/` separate components, as on Windows.
//! A component is a maximal run of non-separator characters, as `Path` reads it: a
//! `.` after the start is no component, and a leading drive such as `C:` is the
//! path's prefix, split from a name glued to it (`C:name`). Two spellings of one
//! path share a canonical spelling, by which a scan identifies its directories.
use vstd::prelude::*;
use crate::text::{
    chars_eq, lower_char, lower_seq, push_all, slice_copy, starts_with, starts_with_chars, str_eq, to_lower,
    to_lower_char,
};

verus! {

pub open spec fn is_sep(c: char) -> bool {
    c == '\\' || c == '/'
}

/// Separators become `\` and ASCII letters become lowercase.
pub open spec fn norm_char(c: char) -> char {
    lower_char(if c == '/' { '\\' } else { c })
}

/// The normalized form used for matching: `/` replaced by `\`, ASCII lowercase.
pub open spec fn normalize(s: Seq<char>) -> Seq<char> {
    s.map_values(|c: char| norm_char(c))
}

/// Start of the run of non-separators that ends at `j`.
pub open spec fn run_start(s: Seq<char>, j: int) -> int
    decreases j,
{
    if j <= 0 || is_sep(s[j - 1]) {
        if j <= 0 { 0 } else { j }
    } else {
        run_start(s, j - 1)
    }
}

/// The run of non-separators `s[i..]` is a `.` that is not at the start: a `.` component
/// that `Path` leaves out.
pub open spec fn is_inner_dot(s: Seq<char>, i: int) -> bool {
    i > 0 && s.len() == i + 1 && s[i] == '.'
}

/// The run of non-separators `s[0..]` is a drive prefix with a name glued to it (`C:name`),
/// two components for `Path`.
pub open spec fn is_glued_drive(s: Seq<char>, i: int) -> bool {
    i == 0 && s.len() > 2 && s[1] == ':'
}

/// The components of a path as `(start, end)` ranges, in order, as `Path` reads them: the
/// runs of non-separators, without `.` runs after the start, with a drive prefix glued to
/// a name split from it.
pub open spec fn runs(s: Seq<char>) -> Seq<(int, int)>
    decreases s.len(),
{
    if s.len() == 0 {
        Seq::empty()
    } else if is_sep(s.last()) {
        runs(s.drop_last())
    } else {
        let i = run_start(s, s.len() as int);
        if 0 <= i < s.len() {
            if is_inner_dot(s, i) {
                runs(s.subrange(0, i))
            } else if is_glued_drive(s, i) {
                seq![(0int, 2int), (2int, s.len() as int)]
            } else {
                runs(s.subrange(0, i)).push((i, s.len() as int))
            }
        } else {
            Seq::empty()
        }
    }
}

/// The text of the `k`-th component.
pub open spec fn component(s: Seq<char>, k: int) -> Seq<char> {
    s.subrange(runs(s)[k].0, runs(s)[k].1)
}

/// Some component of `s`, lowercased, is one of `names`.
pub open spec fn has_component_in(s: Seq<char>, names: Seq<Seq<char>>) -> bool {
    exists|k: int| 0 <= k < runs(s).len() && names.contains(lower_seq(#[trigger] component(s, k)))
}

/// Component `k` is a drive prefix such as `C:`.
pub open spec fn is_drive_run(s: Seq<char>, k: int) -> bool {
    &&& k == 0
    &&& runs(s).len() > 0
    &&& runs(s)[0].0 == 0
    &&& runs(s)[0].1 == 2
    &&& s[1] == ':'
}

/// The last component, unless the path has none, ends in a drive prefix, or ends in `..`.
pub open spec fn file_name(s: Seq<char>) -> Option<Seq<char>> {
    let n = runs(s).len();
    if n == 0 || is_drive_run(s, n - 1) || component(s, n - 1) == seq!['.', '.'] || component(s, n - 1)
        == seq!['.'] {
        None
    } else {
        Some(component(s, n - 1))
    }
}

/// Position of the last `.` in `name` other than at position 0.
pub open spec fn last_dot(name: Seq<char>) -> int
    decreases name.len(),
{
    if name.len() <= 1 {
        -1
    } else if name.last() == '.' {
        name.len() - 1
    } else {
        last_dot(name.drop_last())
    }
}

/// The text after the last dot of a file name (a leading dot does not count).
pub open spec fn name_extension(name: Seq<char>) -> Option<Seq<char>> {
    let d = last_dot(name);
    if d >= 1 {
        Some(name.subrange(d + 1, name.len() as int))
    } else {
        None
    }
}

/// The file name without its extension.
pub open spec fn name_stem(name: Seq<char>) -> Seq<char> {
    let d = last_dot(name);
    if d >= 1 {
        name.subrange(0, d)
    } else {
        name
    }
}

/// The extension of a path's file name.
pub open spec fn extension(s: Seq<char>) -> Option<Seq<char>> {
    match file_name(s) {
        Some(name) => name_extension(name),
        None => None,
    }
}

/// The path without its last component (`None` for an empty path or a bare prefix).
///
/// A root separator after a drive prefix stays: the parent of `C:\a` is `C:\`.
pub open spec fn parent(s: Seq<char>) -> Option<Seq<char>> {
    let r = runs(s);
    let n = r.len();
    if n == 0 || is_drive_run(s, n - 1) {
        None
    } else if n == 1 {
        Some(s.subrange(0, if r[0].0 > 0 { 1int } else { 0int }))
    } else if is_drive_run(s, n - 2) {
        Some(s.subrange(0, if r[1].0 > 2 { 3int } else { 2int }))
    } else {
        Some(s.subrange(0, r[n - 2].1))
    }
}

/// Component-level prefix test on normalized text: `c:\windows` matches
/// `c:\windows\temp` but not `c:\windows.old`.
pub open spec fn spec_path_matches_prefix(normalized: Seq<char>, prefix: Seq<char>) -> bool {
    normalized == prefix || (starts_with(normalized, prefix) && normalized.len() > prefix.len()
        && normalized[prefix.len() as int] == '\\')
}

pub fn is_separator(c: char) -> (b: bool)
    ensures
        b == is_sep(c),
{
    c == '\\' || c == '/'
}

/// The normalized form of a path.
pub fn normalize_chars(v: &[char]) -> (r: Vec<char>)
    ensures
        r@ == normalize(v@),
{
    let mut r: Vec<char> = Vec::new();
    let mut i: usize = 0;
    while i < v.len()
        invariant
            i <= v@.len(),
            r@ == normalize(v@.subrange(0, i as int)),
        decreases v.len() - i,
    {
        let c = v[i];
        let d = if c == '/' {
            '\\'
        } else {
            c
        };
        r.push(to_lower_char(d));
        i = i + 1;
        assert(r@ =~= normalize(v@.subrange(0, i as int)));
    }
    assert(v@.subrange(0, v@.len() as int) =~= v@);
    r
}

/// The text by which paths are put in order: each separator becomes the smallest character.
/// Paths then order component by component, a component before any longer one that starts
/// with it (`C:\a\z` before `C:\a-b`), as `Path` orders paths written without repeated
/// separators or `.` components.
pub open spec fn path_order_text(s: Seq<char>) -> Seq<char> {
    s.map_values(|c: char| if is_sep(c) { '\0' } else { c })
}

/// The text by which a path is put in order.
pub fn path_order_chars(v: &[char]) -> (r: Vec<char>)
    ensures
        r@ == path_order_text(v@),
{
    let mut r: Vec<char> = Vec::new();
    let mut i: usize = 0;
    while i < v.len()
        invariant
            i <= v@.len(),
            r@ == path_order_text(v@.subrange(0, i as int)),
        decreases v.len() - i,
    {
        let c = v[i];
        r.push(if c == '\\' || c == '/' { '\0' } else { c });
        i = i + 1;
        assert(r@ =~= path_order_text(v@.subrange(0, i as int)));
    }
    assert(v@.subrange(0, v@.len() as int) =~= v@);
    r
}

/// Whether `normalized` equals `prefix` or continues it with a `\`.
pub fn path_matches_prefix_chars(normalized: &[char], prefix: &[char]) -> (b: bool)
    ensures
        b == spec_path_matches_prefix(normalized@, prefix@),
{
    if chars_eq(normalized, prefix) {
        return true;
    }
    starts_with_chars(normalized, prefix) && normalized.len() > prefix.len()
        && normalized[prefix.len()] == '\\'
}

proof fn lemma_run_start_bounds(s: Seq<char>, j: int)
    requires
        0 <= j <= s.len(),
    ensures
        0 <= run_start(s, j) <= j,
        run_start(s, j) == 0 || is_sep(s[run_start(s, j) - 1]),
        forall|k: int| run_start(s, j) <= k < j ==> !is_sep(s[k]),
    decreases j,
{
    if j <= 0 || is_sep(s[j - 1]) {
    } else {
        lemma_run_start_bounds(s, j - 1);
    }
}

/// `run_start` only looks at the characters before `j`.
proof fn lemma_run_start_prefix(s: Seq<char>, t: Seq<char>, j: int)
    requires
        0 <= j <= t.len() <= s.len(),
        t == s.subrange(0, t.len() as int),
    ensures
        run_start(s, j) == run_start(t, j),
    decreases j,
{
    if j <= 0 {
    } else {
        assert(t[j - 1] == s[j - 1]);
        if !is_sep(s[j - 1]) {
            lemma_run_start_prefix(s, t, j - 1);
        }
    }
}

/// A run that starts after a separator (or at 0) and stops before one ends at `run_start`.
proof fn lemma_run_start_of_run(s: Seq<char>, start: int, j: int)
    requires
        0 <= start <= j <= s.len(),
        start == 0 || is_sep(s[start - 1]),
        forall|k: int| start <= k < j ==> !is_sep(s[k]),
    ensures
        run_start(s, j) == start,
    decreases j - start,
{
    if j == start {
    } else {
        lemma_run_start_of_run(s, start, j - 1);
    }
}

/// All ranges of `runs` lie inside the text, in order, each ending before the next starts
/// except where a glued drive prefix ends where its name starts.
pub proof fn lemma_runs_bounds(s: Seq<char>)
    ensures
        forall|k: int|
            0 <= k < runs(s).len() ==> 0 <= (#[trigger] runs(s)[k]).0 < runs(s)[k].1 <= s.len(),
        forall|k: int, l: int|
            0 <= k < l < runs(s).len() ==> runs(s)[k].1 <= runs(s)[l].0,
        forall|k: int, l: int|
            0 <= k < l < runs(s).len() && runs(s)[k].1 == runs(s)[l].0 ==> k == 0 && l == 1
                && runs(s)[0] == (0int, 2int) && s[1] == ':',
    decreases s.len(),
{
    if s.len() == 0 {
    } else if is_sep(s.last()) {
        let u = s.drop_last();
        assert(runs(s) == runs(u));
        lemma_runs_bounds(u);
    } else {
        let i = run_start(s, s.len() as int);
        lemma_run_start_bounds(s, s.len() as int);
        if 0 <= i < s.len() {
            let t = s.subrange(0, i);
            if is_inner_dot(s, i) {
                assert(runs(s) == runs(t));
                lemma_runs_bounds(t);
                assert forall|k: int, l: int| 0 <= k < l < runs(s).len() && runs(s)[k].1 == runs(s)[l].0
                    implies k == 0 && l == 1 && runs(s)[0] == (0int, 2int) && s[1] == ':' by {
                    assert(t[1] == s[1]);
                }
            } else if is_glued_drive(s, i) {
            } else {
                assert(runs(s) == runs(t).push((i, s.len() as int)));
                lemma_runs_bounds(t);
                if i > 0 && runs(t).len() > 0 {
                    assert(t.last() == s[i - 1]);
                    lemma_runs_last_end(t);
                    assert(runs(t)[runs(t).len() - 1].1 < i);
                }
                assert forall|k: int, l: int| 0 <= k < l < runs(s).len() implies runs(s)[k].1 <= runs(s)[l].0 by {
                    if l == runs(s).len() - 1 {
                        assert(runs(t)[k].1 <= runs(t)[runs(t).len() - 1].1);
                    }
                }
                assert forall|k: int, l: int| 0 <= k < l < runs(s).len() && runs(s)[k].1 == runs(s)[l].0
                    implies k == 0 && l == 1 && runs(s)[0] == (0int, 2int) && s[1] == ':' by {
                    if l == runs(s).len() - 1 {
                        assert(runs(t)[k].1 <= runs(t)[runs(t).len() - 1].1);
                    } else {
                        assert(t[1] == s[1]);
                    }
                }
            }
        } else {
            assert(runs(s).len() == 0);
        }
    }
}

/// When a text ends with a separator, its last run ends before it.
proof fn lemma_runs_last_end(t: Seq<char>)
    requires
        t.len() > 0,
        is_sep(t.last()),
        runs(t).len() > 0,
    ensures
        runs(t).last().1 < t.len(),
    decreases t.len(),
{
    let u = t.drop_last();
    assert(runs(t) == runs(u));
    lemma_runs_bounds(u);
    let k = runs(u).len() - 1;
    assert(runs(u)[k].1 <= u.len());
}

/// Component ranges of a path, in order.
pub fn component_ranges(v: &[char]) -> (r: Vec<(usize, usize)>)
    ensures
        r@.len() == runs(v@).len(),
        forall|k: int|
            0 <= k < r@.len() ==> (#[trigger] r@[k]).0 as int == runs(v@)[k].0 && r@[k].1 as int
                == runs(v@)[k].1,
{
    let mut r: Vec<(usize, usize)> = Vec::new();
    let mut i: usize = 0;
    let n = v.len();
    while i < n
        invariant
            n == v@.len(),
            i <= n,
            i == 0 || is_sep(v@[i - 1]),
            r@.len() == runs(v@.subrange(0, i as int)).len(),
            forall|k: int|
                0 <= k < r@.len() ==> (#[trigger] r@[k]).0 as int == runs(
                    v@.subrange(0, i as int),
                )[k].0 && r@[k].1 as int == runs(v@.subrange(0, i as int))[k].1,
        decreases n - i,
    {
        if is_separator(v[i]) {
            let ghost t = v@.subrange(0, i + 1);
            assert(t.drop_last() =~= v@.subrange(0, i as int));
            i = i + 1;
        } else {
            let start = i;
            while i < n && !is_separator(v[i])
                invariant
                    n == v@.len(),
                    start < n,
                    start <= i <= n,
                    forall|k: int| start <= k < i ==> !is_sep(v@[k]),
                decreases n - i,
            {
                i = i + 1;
            }
            // v[start..i] is a run
            let ghost t = v@.subrange(0, i as int);
            let ghost p = v@.subrange(0, start as int);
            proof {
                assert(i > start);
                assert(!is_sep(t.last()));
                lemma_run_start_of_run(t, start as int, i as int);
                assert(t.subrange(0, start as int) =~= p);
            }
            if start > 0 && i == start + 1 && v[start] == '.' {
                assert(is_inner_dot(t, start as int));
                assert(runs(t) == runs(p));
            } else if start == 0 && i > 2 && v[1] == ':' {
                assert(is_glued_drive(t, start as int));
                assert(runs(t) == seq![(0int, 2int), (2int, i as int)]);
                assert(p.len() == 0);
                assert(r@.len() == 0);
                r.push((0, 2));
                r.push((2, i));
            } else {
                assert(!is_inner_dot(t, start as int) && !is_glued_drive(t, start as int));
                assert(runs(t) == runs(p).push((start as int, i as int)));
                r.push((start, i));
            }
            if i < n {
                // skip the separator that ends the run
                let ghost t2 = v@.subrange(0, i + 1);
                assert(t2.drop_last() =~= t);
                i = i + 1;
            } else {
                proof {
                    assert(runs(v@.subrange(0, i as int)) == runs(t));
                }
                assert(r@.len() == runs(v@.subrange(0, i as int)).len());
                assert(v@.subrange(0, n as int) =~= v@);
                return r;
            }
        }
    }
    assert(v@.subrange(0, n as int) =~= v@);
    r
}

/// The texts of a list of literals.
pub open spec fn lits(names: Seq<&str>) -> Seq<Seq<char>> {
    names.map_values(|n: &str| n@)
}

/// Whether `x` is one of the literals.
pub fn in_lits(names: &[&str], x: &[char]) -> (b: bool)
    ensures
        b == lits(names@).contains(x@),
{
    let mut i: usize = 0;
    while i < names.len()
        invariant
            i <= names@.len(),
            forall|k: int| 0 <= k < i ==> names@[k]@ != x@,
        decreases names.len() - i,
    {
        if str_eq(x, names[i]) {
            assert(lits(names@)[i as int] == x@);
            return true;
        }
        i = i + 1;
    }
    assert forall|k: int| 0 <= k < lits(names@).len() implies lits(names@)[k] != x@ by {
        assert(lits(names@)[k] == names@[k]@);
    }
    false
}

/// The first component whose lowercase text is one of `names`, as its index and that text.
pub fn first_component_in(v: &[char], names: &[&str]) -> (r: Option<(usize, Vec<char>)>)
    ensures
        r matches Some((k, t)) ==> 0 <= k < runs(v@).len() && t@ == lower_seq(component(v@, k as int))
            && lits(names@).contains(t@) && forall|j: int|
            0 <= j < k ==> !lits(names@).contains(lower_seq(#[trigger] component(v@, j))),
        r is None ==> !has_component_in(v@, lits(names@)),
{
    let ranges = component_ranges(v);
    proof {
        lemma_runs_bounds(v@);
    }
    let mut k: usize = 0;
    while k < ranges.len()
        invariant
            ranges@.len() == runs(v@).len(),
            forall|j: int|
                0 <= j < ranges@.len() ==> (#[trigger] ranges@[j]).0 as int == runs(v@)[j].0
                    && ranges@[j].1 as int == runs(v@)[j].1,
            forall|j: int|
                0 <= j < runs(v@).len() ==> 0 <= (#[trigger] runs(v@)[j]).0 < runs(v@)[j].1
                    <= v@.len(),
            k <= ranges@.len(),
            forall|j: int|
                0 <= j < k ==> !lits(names@).contains(lower_seq(#[trigger] component(v@, j))),
        decreases ranges.len() - k,
    {
        let (a, b) = ranges[k];
        assert(runs(v@)[k as int].0 == a && runs(v@)[k as int].1 == b);
        let piece = slice_copy(v, a, b);
        let low = to_lower(piece.as_slice());
        assert(piece@ == component(v@, k as int));
        if in_lits(names, low.as_slice()) {
            return Some((k, low));
        }
        k = k + 1;
    }
    None
}

/// Whether some component, lowercased, is one of `names`.
pub fn has_component_in_exec(v: &[char], names: &[&str]) -> (b: bool)
    ensures
        b == has_component_in(v@, lits(names@)),
{
    first_component_in(v, names).is_some()
}

proof fn lemma_last_dot_bounds(name: Seq<char>)
    ensures
        -1 <= last_dot(name) < name.len(),
        last_dot(name) != 0,
        last_dot(name) >= 1 ==> name[last_dot(name)] == '.',
    decreases name.len(),
{
    if name.len() <= 1 {
    } else if name.last() == '.' {
    } else {
        lemma_last_dot_bounds(name.drop_last());
    }
}

/// Position of the last dot after position 0, or -1 (as `None`).
fn last_dot_exec(name: &[char]) -> (r: Option<usize>)
    ensures
        r matches Some(d) ==> d as int == last_dot(name@),
        r is None ==> last_dot(name@) == -1,
{
    let mut j: usize = name.len();
    assert(name@.subrange(0, j as int) =~= name@);
    while j > 1
        invariant
            j <= name@.len(),
            last_dot(name@) == last_dot(name@.subrange(0, j as int)),
        decreases j,
    {
        if name[j - 1] == '.' {
            assert(name@.subrange(0, j as int).last() == '.');
            return Some(j - 1);
        }
        assert(name@.subrange(0, j as int).drop_last() =~= name@.subrange(0, j - 1));
        j = j - 1;
    }
    None
}

/// The extension of a file name (text after the last dot, not counting a leading dot).
pub fn name_extension_chars(name: &[char]) -> (r: Option<Vec<char>>)
    ensures
        r matches Some(e) ==> name_extension(name@) == Some(e@),
        r is None ==> name_extension(name@) is None,
{
    proof {
        assert(name@.subrange(0, name@.len() as int) =~= name@);
        lemma_last_dot_bounds(name@);
    }
    let len = name.len();
    match last_dot_exec(name) {
        Some(d) => {
            assert(d < len);
            Some(slice_copy(name, d + 1, len))
        },
        None => None,
    }
}

/// The file name without its extension.
pub fn name_stem_chars(name: &[char]) -> (r: Vec<char>)
    ensures
        r@ == name_stem(name@),
{
    proof {
        assert(name@.subrange(0, name@.len() as int) =~= name@);
        lemma_last_dot_bounds(name@);
    }
    match last_dot_exec(name) {
        Some(d) => slice_copy(name, 0, d),
        None => slice_copy(name, 0, name.len()),
    }
}

/// The file name of a path.
pub fn file_name_chars(v: &[char]) -> (r: Option<Vec<char>>)
    ensures
        r matches Some(t) ==> file_name(v@) == Some(t@),
        r is None ==> file_name(v@) is None,
{
    let ranges = component_ranges(v);
    proof {
        lemma_runs_bounds(v@);
    }
    let n = ranges.len();
    if n == 0 {
        return None;
    }
    let (a, b) = ranges[n - 1];
    assert(runs(v@)[n - 1].0 == a && runs(v@)[n - 1].1 == b);
    if n == 1 && a == 0 && b == 2 && v[1] == ':' {
        return None;
    }
    assert(!is_drive_run(v@, n - 1));
    let t = slice_copy(v, a, b);
    if t.len() == 2 && t[0] == '.' && t[1] == '.' {
        assert(t@ =~= seq!['.', '.']);
        return None;
    }
    if t.len() == 1 && t[0] == '.' {
        assert(t@ =~= seq!['.']);
        return None;
    }
    assert(t@ != seq!['.', '.']);
    assert(t@ != seq!['.']);
    Some(t)
}

/// The extension of a path's file name.
pub fn extension_chars(v: &[char]) -> (r: Option<Vec<char>>)
    ensures
        r matches Some(e) ==> extension(v@) == Some(e@),
        r is None ==> extension(v@) is None,
{
    match file_name_chars(v) {
        Some(name) => name_extension_chars(name.as_slice()),
        None => None,
    }
}

/// The parent of a path.
pub fn parent_chars(v: &[char]) -> (r: Option<Vec<char>>)
    ensures
        r matches Some(p) ==> parent(v@) == Some(p@),
        r is None ==> parent(v@) is None,
{
    let ranges = component_ranges(v);
    proof {
        lemma_runs_bounds(v@);
    }
    let n = ranges.len();
    if n == 0 {
        return None;
    }
    let (a, b) = ranges[n - 1];
    assert(runs(v@)[n - 1].0 == a && runs(v@)[n - 1].1 == b);
    if n == 1 && a == 0 && b == 2 && v[1] == ':' {
        return None;
    }
    assert(!is_drive_run(v@, n - 1));
    if n == 1 {
        let end: usize = if a > 0 {
            1
        } else {
            0
        };
        return Some(slice_copy(v, 0, end));
    }
    let (a0, b0) = ranges[n - 2];
    assert(runs(v@)[n - 2].0 == a0 && runs(v@)[n - 2].1 == b0);
    if n == 2 && a0 == 0 && b0 == 2 && v[1] == ':' {
        assert(is_drive_run(v@, n - 2));
        let end: usize = if a > 2 {
            3
        } else {
            2
        };
        return Some(slice_copy(v, 0, end));
    }
    assert(!is_drive_run(v@, n - 2));
    Some(slice_copy(v, 0, b0))
}

/// The component texts of a path.
pub open spec fn comps(s: Seq<char>) -> Seq<Seq<char>> {
    Seq::new(runs(s).len(), |k: int| component(s, k))
}

/// Component-wise prefix test: every component of `base` is the matching component of `path`.
pub open spec fn path_starts_with(path: Seq<char>, base: Seq<char>) -> bool {
    comps(base).len() <= comps(path).len() && forall|k: int|
        0 <= k < comps(base).len() ==> comps(path)[k] == comps(base)[k]
}

/// The component texts of a path.
pub fn components_of(v: &[char]) -> (r: Vec<Vec<char>>)
    ensures
        r@.len() == comps(v@).len(),
        forall|k: int| 0 <= k < r@.len() ==> (#[trigger] r@[k])@ == comps(v@)[k],
{
    let ranges = component_ranges(v);
    proof {
        lemma_runs_bounds(v@);
    }
    let mut r: Vec<Vec<char>> = Vec::new();
    let mut k: usize = 0;
    while k < ranges.len()
        invariant
            ranges@.len() == runs(v@).len(),
            forall|j: int|
                0 <= j < ranges@.len() ==> (#[trigger] ranges@[j]).0 as int == runs(v@)[j].0
                    && ranges@[j].1 as int == runs(v@)[j].1,
            forall|j: int|
                0 <= j < runs(v@).len() ==> 0 <= (#[trigger] runs(v@)[j]).0 < runs(v@)[j].1
                    <= v@.len(),
            k <= ranges@.len(),
            r@.len() == k,
            forall|j: int| 0 <= j < k ==> (#[trigger] r@[j])@ == comps(v@)[j],
        decreases ranges.len() - k,
    {
        let (a, b) = ranges[k];
        assert(runs(v@)[k as int].0 == a && runs(v@)[k as int].1 == b);
        r.push(slice_copy(v, a, b));
        k = k + 1;
    }
    r
}

/// Whether `path` starts with the components of `base`.
pub fn path_starts_with_chars(path: &[char], base: &[char]) -> (b: bool)
    ensures
        b == path_starts_with(path@, base@),
{
    let pc = components_of(path);
    let bc = components_of(base);
    if bc.len() > pc.len() {
        return false;
    }
    let mut k: usize = 0;
    while k < bc.len()
        invariant
            bc@.len() <= pc@.len(),
            bc@.len() == comps(base@).len(),
            pc@.len() == comps(path@).len(),
            forall|j: int| 0 <= j < pc@.len() ==> (#[trigger] pc@[j])@ == comps(path@)[j],
            forall|j: int| 0 <= j < bc@.len() ==> (#[trigger] bc@[j])@ == comps(base@)[j],
            k <= bc@.len(),
            forall|j: int| 0 <= j < k ==> comps(path@)[j] == comps(base@)[j],
        decreases bc.len() - k,
    {
        assert(pc@[k as int]@ == comps(path@)[k as int]);
        assert(bc@[k as int]@ == comps(base@)[k as int]);
        if !chars_eq(pc[k].as_slice(), bc[k].as_slice()) {
            return false;
        }
        k = k + 1;
    }
    true
}

/// Cutting a text just before a separator keeps a prefix of its components.
proof fn lemma_runs_prefix(s: Seq<char>, e: int)
    requires
        0 <= e <= s.len(),
        e == s.len() || is_sep(s[e]),
    ensures
        runs(s.subrange(0, e)).len() <= runs(s).len(),
        runs(s.subrange(0, e)) == runs(s).take(runs(s.subrange(0, e)).len() as int),
    decreases s.len(),
{
    if e == s.len() {
        assert(s.subrange(0, e) =~= s);
    } else if is_sep(s.last()) {
        let u = s.drop_last();
        assert(runs(s) == runs(u));
        assert(u.subrange(0, e) =~= s.subrange(0, e));
        if e < u.len() {
            assert(u[e] == s[e]);
        }
        lemma_runs_prefix(u, e);
    } else {
        let i = run_start(s, s.len() as int);
        lemma_run_start_bounds(s, s.len() as int);
        // the separator at `e` lies before the last run
        assert(e < i);
        let t = s.subrange(0, i);
        assert(t.subrange(0, e) =~= s.subrange(0, e));
        assert(t[e] == s[e]);
        lemma_runs_prefix(t, e);
        let m = runs(s.subrange(0, e)).len() as int;
        if is_inner_dot(s, i) {
            assert(runs(s) == runs(t));
        } else {
            assert(!is_glued_drive(s, i));
            assert(runs(s) == runs(t).push((i, s.len() as int)));
            assert(runs(s).take(m) =~= runs(t).take(m));
        }
    }
}

/// Every component is followed by a separator or the end of the text, except a drive
/// prefix glued to a name.
proof fn lemma_run_end_sep(s: Seq<char>, k: int)
    requires
        0 <= k < runs(s).len(),
        runs(s)[k].1 < s.len(),
    ensures
        is_sep(s[runs(s)[k].1]) || (k == 0 && runs(s)[0] == (0int, 2int) && s[1] == ':' && runs(s).len() > 1
            && runs(s)[1].0 == 2),
    decreases s.len(),
{
    if is_sep(s.last()) {
        let u = s.drop_last();
        assert(runs(s) == runs(u));
        lemma_runs_bounds(u);
        if runs(u)[k].1 < u.len() {
            lemma_run_end_sep(u, k);
            assert(u[runs(u)[k].1] == s[runs(s)[k].1]);
            assert(u[1] == s[1]);
        } else {
            assert(runs(s)[k].1 == s.len() - 1);
        }
    } else {
        let i = run_start(s, s.len() as int);
        lemma_run_start_bounds(s, s.len() as int);
        let t = s.subrange(0, i);
        if 0 <= i < s.len() {
            if is_glued_drive(s, i) {
            } else {
                if is_inner_dot(s, i) {
                    assert(runs(s) == runs(t));
                } else {
                    assert(runs(s) == runs(t).push((i, s.len() as int)));
                }
                if k < runs(t).len() {
                    lemma_runs_bounds(t);
                    if runs(t)[k].1 < t.len() {
                        lemma_run_end_sep(t, k);
                        assert(t[runs(t)[k].1] == s[runs(s)[k].1]);
                        assert(t[1] == s[1]);
                        if runs(t).len() > 1 {
                            assert(runs(s)[1] == runs(t)[1]);
                        }
                    } else {
                        assert(runs(t)[k].0 < runs(t)[k].1);
                        assert(i > 0);
                        assert(t.last() == s[i - 1]);
                        lemma_runs_last_end(t);
                        assert(runs(t)[k].1 <= runs(t).last().1);
                    }
                } else {
                    assert(runs(s)[k] == (i, s.len() as int));
                }
            }
        }
    }
}

/// The characters of a component are not separators.
proof fn lemma_runs_inside(s: Seq<char>)
    ensures
        forall|k: int, j: int|
            0 <= k < runs(s).len() && (#[trigger] runs(s)[k]).0 <= j < runs(s)[k].1 ==> !is_sep(#[trigger] s[j]),
    decreases s.len(),
{
    if s.len() == 0 {
    } else if is_sep(s.last()) {
        let u = s.drop_last();
        assert(runs(s) == runs(u));
        lemma_runs_inside(u);
        lemma_runs_bounds(u);
        assert forall|k: int, j: int| 0 <= k < runs(s).len() && (#[trigger] runs(s)[k]).0 <= j < runs(s)[k].1 implies !is_sep(#[trigger] s[j]) by {
            assert(u[j] == s[j]);
        }
    } else {
        let i = run_start(s, s.len() as int);
        lemma_run_start_bounds(s, s.len() as int);
        if 0 <= i < s.len() {
            let t = s.subrange(0, i);
            lemma_runs_inside(t);
            lemma_runs_bounds(t);
            if is_inner_dot(s, i) {
                assert(runs(s) == runs(t));
                assert forall|k: int, j: int| 0 <= k < runs(s).len() && (#[trigger] runs(s)[k]).0 <= j < runs(s)[k].1 implies !is_sep(#[trigger] s[j]) by {
                    assert(t[j] == s[j]);
                }
            } else if is_glued_drive(s, i) {
            } else {
                assert(runs(s) == runs(t).push((i, s.len() as int)));
                assert forall|k: int, j: int| 0 <= k < runs(s).len() && (#[trigger] runs(s)[k]).0 <= j < runs(s)[k].1 implies !is_sep(#[trigger] s[j]) by {
                    if k < runs(t).len() {
                        assert(t[j] == s[j]);
                    }
                }
            }
        }
    }
}

/// A text whose components do not start at its first character starts with a separator.
proof fn lemma_before_first_run(s: Seq<char>)
    requires
        s.len() > 0,
        runs(s).len() == 0 || runs(s)[0].0 > 0,
    ensures
        is_sep(s[0]),
    decreases s.len(),
{
    if is_sep(s.last()) {
        let u = s.drop_last();
        assert(runs(s) == runs(u));
        if u.len() > 0 {
            lemma_before_first_run(u);
        }
    } else {
        let i = run_start(s, s.len() as int);
        lemma_run_start_bounds(s, s.len() as int);
        if 0 <= i < s.len() {
            let t = s.subrange(0, i);
            if is_inner_dot(s, i) {
                assert(runs(s) == runs(t));
                lemma_before_first_run(t);
            } else if is_glued_drive(s, i) {
            } else {
                assert(runs(s) == runs(t).push((i, s.len() as int)));
                if runs(t).len() == 0 {
                    assert(runs(s)[0].0 == i);
                } else {
                    assert(runs(s)[0] == runs(t)[0]);
                }
                assert(i > 0);
                lemma_before_first_run(t);
            }
        } else {
            assert(i == s.len());
        }
    }
}

/// A parent is shorter than its child and has fewer components.
pub proof fn lemma_parent_shorter(s: Seq<char>)
    requires
        parent(s) is Some,
    ensures
        parent(s)->0.len() < s.len(),
        comps(parent(s)->0).len() < comps(s).len(),
{
    lemma_runs_bounds(s);
    let r = runs(s);
    let n = r.len();
    let q = parent(s)->0;
    if n == 1 {
        if r[0].0 > 0 {
            lemma_before_first_run(s);
            assert(q.drop_last() =~= Seq::<char>::empty());
            assert(runs(q) == runs(q.drop_last()));
        } else {
            assert(q =~= Seq::<char>::empty());
        }
    } else if is_drive_run(s, n - 2) {
        let p2 = s.subrange(0, 2);
        assert(p2[1] == ':');
        let p0 = p2.subrange(0, 0);
        assert(p0.len() == 0);
        assert(runs(p0) == Seq::<(int, int)>::empty());
        assert(runs(p2) =~= seq![(0int, 2int)]) by {
            assert(!is_sep(p2.last()));
            assert(!is_sep(p2[0]) && !is_sep(p2[1])) by {
                lemma_runs_inside(s);
                assert(p2[0] == s[0] && p2[1] == s[1]);
                assert(!is_sep(s[0]) && !is_sep(s[1]));
            }
            lemma_run_start_of_run(p2, 0, 2);
            assert(p2.subrange(0, 0) =~= Seq::<char>::empty());
        }
        if r[1].0 > 2 {
            lemma_run_end_sep(s, 0);
            assert(q.drop_last() =~= p2);
            assert(runs(q) == runs(q.drop_last()));
        } else {
            assert(q =~= p2);
        }
    } else {
        let e = r[n - 2].1;
        lemma_run_end_sep(s, n - 2);
        lemma_runs_prefix(s, e);
        lemma_runs_bounds(q);
        let m = runs(q).len() as int;
        if m == n {
            assert(runs(q)[n - 1] == r[n - 1]);
        }
    }
}

/// The number of separators a path starts with.
pub open spec fn lead_len(s: Seq<char>) -> nat
    decreases s.len(),
{
    if s.len() > 0 && is_sep(s[0]) {
        1 + lead_len(s.drop_first())
    } else {
        0
    }
}

/// The separator written after component `k` in the canonical spelling: between two
/// components that a separator parts, and after a drive prefix with a root.
pub open spec fn sep_after(s: Seq<char>, k: int) -> Seq<char> {
    let r = runs(s);
    if k + 1 < r.len() {
        if r[k].1 < r[k + 1].0 {
            seq!['\\']
        } else {
            Seq::empty()
        }
    } else if k == 0 && is_drive_run(s, 0) && s.len() > 2 && is_sep(s[2]) {
        seq!['\\']
    } else {
        Seq::empty()
    }
}

/// The canonical spelling of the components from `k` on.
pub open spec fn canon_from(s: Seq<char>, k: int) -> Seq<char>
    decreases runs(s).len() - k,
{
    if k < 0 || k >= runs(s).len() {
        Seq::empty()
    } else {
        component(s, k) + sep_after(s, k) + canon_from(s, k + 1)
    }
}

/// The canonical spelling of a path: its leading separators, then its components (a `.`
/// after the start left out, repeated and trailing separators dropped) parted by `\`.
/// Two spellings of one path, such as `C:\a\b`, `C:\a/b\` and `C:\a\.\b`, have the
/// same canonical spelling.
pub open spec fn canon(s: Seq<char>) -> Seq<char> {
    Seq::new(lead_len(s), |i: int| '\\') + canon_from(s, 0)
}

/// The canonical spelling of a path.
pub fn canonical_chars(v: &[char]) -> (r: Vec<char>)
    ensures
        r@ == canon(v@),
{
    let mut out: Vec<char> = Vec::new();
    let mut i: usize = 0;
    assert(v@.subrange(0, v@.len() as int) =~= v@);
    assert(out@ =~= Seq::new(0nat, |j: int| '\\'));
    while i < v.len() && is_separator(v[i])
        invariant
            i <= v@.len(),
            lead_len(v@) == i + lead_len(v@.subrange(i as int, v@.len() as int)),
            out@ == Seq::new(i as nat, |j: int| '\\'),
        decreases v.len() - i,
    {
        assert(v@.subrange(i as int, v@.len() as int).drop_first() =~= v@.subrange(i + 1, v@.len() as int));
        out.push('\\');
        i = i + 1;
        assert(out@ =~= Seq::new(i as nat, |j: int| '\\'));
    }
    proof {
        let rest = v@.subrange(i as int, v@.len() as int);
        if i < v@.len() {
            assert(rest[0] == v@[i as int]);
        }
        assert(lead_len(rest) == 0);
        assert(v@.subrange(0, v@.len() as int) =~= v@);
    }
    let ranges = component_ranges(v);
    proof {
        lemma_runs_bounds(v@);
    }
    let n = ranges.len();
    let mut k: usize = 0;
    while k < n
        invariant
            n == ranges@.len(),
            ranges@.len() == runs(v@).len(),
            forall|j: int|
                0 <= j < ranges@.len() ==> (#[trigger] ranges@[j]).0 as int == runs(v@)[j].0
                    && ranges@[j].1 as int == runs(v@)[j].1,
            forall|j: int|
                0 <= j < runs(v@).len() ==> 0 <= (#[trigger] runs(v@)[j]).0 < runs(v@)[j].1
                    <= v@.len(),
            k <= n,
            out@ + canon_from(v@, k as int) == canon(v@),
        decreases n - k,
    {
        let (a, b) = ranges[k];
        assert(runs(v@)[k as int].0 == a && runs(v@)[k as int].1 == b);
        let piece = slice_copy(v, a, b);
        let ghost before = out@;
        push_all(&mut out, piece.as_slice());
        let mut sep = false;
        if k + 1 < n {
            let (c, _d) = ranges[k + 1];
            assert(runs(v@)[k + 1].0 == c);
            sep = b < c;
        } else if k == 0 && a == 0 && b == 2 && v[1] == ':' && v.len() > 2 && is_separator(v[2]) {
            assert(is_drive_run(v@, 0));
            sep = true;
        } else {
            assert(!(k == 0 && is_drive_run(v@, 0) && v@.len() > 2 && is_sep(v@[2])));
        }
        if sep {
            out.push('\\');
        }
        proof {
            let sp = sep_after(v@, k as int);
            assert(sp == (if sep { seq!['\\'] } else { Seq::<char>::empty() }));
            assert(canon_from(v@, k as int) == component(v@, k as int) + sp + canon_from(v@, k + 1));
            assert(out@ =~= before + component(v@, k as int) + sp);
            assert(out@ + canon_from(v@, k + 1) =~= before + canon_from(v@, k as int));
        }
        k = k + 1;
    }
    assert(canon_from(v@, n as int) == Seq::<char>::empty());
    assert(out@ =~= out@ + canon_from(v@, n as int));
    out
}

} // verus!

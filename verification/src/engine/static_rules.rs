//! Static rule engine: deterministic classification of paths by prefix, extension,
//! component, fragment and file-name pattern, plus the protected-path test.
use vstd::prelude::*;
use crate::engine::classification::{FileCategory, FileClassification, FileImportance, SystemLayer};
use crate::glob::{glob, glob_matches};
use crate::text::{
    chars_of, contains, contains_chars, lower_seq, push_all, push_lit, starts_with,
    starts_with_chars, str_eq, string_from_chars, to_lower,
};
use crate::winpath::{
    extension, extension_chars, file_name, file_name_chars, first_component_in, has_component_in,
    has_component_in_exec, in_lits, lits, normalize, normalize_chars, path_matches_prefix_chars,
    spec_path_matches_prefix, runs, component,
};

verus! {

/// The result of a static classification.
#[derive(Debug, Clone)]
pub struct ClassificationResult {
    pub classification: FileClassification,
    pub matched_rule: String,
    pub match_reason: String,
}

/// How a rule recognises a path.
#[derive(Debug, Clone)]
pub enum RuleMatcher {
    /// Normalized path starts with one of the prefixes, at a component boundary.
    Prefix(Vec<&'static str>),
    /// The lowercase extension (with its dot) is one of these.
    Extension(Vec<&'static str>),
    /// Some lowercase component is one of these names.
    Component(Vec<&'static str>),
    /// The normalized path contains one of these fragments.
    Fragment(Vec<&'static str>),
    /// The lowercase file name matches one of these wildcard patterns.
    FileNameGlob(Vec<&'static str>),
    /// Extension and component both match.
    ExtensionInContext { extensions: Vec<&'static str>, components: Vec<&'static str> },
    /// Extension and prefix both match.
    ExtensionWithPrefix { extensions: Vec<&'static str>, prefixes: Vec<&'static str> },
}

/// One classification rule.
#[derive(Debug, Clone)]
pub struct StaticRule {
    pub id: &'static str,
    pub category: FileCategory,
    pub importance: FileImportance,
    pub matcher: RuleMatcher,
    /// Name of the owning application or component.
    pub owner_hint: &'static str,
}

/// A matcher with its lists read as sequences.
#[verifier::ext_equal]
pub enum MatcherView {
    Prefix(Seq<&'static str>),
    Extension(Seq<&'static str>),
    Component(Seq<&'static str>),
    Fragment(Seq<&'static str>),
    FileNameGlob(Seq<&'static str>),
    ExtensionInContext(Seq<&'static str>, Seq<&'static str>),
    ExtensionWithPrefix(Seq<&'static str>, Seq<&'static str>),
}

/// A rule as the contracts read it.
#[verifier::ext_equal]
pub struct RuleView {
    pub id: &'static str,
    pub category: FileCategory,
    pub importance: FileImportance,
    pub matcher: MatcherView,
    pub owner_hint: &'static str,
}

impl View for RuleMatcher {
    type V = MatcherView;

    open spec fn view(&self) -> MatcherView {
        match self {
            RuleMatcher::Prefix(v) => MatcherView::Prefix(v@),
            RuleMatcher::Extension(v) => MatcherView::Extension(v@),
            RuleMatcher::Component(v) => MatcherView::Component(v@),
            RuleMatcher::Fragment(v) => MatcherView::Fragment(v@),
            RuleMatcher::FileNameGlob(v) => MatcherView::FileNameGlob(v@),
            RuleMatcher::ExtensionInContext { extensions, components } => MatcherView::ExtensionInContext(
                extensions@,
                components@,
            ),
            RuleMatcher::ExtensionWithPrefix { extensions, prefixes } => MatcherView::ExtensionWithPrefix(
                extensions@,
                prefixes@,
            ),
        }
    }
}

impl View for StaticRule {
    type V = RuleView;

    open spec fn view(&self) -> RuleView {
        RuleView {
            id: self.id,
            category: self.category,
            importance: self.importance,
            matcher: self.matcher@,
            owner_hint: self.owner_hint,
        }
    }
}

/// The views of a sequence of rules, in order.
pub open spec fn rule_views(rules: Seq<StaticRule>) -> Seq<RuleView> {
    rules.map_values(|r: StaticRule| r@)
}

proof fn lemma_rule_views_concat(a: Seq<StaticRule>, b: Seq<StaticRule>)
    ensures
        rule_views(a + b) == rule_views(a) + rule_views(b),
{
    assert(rule_views(a + b) =~= rule_views(a) + rule_views(b));
}

/// Index of the first element satisfying `pred`, or -1.
pub open spec fn first_hit(xs: Seq<Seq<char>>, pred: spec_fn(Seq<char>) -> bool) -> int
    decreases xs.len(),
{
    if xs.len() == 0 {
        -1
    } else if pred(xs[0]) {
        0
    } else {
        let r = first_hit(xs.drop_first(), pred);
        if r < 0 {
            -1
        } else {
            r + 1
        }
    }
}

proof fn lemma_first_hit(xs: Seq<Seq<char>>, pred: spec_fn(Seq<char>) -> bool, i: int)
    requires
        0 <= i <= xs.len(),
        forall|k: int| 0 <= k < i ==> !pred(#[trigger] xs[k]),
        i < xs.len() ==> pred(xs[i]),
    ensures
        first_hit(xs, pred) == if i < xs.len() {
            i
        } else {
            -1
        },
    decreases xs.len(),
{
    if xs.len() == 0 {
    } else if i == 0 {
    } else {
        assert(!pred(xs[0]));
        let ys = xs.drop_first();
        assert forall|k: int| 0 <= k < i - 1 implies !pred(#[trigger] ys[k]) by {
            assert(ys[k] == xs[k + 1]);
        }
        if i < xs.len() {
            assert(ys[i - 1] == xs[i]);
        }
        lemma_first_hit(ys, pred, i - 1);
    }
}

/// The dotted lowercase extension of a path, as rules compare it.
pub open spec fn dotted_ext(path: Seq<char>) -> Option<Seq<char>> {
    match extension(path) {
        Some(e) => Some(seq!['.'] + lower_seq(e)),
        None => None,
    }
}

/// Prefix matcher hit test.
pub open spec fn prefix_pred(norm: Seq<char>) -> spec_fn(Seq<char>) -> bool {
    |p: Seq<char>| spec_path_matches_prefix(norm, p)
}

/// Fragment matcher hit test.
pub open spec fn fragment_pred(norm: Seq<char>) -> spec_fn(Seq<char>) -> bool {
    |f: Seq<char>| contains(norm, f)
}

/// Pattern matcher hit test.
pub open spec fn glob_pred(name: Seq<char>) -> spec_fn(Seq<char>) -> bool {
    |g: Seq<char>| glob(name, g)
}

pub open spec fn ext_in(path: Seq<char>, exts: Seq<&str>) -> bool {
    dotted_ext(path) matches Some(e) && lits(exts).contains(e)
}

/// The lowercase texts of a path's components, in order.
pub open spec fn lower_components(path: Seq<char>) -> Seq<Seq<char>> {
    Seq::new(runs(path).len(), |k: int| lower_seq(component(path, k)))
}

/// Membership test in a list of names.
pub open spec fn name_pred(names: Seq<Seq<char>>) -> spec_fn(Seq<char>) -> bool {
    |c: Seq<char>| names.contains(c)
}

/// The first lowercase component of a path that is one of `names`.
pub open spec fn first_component_hit(path: Seq<char>, names: Seq<Seq<char>>) -> Seq<char> {
    lower_components(path)[first_hit(lower_components(path), name_pred(names))]
}

/// The component hit that `first_component_in` reports is the first one.
proof fn lemma_component_hit(path: Seq<char>, names: Seq<Seq<char>>, k: int)
    requires
        0 <= k < runs(path).len(),
        names.contains(lower_seq(component(path, k))),
        forall|j: int| 0 <= j < k ==> !names.contains(lower_seq(#[trigger] component(path, j))),
    ensures
        first_component_hit(path, names) == lower_seq(component(path, k)),
{
    let cs = lower_components(path);
    assert forall|j: int| 0 <= j < k implies !name_pred(names)(#[trigger] cs[j]) by {
        assert(cs[j] == lower_seq(component(path, j)));
    }
    assert(cs[k] == lower_seq(component(path, k)));
    lemma_first_hit(cs, name_pred(names), k);
}

impl RuleMatcher {
    /// Whether the matcher recognises the path.
    pub open spec fn spec_matches(self, path: Seq<char>) -> bool {
        let norm = normalize(path);
        match self {
            RuleMatcher::Prefix(ps) => first_hit(lits(ps@), prefix_pred(norm)) >= 0,
            RuleMatcher::Extension(es) => ext_in(path, es@),
            RuleMatcher::Component(cs) => has_component_in(path, lits(cs@)),
            RuleMatcher::Fragment(fs) => first_hit(lits(fs@), fragment_pred(norm)) >= 0,
            RuleMatcher::FileNameGlob(gs) => file_name(path) matches Some(n) && first_hit(
                lits(gs@),
                glob_pred(lower_seq(n)),
            ) >= 0,
            RuleMatcher::ExtensionInContext { extensions, components } => ext_in(
                path,
                extensions@,
            ) && has_component_in(path, lits(components@)),
            RuleMatcher::ExtensionWithPrefix { extensions, prefixes } => ext_in(path, extensions@)
                && first_hit(lits(prefixes@), prefix_pred(norm)) >= 0,
        }
    }

    /// The reason text for a hit.
    pub open spec fn spec_list_reason(self, path: Seq<char>) -> Seq<char> {
        let norm = normalize(path);
        match self {
            RuleMatcher::Prefix(ps) => "路径前缀命中: "@ + lits(ps@)[first_hit(lits(ps@), prefix_pred(norm))],
            RuleMatcher::Fragment(fs) => "路径片段命中: "@ + lits(fs@)[first_hit(lits(fs@), fragment_pred(norm))],
            RuleMatcher::Extension(es) => "扩展名命中: "@ + dotted_ext(path)->0,
            RuleMatcher::FileNameGlob(gs) => "文件名通配命中: "@ + lits(gs@)[first_hit(
                lits(gs@),
                glob_pred(lower_seq(file_name(path)->0)),
            )],
            RuleMatcher::ExtensionWithPrefix { extensions, prefixes } => "扩展名 "@ + dotted_ext(
                path,
            )->0 + " + 前缀 "@ + lits(prefixes@)[first_hit(lits(prefixes@), prefix_pred(norm))]
                + " 命中"@,
            RuleMatcher::Component(cs) => "路径组件命中: "@ + first_component_hit(path, lits(cs@)),
            RuleMatcher::ExtensionInContext { extensions, components } => "扩展名 "@ + dotted_ext(
                path,
            )->0 + " + 组件 "@ + first_component_hit(path, lits(components@)) + " 命中"@,
        }
    }
}

/// `first_hit` finds an entry exactly when some entry satisfies the test.
proof fn lemma_first_hit_exists(xs: Seq<Seq<char>>, pred: spec_fn(Seq<char>) -> bool)
    ensures
        first_hit(xs, pred) >= 0 <==> exists|i: int| 0 <= i < xs.len() && #[trigger] pred(xs[i]),
        first_hit(xs, pred) < xs.len(),
    decreases xs.len(),
{
    if xs.len() > 0 {
        let ys = xs.drop_first();
        lemma_first_hit_exists(ys, pred);
        if exists|i: int| 0 <= i < xs.len() && #[trigger] pred(xs[i]) {
            let i = choose|i: int| 0 <= i < xs.len() && #[trigger] pred(xs[i]);
            if i > 0 {
                assert(ys[i - 1] == xs[i]);
            }
        }
        if exists|i: int| 0 <= i < ys.len() && #[trigger] pred(ys[i]) {
            let i = choose|i: int| 0 <= i < ys.len() && #[trigger] pred(ys[i]);
            assert(xs[i + 1] == ys[i]);
        }
    }
}

/// What each kind of matcher recognises, told without the matcher's own definitions: a
/// prefix at a component boundary of the normalized path, the dotted lowercase extension,
/// a lowercase component, a fragment of the normalized path, a wildcard pattern of the
/// lowercase file name, or an extension together with a component or a prefix.
pub proof fn lemma_matcher_meaning(m: RuleMatcher, path: Seq<char>)
    ensures
        m.spec_matches(path) <==> match m {
            RuleMatcher::Prefix(ps) => exists|i: int| 0 <= i < ps@.len() && #[trigger] under_prefix(normalize(path), ps@[i]@),
            RuleMatcher::Extension(es) => extension(path) matches Some(x) && lits(es@).contains(seq!['.'] + lower_seq(x)),
            RuleMatcher::Component(cs) => exists|k: int| 0 <= k < runs(path).len() && lits(cs@).contains(
                lower_seq(#[trigger] component(path, k)),
            ),
            RuleMatcher::Fragment(fs) => exists|i: int| 0 <= i < fs@.len() && contains(normalize(path), #[trigger] fs@[i]@),
            RuleMatcher::FileNameGlob(gs) => file_name(path) matches Some(n) && exists|i: int| 0 <= i < gs@.len()
                && glob(lower_seq(n), #[trigger] gs@[i]@),
            RuleMatcher::ExtensionInContext { extensions, components } => (extension(path) matches Some(x)
                && lits(extensions@).contains(seq!['.'] + lower_seq(x))) && exists|k: int| 0 <= k < runs(path).len()
                && lits(components@).contains(lower_seq(#[trigger] component(path, k))),
            RuleMatcher::ExtensionWithPrefix { extensions, prefixes } => (extension(path) matches Some(x)
                && lits(extensions@).contains(seq!['.'] + lower_seq(x))) && exists|i: int| 0 <= i < prefixes@.len()
                && #[trigger] under_prefix(normalize(path), prefixes@[i]@),
        },
{
    let norm = normalize(path);
    match m {
        RuleMatcher::Prefix(ps) => {
            lemma_first_hit_exists(lits(ps@), prefix_pred(norm));
            prefix_equivalence(norm, ps@);
        },
        RuleMatcher::Fragment(fs) => {
            lemma_first_hit_exists(lits(fs@), fragment_pred(norm));
            assert((exists|i: int| 0 <= i < lits(fs@).len() && #[trigger] fragment_pred(norm)(lits(fs@)[i])) <==> exists|i: int|
                0 <= i < fs@.len() && contains(norm, #[trigger] fs@[i]@)) by {
                if exists|i: int| 0 <= i < fs@.len() && contains(norm, #[trigger] fs@[i]@) {
                    let i = choose|i: int| 0 <= i < fs@.len() && contains(norm, #[trigger] fs@[i]@);
                    assert(fragment_pred(norm)(lits(fs@)[i]));
                }
            }
        },
        RuleMatcher::FileNameGlob(gs) => {
            match file_name(path) {
                Some(n) => {
                    lemma_first_hit_exists(lits(gs@), glob_pred(lower_seq(n)));
                    if exists|i: int| 0 <= i < gs@.len() && glob(lower_seq(n), #[trigger] gs@[i]@) {
                        let i = choose|i: int| 0 <= i < gs@.len() && glob(lower_seq(n), #[trigger] gs@[i]@);
                        assert(glob_pred(lower_seq(n))(lits(gs@)[i]));
                    }
                },
                None => {},
            }
        },
        RuleMatcher::ExtensionWithPrefix { extensions, prefixes } => {
            lemma_first_hit_exists(lits(prefixes@), prefix_pred(norm));
            prefix_equivalence(norm, prefixes@);
        },
        _ => {},
    }
}

/// The normalized path is `prefix` or continues it with a `\`.
pub open spec fn under_prefix(norm: Seq<char>, prefix: Seq<char>) -> bool {
    norm == prefix || (prefix.len() < norm.len() && norm.subrange(0, prefix.len() as int) == prefix
        && norm[prefix.len() as int] == '\\')
}

proof fn prefix_equivalence(norm: Seq<char>, ps: Seq<&str>)
    ensures
        (exists|i: int| 0 <= i < lits(ps).len() && #[trigger] prefix_pred(norm)(lits(ps)[i])) <==> exists|i: int|
            0 <= i < ps.len() && #[trigger] under_prefix(norm, ps[i]@),
{
    if exists|i: int| 0 <= i < ps.len() && #[trigger] under_prefix(norm, ps[i]@) {
        let i = choose|i: int| 0 <= i < ps.len() && #[trigger] under_prefix(norm, ps[i]@);
        assert(lits(ps)[i] == ps[i]@);
        assert(prefix_pred(norm)(lits(ps)[i]));
    }
    if exists|i: int| 0 <= i < lits(ps).len() && #[trigger] prefix_pred(norm)(lits(ps)[i]) {
        let i = choose|i: int| 0 <= i < lits(ps).len() && #[trigger] prefix_pred(norm)(lits(ps)[i]);
        assert(lits(ps)[i] == ps[i]@);
        assert(under_prefix(norm, ps[i]@));
    }
}

/// A matcher that names extensions recognises only paths whose dotted lowercase extension
/// is one of them; an extension-in-context matcher also needs one of its components.
pub proof fn lemma_extension_matchers(m: RuleMatcher, path: Seq<char>)
    ensures
        m.spec_matches(path) ==> match m {
            RuleMatcher::ExtensionInContext { extensions, components } => (extension(path) matches Some(x) && lits(extensions@).contains(seq!['.'] + lower_seq(x))) && has_component_in(
                path,
                lits(components@),
            ),
            RuleMatcher::ExtensionWithPrefix { extensions, .. } => (extension(path) matches Some(x) && lits(extensions@).contains(seq!['.'] + lower_seq(x))),
            RuleMatcher::Extension(extensions) => (extension(path) matches Some(x) && lits(extensions@).contains(seq!['.'] + lower_seq(x))),
            _ => true,
        },
{
}

/// Index of the first list entry satisfying the prefix test.
fn first_prefix(norm: &[char], list: &Vec<&'static str>) -> (r: Option<usize>)
    ensures
        r matches Some(k) ==> k as int == first_hit(lits(list@), prefix_pred(norm@)) && k
            < list@.len(),
        r is None ==> first_hit(lits(list@), prefix_pred(norm@)) == -1,
{
    let mut k: usize = 0;
    while k < list.len()
        invariant
            k <= list@.len(),
            forall|j: int| 0 <= j < k ==> !prefix_pred(norm@)(#[trigger] lits(list@)[j]),
        decreases list.len() - k,
    {
        let p = chars_of(list[k]);
        assert(lits(list@)[k as int] == p@);
        if path_matches_prefix_chars(norm, p.as_slice()) {
            proof {
                lemma_first_hit(lits(list@), prefix_pred(norm@), k as int);
            }
            return Some(k);
        }
        k = k + 1;
    }
    proof {
        lemma_first_hit(lits(list@), prefix_pred(norm@), k as int);
    }
    None
}

/// Index of the first list entry contained in the text.
fn first_fragment(norm: &[char], list: &Vec<&'static str>) -> (r: Option<usize>)
    ensures
        r matches Some(k) ==> k as int == first_hit(lits(list@), fragment_pred(norm@)) && k
            < list@.len(),
        r is None ==> first_hit(lits(list@), fragment_pred(norm@)) == -1,
{
    let mut k: usize = 0;
    while k < list.len()
        invariant
            k <= list@.len(),
            forall|j: int| 0 <= j < k ==> !fragment_pred(norm@)(#[trigger] lits(list@)[j]),
        decreases list.len() - k,
    {
        let p = chars_of(list[k]);
        assert(lits(list@)[k as int] == p@);
        if contains_chars(norm, p.as_slice()) {
            proof {
                lemma_first_hit(lits(list@), fragment_pred(norm@), k as int);
            }
            return Some(k);
        }
        k = k + 1;
    }
    proof {
        lemma_first_hit(lits(list@), fragment_pred(norm@), k as int);
    }
    None
}

/// Index of the first pattern the name matches.
fn first_glob(name: &str, list: &Vec<&'static str>) -> (r: Option<usize>)
    ensures
        r matches Some(k) ==> k as int == first_hit(lits(list@), glob_pred(name@)) && k
            < list@.len(),
        r is None ==> first_hit(lits(list@), glob_pred(name@)) == -1,
{
    let mut k: usize = 0;
    while k < list.len()
        invariant
            k <= list@.len(),
            forall|j: int| 0 <= j < k ==> !glob_pred(name@)(#[trigger] lits(list@)[j]),
        decreases list.len() - k,
    {
        assert(lits(list@)[k as int] == list@[k as int]@);
        if glob_matches(name, list[k]) {
            proof {
                lemma_first_hit(lits(list@), glob_pred(name@), k as int);
            }
            return Some(k);
        }
        k = k + 1;
    }
    proof {
        lemma_first_hit(lits(list@), glob_pred(name@), k as int);
    }
    None
}

/// The dotted lowercase extension of a path.
fn dotted_ext_chars(path: &[char]) -> (r: Option<Vec<char>>)
    ensures
        r matches Some(e) ==> dotted_ext(path@) == Some(e@),
        r is None ==> dotted_ext(path@) is None,
{
    match extension_chars(path) {
        Some(e) => {
            let mut d: Vec<char> = Vec::new();
            d.push('.');
            let low = to_lower(e.as_slice());
            push_all(&mut d, low.as_slice());
            assert(d@ =~= seq!['.'] + lower_seq(e@));
            Some(d)
        },
        None => None,
    }
}

impl StaticRule {
    /// Whether the rule recognises the path, and why.
    pub fn matches(&self, path: &str) -> (r: Option<String>)
        ensures
            r is Some <==> self.matcher.spec_matches(path@),
            r matches Some(reason) ==> reason@ == self.matcher.spec_list_reason(path@),
            r is Some ==> match self.matcher {
                RuleMatcher::ExtensionInContext { extensions, components } => (extension(path@) matches Some(x) && lits(extensions@).contains(seq!['.'] + lower_seq(x))) && has_component_in(
                    path@,
                    lits(components@),
                ),
                RuleMatcher::ExtensionWithPrefix { extensions, .. } => (extension(path@) matches Some(x) && lits(extensions@).contains(seq!['.'] + lower_seq(x))),
                RuleMatcher::Extension(extensions) => (extension(path@) matches Some(x) && lits(extensions@).contains(seq!['.'] + lower_seq(x))),
                _ => true,
            },
    {
        proof {
            lemma_extension_matchers(self.matcher, path@);
        }
        let v = chars_of(path);
        let norm = normalize_chars(v.as_slice());
        match &self.matcher {
            RuleMatcher::Prefix(prefixes) => {
                match first_prefix(norm.as_slice(), prefixes) {
                    Some(k) => {
                        let mut reason: Vec<char> = Vec::new();
                        push_lit(&mut reason, "路径前缀命中: ");
                        let p = chars_of(prefixes[k]);
                        push_all(&mut reason, p.as_slice());
                        Some(string_from_chars(reason.as_slice()))
                    },
                    None => None,
                }
            },
            RuleMatcher::Extension(extensions) => {
                match dotted_ext_chars(v.as_slice()) {
                    Some(ext) => {
                        if in_lits(extensions.as_slice(), ext.as_slice()) {
                            let mut reason: Vec<char> = Vec::new();
                            push_lit(&mut reason, "扩展名命中: ");
                            push_all(&mut reason, ext.as_slice());
                            Some(string_from_chars(reason.as_slice()))
                        } else {
                            None
                        }
                    },
                    None => None,
                }
            },
            RuleMatcher::Component(components) => {
                match first_component_in(v.as_slice(), components.as_slice()) {
                    Some((k, text)) => {
                        proof {
                            lemma_component_hit(path@, lits(components@), k as int);
                        }
                        let mut reason: Vec<char> = Vec::new();
                        push_lit(&mut reason, "路径组件命中: ");
                        push_all(&mut reason, text.as_slice());
                        Some(string_from_chars(reason.as_slice()))
                    },
                    None => None,
                }
            },
            RuleMatcher::Fragment(fragments) => {
                match first_fragment(norm.as_slice(), fragments) {
                    Some(k) => {
                        let mut reason: Vec<char> = Vec::new();
                        push_lit(&mut reason, "路径片段命中: ");
                        let p = chars_of(fragments[k]);
                        push_all(&mut reason, p.as_slice());
                        Some(string_from_chars(reason.as_slice()))
                    },
                    None => None,
                }
            },
            RuleMatcher::FileNameGlob(globs) => {
                match file_name_chars(v.as_slice()) {
                    Some(name) => {
                        let low = to_lower(name.as_slice());
                        let low_s = string_from_chars(low.as_slice());
                        match first_glob(low_s.as_str(), globs) {
                            Some(k) => {
                                let mut reason: Vec<char> = Vec::new();
                                push_lit(&mut reason, "文件名通配命中: ");
                                let g = chars_of(globs[k]);
                                push_all(&mut reason, g.as_slice());
                                Some(string_from_chars(reason.as_slice()))
                            },
                            None => None,
                        }
                    },
                    None => None,
                }
            },
            RuleMatcher::ExtensionInContext { extensions, components } => {
                match dotted_ext_chars(v.as_slice()) {
                    Some(ext) => {
                        if !in_lits(extensions.as_slice(), ext.as_slice()) {
                            return None;
                        }
                        match first_component_in(v.as_slice(), components.as_slice()) {
                            Some((k, text)) => {
                                proof {
                                    lemma_component_hit(path@, lits(components@), k as int);
                                }
                                let mut reason: Vec<char> = Vec::new();
                                push_lit(&mut reason, "扩展名 ");
                                push_all(&mut reason, ext.as_slice());
                                push_lit(&mut reason, " + 组件 ");
                                push_all(&mut reason, text.as_slice());
                                push_lit(&mut reason, " 命中");
                                Some(string_from_chars(reason.as_slice()))
                            },
                            None => None,
                        }
                    },
                    None => None,
                }
            },
            RuleMatcher::ExtensionWithPrefix { extensions, prefixes } => {
                match dotted_ext_chars(v.as_slice()) {
                    Some(ext) => {
                        if !in_lits(extensions.as_slice(), ext.as_slice()) {
                            return None;
                        }
                        match first_prefix(norm.as_slice(), prefixes) {
                            Some(k) => {
                                let mut reason: Vec<char> = Vec::new();
                                push_lit(&mut reason, "扩展名 ");
                                push_all(&mut reason, ext.as_slice());
                                push_lit(&mut reason, " + 前缀 ");
                                let p = chars_of(prefixes[k]);
                                push_all(&mut reason, p.as_slice());
                                push_lit(&mut reason, " 命中");
                                Some(string_from_chars(reason.as_slice()))
                            },
                            None => None,
                        }
                    },
                    None => None,
                }
            },
        }
    }
}


/// Index of the first rule that recognises the path, or -1.
pub open spec fn first_rule(rules: Seq<StaticRule>, path: Seq<char>) -> int
    decreases rules.len(),
{
    if rules.len() == 0 {
        -1
    } else if rules[0].matcher.spec_matches(path) {
        0
    } else {
        let r = first_rule(rules.drop_first(), path);
        if r < 0 {
            -1
        } else {
            r + 1
        }
    }
}

proof fn lemma_first_rule(rules: Seq<StaticRule>, path: Seq<char>, i: int)
    requires
        0 <= i <= rules.len(),
        forall|k: int| 0 <= k < i ==> !(#[trigger] rules[k]).matcher.spec_matches(path),
        i < rules.len() ==> rules[i].matcher.spec_matches(path),
    ensures
        first_rule(rules, path) == if i < rules.len() {
            i
        } else {
            -1
        },
    decreases rules.len(),
{
    if rules.len() == 0 {
    } else if i == 0 {
    } else {
        assert(!rules[0].matcher.spec_matches(path));
        let ys = rules.drop_first();
        assert forall|k: int| 0 <= k < i - 1 implies !(#[trigger] ys[k]).matcher.spec_matches(path) by {
            assert(ys[k] == rules[k + 1]);
        }
        if i < rules.len() {
            assert(ys[i - 1] == rules[i]);
        }
        lemma_first_rule(ys, path, i - 1);
    }
}

/// Deterministic classifier: the first rule (in order) that recognises a path decides.
#[derive(Debug, Clone)]
pub struct StaticRuleEngine {
    pub rules: Vec<StaticRule>,
}

impl StaticRuleEngine {
    /// The engine with the complete rule set.
    pub fn new() -> (r: Self)
        ensures
            rule_views(r.rules@) == rule_table(),
    {
        StaticRuleEngine { rules: build_all_rules() }
    }

    /// Classifies a path by the first rule that recognises it; `None` when no rule does.
    pub fn classify(&self, path: &str) -> (r: Option<ClassificationResult>)
        ensures
            r is None <==> first_rule(self.rules@, path@) == -1,
            r matches Some(res) ==> {
                let rule = self.rules@[first_rule(self.rules@, path@)];
                &&& res.classification.path@ == path@
                &&& res.classification.category == rule.category
                &&& res.classification.layer == rule.category.spec_layer()
                &&& res.classification.importance == rule.importance
                &&& res.classification.owner matches Some(o) && o@ == rule.owner_hint@
                &&& res.classification.role_in_app is None
                &&& res.matched_rule@ == rule.id@
                &&& res.match_reason@ == rule.matcher.spec_list_reason(path@)
            },
    {
        let mut i: usize = 0;
        while i < self.rules.len()
            invariant
                i <= self.rules@.len(),
                forall|k: int| 0 <= k < i ==> !(#[trigger] self.rules@[k]).matcher.spec_matches(path@),
            decreases self.rules.len() - i,
        {
            let rule = &self.rules[i];
            match rule.matches(path) {
                Some(reason) => {
                    proof {
                        lemma_first_rule(self.rules@, path@, i as int);
                    }
                    let classification = FileClassification::new(path, rule.category, rule.importance)
                        .with_owner(rule.owner_hint);
                    return Some(ClassificationResult {
                        classification,
                        matched_rule: String::from_str(rule.id),
                        match_reason: reason,
                    });
                },
                None => {},
            }
            i = i + 1;
        }
        proof {
            lemma_first_rule(self.rules@, path@, i as int);
        }
        None
    }

    /// Whether the path is protected from cleanup.
    pub fn is_protected_path(&self, path: &str) -> (b: bool)
        ensures
            b == spec_is_protected(path@),
    {
        is_protected_path(path)
    }
}

impl Default for StaticRuleEngine {
    fn default() -> (r: Self)
        ensures
            rule_views(r.rules@) == rule_table(),
    {
        Self::new()
    }
}

/// Absolutely protected prefixes (normalized).
pub open spec fn protected_prefixes() -> Seq<Seq<char>> {
    seq![
        "c:\\windows"@,
        "c:\\program files"@,
        "c:\\program files (x86)"@,
        "c:\\programdata"@,
        "c:\\$recycle.bin"@,
        "c:\\system volume information"@,
        "c:\\recovery"@,
        "c:\\boot"@,
        "c:\\efi"@,
        "c:\\config.msi"@,
    ]
}

/// Per-user application install locations.
pub open spec fn user_app_fragments() -> Seq<Seq<char>> {
    seq!["\\appdata\\local\\programs\\"@, "\\appdata\\local\\packages\\"@, "\\appdata\\roaming\\"@]
}

/// Critical system directory names.
pub open spec fn protected_system_components() -> Seq<Seq<char>> {
    seq!["system32"@, "syswow64"@, "winsxs"@, "installer"@, "config.msi"@, "driverstore"@]
}

/// User library folder names.
pub open spec fn user_library_components() -> Seq<Seq<char>> {
    seq![
        "desktop"@,
        "documents"@,
        "downloads"@,
        "pictures"@,
        "music"@,
        "videos"@,
        "文档"@,
        "桌面"@,
        "图片"@,
        "音乐"@,
        "视频"@,
    ]
}

fn protected_prefix_list() -> (r: Vec<&'static str>)
    ensures
        lits(r@) == protected_prefixes(),
{
    let r = vec![
        "c:\\windows",
        "c:\\program files",
        "c:\\program files (x86)",
        "c:\\programdata",
        "c:\\$recycle.bin",
        "c:\\system volume information",
        "c:\\recovery",
        "c:\\boot",
        "c:\\efi",
        "c:\\config.msi",
    ];
    assert(lits(r@) =~= protected_prefixes());
    r
}

fn user_app_fragment_list() -> (r: Vec<&'static str>)
    ensures
        lits(r@) == user_app_fragments(),
{
    let r = vec!["\\appdata\\local\\programs\\", "\\appdata\\local\\packages\\", "\\appdata\\roaming\\"];
    assert(lits(r@) =~= user_app_fragments());
    r
}

fn protected_system_component_list() -> (r: Vec<&'static str>)
    ensures
        lits(r@) == protected_system_components(),
{
    let r = vec!["system32", "syswow64", "winsxs", "installer", "config.msi", "driverstore"];
    assert(lits(r@) =~= protected_system_components());
    r
}

fn user_library_component_list() -> (r: Vec<&'static str>)
    ensures
        lits(r@) == user_library_components(),
{
    let r = vec!["desktop", "documents", "downloads", "pictures", "music", "videos", "文档", "桌面", "图片", "音乐", "视频"];
    assert(lits(r@) =~= user_library_components());
    r
}

/// The normalized path lies inside a user profile: `c:\users\<name>...`, or `users\<name>...`
/// for a path without the drive.
pub open spec fn under_users_profile(norm: Seq<char>) -> bool {
    let rest = if starts_with(norm, "c:\\"@) {
        norm.subrange(3, norm.len() as int)
    } else {
        norm
    };
    starts_with(rest, "users\\"@)
}

/// The normalized path is `c:\windows.old` or lies inside it.
pub open spec fn under_windows_old(norm: Seq<char>) -> bool {
    starts_with(norm, "c:\\windows.old\\"@) || norm == "c:\\windows.old"@
}

/// A path is protected when it is under a protected prefix, is a per-user application
/// install location, contains a critical system directory (outside `c:\windows.old`),
/// or is inside a user library folder of a user profile.
pub open spec fn spec_is_protected(path: Seq<char>) -> bool {
    let norm = normalize(path);
    ||| first_hit(protected_prefixes(), prefix_pred(norm)) >= 0
    ||| under_users_profile(norm) && first_hit(user_app_fragments(), fragment_pred(norm)) >= 0
    ||| !under_windows_old(norm) && has_component_in(path, protected_system_components())
    ||| under_users_profile(norm) && has_component_in(path, user_library_components())
}

/// Normalized form of a path: `/` replaced by `\`, ASCII lowercase.
pub fn normalize_path(path: &str) -> (r: String)
    ensures
        r@ == normalize(path@),
{
    let v = chars_of(path);
    let n = normalize_chars(v.as_slice());
    string_from_chars(n.as_slice())
}

/// Component-level prefix test: `c:\windows` matches `c:\windows\temp` but not `c:\windows.old`.
pub fn path_matches_prefix(normalized: &str, prefix: &str) -> (b: bool)
    ensures
        b == spec_path_matches_prefix(normalized@, prefix@),
{
    let n = chars_of(normalized);
    let p = chars_of(prefix);
    path_matches_prefix_chars(n.as_slice(), p.as_slice())
}

fn is_under_users_profile(norm: &[char]) -> (b: bool)
    ensures
        b == under_users_profile(norm@),
{
    let drive = chars_of("c:\\");
    proof {
        reveal_strlit("c:\\");
    }
    let users = chars_of("users\\");
    if starts_with_chars(norm, drive.as_slice()) {
        let rest = crate::text::slice_copy(norm, 3, norm.len());
        starts_with_chars(rest.as_slice(), users.as_slice())
    } else {
        assert(norm@.subrange(0, norm@.len() as int) =~= norm@);
        starts_with_chars(norm, users.as_slice())
    }
}

/// Whether a path must never be cleaned up.
pub fn is_protected_path(path: &str) -> (b: bool)
    ensures
        b == spec_is_protected(path@),
{
    let v = chars_of(path);
    let norm = normalize_chars(v.as_slice());
    let prefixes = protected_prefix_list();
    if first_prefix(norm.as_slice(), &prefixes).is_some() {
        return true;
    }
    let users = is_under_users_profile(norm.as_slice());
    if users {
        let fragments = user_app_fragment_list();
        if first_fragment(norm.as_slice(), &fragments).is_some() {
            return true;
        }
    }
    let old_dir = chars_of("c:\\windows.old\\");
    let old_root = chars_of("c:\\windows.old");
    let under_old = starts_with_chars(norm.as_slice(), old_dir.as_slice())
        || crate::text::chars_eq(norm.as_slice(), old_root.as_slice());
    if !under_old {
        let comps = protected_system_component_list();
        if has_component_in_exec(v.as_slice(), comps.as_slice()) {
            return true;
        }
    }
    if users {
        let libs = user_library_component_list();
        if has_component_in_exec(v.as_slice(), libs.as_slice()) {
            return true;
        }
    }
    false
}

/// Kernel and system-service locations.
pub open spec fn kernel_rule_views() -> Seq<RuleView> {
    seq![
        RuleView {
            id: "kernel_drivers",
            category: FileCategory::SystemDriver,
            importance: FileImportance::Critical,
            matcher: MatcherView::Prefix(seq!["c:\\windows\\system32\\drivers"]),
            owner_hint: "Windows 驱动",
        },
        RuleView {
            id: "service_driverstore",
            category: FileCategory::DriverStore,
            importance: FileImportance::Critical,
            matcher: MatcherView::Prefix(seq!["c:\\windows\\system32\\driverstore"]),
            owner_hint: "Windows 驱动商店",
        },
        RuleView {
            id: "service_printspooler",
            category: FileCategory::PrintSpooler,
            importance: FileImportance::Essential,
            matcher: MatcherView::Prefix(seq!["c:\\windows\\system32\\spool"]),
            owner_hint: "打印假脱机",
        },
        RuleView {
            id: "kernel_system32",
            category: FileCategory::SystemBinary,
            importance: FileImportance::Critical,
            matcher: MatcherView::Prefix(seq!["c:\\windows\\system32"]),
            owner_hint: "Windows 内核",
        },
        RuleView {
            id: "kernel_syswow64",
            category: FileCategory::SystemBinary,
            importance: FileImportance::Critical,
            matcher: MatcherView::Prefix(seq!["c:\\windows\\syswow64"]),
            owner_hint: "Windows 内核",
        },
        RuleView {
            id: "kernel_winsxs",
            category: FileCategory::ComponentStore,
            importance: FileImportance::Critical,
            matcher: MatcherView::Prefix(seq!["c:\\windows\\winsxs"]),
            owner_hint: "Windows 组件存储",
        },
        RuleView {
            id: "kernel_installer",
            category: FileCategory::InstallerCache,
            importance: FileImportance::Critical,
            matcher: MatcherView::Prefix(seq!["c:\\windows\\installer"]),
            owner_hint: "Windows Installer",
        },
        RuleView {
            id: "kernel_boot",
            category: FileCategory::BootLoader,
            importance: FileImportance::Critical,
            matcher: MatcherView::Prefix(seq!["c:\\windows\\boot"]),
            owner_hint: "Windows 启动",
        },
    ]
}

/// Kernel and system-service locations.
fn kernel_rules() -> (rules: Vec<StaticRule>)
    ensures
        rule_views(rules@) == kernel_rule_views(),
{
    let rules: Vec<StaticRule> = vec![
        StaticRule {
        id: "kernel_drivers",
        category: FileCategory::SystemDriver,
        importance: FileImportance::Critical,
        matcher: RuleMatcher::Prefix(vec!["c:\\windows\\system32\\drivers"]),
        owner_hint: "Windows 驱动",
        },
        StaticRule {
        id: "service_driverstore",
        category: FileCategory::DriverStore,
        importance: FileImportance::Critical,
        matcher: RuleMatcher::Prefix(vec!["c:\\windows\\system32\\driverstore"]),
        owner_hint: "Windows 驱动商店",
        },
        StaticRule {
        id: "service_printspooler",
        category: FileCategory::PrintSpooler,
        importance: FileImportance::Essential,
        matcher: RuleMatcher::Prefix(vec!["c:\\windows\\system32\\spool"]),
        owner_hint: "打印假脱机",
        },
        StaticRule {
        id: "kernel_system32",
        category: FileCategory::SystemBinary,
        importance: FileImportance::Critical,
        matcher: RuleMatcher::Prefix(vec!["c:\\windows\\system32"]),
        owner_hint: "Windows 内核",
        },
        StaticRule {
        id: "kernel_syswow64",
        category: FileCategory::SystemBinary,
        importance: FileImportance::Critical,
        matcher: RuleMatcher::Prefix(vec!["c:\\windows\\syswow64"]),
        owner_hint: "Windows 内核",
        },
        StaticRule {
        id: "kernel_winsxs",
        category: FileCategory::ComponentStore,
        importance: FileImportance::Critical,
        matcher: RuleMatcher::Prefix(vec!["c:\\windows\\winsxs"]),
        owner_hint: "Windows 组件存储",
        },
        StaticRule {
        id: "kernel_installer",
        category: FileCategory::InstallerCache,
        importance: FileImportance::Critical,
        matcher: RuleMatcher::Prefix(vec!["c:\\windows\\installer"]),
        owner_hint: "Windows Installer",
        },
        StaticRule {
        id: "kernel_boot",
        category: FileCategory::BootLoader,
        importance: FileImportance::Critical,
        matcher: RuleMatcher::Prefix(vec!["c:\\windows\\boot"]),
        owner_hint: "Windows 启动",
        },
    ];
    assert(rule_views(rules@) =~~= kernel_rule_views());
    rules
}

/// Windows runtime data: update caches, temporary files, logs and old installations.
pub open spec fn runtime_rule_views() -> Seq<RuleView> {
    seq![
        RuleView {
            id: "runtime_wu_download",
            category: FileCategory::WindowsUpdateCache,
            importance: FileImportance::Disposable,
            matcher: MatcherView::Prefix(seq!["c:\\windows\\softwaredistribution\\download"]),
            owner_hint: "Windows Update",
        },
        RuleView {
            id: "runtime_delivery_opt",
            category: FileCategory::DeliveryOptimization,
            importance: FileImportance::Disposable,
            matcher: MatcherView::Prefix(seq!["c:\\windows\\softwaredistribution\\deliveryoptimization"]),
            owner_hint: "传递优化",
        },
        RuleView {
            id: "runtime_system_temp",
            category: FileCategory::SystemTemp,
            importance: FileImportance::Disposable,
            matcher: MatcherView::Prefix(seq!["c:\\windows\\temp"]),
            owner_hint: "Windows 系统临时文件",
        },
        RuleView {
            id: "runtime_prefetch",
            category: FileCategory::PrefetchData,
            importance: FileImportance::Performance,
            matcher: MatcherView::Prefix(seq!["c:\\windows\\prefetch"]),
            owner_hint: "Windows Prefetch",
        },
        RuleView {
            id: "runtime_wer",
            category: FileCategory::ErrorReport,
            importance: FileImportance::Disposable,
            matcher: MatcherView::Prefix(seq!["c:\\programdata\\microsoft\\windows\\wer\\reportqueue", "c:\\programdata\\microsoft\\windows\\wer\\reportarchive"]),
            owner_hint: "Windows Error Reporting",
        },
        RuleView {
            id: "system_cbs_logs",
            category: FileCategory::CBSLog,
            importance: FileImportance::Optional,
            matcher: MatcherView::Prefix(seq!["c:\\windows\\logs\\cbs"]),
            owner_hint: "CBS",
        },
        RuleView {
            id: "system_dism_logs",
            category: FileCategory::SetupLog,
            importance: FileImportance::Optional,
            matcher: MatcherView::Prefix(seq!["c:\\windows\\logs\\dism"]),
            owner_hint: "DISM",
        },
        RuleView {
            id: "system_upgrade_logs",
            category: FileCategory::SetupLog,
            importance: FileImportance::Optional,
            matcher: MatcherView::Prefix(seq!["c:\\windows\\logs\\windowsupdate"]),
            owner_hint: "Windows 升级日志",
        },
        RuleView {
            id: "runtime_logs",
            category: FileCategory::SystemLog,
            importance: FileImportance::Optional,
            matcher: MatcherView::Prefix(seq!["c:\\windows\\logs"]),
            owner_hint: "Windows 日志",
        },
        RuleView {
            id: "runtime_panther",
            category: FileCategory::SetupLog,
            importance: FileImportance::Disposable,
            matcher: MatcherView::Prefix(seq!["c:\\windows\\panther"]),
            owner_hint: "Windows 安装迁移",
        },
        RuleView {
            id: "system_windows_old_temp",
            category: FileCategory::SystemTemp,
            importance: FileImportance::Disposable,
            matcher: MatcherView::Prefix(seq!["c:\\windows.old\\windows\\temp"]),
            owner_hint: "旧版 Windows 临时文件",
        },
        RuleView {
            id: "system_windows_old_prefetch",
            category: FileCategory::PrefetchData,
            importance: FileImportance::Optional,
            matcher: MatcherView::Prefix(seq!["c:\\windows.old\\windows\\prefetch"]),
            owner_hint: "旧版 Windows Prefetch",
        },
        RuleView {
            id: "system_windows_old_logs",
            category: FileCategory::SystemLog,
            importance: FileImportance::Optional,
            matcher: MatcherView::Prefix(seq!["c:\\windows.old\\windows\\logs"]),
            owner_hint: "旧版 Windows 日志",
        },
        RuleView {
            id: "runtime_windows_old",
            category: FileCategory::SystemTemp,
            importance: FileImportance::Essential,
            matcher: MatcherView::Prefix(seq!["c:\\windows.old"]),
            owner_hint: "旧版 Windows 安装",
        },
    ]
}

/// Windows runtime data: update caches, temporary files, logs and old installations.
fn runtime_rules() -> (rules: Vec<StaticRule>)
    ensures
        rule_views(rules@) == runtime_rule_views(),
{
    let rules: Vec<StaticRule> = vec![
        StaticRule {
        id: "runtime_wu_download",
        category: FileCategory::WindowsUpdateCache,
        importance: FileImportance::Disposable,
        matcher: RuleMatcher::Prefix(vec!["c:\\windows\\softwaredistribution\\download"]),
        owner_hint: "Windows Update",
        },
        StaticRule {
        id: "runtime_delivery_opt",
        category: FileCategory::DeliveryOptimization,
        importance: FileImportance::Disposable,
        matcher: RuleMatcher::Prefix(vec!["c:\\windows\\softwaredistribution\\deliveryoptimization"]),
        owner_hint: "传递优化",
        },
        StaticRule {
        id: "runtime_system_temp",
        category: FileCategory::SystemTemp,
        importance: FileImportance::Disposable,
        matcher: RuleMatcher::Prefix(vec!["c:\\windows\\temp"]),
        owner_hint: "Windows 系统临时文件",
        },
        StaticRule {
        id: "runtime_prefetch",
        category: FileCategory::PrefetchData,
        importance: FileImportance::Performance,
        matcher: RuleMatcher::Prefix(vec!["c:\\windows\\prefetch"]),
        owner_hint: "Windows Prefetch",
        },
        StaticRule {
        id: "runtime_wer",
        category: FileCategory::ErrorReport,
        importance: FileImportance::Disposable,
        matcher: RuleMatcher::Prefix(vec!["c:\\programdata\\microsoft\\windows\\wer\\reportqueue", "c:\\programdata\\microsoft\\windows\\wer\\reportarchive"]),
        owner_hint: "Windows Error Reporting",
        },
        StaticRule {
        id: "system_cbs_logs",
        category: FileCategory::CBSLog,
        importance: FileImportance::Optional,
        matcher: RuleMatcher::Prefix(vec!["c:\\windows\\logs\\cbs"]),
        owner_hint: "CBS",
        },
        StaticRule {
        id: "system_dism_logs",
        category: FileCategory::SetupLog,
        importance: FileImportance::Optional,
        matcher: RuleMatcher::Prefix(vec!["c:\\windows\\logs\\dism"]),
        owner_hint: "DISM",
        },
        StaticRule {
        id: "system_upgrade_logs",
        category: FileCategory::SetupLog,
        importance: FileImportance::Optional,
        matcher: RuleMatcher::Prefix(vec!["c:\\windows\\logs\\windowsupdate"]),
        owner_hint: "Windows 升级日志",
        },
        StaticRule {
        id: "runtime_logs",
        category: FileCategory::SystemLog,
        importance: FileImportance::Optional,
        matcher: RuleMatcher::Prefix(vec!["c:\\windows\\logs"]),
        owner_hint: "Windows 日志",
        },
        StaticRule {
        id: "runtime_panther",
        category: FileCategory::SetupLog,
        importance: FileImportance::Disposable,
        matcher: RuleMatcher::Prefix(vec!["c:\\windows\\panther"]),
        owner_hint: "Windows 安装迁移",
        },
        StaticRule {
        id: "system_windows_old_temp",
        category: FileCategory::SystemTemp,
        importance: FileImportance::Disposable,
        matcher: RuleMatcher::Prefix(vec!["c:\\windows.old\\windows\\temp"]),
        owner_hint: "旧版 Windows 临时文件",
        },
        StaticRule {
        id: "system_windows_old_prefetch",
        category: FileCategory::PrefetchData,
        importance: FileImportance::Optional,
        matcher: RuleMatcher::Prefix(vec!["c:\\windows.old\\windows\\prefetch"]),
        owner_hint: "旧版 Windows Prefetch",
        },
        StaticRule {
        id: "system_windows_old_logs",
        category: FileCategory::SystemLog,
        importance: FileImportance::Optional,
        matcher: RuleMatcher::Prefix(vec!["c:\\windows.old\\windows\\logs"]),
        owner_hint: "旧版 Windows 日志",
        },
        StaticRule {
        id: "runtime_windows_old",
        category: FileCategory::SystemTemp,
        importance: FileImportance::Essential,
        matcher: RuleMatcher::Prefix(vec!["c:\\windows.old"]),
        owner_hint: "旧版 Windows 安装",
        },
    ];
    assert(rule_views(rules@) =~~= runtime_rule_views());
    rules
}

/// Per-user caches of the shell, the browsers and the package managers.
pub open spec fn user_cache_rule_views() -> Seq<RuleView> {
    seq![
        RuleView {
            id: "user_thumbnail",
            category: FileCategory::ThumbnailCache,
            importance: FileImportance::Optional,
            matcher: MatcherView::FileNameGlob(seq!["thumbcache_*.db", "iconcache_*.db"]),
            owner_hint: "Windows Explorer",
        },
        RuleView {
            id: "user_inet_cache",
            category: FileCategory::BrowserCache,
            importance: FileImportance::Optional,
            matcher: MatcherView::Fragment(seq!["\\microsoft\\windows\\inetcache"]),
            owner_hint: "WinINet",
        },
        RuleView {
            id: "user_chrome_cache",
            category: FileCategory::BrowserCache,
            importance: FileImportance::Optional,
            matcher: MatcherView::Fragment(seq!["\\google\\chrome\\user data\\default\\cache", "\\google\\chrome\\user data\\default\\code cache"]),
            owner_hint: "Google Chrome",
        },
        RuleView {
            id: "user_edge_cache",
            category: FileCategory::BrowserCache,
            importance: FileImportance::Optional,
            matcher: MatcherView::Fragment(seq!["\\microsoft\\edge\\user data\\default\\cache", "\\microsoft\\edge\\user data\\default\\code cache"]),
            owner_hint: "Microsoft Edge",
        },
        RuleView {
            id: "user_firefox_cache",
            category: FileCategory::BrowserCache,
            importance: FileImportance::Optional,
            matcher: MatcherView::Fragment(seq!["\\mozilla\\firefox\\profiles"]),
            owner_hint: "Mozilla Firefox",
        },
        RuleView {
            id: "user_pip_cache",
            category: FileCategory::PackageManagerCache,
            importance: FileImportance::Optional,
            matcher: MatcherView::Fragment(seq!["\\appdata\\local\\pip\\cache"]),
            owner_hint: "pip",
        },
        RuleView {
            id: "user_npm_cache",
            category: FileCategory::PackageManagerCache,
            importance: FileImportance::Optional,
            matcher: MatcherView::Component(seq![".npm"]),
            owner_hint: "npm",
        },
        RuleView {
            id: "user_cargo_cache",
            category: FileCategory::PackageManagerCache,
            importance: FileImportance::Optional,
            matcher: MatcherView::Component(seq![".cargo"]),
            owner_hint: "Cargo",
        },
        RuleView {
            id: "user_gradle_cache",
            category: FileCategory::PackageManagerCache,
            importance: FileImportance::Optional,
            matcher: MatcherView::Component(seq![".gradle"]),
            owner_hint: "Gradle",
        },
        RuleView {
            id: "user_maven_cache",
            category: FileCategory::PackageManagerCache,
            importance: FileImportance::Optional,
            matcher: MatcherView::Component(seq![".m2"]),
            owner_hint: "Maven",
        },
    ]
}

/// Per-user caches of the shell, the browsers and the package managers.
fn user_cache_rules() -> (rules: Vec<StaticRule>)
    ensures
        rule_views(rules@) == user_cache_rule_views(),
{
    let rules: Vec<StaticRule> = vec![
        StaticRule {
        id: "user_thumbnail",
        category: FileCategory::ThumbnailCache,
        importance: FileImportance::Optional,
        matcher: RuleMatcher::FileNameGlob(vec!["thumbcache_*.db", "iconcache_*.db"]),
        owner_hint: "Windows Explorer",
        },
        StaticRule {
        id: "user_inet_cache",
        category: FileCategory::BrowserCache,
        importance: FileImportance::Optional,
        matcher: RuleMatcher::Fragment(vec!["\\microsoft\\windows\\inetcache"]),
        owner_hint: "WinINet",
        },
        StaticRule {
        id: "user_chrome_cache",
        category: FileCategory::BrowserCache,
        importance: FileImportance::Optional,
        matcher: RuleMatcher::Fragment(vec!["\\google\\chrome\\user data\\default\\cache", "\\google\\chrome\\user data\\default\\code cache"]),
        owner_hint: "Google Chrome",
        },
        StaticRule {
        id: "user_edge_cache",
        category: FileCategory::BrowserCache,
        importance: FileImportance::Optional,
        matcher: RuleMatcher::Fragment(vec!["\\microsoft\\edge\\user data\\default\\cache", "\\microsoft\\edge\\user data\\default\\code cache"]),
        owner_hint: "Microsoft Edge",
        },
        StaticRule {
        id: "user_firefox_cache",
        category: FileCategory::BrowserCache,
        importance: FileImportance::Optional,
        matcher: RuleMatcher::Fragment(vec!["\\mozilla\\firefox\\profiles"]),
        owner_hint: "Mozilla Firefox",
        },
        StaticRule {
        id: "user_pip_cache",
        category: FileCategory::PackageManagerCache,
        importance: FileImportance::Optional,
        matcher: RuleMatcher::Fragment(vec!["\\appdata\\local\\pip\\cache"]),
        owner_hint: "pip",
        },
        StaticRule {
        id: "user_npm_cache",
        category: FileCategory::PackageManagerCache,
        importance: FileImportance::Optional,
        matcher: RuleMatcher::Component(vec![".npm"]),
        owner_hint: "npm",
        },
        StaticRule {
        id: "user_cargo_cache",
        category: FileCategory::PackageManagerCache,
        importance: FileImportance::Optional,
        matcher: RuleMatcher::Component(vec![".cargo"]),
        owner_hint: "Cargo",
        },
        StaticRule {
        id: "user_gradle_cache",
        category: FileCategory::PackageManagerCache,
        importance: FileImportance::Optional,
        matcher: RuleMatcher::Component(vec![".gradle"]),
        owner_hint: "Gradle",
        },
        StaticRule {
        id: "user_maven_cache",
        category: FileCategory::PackageManagerCache,
        importance: FileImportance::Optional,
        matcher: RuleMatcher::Component(vec![".m2"]),
        owner_hint: "Maven",
        },
    ];
    assert(rule_views(rules@) =~~= user_cache_rule_views());
    rules
}

/// Rules by extension, build output and downloaded installers.
pub open spec fn extension_rule_views() -> Seq<RuleView> {
    seq![
        RuleView {
            id: "ext_temp",
            category: FileCategory::GenericTemp,
            importance: FileImportance::Disposable,
            matcher: MatcherView::Extension(seq![".tmp", ".temp"]),
            owner_hint: "临时文件",
        },
        RuleView {
            id: "ext_log",
            category: FileCategory::GenericLog,
            importance: FileImportance::Optional,
            matcher: MatcherView::Extension(seq![".log"]),
            owner_hint: "日志文件",
        },
        RuleView {
            id: "ext_dump",
            category: FileCategory::MemoryDump,
            importance: FileImportance::Optional,
            matcher: MatcherView::Extension(seq![".dmp", ".etl"]),
            owner_hint: "诊断转储",
        },
        RuleView {
            id: "ext_backup",
            category: FileCategory::GenericBackup,
            importance: FileImportance::Optional,
            matcher: MatcherView::Extension(seq![".bak", ".old"]),
            owner_hint: "备份文件",
        },
        RuleView {
            id: "ext_download_fragment",
            category: FileCategory::GenericFragment,
            importance: FileImportance::Disposable,
            matcher: MatcherView::Extension(seq![".crdownload", ".part", ".partial", ".download"]),
            owner_hint: "浏览器下载碎片",
        },
        RuleView {
            id: "build_artifact",
            category: FileCategory::BuildArtifact,
            importance: FileImportance::Optional,
            matcher: MatcherView::Component(seq!["target", "build", "dist", "out", "obj"]),
            owner_hint: "构建工具",
        },
        RuleView {
            id: "installer_download",
            category: FileCategory::GenericInstaller,
            importance: FileImportance::Optional,
            matcher: MatcherView::ExtensionInContext(seq![".msi", ".msix", ".msp", ".exe"], seq!["downloads", "下载"]),
            owner_hint: "下载的安装包",
        },
    ]
}

/// Rules by extension, build output and downloaded installers.
fn extension_rules() -> (rules: Vec<StaticRule>)
    ensures
        rule_views(rules@) == extension_rule_views(),
{
    let rules: Vec<StaticRule> = vec![
        StaticRule {
        id: "ext_temp",
        category: FileCategory::GenericTemp,
        importance: FileImportance::Disposable,
        matcher: RuleMatcher::Extension(vec![".tmp", ".temp"]),
        owner_hint: "临时文件",
        },
        StaticRule {
        id: "ext_log",
        category: FileCategory::GenericLog,
        importance: FileImportance::Optional,
        matcher: RuleMatcher::Extension(vec![".log"]),
        owner_hint: "日志文件",
        },
        StaticRule {
        id: "ext_dump",
        category: FileCategory::MemoryDump,
        importance: FileImportance::Optional,
        matcher: RuleMatcher::Extension(vec![".dmp", ".etl"]),
        owner_hint: "诊断转储",
        },
        StaticRule {
        id: "ext_backup",
        category: FileCategory::GenericBackup,
        importance: FileImportance::Optional,
        matcher: RuleMatcher::Extension(vec![".bak", ".old"]),
        owner_hint: "备份文件",
        },
        StaticRule {
        id: "ext_download_fragment",
        category: FileCategory::GenericFragment,
        importance: FileImportance::Disposable,
        matcher: RuleMatcher::Extension(vec![".crdownload", ".part", ".partial", ".download"]),
        owner_hint: "浏览器下载碎片",
        },
        StaticRule {
        id: "build_artifact",
        category: FileCategory::BuildArtifact,
        importance: FileImportance::Optional,
        matcher: RuleMatcher::Component(vec!["target", "build", "dist", "out", "obj"]),
        owner_hint: "构建工具",
        },
        StaticRule {
        id: "installer_download",
        category: FileCategory::GenericInstaller,
        importance: FileImportance::Optional,
        matcher: RuleMatcher::ExtensionInContext { extensions: vec![".msi", ".msix", ".msp", ".exe"], components: vec!["downloads", "下载"] },
        owner_hint: "下载的安装包",
        },
    ];
    assert(rule_views(rules@) =~~= extension_rule_views());
    rules
}

/// Caches of browsers, editors, package managers and communication and game clients.
pub open spec fn application_rule_views() -> Seq<RuleView> {
    seq![
        RuleView {
            id: "user_opera_cache",
            category: FileCategory::BrowserCache,
            importance: FileImportance::Optional,
            matcher: MatcherView::Fragment(seq!["\\opera software"]),
            owner_hint: "Opera",
        },
        RuleView {
            id: "user_brave_cache",
            category: FileCategory::BrowserCache,
            importance: FileImportance::Optional,
            matcher: MatcherView::Fragment(seq!["\\bravesoftware\\brave-browser"]),
            owner_hint: "Brave",
        },
        RuleView {
            id: "user_vivaldi_cache",
            category: FileCategory::BrowserCache,
            importance: FileImportance::Optional,
            matcher: MatcherView::Fragment(seq!["\\vivaldi"]),
            owner_hint: "Vivaldi",
        },
        RuleView {
            id: "user_vscode_cache",
            category: FileCategory::IDECache,
            importance: FileImportance::Optional,
            matcher: MatcherView::Fragment(seq!["\\vscode\\cache"]),
            owner_hint: "VS Code",
        },
        RuleView {
            id: "user_jetbrains_cache",
            category: FileCategory::IDECache,
            importance: FileImportance::Optional,
            matcher: MatcherView::Fragment(seq!["\\jetbrains\\"]),
            owner_hint: "JetBrains",
        },
        RuleView {
            id: "user_sublime_cache",
            category: FileCategory::IDECache,
            importance: FileImportance::Optional,
            matcher: MatcherView::Fragment(seq!["\\sublime text"]),
            owner_hint: "Sublime Text",
        },
        RuleView {
            id: "user_notion_cache",
            category: FileCategory::AppCache,
            importance: FileImportance::Optional,
            matcher: MatcherView::Fragment(seq!["\\notion\\cache"]),
            owner_hint: "Notion",
        },
        RuleView {
            id: "user_conda_cache",
            category: FileCategory::PackageManagerCache,
            importance: FileImportance::Optional,
            matcher: MatcherView::Component(seq![".conda"]),
            owner_hint: "Conda",
        },
        RuleView {
            id: "user_nuget_cache",
            category: FileCategory::PackageManagerCache,
            importance: FileImportance::Optional,
            matcher: MatcherView::Component(seq![".nuget"]),
            owner_hint: "NuGet",
        },
        RuleView {
            id: "user_composer_cache",
            category: FileCategory::PackageManagerCache,
            importance: FileImportance::Optional,
            matcher: MatcherView::Component(seq![".composer"]),
            owner_hint: "Composer",
        },
        RuleView {
            id: "user_yarn_cache",
            category: FileCategory::PackageManagerCache,
            importance: FileImportance::Optional,
            matcher: MatcherView::Component(seq![".yarn"]),
            owner_hint: "Yarn",
        },
        RuleView {
            id: "user_pnpm_cache",
            category: FileCategory::PackageManagerCache,
            importance: FileImportance::Optional,
            matcher: MatcherView::Component(seq![".pnpm"]),
            owner_hint: "pnpm",
        },
        RuleView {
            id: "user_office_cache",
            category: FileCategory::OfficeCache,
            importance: FileImportance::Optional,
            matcher: MatcherView::Fragment(seq!["\\microsoft\\office\\"]),
            owner_hint: "Microsoft Office",
        },
        RuleView {
            id: "user_teams_cache",
            category: FileCategory::AppCache,
            importance: FileImportance::Optional,
            matcher: MatcherView::Fragment(seq!["\\microsoft\\teams\\cache"]),
            owner_hint: "Microsoft Teams",
        },
        RuleView {
            id: "user_slack_cache",
            category: FileCategory::AppCache,
            importance: FileImportance::Optional,
            matcher: MatcherView::Fragment(seq!["\\slack\\cache"]),
            owner_hint: "Slack",
        },
        RuleView {
            id: "user_zoom_cache",
            category: FileCategory::AppCache,
            importance: FileImportance::Optional,
            matcher: MatcherView::Fragment(seq!["\\zoom\\cache"]),
            owner_hint: "Zoom",
        },
        RuleView {
            id: "user_steam_cache",
            category: FileCategory::GameCache,
            importance: FileImportance::Optional,
            matcher: MatcherView::Fragment(seq!["\\steam\\appcache"]),
            owner_hint: "Steam",
        },
        RuleView {
            id: "user_epic_cache",
            category: FileCategory::GameCache,
            importance: FileImportance::Optional,
            matcher: MatcherView::Fragment(seq!["\\epic games\\"]),
            owner_hint: "Epic Games",
        },
        RuleView {
            id: "user_origin_cache",
            category: FileCategory::GameCache,
            importance: FileImportance::Optional,
            matcher: MatcherView::Fragment(seq!["\\origin\\"]),
            owner_hint: "Origin",
        },
        RuleView {
            id: "user_battlenet_cache",
            category: FileCategory::GameCache,
            importance: FileImportance::Optional,
            matcher: MatcherView::Fragment(seq!["\\battle.net\\"]),
            owner_hint: "Battle.net",
        },
        RuleView {
            id: "user_discord_cache",
            category: FileCategory::ChatMedia,
            importance: FileImportance::Optional,
            matcher: MatcherView::Fragment(seq!["\\discord\\cache"]),
            owner_hint: "Discord",
        },
        RuleView {
            id: "user_spotify_cache",
            category: FileCategory::StreamingCache,
            importance: FileImportance::Optional,
            matcher: MatcherView::Fragment(seq!["\\spotify\\cache"]),
            owner_hint: "Spotify",
        },
        RuleView {
            id: "user_telegram_cache",
            category: FileCategory::ChatMedia,
            importance: FileImportance::Optional,
            matcher: MatcherView::Fragment(seq!["\\telegram desktop\\tdata"]),
            owner_hint: "Telegram",
        },
        RuleView {
            id: "user_whatsapp_cache",
            category: FileCategory::ChatMedia,
            importance: FileImportance::Optional,
            matcher: MatcherView::Fragment(seq!["\\whatsapp\\cache"]),
            owner_hint: "WhatsApp",
        },
        RuleView {
            id: "user_skype_cache",
            category: FileCategory::ChatLog,
            importance: FileImportance::Optional,
            matcher: MatcherView::Fragment(seq!["\\microsoft\\skype for desktop\\cache"]),
            owner_hint: "Skype",
        },
    ]
}

/// Caches of browsers, editors, package managers and communication and game clients.
fn application_rules() -> (rules: Vec<StaticRule>)
    ensures
        rule_views(rules@) == application_rule_views(),
{
    let rules: Vec<StaticRule> = vec![
        StaticRule {
        id: "user_opera_cache",
        category: FileCategory::BrowserCache,
        importance: FileImportance::Optional,
        matcher: RuleMatcher::Fragment(vec!["\\opera software"]),
        owner_hint: "Opera",
        },
        StaticRule {
        id: "user_brave_cache",
        category: FileCategory::BrowserCache,
        importance: FileImportance::Optional,
        matcher: RuleMatcher::Fragment(vec!["\\bravesoftware\\brave-browser"]),
        owner_hint: "Brave",
        },
        StaticRule {
        id: "user_vivaldi_cache",
        category: FileCategory::BrowserCache,
        importance: FileImportance::Optional,
        matcher: RuleMatcher::Fragment(vec!["\\vivaldi"]),
        owner_hint: "Vivaldi",
        },
        StaticRule {
        id: "user_vscode_cache",
        category: FileCategory::IDECache,
        importance: FileImportance::Optional,
        matcher: RuleMatcher::Fragment(vec!["\\vscode\\cache"]),
        owner_hint: "VS Code",
        },
        StaticRule {
        id: "user_jetbrains_cache",
        category: FileCategory::IDECache,
        importance: FileImportance::Optional,
        matcher: RuleMatcher::Fragment(vec!["\\jetbrains\\"]),
        owner_hint: "JetBrains",
        },
        StaticRule {
        id: "user_sublime_cache",
        category: FileCategory::IDECache,
        importance: FileImportance::Optional,
        matcher: RuleMatcher::Fragment(vec!["\\sublime text"]),
        owner_hint: "Sublime Text",
        },
        StaticRule {
        id: "user_notion_cache",
        category: FileCategory::AppCache,
        importance: FileImportance::Optional,
        matcher: RuleMatcher::Fragment(vec!["\\notion\\cache"]),
        owner_hint: "Notion",
        },
        StaticRule {
        id: "user_conda_cache",
        category: FileCategory::PackageManagerCache,
        importance: FileImportance::Optional,
        matcher: RuleMatcher::Component(vec![".conda"]),
        owner_hint: "Conda",
        },
        StaticRule {
        id: "user_nuget_cache",
        category: FileCategory::PackageManagerCache,
        importance: FileImportance::Optional,
        matcher: RuleMatcher::Component(vec![".nuget"]),
        owner_hint: "NuGet",
        },
        StaticRule {
        id: "user_composer_cache",
        category: FileCategory::PackageManagerCache,
        importance: FileImportance::Optional,
        matcher: RuleMatcher::Component(vec![".composer"]),
        owner_hint: "Composer",
        },
        StaticRule {
        id: "user_yarn_cache",
        category: FileCategory::PackageManagerCache,
        importance: FileImportance::Optional,
        matcher: RuleMatcher::Component(vec![".yarn"]),
        owner_hint: "Yarn",
        },
        StaticRule {
        id: "user_pnpm_cache",
        category: FileCategory::PackageManagerCache,
        importance: FileImportance::Optional,
        matcher: RuleMatcher::Component(vec![".pnpm"]),
        owner_hint: "pnpm",
        },
        StaticRule {
        id: "user_office_cache",
        category: FileCategory::OfficeCache,
        importance: FileImportance::Optional,
        matcher: RuleMatcher::Fragment(vec!["\\microsoft\\office\\"]),
        owner_hint: "Microsoft Office",
        },
        StaticRule {
        id: "user_teams_cache",
        category: FileCategory::AppCache,
        importance: FileImportance::Optional,
        matcher: RuleMatcher::Fragment(vec!["\\microsoft\\teams\\cache"]),
        owner_hint: "Microsoft Teams",
        },
        StaticRule {
        id: "user_slack_cache",
        category: FileCategory::AppCache,
        importance: FileImportance::Optional,
        matcher: RuleMatcher::Fragment(vec!["\\slack\\cache"]),
        owner_hint: "Slack",
        },
        StaticRule {
        id: "user_zoom_cache",
        category: FileCategory::AppCache,
        importance: FileImportance::Optional,
        matcher: RuleMatcher::Fragment(vec!["\\zoom\\cache"]),
        owner_hint: "Zoom",
        },
        StaticRule {
        id: "user_steam_cache",
        category: FileCategory::GameCache,
        importance: FileImportance::Optional,
        matcher: RuleMatcher::Fragment(vec!["\\steam\\appcache"]),
        owner_hint: "Steam",
        },
        StaticRule {
        id: "user_epic_cache",
        category: FileCategory::GameCache,
        importance: FileImportance::Optional,
        matcher: RuleMatcher::Fragment(vec!["\\epic games\\"]),
        owner_hint: "Epic Games",
        },
        StaticRule {
        id: "user_origin_cache",
        category: FileCategory::GameCache,
        importance: FileImportance::Optional,
        matcher: RuleMatcher::Fragment(vec!["\\origin\\"]),
        owner_hint: "Origin",
        },
        StaticRule {
        id: "user_battlenet_cache",
        category: FileCategory::GameCache,
        importance: FileImportance::Optional,
        matcher: RuleMatcher::Fragment(vec!["\\battle.net\\"]),
        owner_hint: "Battle.net",
        },
        StaticRule {
        id: "user_discord_cache",
        category: FileCategory::ChatMedia,
        importance: FileImportance::Optional,
        matcher: RuleMatcher::Fragment(vec!["\\discord\\cache"]),
        owner_hint: "Discord",
        },
        StaticRule {
        id: "user_spotify_cache",
        category: FileCategory::StreamingCache,
        importance: FileImportance::Optional,
        matcher: RuleMatcher::Fragment(vec!["\\spotify\\cache"]),
        owner_hint: "Spotify",
        },
        StaticRule {
        id: "user_telegram_cache",
        category: FileCategory::ChatMedia,
        importance: FileImportance::Optional,
        matcher: RuleMatcher::Fragment(vec!["\\telegram desktop\\tdata"]),
        owner_hint: "Telegram",
        },
        StaticRule {
        id: "user_whatsapp_cache",
        category: FileCategory::ChatMedia,
        importance: FileImportance::Optional,
        matcher: RuleMatcher::Fragment(vec!["\\whatsapp\\cache"]),
        owner_hint: "WhatsApp",
        },
        StaticRule {
        id: "user_skype_cache",
        category: FileCategory::ChatLog,
        importance: FileImportance::Optional,
        matcher: RuleMatcher::Fragment(vec!["\\microsoft\\skype for desktop\\cache"]),
        owner_hint: "Skype",
        },
    ];
    assert(rule_views(rules@) =~~= application_rule_views());
    rules
}

/// Virtual machines, sync clients, downloaded installers, the recycle bin and upgrade leftovers.
pub open spec fn machine_rule_views() -> Seq<RuleView> {
    seq![
        RuleView {
            id: "user_docker_cache",
            category: FileCategory::ContainerLayer,
            importance: FileImportance::Optional,
            matcher: MatcherView::Fragment(seq!["\\docker\\"]),
            owner_hint: "Docker",
        },
        RuleView {
            id: "user_vmware_cache",
            category: FileCategory::VirtualMachineDisk,
            importance: FileImportance::Optional,
            matcher: MatcherView::Fragment(seq!["\\vmware\\"]),
            owner_hint: "VMware",
        },
        RuleView {
            id: "user_vbox_cache",
            category: FileCategory::VirtualMachineDisk,
            importance: FileImportance::Optional,
            matcher: MatcherView::Fragment(seq!["\\oracle\\virtualbox\\"]),
            owner_hint: "VirtualBox",
        },
        RuleView {
            id: "user_wsl_cache",
            category: FileCategory::ContainerLayer,
            importance: FileImportance::Optional,
            matcher: MatcherView::Fragment(seq!["\\wsl\\"]),
            owner_hint: "WSL",
        },
        RuleView {
            id: "user_hyperv_cache",
            category: FileCategory::VirtualMachineDisk,
            importance: FileImportance::Optional,
            matcher: MatcherView::Fragment(seq!["\\hyper-v\\"]),
            owner_hint: "Hyper-V",
        },
        RuleView {
            id: "user_sqlite_temp",
            category: FileCategory::DatabaseTemp,
            importance: FileImportance::Optional,
            matcher: MatcherView::Extension(seq![".sqlite-journal"]),
            owner_hint: "SQLite",
        },
        RuleView {
            id: "user_onedrive_cache",
            category: FileCategory::CloudSyncLocal,
            importance: FileImportance::Optional,
            matcher: MatcherView::Fragment(seq!["\\microsoft\\onedrive\\cache"]),
            owner_hint: "OneDrive",
        },
        RuleView {
            id: "user_dropbox_cache",
            category: FileCategory::CloudSyncLocal,
            importance: FileImportance::Optional,
            matcher: MatcherView::Fragment(seq!["\\dropbox\\cache"]),
            owner_hint: "Dropbox",
        },
        RuleView {
            id: "user_google_drive_cache",
            category: FileCategory::CloudSyncLocal,
            importance: FileImportance::Optional,
            matcher: MatcherView::Fragment(seq!["\\google\\drive\\cache"]),
            owner_hint: "Google Drive",
        },
        RuleView {
            id: "user_icloud_cache",
            category: FileCategory::CloudSyncLocal,
            importance: FileImportance::Optional,
            matcher: MatcherView::Fragment(seq!["\\apple\\icloud\\cache"]),
            owner_hint: "iCloud",
        },
        RuleView {
            id: "user_downloads_installer",
            category: FileCategory::GenericInstaller,
            importance: FileImportance::Optional,
            matcher: MatcherView::ExtensionInContext(seq![".msi", ".exe", ".zip", ".rar"], seq!["downloads", "download", "下载"]),
            owner_hint: "下载的安装包",
        },
        RuleView {
            id: "user_recycle_bin",
            category: FileCategory::GenericTemp,
            importance: FileImportance::Disposable,
            matcher: MatcherView::Prefix(seq!["c:\\$recycle.bin"]),
            owner_hint: "回收站",
        },
        RuleView {
            id: "user_windows_upgrade",
            category: FileCategory::SystemTemp,
            importance: FileImportance::Disposable,
            matcher: MatcherView::Prefix(seq!["c:\\$windows.~bt"]),
            owner_hint: "Windows 升级临时文件",
        },
        RuleView {
            id: "user_windows_update_temp",
            category: FileCategory::WindowsUpdateCache,
            importance: FileImportance::Disposable,
            matcher: MatcherView::Prefix(seq!["c:\\$windows.~ws"]),
            owner_hint: "Windows Update 临时文件",
        },
    ]
}

/// Virtual machines, sync clients, downloaded installers, the recycle bin and upgrade leftovers.
fn machine_rules() -> (rules: Vec<StaticRule>)
    ensures
        rule_views(rules@) == machine_rule_views(),
{
    let rules: Vec<StaticRule> = vec![
        StaticRule {
        id: "user_docker_cache",
        category: FileCategory::ContainerLayer,
        importance: FileImportance::Optional,
        matcher: RuleMatcher::Fragment(vec!["\\docker\\"]),
        owner_hint: "Docker",
        },
        StaticRule {
        id: "user_vmware_cache",
        category: FileCategory::VirtualMachineDisk,
        importance: FileImportance::Optional,
        matcher: RuleMatcher::Fragment(vec!["\\vmware\\"]),
        owner_hint: "VMware",
        },
        StaticRule {
        id: "user_vbox_cache",
        category: FileCategory::VirtualMachineDisk,
        importance: FileImportance::Optional,
        matcher: RuleMatcher::Fragment(vec!["\\oracle\\virtualbox\\"]),
        owner_hint: "VirtualBox",
        },
        StaticRule {
        id: "user_wsl_cache",
        category: FileCategory::ContainerLayer,
        importance: FileImportance::Optional,
        matcher: RuleMatcher::Fragment(vec!["\\wsl\\"]),
        owner_hint: "WSL",
        },
        StaticRule {
        id: "user_hyperv_cache",
        category: FileCategory::VirtualMachineDisk,
        importance: FileImportance::Optional,
        matcher: RuleMatcher::Fragment(vec!["\\hyper-v\\"]),
        owner_hint: "Hyper-V",
        },
        StaticRule {
        id: "user_sqlite_temp",
        category: FileCategory::DatabaseTemp,
        importance: FileImportance::Optional,
        matcher: RuleMatcher::Extension(vec![".sqlite-journal"]),
        owner_hint: "SQLite",
        },
        StaticRule {
        id: "user_onedrive_cache",
        category: FileCategory::CloudSyncLocal,
        importance: FileImportance::Optional,
        matcher: RuleMatcher::Fragment(vec!["\\microsoft\\onedrive\\cache"]),
        owner_hint: "OneDrive",
        },
        StaticRule {
        id: "user_dropbox_cache",
        category: FileCategory::CloudSyncLocal,
        importance: FileImportance::Optional,
        matcher: RuleMatcher::Fragment(vec!["\\dropbox\\cache"]),
        owner_hint: "Dropbox",
        },
        StaticRule {
        id: "user_google_drive_cache",
        category: FileCategory::CloudSyncLocal,
        importance: FileImportance::Optional,
        matcher: RuleMatcher::Fragment(vec!["\\google\\drive\\cache"]),
        owner_hint: "Google Drive",
        },
        StaticRule {
        id: "user_icloud_cache",
        category: FileCategory::CloudSyncLocal,
        importance: FileImportance::Optional,
        matcher: RuleMatcher::Fragment(vec!["\\apple\\icloud\\cache"]),
        owner_hint: "iCloud",
        },
        StaticRule {
        id: "user_downloads_installer",
        category: FileCategory::GenericInstaller,
        importance: FileImportance::Optional,
        matcher: RuleMatcher::ExtensionInContext { extensions: vec![".msi", ".exe", ".zip", ".rar"], components: vec!["downloads", "download", "下载"] },
        owner_hint: "下载的安装包",
        },
        StaticRule {
        id: "user_recycle_bin",
        category: FileCategory::GenericTemp,
        importance: FileImportance::Disposable,
        matcher: RuleMatcher::Prefix(vec!["c:\\$recycle.bin"]),
        owner_hint: "回收站",
        },
        StaticRule {
        id: "user_windows_upgrade",
        category: FileCategory::SystemTemp,
        importance: FileImportance::Disposable,
        matcher: RuleMatcher::Prefix(vec!["c:\\$windows.~bt"]),
        owner_hint: "Windows 升级临时文件",
        },
        StaticRule {
        id: "user_windows_update_temp",
        category: FileCategory::WindowsUpdateCache,
        importance: FileImportance::Disposable,
        matcher: RuleMatcher::Prefix(vec!["c:\\$windows.~ws"]),
        owner_hint: "Windows Update 临时文件",
        },
    ];
    assert(rule_views(rules@) =~~= machine_rule_views());
    rules
}

/// Development tool and creative application caches.
pub open spec fn developer_rule_views() -> Seq<RuleView> {
    seq![
        RuleView {
            id: "user_python_pycache",
            category: FileCategory::AppCache,
            importance: FileImportance::Optional,
            matcher: MatcherView::Component(seq!["__pycache__"]),
            owner_hint: "Python",
        },
        RuleView {
            id: "user_python_egg",
            category: FileCategory::PackageManagerCache,
            importance: FileImportance::Optional,
            matcher: MatcherView::Extension(seq![".egg-info"]),
            owner_hint: "Python",
        },
        RuleView {
            id: "user_node_modules",
            category: FileCategory::PackageManagerCache,
            importance: FileImportance::Optional,
            matcher: MatcherView::Component(seq!["node_modules"]),
            owner_hint: "npm/yarn",
        },
        RuleView {
            id: "user_npm_logs",
            category: FileCategory::AppLog,
            importance: FileImportance::Optional,
            matcher: MatcherView::Component(seq!["npm-cache"]),
            owner_hint: "npm",
        },
        RuleView {
            id: "user_maven_repo",
            category: FileCategory::PackageManagerCache,
            importance: FileImportance::Optional,
            matcher: MatcherView::Component(seq!["repository"]),
            owner_hint: "Maven",
        },
        RuleView {
            id: "user_gradle_wrapper",
            category: FileCategory::PackageManagerCache,
            importance: FileImportance::Optional,
            matcher: MatcherView::Component(seq!["gradle-wrapper"]),
            owner_hint: "Gradle",
        },
        RuleView {
            id: "user_nuget_packages",
            category: FileCategory::PackageManagerCache,
            importance: FileImportance::Optional,
            matcher: MatcherView::Component(seq!["packages"]),
            owner_hint: "NuGet",
        },
        RuleView {
            id: "user_dotnet_temp",
            category: FileCategory::GenericTemp,
            importance: FileImportance::Disposable,
            matcher: MatcherView::Fragment(seq!["\\microsoft\\dotnet\\"]),
            owner_hint: ".NET",
        },
        RuleView {
            id: "user_android_studio_cache",
            category: FileCategory::IDECache,
            importance: FileImportance::Optional,
            matcher: MatcherView::Fragment(seq!["\\android studio\\cache"]),
            owner_hint: "Android Studio",
        },
        RuleView {
            id: "user_xcode_cache",
            category: FileCategory::IDECache,
            importance: FileImportance::Optional,
            matcher: MatcherView::Fragment(seq!["\\xcode\\cache"]),
            owner_hint: "Xcode",
        },
        RuleView {
            id: "user_cocoapods_cache",
            category: FileCategory::PackageManagerCache,
            importance: FileImportance::Optional,
            matcher: MatcherView::Component(seq![".cocoapods"]),
            owner_hint: "CocoaPods",
        },
        RuleView {
            id: "user_rustup_cache",
            category: FileCategory::PackageManagerCache,
            importance: FileImportance::Optional,
            matcher: MatcherView::Fragment(seq!["\\rustup\\"]),
            owner_hint: "Rustup",
        },
        RuleView {
            id: "user_cargo_git",
            category: FileCategory::PackageManagerCache,
            importance: FileImportance::Optional,
            matcher: MatcherView::Fragment(seq!["\\cargo\\git\\"]),
            owner_hint: "Cargo",
        },
        RuleView {
            id: "user_git_objects",
            category: FileCategory::GenericCache,
            importance: FileImportance::Optional,
            matcher: MatcherView::Fragment(seq!["\\.git\\objects\\"]),
            owner_hint: "Git",
        },
        RuleView {
            id: "user_photoshop_cache",
            category: FileCategory::MediaCache,
            importance: FileImportance::Optional,
            matcher: MatcherView::Fragment(seq!["\\adobe\\photoshop\\cache"]),
            owner_hint: "Adobe Photoshop",
        },
        RuleView {
            id: "user_premiere_cache",
            category: FileCategory::MediaCache,
            importance: FileImportance::Optional,
            matcher: MatcherView::Fragment(seq!["\\adobe\\premiere pro\\cache"]),
            owner_hint: "Adobe Premiere",
        },
        RuleView {
            id: "user_illustrator_cache",
            category: FileCategory::MediaCache,
            importance: FileImportance::Optional,
            matcher: MatcherView::Fragment(seq!["\\adobe\\illustrator\\cache"]),
            owner_hint: "Adobe Illustrator",
        },
        RuleView {
            id: "user_autocad_cache",
            category: FileCategory::AppCache,
            importance: FileImportance::Optional,
            matcher: MatcherView::Fragment(seq!["\\autodesk\\autocad\\cache"]),
            owner_hint: "AutoCAD",
        },
        RuleView {
            id: "user_matlab_cache",
            category: FileCategory::AppCache,
            importance: FileImportance::Optional,
            matcher: MatcherView::Fragment(seq!["\\mathworks\\matlab\\cache"]),
            owner_hint: "MATLAB",
        },
    ]
}

/// Development tool and creative application caches.
fn developer_rules() -> (rules: Vec<StaticRule>)
    ensures
        rule_views(rules@) == developer_rule_views(),
{
    let rules: Vec<StaticRule> = vec![
        StaticRule {
        id: "user_python_pycache",
        category: FileCategory::AppCache,
        importance: FileImportance::Optional,
        matcher: RuleMatcher::Component(vec!["__pycache__"]),
        owner_hint: "Python",
        },
        StaticRule {
        id: "user_python_egg",
        category: FileCategory::PackageManagerCache,
        importance: FileImportance::Optional,
        matcher: RuleMatcher::Extension(vec![".egg-info"]),
        owner_hint: "Python",
        },
        StaticRule {
        id: "user_node_modules",
        category: FileCategory::PackageManagerCache,
        importance: FileImportance::Optional,
        matcher: RuleMatcher::Component(vec!["node_modules"]),
        owner_hint: "npm/yarn",
        },
        StaticRule {
        id: "user_npm_logs",
        category: FileCategory::AppLog,
        importance: FileImportance::Optional,
        matcher: RuleMatcher::Component(vec!["npm-cache"]),
        owner_hint: "npm",
        },
        StaticRule {
        id: "user_maven_repo",
        category: FileCategory::PackageManagerCache,
        importance: FileImportance::Optional,
        matcher: RuleMatcher::Component(vec!["repository"]),
        owner_hint: "Maven",
        },
        StaticRule {
        id: "user_gradle_wrapper",
        category: FileCategory::PackageManagerCache,
        importance: FileImportance::Optional,
        matcher: RuleMatcher::Component(vec!["gradle-wrapper"]),
        owner_hint: "Gradle",
        },
        StaticRule {
        id: "user_nuget_packages",
        category: FileCategory::PackageManagerCache,
        importance: FileImportance::Optional,
        matcher: RuleMatcher::Component(vec!["packages"]),
        owner_hint: "NuGet",
        },
        StaticRule {
        id: "user_dotnet_temp",
        category: FileCategory::GenericTemp,
        importance: FileImportance::Disposable,
        matcher: RuleMatcher::Fragment(vec!["\\microsoft\\dotnet\\"]),
        owner_hint: ".NET",
        },
        StaticRule {
        id: "user_android_studio_cache",
        category: FileCategory::IDECache,
        importance: FileImportance::Optional,
        matcher: RuleMatcher::Fragment(vec!["\\android studio\\cache"]),
        owner_hint: "Android Studio",
        },
        StaticRule {
        id: "user_xcode_cache",
        category: FileCategory::IDECache,
        importance: FileImportance::Optional,
        matcher: RuleMatcher::Fragment(vec!["\\xcode\\cache"]),
        owner_hint: "Xcode",
        },
        StaticRule {
        id: "user_cocoapods_cache",
        category: FileCategory::PackageManagerCache,
        importance: FileImportance::Optional,
        matcher: RuleMatcher::Component(vec![".cocoapods"]),
        owner_hint: "CocoaPods",
        },
        StaticRule {
        id: "user_rustup_cache",
        category: FileCategory::PackageManagerCache,
        importance: FileImportance::Optional,
        matcher: RuleMatcher::Fragment(vec!["\\rustup\\"]),
        owner_hint: "Rustup",
        },
        StaticRule {
        id: "user_cargo_git",
        category: FileCategory::PackageManagerCache,
        importance: FileImportance::Optional,
        matcher: RuleMatcher::Fragment(vec!["\\cargo\\git\\"]),
        owner_hint: "Cargo",
        },
        StaticRule {
        id: "user_git_objects",
        category: FileCategory::GenericCache,
        importance: FileImportance::Optional,
        matcher: RuleMatcher::Fragment(vec!["\\.git\\objects\\"]),
        owner_hint: "Git",
        },
        StaticRule {
        id: "user_photoshop_cache",
        category: FileCategory::MediaCache,
        importance: FileImportance::Optional,
        matcher: RuleMatcher::Fragment(vec!["\\adobe\\photoshop\\cache"]),
        owner_hint: "Adobe Photoshop",
        },
        StaticRule {
        id: "user_premiere_cache",
        category: FileCategory::MediaCache,
        importance: FileImportance::Optional,
        matcher: RuleMatcher::Fragment(vec!["\\adobe\\premiere pro\\cache"]),
        owner_hint: "Adobe Premiere",
        },
        StaticRule {
        id: "user_illustrator_cache",
        category: FileCategory::MediaCache,
        importance: FileImportance::Optional,
        matcher: RuleMatcher::Fragment(vec!["\\adobe\\illustrator\\cache"]),
        owner_hint: "Adobe Illustrator",
        },
        StaticRule {
        id: "user_autocad_cache",
        category: FileCategory::AppCache,
        importance: FileImportance::Optional,
        matcher: RuleMatcher::Fragment(vec!["\\autodesk\\autocad\\cache"]),
        owner_hint: "AutoCAD",
        },
        StaticRule {
        id: "user_matlab_cache",
        category: FileCategory::AppCache,
        importance: FileImportance::Optional,
        matcher: RuleMatcher::Fragment(vec!["\\mathworks\\matlab\\cache"]),
        owner_hint: "MATLAB",
        },
    ];
    assert(rule_views(rules@) =~~= developer_rule_views());
    rules
}

/// Graphics caches, build directories, server logs, backups and telemetry.
pub open spec fn build_rule_views() -> Seq<RuleView> {
    seq![
        RuleView {
            id: "user_gdi_cache",
            category: FileCategory::SystemRuntimeCache,
            importance: FileImportance::Optional,
            matcher: MatcherView::Fragment(seq!["\\windows\\gdi\\cache"]),
            owner_hint: "Windows GDI",
        },
        RuleView {
            id: "user_dx_cache",
            category: FileCategory::SystemRuntimeCache,
            importance: FileImportance::Optional,
            matcher: MatcherView::Fragment(seq!["\\windows\\directx\\cache"]),
            owner_hint: "DirectX",
        },
        RuleView {
            id: "user_mf_cache",
            category: FileCategory::SystemRuntimeCache,
            importance: FileImportance::Optional,
            matcher: MatcherView::Fragment(seq!["\\windows\\media foundation\\cache"]),
            owner_hint: "Media Foundation",
        },
        RuleView {
            id: "user_cmake_build",
            category: FileCategory::BuildArtifact,
            importance: FileImportance::Optional,
            matcher: MatcherView::Component(seq!["cmake-build"]),
            owner_hint: "CMake",
        },
        RuleView {
            id: "user_meson_build",
            category: FileCategory::BuildArtifact,
            importance: FileImportance::Optional,
            matcher: MatcherView::Component(seq!["meson-build"]),
            owner_hint: "Meson",
        },
        RuleView {
            id: "user_ninja_build",
            category: FileCategory::BuildArtifact,
            importance: FileImportance::Optional,
            matcher: MatcherView::Component(seq![".ninja"]),
            owner_hint: "Ninja",
        },
        RuleView {
            id: "user_bazel_build",
            category: FileCategory::BuildArtifact,
            importance: FileImportance::Optional,
            matcher: MatcherView::Component(seq!["bazel-bin"]),
            owner_hint: "Bazel",
        },
        RuleView {
            id: "user_iis_logs",
            category: FileCategory::SystemLog,
            importance: FileImportance::Optional,
            matcher: MatcherView::Fragment(seq!["\\inetpub\\logs\\"]),
            owner_hint: "IIS",
        },
        RuleView {
            id: "user_sql_logs",
            category: FileCategory::DatabaseLog,
            importance: FileImportance::Optional,
            matcher: MatcherView::Fragment(seq!["\\microsoft sql server\\mssql\\log"]),
            owner_hint: "SQL Server",
        },
        RuleView {
            id: "user_vss_backup",
            category: FileCategory::BackupData,
            importance: FileImportance::Optional,
            matcher: MatcherView::Prefix(seq!["c:\\system volume information"]),
            owner_hint: "VSS",
        },
        RuleView {
            id: "user_backup_bak",
            category: FileCategory::GenericBackup,
            importance: FileImportance::Optional,
            matcher: MatcherView::Extension(seq![".bak"]),
            owner_hint: "备份文件",
        },
        RuleView {
            id: "user_diagtrack",
            category: FileCategory::WindowsTelemetry,
            importance: FileImportance::Optional,
            matcher: MatcherView::Fragment(seq!["\\microsoft\\diagnostics\\"]),
            owner_hint: "Windows 诊断",
        },
        RuleView {
            id: "user_sqm_data",
            category: FileCategory::WindowsTelemetry,
            importance: FileImportance::Optional,
            matcher: MatcherView::Fragment(seq!["\\microsoft\\sqm\\"]),
            owner_hint: "SQM",
        },
        RuleView {
            id: "dir_temp_cache",
            category: FileCategory::GenericCache,
            importance: FileImportance::Optional,
            matcher: MatcherView::Component(seq!["temp", "tmp", "cache", "caches"]),
            owner_hint: "通用缓存",
        },
    ]
}

/// Graphics caches, build directories, server logs, backups and telemetry.
fn build_rules() -> (rules: Vec<StaticRule>)
    ensures
        rule_views(rules@) == build_rule_views(),
{
    let rules: Vec<StaticRule> = vec![
        StaticRule {
        id: "user_gdi_cache",
        category: FileCategory::SystemRuntimeCache,
        importance: FileImportance::Optional,
        matcher: RuleMatcher::Fragment(vec!["\\windows\\gdi\\cache"]),
        owner_hint: "Windows GDI",
        },
        StaticRule {
        id: "user_dx_cache",
        category: FileCategory::SystemRuntimeCache,
        importance: FileImportance::Optional,
        matcher: RuleMatcher::Fragment(vec!["\\windows\\directx\\cache"]),
        owner_hint: "DirectX",
        },
        StaticRule {
        id: "user_mf_cache",
        category: FileCategory::SystemRuntimeCache,
        importance: FileImportance::Optional,
        matcher: RuleMatcher::Fragment(vec!["\\windows\\media foundation\\cache"]),
        owner_hint: "Media Foundation",
        },
        StaticRule {
        id: "user_cmake_build",
        category: FileCategory::BuildArtifact,
        importance: FileImportance::Optional,
        matcher: RuleMatcher::Component(vec!["cmake-build"]),
        owner_hint: "CMake",
        },
        StaticRule {
        id: "user_meson_build",
        category: FileCategory::BuildArtifact,
        importance: FileImportance::Optional,
        matcher: RuleMatcher::Component(vec!["meson-build"]),
        owner_hint: "Meson",
        },
        StaticRule {
        id: "user_ninja_build",
        category: FileCategory::BuildArtifact,
        importance: FileImportance::Optional,
        matcher: RuleMatcher::Component(vec![".ninja"]),
        owner_hint: "Ninja",
        },
        StaticRule {
        id: "user_bazel_build",
        category: FileCategory::BuildArtifact,
        importance: FileImportance::Optional,
        matcher: RuleMatcher::Component(vec!["bazel-bin"]),
        owner_hint: "Bazel",
        },
        StaticRule {
        id: "user_iis_logs",
        category: FileCategory::SystemLog,
        importance: FileImportance::Optional,
        matcher: RuleMatcher::Fragment(vec!["\\inetpub\\logs\\"]),
        owner_hint: "IIS",
        },
        StaticRule {
        id: "user_sql_logs",
        category: FileCategory::DatabaseLog,
        importance: FileImportance::Optional,
        matcher: RuleMatcher::Fragment(vec!["\\microsoft sql server\\mssql\\log"]),
        owner_hint: "SQL Server",
        },
        StaticRule {
        id: "user_vss_backup",
        category: FileCategory::BackupData,
        importance: FileImportance::Optional,
        matcher: RuleMatcher::Prefix(vec!["c:\\system volume information"]),
        owner_hint: "VSS",
        },
        StaticRule {
        id: "user_backup_bak",
        category: FileCategory::GenericBackup,
        importance: FileImportance::Optional,
        matcher: RuleMatcher::Extension(vec![".bak"]),
        owner_hint: "备份文件",
        },
        StaticRule {
        id: "user_diagtrack",
        category: FileCategory::WindowsTelemetry,
        importance: FileImportance::Optional,
        matcher: RuleMatcher::Fragment(vec!["\\microsoft\\diagnostics\\"]),
        owner_hint: "Windows 诊断",
        },
        StaticRule {
        id: "user_sqm_data",
        category: FileCategory::WindowsTelemetry,
        importance: FileImportance::Optional,
        matcher: RuleMatcher::Fragment(vec!["\\microsoft\\sqm\\"]),
        owner_hint: "SQM",
        },
        StaticRule {
        id: "dir_temp_cache",
        category: FileCategory::GenericCache,
        importance: FileImportance::Optional,
        matcher: RuleMatcher::Component(vec!["temp", "tmp", "cache", "caches"]),
        owner_hint: "通用缓存",
        },
    ];
    assert(rule_views(rules@) =~~= build_rule_views());
    rules
}

/// General directory rules for further browsers, IDEs, environments and media tools.
pub open spec fn general_rule_views() -> Seq<RuleView> {
    seq![
        RuleView {
            id: "user_safari_cache",
            category: FileCategory::BrowserCache,
            importance: FileImportance::Optional,
            matcher: MatcherView::Fragment(seq!["\\safari\\"]),
            owner_hint: "Safari",
        },
        RuleView {
            id: "user_operagx_cache",
            category: FileCategory::BrowserCache,
            importance: FileImportance::Optional,
            matcher: MatcherView::Fragment(seq!["\\opera gx\\"]),
            owner_hint: "Opera GX",
        },
        RuleView {
            id: "user_firefox_dev_cache",
            category: FileCategory::BrowserCache,
            importance: FileImportance::Optional,
            matcher: MatcherView::Fragment(seq!["\\firefox developer edition\\"]),
            owner_hint: "Firefox Dev",
        },
        RuleView {
            id: "user_chrome_dev_cache",
            category: FileCategory::BrowserCache,
            importance: FileImportance::Optional,
            matcher: MatcherView::Fragment(seq!["\\google\\chrome dev\\", "\\google\\chrome canary\\"]),
            owner_hint: "Chrome Dev/Canary",
        },
        RuleView {
            id: "user_edge_dev_cache",
            category: FileCategory::BrowserCache,
            importance: FileImportance::Optional,
            matcher: MatcherView::Fragment(seq!["\\microsoft\\edge dev\\", "\\microsoft\\edge beta\\", "\\microsoft\\edge canary\\"]),
            owner_hint: "Edge Dev/Beta/Canary",
        },
        RuleView {
            id: "user_eclipse_cache",
            category: FileCategory::IDECache,
            importance: FileImportance::Optional,
            matcher: MatcherView::Fragment(seq!["\\eclipse\\"]),
            owner_hint: "Eclipse",
        },
        RuleView {
            id: "user_netbeans_cache",
            category: FileCategory::IDECache,
            importance: FileImportance::Optional,
            matcher: MatcherView::Fragment(seq!["\\netbeans\\"]),
            owner_hint: "NetBeans",
        },
        RuleView {
            id: "user_intellij_system",
            category: FileCategory::IDECache,
            importance: FileImportance::Optional,
            matcher: MatcherView::Fragment(seq!["\\intellijdea"]),
            owner_hint: "IntelliJ IDEA",
        },
        RuleView {
            id: "user_vs_cache",
            category: FileCategory::IDECache,
            importance: FileImportance::Optional,
            matcher: MatcherView::Fragment(seq!["\\microsoft\\visualstudio\\"]),
            owner_hint: "Visual Studio",
        },
        RuleView {
            id: "user_tox_env",
            category: FileCategory::BuildArtifact,
            importance: FileImportance::Optional,
            matcher: MatcherView::Component(seq![".tox"]),
            owner_hint: "tox",
        },
        RuleView {
            id: "user_venv",
            category: FileCategory::BuildArtifact,
            importance: FileImportance::Optional,
            matcher: MatcherView::Component(seq![".venv", "venv"]),
            owner_hint: "Python venv",
        },
        RuleView {
            id: "user_pytest_cache",
            category: FileCategory::BuildArtifact,
            importance: FileImportance::Optional,
            matcher: MatcherView::Component(seq![".pytest_cache"]),
            owner_hint: "pytest",
        },
        RuleView {
            id: "user_mypy_cache",
            category: FileCategory::BuildArtifact,
            importance: FileImportance::Optional,
            matcher: MatcherView::Component(seq![".mypy_cache"]),
            owner_hint: "mypy",
        },
        RuleView {
            id: "user_coverage_data",
            category: FileCategory::BuildArtifact,
            importance: FileImportance::Optional,
            matcher: MatcherView::Component(seq![".coverage", "htmlcov", ".nyc_output"]),
            owner_hint: "Coverage",
        },
        RuleView {
            id: "user_go_build_cache",
            category: FileCategory::BuildArtifact,
            importance: FileImportance::Optional,
            matcher: MatcherView::Fragment(seq!["\\go-build"]),
            owner_hint: "Go",
        },
        RuleView {
            id: "user_rust_target",
            category: FileCategory::BuildArtifact,
            importance: FileImportance::Optional,
            matcher: MatcherView::Component(seq!["target"]),
            owner_hint: "Rust",
        },
        RuleView {
            id: "user_blender_cache",
            category: FileCategory::MediaCache,
            importance: FileImportance::Optional,
            matcher: MatcherView::Fragment(seq!["\\blender\\"]),
            owner_hint: "Blender",
        },
        RuleView {
            id: "user_resolve_cache",
            category: FileCategory::MediaCache,
            importance: FileImportance::Optional,
            matcher: MatcherView::Fragment(seq!["\\blackmagic design\\davinci resolve\\"]),
            owner_hint: "DaVinci Resolve",
        },
        RuleView {
            id: "user_fcp_cache",
            category: FileCategory::MediaCache,
            importance: FileImportance::Optional,
            matcher: MatcherView::Fragment(seq!["\\final cut pro"]),
            owner_hint: "Final Cut Pro",
        },
        RuleView {
            id: "user_ae_cache",
            category: FileCategory::MediaCache,
            importance: FileImportance::Optional,
            matcher: MatcherView::Fragment(seq!["\\adobe\\after effects\\"]),
            owner_hint: "After Effects",
        },
        RuleView {
            id: "user_lightroom_cache",
            category: FileCategory::MediaCache,
            importance: FileImportance::Optional,
            matcher: MatcherView::Fragment(seq!["\\adobe\\lightroom"]),
            owner_hint: "Lightroom",
        },
        RuleView {
            id: "user_obs_cache",
            category: FileCategory::StreamingCache,
            importance: FileImportance::Optional,
            matcher: MatcherView::Fragment(seq!["\\obs-studio\\"]),
            owner_hint: "OBS Studio",
        },
    ]
}

/// General directory rules for further browsers, IDEs, environments and media tools.
fn general_rules() -> (rules: Vec<StaticRule>)
    ensures
        rule_views(rules@) == general_rule_views(),
{
    let rules: Vec<StaticRule> = vec![
        StaticRule {
        id: "user_safari_cache",
        category: FileCategory::BrowserCache,
        importance: FileImportance::Optional,
        matcher: RuleMatcher::Fragment(vec!["\\safari\\"]),
        owner_hint: "Safari",
        },
        StaticRule {
        id: "user_operagx_cache",
        category: FileCategory::BrowserCache,
        importance: FileImportance::Optional,
        matcher: RuleMatcher::Fragment(vec!["\\opera gx\\"]),
        owner_hint: "Opera GX",
        },
        StaticRule {
        id: "user_firefox_dev_cache",
        category: FileCategory::BrowserCache,
        importance: FileImportance::Optional,
        matcher: RuleMatcher::Fragment(vec!["\\firefox developer edition\\"]),
        owner_hint: "Firefox Dev",
        },
        StaticRule {
        id: "user_chrome_dev_cache",
        category: FileCategory::BrowserCache,
        importance: FileImportance::Optional,
        matcher: RuleMatcher::Fragment(vec!["\\google\\chrome dev\\", "\\google\\chrome canary\\"]),
        owner_hint: "Chrome Dev/Canary",
        },
        StaticRule {
        id: "user_edge_dev_cache",
        category: FileCategory::BrowserCache,
        importance: FileImportance::Optional,
        matcher: RuleMatcher::Fragment(vec!["\\microsoft\\edge dev\\", "\\microsoft\\edge beta\\", "\\microsoft\\edge canary\\"]),
        owner_hint: "Edge Dev/Beta/Canary",
        },
        StaticRule {
        id: "user_eclipse_cache",
        category: FileCategory::IDECache,
        importance: FileImportance::Optional,
        matcher: RuleMatcher::Fragment(vec!["\\eclipse\\"]),
        owner_hint: "Eclipse",
        },
        StaticRule {
        id: "user_netbeans_cache",
        category: FileCategory::IDECache,
        importance: FileImportance::Optional,
        matcher: RuleMatcher::Fragment(vec!["\\netbeans\\"]),
        owner_hint: "NetBeans",
        },
        StaticRule {
        id: "user_intellij_system",
        category: FileCategory::IDECache,
        importance: FileImportance::Optional,
        matcher: RuleMatcher::Fragment(vec!["\\intellijdea"]),
        owner_hint: "IntelliJ IDEA",
        },
        StaticRule {
        id: "user_vs_cache",
        category: FileCategory::IDECache,
        importance: FileImportance::Optional,
        matcher: RuleMatcher::Fragment(vec!["\\microsoft\\visualstudio\\"]),
        owner_hint: "Visual Studio",
        },
        StaticRule {
        id: "user_tox_env",
        category: FileCategory::BuildArtifact,
        importance: FileImportance::Optional,
        matcher: RuleMatcher::Component(vec![".tox"]),
        owner_hint: "tox",
        },
        StaticRule {
        id: "user_venv",
        category: FileCategory::BuildArtifact,
        importance: FileImportance::Optional,
        matcher: RuleMatcher::Component(vec![".venv", "venv"]),
        owner_hint: "Python venv",
        },
        StaticRule {
        id: "user_pytest_cache",
        category: FileCategory::BuildArtifact,
        importance: FileImportance::Optional,
        matcher: RuleMatcher::Component(vec![".pytest_cache"]),
        owner_hint: "pytest",
        },
        StaticRule {
        id: "user_mypy_cache",
        category: FileCategory::BuildArtifact,
        importance: FileImportance::Optional,
        matcher: RuleMatcher::Component(vec![".mypy_cache"]),
        owner_hint: "mypy",
        },
        StaticRule {
        id: "user_coverage_data",
        category: FileCategory::BuildArtifact,
        importance: FileImportance::Optional,
        matcher: RuleMatcher::Component(vec![".coverage", "htmlcov", ".nyc_output"]),
        owner_hint: "Coverage",
        },
        StaticRule {
        id: "user_go_build_cache",
        category: FileCategory::BuildArtifact,
        importance: FileImportance::Optional,
        matcher: RuleMatcher::Fragment(vec!["\\go-build"]),
        owner_hint: "Go",
        },
        StaticRule {
        id: "user_rust_target",
        category: FileCategory::BuildArtifact,
        importance: FileImportance::Optional,
        matcher: RuleMatcher::Component(vec!["target"]),
        owner_hint: "Rust",
        },
        StaticRule {
        id: "user_blender_cache",
        category: FileCategory::MediaCache,
        importance: FileImportance::Optional,
        matcher: RuleMatcher::Fragment(vec!["\\blender\\"]),
        owner_hint: "Blender",
        },
        StaticRule {
        id: "user_resolve_cache",
        category: FileCategory::MediaCache,
        importance: FileImportance::Optional,
        matcher: RuleMatcher::Fragment(vec!["\\blackmagic design\\davinci resolve\\"]),
        owner_hint: "DaVinci Resolve",
        },
        StaticRule {
        id: "user_fcp_cache",
        category: FileCategory::MediaCache,
        importance: FileImportance::Optional,
        matcher: RuleMatcher::Fragment(vec!["\\final cut pro"]),
        owner_hint: "Final Cut Pro",
        },
        StaticRule {
        id: "user_ae_cache",
        category: FileCategory::MediaCache,
        importance: FileImportance::Optional,
        matcher: RuleMatcher::Fragment(vec!["\\adobe\\after effects\\"]),
        owner_hint: "After Effects",
        },
        StaticRule {
        id: "user_lightroom_cache",
        category: FileCategory::MediaCache,
        importance: FileImportance::Optional,
        matcher: RuleMatcher::Fragment(vec!["\\adobe\\lightroom"]),
        owner_hint: "Lightroom",
        },
        StaticRule {
        id: "user_obs_cache",
        category: FileCategory::StreamingCache,
        importance: FileImportance::Optional,
        matcher: RuleMatcher::Fragment(vec!["\\obs-studio\\"]),
        owner_hint: "OBS Studio",
        },
    ];
    assert(rule_views(rules@) =~~= general_rule_views());
    rules
}

/// Last resorts: extensions, further application caches, memory dumps and crash logs.
pub open spec fn fallback_rule_views() -> Seq<RuleView> {
    seq![
        RuleView {
            id: "ext_tempfile",
            category: FileCategory::GenericTemp,
            importance: FileImportance::Disposable,
            matcher: MatcherView::Extension(seq![".tmp", ".temp", ".~tmp", ".~temp"]),
            owner_hint: "临时文件",
        },
        RuleView {
            id: "ext_logfile",
            category: FileCategory::GenericLog,
            importance: FileImportance::Optional,
            matcher: MatcherView::Extension(seq![".log", ".out", ".err"]),
            owner_hint: "日志文件",
        },
        RuleView {
            id: "ext_backupfile",
            category: FileCategory::GenericBackup,
            importance: FileImportance::Optional,
            matcher: MatcherView::Extension(seq![".bak", ".old", ".orig", ".backup", ".save"]),
            owner_hint: "备份文件",
        },
        RuleView {
            id: "ext_cachefile",
            category: FileCategory::GenericCache,
            importance: FileImportance::Optional,
            matcher: MatcherView::Extension(seq![".cache", ".cached"]),
            owner_hint: "缓存文件",
        },
        RuleView {
            id: "ext_download_frag",
            category: FileCategory::GenericFragment,
            importance: FileImportance::Disposable,
            matcher: MatcherView::Extension(seq![".crdownload", ".part", ".partial", ".download", ".tmpdownload"]),
            owner_hint: "下载碎片",
        },
        RuleView {
            id: "ext_installer",
            category: FileCategory::GenericInstaller,
            importance: FileImportance::Optional,
            matcher: MatcherView::Extension(seq![".msi", ".msix", ".msp", ".exe", ".zip", ".rar", ".7z", ".tar.gz"]),
            owner_hint: "安装包",
        },
        RuleView {
            id: "user_electron_app_cache",
            category: FileCategory::AppCache,
            importance: FileImportance::Optional,
            matcher: MatcherView::Component(seq!["cache", "cacheddata", "code cache"]),
            owner_hint: "Electron 应用",
        },
        RuleView {
            id: "user_xbox_cache",
            category: FileCategory::GameCache,
            importance: FileImportance::Optional,
            matcher: MatcherView::Fragment(seq!["\\xbox\\"]),
            owner_hint: "Xbox",
        },
        RuleView {
            id: "user_gog_cache",
            category: FileCategory::GameCache,
            importance: FileImportance::Optional,
            matcher: MatcherView::Fragment(seq!["\\gog galaxy\\"]),
            owner_hint: "GOG Galaxy",
        },
        RuleView {
            id: "user_ubisoft_cache",
            category: FileCategory::GameCache,
            importance: FileImportance::Optional,
            matcher: MatcherView::Fragment(seq!["\\ubisoft\\", "\\ubisoft game launcher\\"]),
            owner_hint: "Ubisoft Connect",
        },
        RuleView {
            id: "user_rockstar_cache",
            category: FileCategory::GameCache,
            importance: FileImportance::Optional,
            matcher: MatcherView::Fragment(seq!["\\rockstar games\\"]),
            owner_hint: "Rockstar Games",
        },
        RuleView {
            id: "user_dropbox_offline",
            category: FileCategory::CloudSyncLocal,
            importance: FileImportance::Optional,
            matcher: MatcherView::Fragment(seq!["\\dropbox\\"]),
            owner_hint: "Dropbox",
        },
        RuleView {
            id: "user_gdrive_offline",
            category: FileCategory::CloudSyncLocal,
            importance: FileImportance::Optional,
            matcher: MatcherView::Fragment(seq!["\\google\\drive"]),
            owner_hint: "Google Drive",
        },
        RuleView {
            id: "user_onedrive_offline",
            category: FileCategory::CloudSyncLocal,
            importance: FileImportance::Optional,
            matcher: MatcherView::Fragment(seq!["\\microsoft\\onedrive\\"]),
            owner_hint: "OneDrive",
        },
        RuleView {
            id: "user_notion_cache2",
            category: FileCategory::AppCache,
            importance: FileImportance::Optional,
            matcher: MatcherView::Fragment(seq!["\\notion\\"]),
            owner_hint: "Notion",
        },
        RuleView {
            id: "user_figma_cache",
            category: FileCategory::AppCache,
            importance: FileImportance::Optional,
            matcher: MatcherView::Fragment(seq!["\\figma\\"]),
            owner_hint: "Figma",
        },
        RuleView {
            id: "system_memory_dump",
            category: FileCategory::MemoryDump,
            importance: FileImportance::Optional,
            matcher: MatcherView::Prefix(seq!["c:\\windows\\minidump"]),
            owner_hint: "Windows 内存转储",
        },
        RuleView {
            id: "system_livekernel_reports",
            category: FileCategory::MemoryDump,
            importance: FileImportance::Optional,
            matcher: MatcherView::Prefix(seq!["c:\\windows\\livekernelreports"]),
            owner_hint: "Windows LiveKernelReports",
        },
        RuleView {
            id: "system_wer_localdumps",
            category: FileCategory::ErrorReport,
            importance: FileImportance::Optional,
            matcher: MatcherView::Fragment(seq!["\\wer\\localdumps"]),
            owner_hint: "Windows Error Reporting",
        },
        RuleView {
            id: "user_app_crash_logs",
            category: FileCategory::ErrorReport,
            importance: FileImportance::Optional,
            matcher: MatcherView::Component(seq!["crashdumps", "crashes"]),
            owner_hint: "应用崩溃日志",
        },
    ]
}

/// Last resorts: extensions, further application caches, memory dumps and crash logs.
fn fallback_rules() -> (rules: Vec<StaticRule>)
    ensures
        rule_views(rules@) == fallback_rule_views(),
{
    let rules: Vec<StaticRule> = vec![
        StaticRule {
        id: "ext_tempfile",
        category: FileCategory::GenericTemp,
        importance: FileImportance::Disposable,
        matcher: RuleMatcher::Extension(vec![".tmp", ".temp", ".~tmp", ".~temp"]),
        owner_hint: "临时文件",
        },
        StaticRule {
        id: "ext_logfile",
        category: FileCategory::GenericLog,
        importance: FileImportance::Optional,
        matcher: RuleMatcher::Extension(vec![".log", ".out", ".err"]),
        owner_hint: "日志文件",
        },
        StaticRule {
        id: "ext_backupfile",
        category: FileCategory::GenericBackup,
        importance: FileImportance::Optional,
        matcher: RuleMatcher::Extension(vec![".bak", ".old", ".orig", ".backup", ".save"]),
        owner_hint: "备份文件",
        },
        StaticRule {
        id: "ext_cachefile",
        category: FileCategory::GenericCache,
        importance: FileImportance::Optional,
        matcher: RuleMatcher::Extension(vec![".cache", ".cached"]),
        owner_hint: "缓存文件",
        },
        StaticRule {
        id: "ext_download_frag",
        category: FileCategory::GenericFragment,
        importance: FileImportance::Disposable,
        matcher: RuleMatcher::Extension(vec![".crdownload", ".part", ".partial", ".download", ".tmpdownload"]),
        owner_hint: "下载碎片",
        },
        StaticRule {
        id: "ext_installer",
        category: FileCategory::GenericInstaller,
        importance: FileImportance::Optional,
        matcher: RuleMatcher::Extension(vec![".msi", ".msix", ".msp", ".exe", ".zip", ".rar", ".7z", ".tar.gz"]),
        owner_hint: "安装包",
        },
        StaticRule {
        id: "user_electron_app_cache",
        category: FileCategory::AppCache,
        importance: FileImportance::Optional,
        matcher: RuleMatcher::Component(vec!["cache", "cacheddata", "code cache"]),
        owner_hint: "Electron 应用",
        },
        StaticRule {
        id: "user_xbox_cache",
        category: FileCategory::GameCache,
        importance: FileImportance::Optional,
        matcher: RuleMatcher::Fragment(vec!["\\xbox\\"]),
        owner_hint: "Xbox",
        },
        StaticRule {
        id: "user_gog_cache",
        category: FileCategory::GameCache,
        importance: FileImportance::Optional,
        matcher: RuleMatcher::Fragment(vec!["\\gog galaxy\\"]),
        owner_hint: "GOG Galaxy",
        },
        StaticRule {
        id: "user_ubisoft_cache",
        category: FileCategory::GameCache,
        importance: FileImportance::Optional,
        matcher: RuleMatcher::Fragment(vec!["\\ubisoft\\", "\\ubisoft game launcher\\"]),
        owner_hint: "Ubisoft Connect",
        },
        StaticRule {
        id: "user_rockstar_cache",
        category: FileCategory::GameCache,
        importance: FileImportance::Optional,
        matcher: RuleMatcher::Fragment(vec!["\\rockstar games\\"]),
        owner_hint: "Rockstar Games",
        },
        StaticRule {
        id: "user_dropbox_offline",
        category: FileCategory::CloudSyncLocal,
        importance: FileImportance::Optional,
        matcher: RuleMatcher::Fragment(vec!["\\dropbox\\"]),
        owner_hint: "Dropbox",
        },
        StaticRule {
        id: "user_gdrive_offline",
        category: FileCategory::CloudSyncLocal,
        importance: FileImportance::Optional,
        matcher: RuleMatcher::Fragment(vec!["\\google\\drive"]),
        owner_hint: "Google Drive",
        },
        StaticRule {
        id: "user_onedrive_offline",
        category: FileCategory::CloudSyncLocal,
        importance: FileImportance::Optional,
        matcher: RuleMatcher::Fragment(vec!["\\microsoft\\onedrive\\"]),
        owner_hint: "OneDrive",
        },
        StaticRule {
        id: "user_notion_cache2",
        category: FileCategory::AppCache,
        importance: FileImportance::Optional,
        matcher: RuleMatcher::Fragment(vec!["\\notion\\"]),
        owner_hint: "Notion",
        },
        StaticRule {
        id: "user_figma_cache",
        category: FileCategory::AppCache,
        importance: FileImportance::Optional,
        matcher: RuleMatcher::Fragment(vec!["\\figma\\"]),
        owner_hint: "Figma",
        },
        StaticRule {
        id: "system_memory_dump",
        category: FileCategory::MemoryDump,
        importance: FileImportance::Optional,
        matcher: RuleMatcher::Prefix(vec!["c:\\windows\\minidump"]),
        owner_hint: "Windows 内存转储",
        },
        StaticRule {
        id: "system_livekernel_reports",
        category: FileCategory::MemoryDump,
        importance: FileImportance::Optional,
        matcher: RuleMatcher::Prefix(vec!["c:\\windows\\livekernelreports"]),
        owner_hint: "Windows LiveKernelReports",
        },
        StaticRule {
        id: "system_wer_localdumps",
        category: FileCategory::ErrorReport,
        importance: FileImportance::Optional,
        matcher: RuleMatcher::Fragment(vec!["\\wer\\localdumps"]),
        owner_hint: "Windows Error Reporting",
        },
        StaticRule {
        id: "user_app_crash_logs",
        category: FileCategory::ErrorReport,
        importance: FileImportance::Optional,
        matcher: RuleMatcher::Component(vec!["crashdumps", "crashes"]),
        owner_hint: "应用崩溃日志",
        },
    ];
    assert(rule_views(rules@) =~~= fallback_rule_views());
    rules
}

/// The complete rule table in order: the first rule that recognises a path decides, so a
/// more specific rule stands before a more general one.
pub open spec fn rule_table() -> Seq<RuleView> {
    kernel_rule_views()
        + runtime_rule_views()
        + user_cache_rule_views()
        + extension_rule_views()
        + application_rule_views()
        + machine_rule_views()
        + developer_rule_views()
        + build_rule_views()
        + general_rule_views()
        + fallback_rule_views()
}

/// The complete rule set, most specific first.
fn build_all_rules() -> (rules: Vec<StaticRule>)
    ensures
        rule_views(rules@) == rule_table(),
{
    let mut rules = kernel_rules();
    let mut part = runtime_rules();
    proof {
        lemma_rule_views_concat(rules@, part@);
    }
    rules.append(&mut part);
    let mut part = user_cache_rules();
    proof {
        lemma_rule_views_concat(rules@, part@);
    }
    rules.append(&mut part);
    let mut part = extension_rules();
    proof {
        lemma_rule_views_concat(rules@, part@);
    }
    rules.append(&mut part);
    let mut part = application_rules();
    proof {
        lemma_rule_views_concat(rules@, part@);
    }
    rules.append(&mut part);
    let mut part = machine_rules();
    proof {
        lemma_rule_views_concat(rules@, part@);
    }
    rules.append(&mut part);
    let mut part = developer_rules();
    proof {
        lemma_rule_views_concat(rules@, part@);
    }
    rules.append(&mut part);
    let mut part = build_rules();
    proof {
        lemma_rule_views_concat(rules@, part@);
    }
    rules.append(&mut part);
    let mut part = general_rules();
    proof {
        lemma_rule_views_concat(rules@, part@);
    }
    rules.append(&mut part);
    let mut part = fallback_rules();
    proof {
        lemma_rule_views_concat(rules@, part@);
    }
    rules.append(&mut part);
    rules
}


/// A rule with a single prefix recognises exactly the paths under that prefix.
proof fn lemma_single_prefix_rule(r: StaticRule, p: &'static str, path: Seq<char>)
    requires
        r.matcher@ == MatcherView::Prefix(seq![p]),
    ensures
        r.matcher.spec_matches(path) <==> spec_path_matches_prefix(normalize(path), p@),
{
    match r.matcher {
        RuleMatcher::Prefix(v) => {
            let l = lits(v@);
            assert(v@ =~= seq![p]);
            assert(l.len() == 1 && l[0] == p@);
            let pred = prefix_pred(normalize(path));
            assert(l.drop_first().len() == 0);
            assert(first_hit(l.drop_first(), pred) == -1);
        },
        _ => {},
    }
}

/// A path in the drivers directory of System32 is decided by the drivers rule, which
/// stands before the rule for System32 as a whole.
pub proof fn lemma_drivers_rule_decides(rules: Seq<StaticRule>, path: Seq<char>)
    requires
        rule_views(rules) == rule_table(),
        spec_path_matches_prefix(normalize(path), "c:\\windows\\system32\\drivers"@),
    ensures
        first_rule(rules, path) >= 0,
        rules[first_rule(rules, path)]@ == kernel_rule_views()[0],
        rules[first_rule(rules, path)].id == "kernel_drivers",
        rules[first_rule(rules, path)].category == FileCategory::SystemDriver,
{
    assert(rules.len() == rule_table().len());
    assert(rules.len() > 0);
    assert(rule_views(rules)[0] == rules[0]@);
    assert(rule_table()[0] == kernel_rule_views()[0]);
    lemma_single_prefix_rule(rules[0], "c:\\windows\\system32\\drivers", path);
}

/// A path under one prefix is under no prefix that differs from it within both.
proof fn lemma_prefixes_differ(norm: Seq<char>, p: Seq<char>, q: Seq<char>, i: int)
    requires
        spec_path_matches_prefix(norm, q),
        0 <= i < p.len(),
        i < q.len(),
        p[i] != q[i],
    ensures
        !spec_path_matches_prefix(norm, p),
{
    if norm != q {
        assert(norm.subrange(0, q.len() as int)[i] == norm[i]);
    }
    if spec_path_matches_prefix(norm, p) && norm != p {
        assert(norm.subrange(0, p.len() as int)[i] == norm[i]);
    }
}

/// A path in the Windows temporary directory is decided by the system-temp rule: none of
/// the rules before it recognises such a path.
pub proof fn lemma_windows_temp_rule_decides(rules: Seq<StaticRule>, path: Seq<char>)
    requires
        rule_views(rules) == rule_table(),
        spec_path_matches_prefix(normalize(path), "c:\\windows\\temp"@),
    ensures
        first_rule(rules, path) >= 0,
        rules[first_rule(rules, path)].id == "runtime_system_temp",
        rules[first_rule(rules, path)].category == FileCategory::SystemTemp,
        rules[first_rule(rules, path)].importance == FileImportance::Disposable,
{
    let norm = normalize(path);
    let temp = "c:\\windows\\temp"@;
    reveal_strlit("c:\\windows\\temp");
    reveal_strlit("c:\\windows\\system32\\drivers");
    reveal_strlit("c:\\windows\\system32\\driverstore");
    reveal_strlit("c:\\windows\\system32\\spool");
    reveal_strlit("c:\\windows\\system32");
    reveal_strlit("c:\\windows\\syswow64");
    reveal_strlit("c:\\windows\\winsxs");
    reveal_strlit("c:\\windows\\installer");
    reveal_strlit("c:\\windows\\boot");
    reveal_strlit("c:\\windows\\softwaredistribution\\download");
    reveal_strlit("c:\\windows\\softwaredistribution\\deliveryoptimization");
    assert(rules.len() == rule_table().len());
    assert(rules[0]@ == rule_table()[0]);
    assert(rules[0].matcher@ == rules[0]@.matcher);
    lemma_single_prefix_rule(rules[0], "c:\\windows\\system32\\drivers", path);
    lemma_prefixes_differ(norm, "c:\\windows\\system32\\drivers"@, temp, 11);
    assert(rules[1]@ == rule_table()[1]);
    assert(rules[1].matcher@ == rules[1]@.matcher);
    lemma_single_prefix_rule(rules[1], "c:\\windows\\system32\\driverstore", path);
    lemma_prefixes_differ(norm, "c:\\windows\\system32\\driverstore"@, temp, 11);
    assert(rules[2]@ == rule_table()[2]);
    assert(rules[2].matcher@ == rules[2]@.matcher);
    lemma_single_prefix_rule(rules[2], "c:\\windows\\system32\\spool", path);
    lemma_prefixes_differ(norm, "c:\\windows\\system32\\spool"@, temp, 11);
    assert(rules[3]@ == rule_table()[3]);
    assert(rules[3].matcher@ == rules[3]@.matcher);
    lemma_single_prefix_rule(rules[3], "c:\\windows\\system32", path);
    lemma_prefixes_differ(norm, "c:\\windows\\system32"@, temp, 11);
    assert(rules[4]@ == rule_table()[4]);
    assert(rules[4].matcher@ == rules[4]@.matcher);
    lemma_single_prefix_rule(rules[4], "c:\\windows\\syswow64", path);
    lemma_prefixes_differ(norm, "c:\\windows\\syswow64"@, temp, 11);
    assert(rules[5]@ == rule_table()[5]);
    assert(rules[5].matcher@ == rules[5]@.matcher);
    lemma_single_prefix_rule(rules[5], "c:\\windows\\winsxs", path);
    lemma_prefixes_differ(norm, "c:\\windows\\winsxs"@, temp, 11);
    assert(rules[6]@ == rule_table()[6]);
    assert(rules[6].matcher@ == rules[6]@.matcher);
    lemma_single_prefix_rule(rules[6], "c:\\windows\\installer", path);
    lemma_prefixes_differ(norm, "c:\\windows\\installer"@, temp, 11);
    assert(rules[7]@ == rule_table()[7]);
    assert(rules[7].matcher@ == rules[7]@.matcher);
    lemma_single_prefix_rule(rules[7], "c:\\windows\\boot", path);
    lemma_prefixes_differ(norm, "c:\\windows\\boot"@, temp, 11);
    assert(rules[8]@ == rule_table()[8]);
    assert(rules[8].matcher@ == rules[8]@.matcher);
    lemma_single_prefix_rule(rules[8], "c:\\windows\\softwaredistribution\\download", path);
    lemma_prefixes_differ(norm, "c:\\windows\\softwaredistribution\\download"@, temp, 11);
    assert(rules[9]@ == rule_table()[9]);
    assert(rules[9].matcher@ == rules[9]@.matcher);
    lemma_single_prefix_rule(rules[9], "c:\\windows\\softwaredistribution\\deliveryoptimization", path);
    lemma_prefixes_differ(norm, "c:\\windows\\softwaredistribution\\deliveryoptimization"@, temp, 11);
    assert(rules[10]@ == rule_table()[10]);
    assert(rules[10].matcher@ == rules[10]@.matcher);
    lemma_single_prefix_rule(rules[10], "c:\\windows\\temp", path);
    lemma_first_rule(rules, path, 10);
}

/// A path in System32 outside its drivers, driver-store and spooler directories is decided
/// by the System32 rule: a system binary of the kernel layer.
pub proof fn lemma_system32_rule_decides(rules: Seq<StaticRule>, path: Seq<char>)
    requires
        rule_views(rules) == rule_table(),
        spec_path_matches_prefix(normalize(path), "c:\\windows\\system32"@),
        !spec_path_matches_prefix(normalize(path), "c:\\windows\\system32\\drivers"@),
        !spec_path_matches_prefix(normalize(path), "c:\\windows\\system32\\driverstore"@),
        !spec_path_matches_prefix(normalize(path), "c:\\windows\\system32\\spool"@),
    ensures
        first_rule(rules, path) >= 0,
        rules[first_rule(rules, path)].id == "kernel_system32",
        rules[first_rule(rules, path)].category == FileCategory::SystemBinary,
        rules[first_rule(rules, path)].category.spec_layer() == SystemLayer::Kernel,
{
    assert(rules.len() == rule_table().len());
    assert(rules[0]@ == rule_table()[0]);
    assert(rules[0].matcher@ == rules[0]@.matcher);
    lemma_single_prefix_rule(rules[0], "c:\\windows\\system32\\drivers", path);
    assert(rules[1]@ == rule_table()[1]);
    assert(rules[1].matcher@ == rules[1]@.matcher);
    lemma_single_prefix_rule(rules[1], "c:\\windows\\system32\\driverstore", path);
    assert(rules[2]@ == rule_table()[2]);
    assert(rules[2].matcher@ == rules[2]@.matcher);
    lemma_single_prefix_rule(rules[2], "c:\\windows\\system32\\spool", path);
    assert(rules[3]@ == rule_table()[3]);
    assert(rules[3].matcher@ == rules[3]@.matcher);
    lemma_single_prefix_rule(rules[3], "c:\\windows\\system32", path);
    lemma_first_rule(rules, path, 3);
}

} // verus!

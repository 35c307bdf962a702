//! Cleanup preview: which files look like temporary, log, backup or cache files,
//! which of them are protected, and how much space the rest would free.
use std::sync::Arc;
use vstd::prelude::*;
use crate::engine::static_rules::dotted_ext;
use crate::order::{compare_text_chars, lemma_text_lt_irrefl, lemma_text_lt_trans, text_lt};
use crate::sorted::{
    insert_pos, insert_sorted, irreflexive, is_sorted, lemma_insert_pos, lemma_insert_sorted_sorted,
    transitive,
};
use crate::text::{chars_of, lower_seq, push_all, push_lit, slice_copy, starts_with, starts_with_chars, str_eq, string_from_chars, to_lower};
use crate::winpath::{
    comps, component, extension_chars, first_component_in, has_component_in, has_component_in_exec,
    in_lits, lits, normalize, normalize_chars, parent, parent_chars, path_starts_with,
    path_order_chars, path_order_text, path_starts_with_chars, runs,
};

verus! {

/// Where to look for cleanup candidates.
#[derive(Debug, Clone)]
pub struct CleanupPreviewOptions {
    pub root: String,
}

/// Progress or completion of a preview.
#[derive(Debug, Clone)]
pub enum CleanupPreviewEvent {
    Progress(CleanupPreviewProgress),
    Finished(CleanupPreviewFinished),
}

#[derive(Debug, Clone)]
pub struct CleanupPreviewProgress {
    pub preview: Arc<CleanupPreview>,
    pub current_path: Option<String>,
    pub finished: bool,
    pub cancelled: bool,
}

#[derive(Debug, Clone)]
pub struct CleanupPreviewFinished {
    pub preview: Arc<CleanupPreview>,
    pub cancelled: bool,
}

/// The outcome of a cleanup preview.
#[derive(Debug, Clone)]
pub struct CleanupPreview {
    pub root: String,
    pub total_candidate_size: u64,
    pub reclaimable_size: u64,
    pub protected_size: u64,
    pub candidate_count: u64,
    pub protected_count: u64,
    pub error_count: u64,
    /// The largest candidates, largest first.
    pub candidates: Vec<CleanupCandidate>,
    pub errors: Vec<String>,
}

/// One file that a cleanup rule recognises.
#[derive(Debug, Clone)]
pub struct CleanupCandidate {
    pub path: String,
    pub kind: CleanupCandidateKind,
    pub size: u64,
    /// Modification time in seconds since the epoch.
    pub modified: Option<u64>,
    pub rule_id: &'static str,
    pub rule_label: &'static str,
    pub reason: String,
    pub risk: CleanupRisk,
    pub protected: bool,
}

#[derive(Debug, Clone, Copy, PartialEq, Eq, Structural)]
pub enum CleanupCandidateKind {
    File,
}

impl CleanupCandidateKind {
    pub fn label(self) -> (r: &'static str)
        ensures
            r@ == "文件"@,
    {
        "文件"
    }

    pub fn as_str(self) -> (r: &'static str)
        ensures
            r@ == "file"@,
    {
        "file"
    }
}

#[derive(Debug, Clone, Copy, PartialEq, Eq, Structural)]
pub enum CleanupRisk {
    Low,
    Medium,
}

impl CleanupRisk {
    pub open spec fn spec_rank(self) -> u8 {
        match self {
            CleanupRisk::Low => 0,
            CleanupRisk::Medium => 1,
        }
    }

    /// The name shown for the value.
    pub open spec fn spec_label(self) -> Seq<char> {
        match self {
            CleanupRisk::Low => "低"@,
            CleanupRisk::Medium => "中"@,
        }
    }

    pub fn label(self) -> (r: &'static str)
        ensures
            r@ == self.spec_label(),
    {
        match self {
            CleanupRisk::Low => "低",
            CleanupRisk::Medium => "中",
        }
    }

    pub fn as_str(self) -> (r: &'static str)
        ensures
            r@ == (match self {
                CleanupRisk::Low => "low"@,
                CleanupRisk::Medium => "medium"@,
            }),
    {
        match self {
            CleanupRisk::Low => "low",
            CleanupRisk::Medium => "medium",
        }
    }

    pub fn rank(self) -> (r: u8)
        ensures
            r == self.spec_rank(),
    {
        match self {
            CleanupRisk::Low => 0,
            CleanupRisk::Medium => 1,
        }
    }
}

/// A cleanup rule.
#[derive(Debug, Clone)]
pub struct CleanupRule {
    pub id: &'static str,
    pub label: &'static str,
    pub description: &'static str,
    pub risk: CleanupRisk,
    pub matcher: CleanupMatcher,
}

/// How a cleanup rule recognises a file.
#[derive(Debug, Clone)]
pub enum CleanupMatcher {
    /// The dotted lowercase extension is one of these.
    Extension(Vec<&'static str>),
    /// Some directory of the path is named Temp, Tmp, Cache or Caches.
    TempOrCacheDirectory,
}

/// Retained candidates and errors.
pub const RETAINED_CANDIDATE_LIMIT: usize = 500;
pub const RETAINED_ERROR_LIMIT: usize = 300;

pub open spec fn temp_extensions() -> Seq<Seq<char>> {
    seq![".tmp"@, ".temp"@]
}

pub open spec fn log_dump_extensions() -> Seq<Seq<char>> {
    seq![".log"@, ".dmp"@, ".etl"@]
}

pub open spec fn backup_extensions() -> Seq<Seq<char>> {
    seq![".bak"@, ".old"@]
}

pub open spec fn temp_cache_names() -> Seq<Seq<char>> {
    seq!["temp"@, "tmp"@, "cache"@, "caches"@]
}

/// The default rule set.
pub open spec fn default_rules_hold(r: Seq<CleanupRule>) -> bool {
    &&& r.len() == 4
    &&& r[0].id@ == "temp_extension"@ && r[0].label@ == "临时文件扩展名"@
        && r[0].description@ == "扩展名看起来像临时文件的单个文件。"@ && r[0].risk == CleanupRisk::Low
        && (r[0].matcher matches CleanupMatcher::Extension(e) && lits(e@) == temp_extensions())
    &&& r[1].id@ == "log_dump_extension"@ && r[1].label@ == "日志/转储文件"@
        && r[1].description@ == "常见日志或诊断转储文件。"@ && r[1].risk
        == CleanupRisk::Medium && (r[1].matcher matches CleanupMatcher::Extension(e) && lits(e@)
        == log_dump_extensions())
    &&& r[2].id@ == "backup_extension"@ && r[2].label@ == "备份/旧文件扩展名"@
        && r[2].description@ == "常见备份或旧版本文件。"@ && r[2].risk
        == CleanupRisk::Medium && (r[2].matcher matches CleanupMatcher::Extension(e) && lits(e@)
        == backup_extensions())
    &&& r[3].id@ == "temp_cache_directory"@ && r[3].label@ == "临时/缓存目录中的文件"@
        && r[3].description@ == "路径位于名称明显为 Temp、Tmp、Cache 或 Caches 的目录下。"@ && r[3].risk
        == CleanupRisk::Low && r[3].matcher is TempOrCacheDirectory
}

/// The default rules: temporary extensions, log/dump extensions, backup extensions,
/// and files inside temporary or cache directories.
pub fn default_cleanup_rules() -> (r: Vec<CleanupRule>)
    ensures
        default_rules_hold(r@),
{
    let t = vec![".tmp", ".temp"];
    let l = vec![".log", ".dmp", ".etl"];
    let b = vec![".bak", ".old"];
    assert(lits(t@) =~= temp_extensions());
    assert(lits(l@) =~= log_dump_extensions());
    assert(lits(b@) =~= backup_extensions());
    vec![
        CleanupRule {
            id: "temp_extension",
            label: "临时文件扩展名",
            description: "扩展名看起来像临时文件的单个文件。",
            risk: CleanupRisk::Low,
            matcher: CleanupMatcher::Extension(t),
        },
        CleanupRule {
            id: "log_dump_extension",
            label: "日志/转储文件",
            description: "常见日志或诊断转储文件。",
            risk: CleanupRisk::Medium,
            matcher: CleanupMatcher::Extension(l),
        },
        CleanupRule {
            id: "backup_extension",
            label: "备份/旧文件扩展名",
            description: "常见备份或旧版本文件。",
            risk: CleanupRisk::Medium,
            matcher: CleanupMatcher::Extension(b),
        },
        CleanupRule {
            id: "temp_cache_directory",
            label: "临时/缓存目录中的文件",
            description: "路径位于名称明显为 Temp、Tmp、Cache 或 Caches 的目录下。",
            risk: CleanupRisk::Low,
            matcher: CleanupMatcher::TempOrCacheDirectory,
        },
    ]
}

pub open spec fn library_names() -> Seq<Seq<char>> {
    seq![
        "desktop"@,
        "documents"@,
        "downloads"@,
        "pictures"@,
        "music"@,
        "videos"@,
        "文档"@,
        "桌面"@,
        "图片"@,
        "音乐"@,
        "视频"@,
    ]
}

/// A path is protected from cleanup when it lies under `C:\Windows` (any name starting
/// so), under `C:\Program Files` or `C:\Program Files (x86)`, or inside a user library
/// folder (desktop, documents, downloads, pictures, music, videos).
pub open spec fn spec_is_protected(path: Seq<char>) -> bool {
    let n = normalize(path);
    ||| starts_with(n, "c:\\windows"@)
    ||| starts_with(n, "c:\\program files\\"@) || n == "c:\\program files"@
    ||| starts_with(n, "c:\\program files (x86)\\"@) || n == "c:\\program files (x86)"@
    ||| has_component_in(path, library_names())
}

/// Nothing under `C:\Windows`, `C:\Program Files` or `C:\Program Files (x86)` (in any
/// spelling of case and separators), and nothing inside a user library folder, is ever
/// offered for cleanup as unprotected; everything else is unprotected.
pub proof fn lemma_protected_locations(path: Seq<char>)
    ensures
        (starts_with(normalize(path), "c:\\windows"@) || starts_with(normalize(path), "c:\\program files\\"@)
            || normalize(path) == "c:\\program files"@ || starts_with(normalize(path), "c:\\program files (x86)\\"@)
            || normalize(path) == "c:\\program files (x86)"@) ==> spec_is_protected(path),
        has_component_in(path, seq![
            "desktop"@, "documents"@, "downloads"@, "pictures"@, "music"@, "videos"@,
            "文档"@, "桌面"@, "图片"@, "音乐"@, "视频"@,
        ]) ==> spec_is_protected(path),
        !(starts_with(normalize(path), "c:\\windows"@) || starts_with(normalize(path), "c:\\program files\\"@)
            || normalize(path) == "c:\\program files"@ || starts_with(normalize(path), "c:\\program files (x86)\\"@)
            || normalize(path) == "c:\\program files (x86)"@) && !has_component_in(path, seq![
            "desktop"@, "documents"@, "downloads"@, "pictures"@, "music"@, "videos"@,
            "文档"@, "桌面"@, "图片"@, "音乐"@, "视频"@,
        ]) ==> !spec_is_protected(path),
{
    assert(library_names() =~= seq![
        "desktop"@, "documents"@, "downloads"@, "pictures"@, "music"@, "videos"@,
        "文档"@, "桌面"@, "图片"@, "音乐"@, "视频"@,
    ]);
}

fn library_name_list() -> (r: Vec<&'static str>)
    ensures
        lits(r@) == library_names(),
{
    let r = vec!["desktop", "documents", "downloads", "pictures", "music", "videos", "文档", "桌面", "图片", "音乐", "视频"];
    assert(lits(r@) =~= library_names());
    r
}

/// Whether a path must not be cleaned up.
pub fn is_protected_path(path: &str) -> (b: bool)
    ensures
        b == spec_is_protected(path@),
        b ==> (starts_with(normalize(path@), "c:\\windows"@) || starts_with(normalize(path@), "c:\\program files\\"@)
            || normalize(path@) == "c:\\program files"@ || starts_with(normalize(path@), "c:\\program files (x86)\\"@)
            || normalize(path@) == "c:\\program files (x86)"@) || has_component_in(path@, seq![
            "desktop"@, "documents"@, "downloads"@, "pictures"@, "music"@, "videos"@,
            "文档"@, "桌面"@, "图片"@, "音乐"@, "视频"@,
        ]),
        (starts_with(normalize(path@), "c:\\windows"@) || starts_with(normalize(path@), "c:\\program files\\"@)
            || normalize(path@) == "c:\\program files"@ || starts_with(normalize(path@), "c:\\program files (x86)\\"@)
            || normalize(path@) == "c:\\program files (x86)"@) ==> b,
        has_component_in(path@, seq![
            "desktop"@, "documents"@, "downloads"@, "pictures"@, "music"@, "videos"@,
            "文档"@, "桌面"@, "图片"@, "音乐"@, "视频"@,
        ]) ==> b,
{
    proof {
        lemma_protected_locations(path@);
    }
    let v = chars_of(path);
    let n = normalize_chars(v.as_slice());
    let n = n.as_slice();
    let w = chars_of("c:\\windows");
    let pf = chars_of("c:\\program files\\");
    let pf_root = chars_of("c:\\program files");
    let px = chars_of("c:\\program files (x86)\\");
    let px_root = chars_of("c:\\program files (x86)");
    if starts_with_chars(n, w.as_slice()) || starts_with_chars(n, pf.as_slice())
        || crate::text::chars_eq(n, pf_root.as_slice()) || starts_with_chars(n, px.as_slice())
        || crate::text::chars_eq(n, px_root.as_slice()) {
        return true;
    }
    let libs = library_name_list();
    has_component_in_exec(v.as_slice(), libs.as_slice())
}

/// Index of the first component of `p` named Temp, Tmp, Cache or Caches.
pub open spec fn temp_cache_index(p: Seq<char>) -> int
    recommends
        has_component_in(p, temp_cache_names()),
{
    choose|k: int|
        0 <= k < runs(p).len() && temp_cache_names().contains(lower_seq(#[trigger] component(p, k)))
            && forall|j: int|
            0 <= j < k ==> !temp_cache_names().contains(lower_seq(#[trigger] component(p, j)))
}

impl CleanupRule {
    /// Whether the rule recognises a file.
    pub open spec fn spec_matches(self, path: Seq<char>) -> bool {
        match self.matcher {
            CleanupMatcher::Extension(exts) => dotted_ext(path) matches Some(e) && lits(exts@).contains(e),
            CleanupMatcher::TempOrCacheDirectory => parent(path) matches Some(p) && has_component_in(
                p,
                temp_cache_names(),
            ),
        }
    }

    /// The reason given for a match.
    pub open spec fn spec_reason(self, path: Seq<char>) -> Seq<char> {
        match self.matcher {
            CleanupMatcher::Extension(_) => "扩展名 "@ + dotted_ext(path)->0 + " 命中规则："@
                + self.label@ + "。"@ + self.description@,
            CleanupMatcher::TempOrCacheDirectory => {
                let p = parent(path)->0;
                "位于临时/缓存目录："@ + component(p, temp_cache_index(p)) + "。"@ + self.description@
            },
        }
    }

    /// Whether the rule recognises a file, and why.
    pub fn matches(&self, path: &str) -> (r: Option<String>)
        ensures
            r is Some <==> self.spec_matches(path@),
            r matches Some(reason) ==> reason@ == self.spec_reason(path@),
    {
        let v = chars_of(path);
        match &self.matcher {
            CleanupMatcher::Extension(extensions) => {
                match extension_chars(v.as_slice()) {
                    Some(e) => {
                        let mut ext: Vec<char> = Vec::new();
                        ext.push('.');
                        let low = to_lower(e.as_slice());
                        push_all(&mut ext, low.as_slice());
                        assert(ext@ =~= seq!['.'] + lower_seq(e@));
                        if in_lits(extensions.as_slice(), ext.as_slice()) {
                            let mut reason: Vec<char> = Vec::new();
                            push_lit(&mut reason, "扩展名 ");
                            push_all(&mut reason, ext.as_slice());
                            push_lit(&mut reason, " 命中规则：");
                            push_lit(&mut reason, self.label);
                            push_lit(&mut reason, "。");
                            push_lit(&mut reason, self.description);
                            Some(string_from_chars(reason.as_slice()))
                        } else {
                            None
                        }
                    },
                    None => None,
                }
            },
            CleanupMatcher::TempOrCacheDirectory => {
                match parent_chars(v.as_slice()) {
                    Some(p) => {
                        let names = vec!["temp", "tmp", "cache", "caches"];
                        assert(lits(names@) =~= temp_cache_names());
                        match first_component_in(p.as_slice(), names.as_slice()) {
                            Some((k, _low)) => {
                                let comp = crate::winpath::components_of(p.as_slice());
                                assert(comp@[k as int]@ == component(p@, k as int));
                                proof {
                                    let kk = temp_cache_index(p@);
                                    assert(0 <= kk < runs(p@).len() && temp_cache_names().contains(
                                        lower_seq(component(p@, kk)),
                                    ) && forall|j: int|
                                        0 <= j < kk ==> !temp_cache_names().contains(
                                            lower_seq(#[trigger] component(p@, j)),
                                        ));
                                    if kk < k {
                                    } else if kk > k {
                                    }
                                    assert(kk == k);
                                }
                                let mut reason: Vec<char> = Vec::new();
                                push_lit(&mut reason, "位于临时/缓存目录：");
                                push_all(&mut reason, comp[k].as_slice());
                                push_lit(&mut reason, "。");
                                push_lit(&mut reason, self.description);
                                Some(string_from_chars(reason.as_slice()))
                            },
                            None => None,
                        }
                    },
                    None => None,
                }
            },
        }
    }
}

/// Index of the first rule that recognises the path, or -1.
pub open spec fn first_cleanup_rule(rules: Seq<CleanupRule>, path: Seq<char>) -> int
    decreases rules.len(),
{
    if rules.len() == 0 {
        -1
    } else if rules[0].spec_matches(path) {
        0
    } else {
        let r = first_cleanup_rule(rules.drop_first(), path);
        if r < 0 {
            -1
        } else {
            r + 1
        }
    }
}

proof fn lemma_first_cleanup_rule(rules: Seq<CleanupRule>, path: Seq<char>, i: int)
    requires
        0 <= i <= rules.len(),
        forall|k: int| 0 <= k < i ==> !(#[trigger] rules[k]).spec_matches(path),
        i < rules.len() ==> rules[i].spec_matches(path),
    ensures
        first_cleanup_rule(rules, path) == if i < rules.len() {
            i
        } else {
            -1
        },
    decreases rules.len(),
{
    if rules.len() == 0 {
    } else if i == 0 {
    } else {
        assert(!rules[0].spec_matches(path));
        let ys = rules.drop_first();
        assert forall|k: int| 0 <= k < i - 1 implies !(#[trigger] ys[k]).spec_matches(path) by {
            assert(ys[k] == rules[k + 1]);
        }
        if i < rules.len() {
            assert(ys[i - 1] == rules[i]);
        }
        lemma_first_cleanup_rule(ys, path, i - 1);
    }
}

/// The candidate for a file under `root`: the first rule that recognises it decides the
/// rule, risk and reason; the candidate is marked protected when its path is protected.
/// Files outside `root`, and files no rule recognises, give `None`.
pub fn cleanup_candidate_for_file(
    root: &str,
    path: &str,
    size: u64,
    modified: Option<u64>,
    rules: &[CleanupRule],
) -> (r: Option<CleanupCandidate>)
    ensures
        r is Some <==> (path_starts_with(path@, root@) && first_cleanup_rule(rules@, path@) >= 0),
        r matches Some(c) ==> {
            let rule = rules@[first_cleanup_rule(rules@, path@)];
            &&& c.path@ == path@
            &&& c.kind == CleanupCandidateKind::File
            &&& c.size == size
            &&& c.modified == modified
            &&& c.rule_id == rule.id
            &&& c.rule_label == rule.label
            &&& c.reason@ == rule.spec_reason(path@)
            &&& c.risk == rule.risk
            &&& c.protected == spec_is_protected(path@)
        },
        r matches Some(c) ==> ((starts_with(normalize(path@), "c:\\windows"@) || starts_with(normalize(path@), "c:\\program files\\"@)
            || normalize(path@) == "c:\\program files"@ || starts_with(normalize(path@), "c:\\program files (x86)\\"@)
            || normalize(path@) == "c:\\program files (x86)"@) ==> c.protected),
{
    proof {
        lemma_protected_locations(path@);
    }
    let pv = chars_of(path);
    let rv = chars_of(root);
    if !path_starts_with_chars(pv.as_slice(), rv.as_slice()) {
        return None;
    }
    let mut i: usize = 0;
    while i < rules.len()
        invariant
            i <= rules@.len(),
            path_starts_with(path@, root@),
            forall|k: int| 0 <= k < i ==> !(#[trigger] rules@[k]).spec_matches(path@),
        decreases rules.len() - i,
    {
        match rules[i].matches(path) {
            Some(reason) => {
                proof {
                    lemma_first_cleanup_rule(rules@, path@, i as int);
                }
                let protected = is_protected_path(path);
                return Some(CleanupCandidate {
                    path: String::from_str(path),
                    kind: CleanupCandidateKind::File,
                    size,
                    modified,
                    rule_id: rules[i].id,
                    rule_label: rules[i].label,
                    reason,
                    risk: rules[i].risk,
                    protected,
                });
            },
            None => {},
        }
        i = i + 1;
    }
    proof {
        lemma_first_cleanup_rule(rules@, path@, i as int);
    }
    None
}

/// `a` is ranked before `b`: larger first, then by path, component by component.
pub open spec fn candidate_before(a: CleanupCandidate, b: CleanupCandidate) -> bool {
    a.size > b.size || (a.size == b.size && text_lt(path_order_text(a.path@), path_order_text(b.path@)))
}

pub open spec fn candidate_order() -> spec_fn(CleanupCandidate, CleanupCandidate) -> bool {
    |a: CleanupCandidate, b: CleanupCandidate| candidate_before(a, b)
}

/// The ranking of candidates is a strict order.
pub proof fn lemma_candidate_order()
    ensures
        transitive(candidate_order()),
        irreflexive(candidate_order()),
{
    assert forall|a: CleanupCandidate, b: CleanupCandidate, c: CleanupCandidate|
        #[trigger] candidate_order()(a, b) && #[trigger] candidate_order()(b, c) implies candidate_order()(a, c) by {
        if a.size == b.size && b.size == c.size {
            lemma_text_lt_trans(path_order_text(a.path@), path_order_text(b.path@), path_order_text(c.path@));
        }
    }
    assert forall|a: CleanupCandidate| !#[trigger] candidate_order()(a, a) by {
        lemma_text_lt_irrefl(path_order_text(a.path@));
    }
}

fn candidate_before_exec(a: &CleanupCandidate, b: &CleanupCandidate) -> (r: bool)
    ensures
        r == candidate_before(*a, *b),
{
    if a.size != b.size {
        return a.size > b.size;
    }
    let pa = chars_of(a.path.as_str());
    let pb = chars_of(b.path.as_str());
    let ka = path_order_chars(pa.as_slice());
    let kb = path_order_chars(pb.as_slice());
    compare_text_chars(ka.as_slice(), kb.as_slice()) < 0
}

/// `s` cut to at most `n` elements.
pub open spec fn truncated<T>(s: Seq<T>, n: int) -> Seq<T> {
    if s.len() > n {
        s.take(n)
    } else {
        s
    }
}

/// `min(a + b, u64::MAX)`.
pub open spec fn sat_add(a: u64, b: u64) -> u64 {
    if a + b > u64::MAX {
        u64::MAX
    } else {
        (a + b) as u64
    }
}

/// Running totals of a cleanup preview.
#[derive(Debug, Clone)]
pub struct CleanupPreviewAccumulator {
    pub root: String,
    pub total_candidate_size: u64,
    pub reclaimable_size: u64,
    pub protected_size: u64,
    pub candidate_count: u64,
    pub protected_count: u64,
    pub error_count: u64,
    pub candidates: Vec<CleanupCandidate>,
    pub errors: Vec<String>,
}

impl CleanupPreviewAccumulator {
    /// Retained candidates are ranked and bounded; retained errors are bounded.
    pub open spec fn wf(self) -> bool {
        &&& is_sorted(self.candidates@, candidate_order())
        &&& self.candidates@.len() <= RETAINED_CANDIDATE_LIMIT
        &&& self.errors@.len() <= RETAINED_ERROR_LIMIT
    }

    /// An empty accumulator for `root`.
    pub fn new(root: &str) -> (r: Self)
        ensures
            r.wf(),
            r.root@ == root@,
            r.total_candidate_size == 0,
            r.reclaimable_size == 0,
            r.protected_size == 0,
            r.candidate_count == 0,
            r.protected_count == 0,
            r.error_count == 0,
            r.candidates@.len() == 0,
            r.errors@.len() == 0,
    {
        CleanupPreviewAccumulator {
            root: String::from_str(root),
            total_candidate_size: 0,
            reclaimable_size: 0,
            protected_size: 0,
            candidate_count: 0,
            protected_count: 0,
            error_count: 0,
            candidates: Vec::new(),
            errors: Vec::new(),
        }
    }

    /// Counts a candidate: its size goes to the protected or the reclaimable total, and
    /// it joins the ranked list, which keeps the 500 largest.
    pub fn record_candidate(&mut self, candidate: CleanupCandidate)
        requires
            old(self).wf(),
            old(self).candidate_count < u64::MAX,
            old(self).protected_count < u64::MAX,
        ensures
            final(self).wf(),
            final(self).total_candidate_size == sat_add(old(self).total_candidate_size, candidate.size),
            final(self).candidate_count == old(self).candidate_count + 1,
            candidate.protected ==> final(self).protected_size == sat_add(old(self).protected_size, candidate.size)
                && final(self).protected_count == old(self).protected_count + 1
                && final(self).reclaimable_size == old(self).reclaimable_size,
            !candidate.protected ==> final(self).reclaimable_size == sat_add(old(self).reclaimable_size, candidate.size)
                && final(self).protected_count == old(self).protected_count
                && final(self).protected_size == old(self).protected_size,
            final(self).candidates@ == truncated(
                insert_sorted(old(self).candidates@, candidate, candidate_order()),
                RETAINED_CANDIDATE_LIMIT as int,
            ),
            final(self).root == old(self).root,
            final(self).errors == old(self).errors,
            final(self).error_count == old(self).error_count,
    {
        self.total_candidate_size = self.total_candidate_size.saturating_add(candidate.size);
        self.candidate_count = self.candidate_count + 1;
        if candidate.protected {
            self.protected_size = self.protected_size.saturating_add(candidate.size);
            self.protected_count = self.protected_count + 1;
        } else {
            self.reclaimable_size = self.reclaimable_size.saturating_add(candidate.size);
        }
        let ghost old_list = self.candidates@;
        let mut k: usize = 0;
        let mut found = false;
        while k < self.candidates.len() && !found
            invariant
                k <= self.candidates@.len(),
                self.candidates@ == old_list,
                forall|j: int| 0 <= j < k ==> !candidate_order()(candidate, #[trigger] old_list[j]),
                found ==> k < old_list.len() && candidate_order()(candidate, old_list[k as int]),
            decreases self.candidates.len() - k, if found { 0int } else { 1int },
        {
            if candidate_before_exec(&candidate, &self.candidates[k]) {
                found = true;
            } else {
                k = k + 1;
            }
        }
        proof {
            lemma_insert_pos(old_list, candidate, candidate_order(), k as int);
            lemma_candidate_order();
            lemma_insert_sorted_sorted(old_list, candidate, candidate_order());
        }
        self.candidates.insert(k, candidate);
        assert(self.candidates@ =~= insert_sorted(old_list, candidate, candidate_order()));
        if self.candidates.len() > RETAINED_CANDIDATE_LIMIT {
            self.candidates.truncate(RETAINED_CANDIDATE_LIMIT);
        }
    }

    /// Counts an error; the first 300 messages are kept.
    pub fn record_error(&mut self, message: String)
        requires
            old(self).wf(),
            old(self).error_count < u64::MAX,
        ensures
            final(self).wf(),
            final(self).error_count == old(self).error_count + 1,
            old(self).errors@.len() < RETAINED_ERROR_LIMIT ==> final(self).errors@ == old(self).errors@.push(message),
            old(self).errors@.len() >= RETAINED_ERROR_LIMIT ==> final(self).errors@ == old(self).errors@,
            final(self).candidates == old(self).candidates,
            final(self).total_candidate_size == old(self).total_candidate_size,
            final(self).reclaimable_size == old(self).reclaimable_size,
            final(self).protected_size == old(self).protected_size,
            final(self).candidate_count == old(self).candidate_count,
            final(self).protected_count == old(self).protected_count,
            final(self).root == old(self).root,
    {
        self.error_count = self.error_count + 1;
        if self.errors.len() < RETAINED_ERROR_LIMIT {
            self.errors.push(message);
        }
    }

    /// The preview so far.
    pub fn snapshot(&self) -> (r: CleanupPreview)
        ensures
            r.root == self.root,
            r.total_candidate_size == self.total_candidate_size,
            r.reclaimable_size == self.reclaimable_size,
            r.protected_size == self.protected_size,
            r.candidate_count == self.candidate_count,
            r.protected_count == self.protected_count,
            r.error_count == self.error_count,
            r.candidates@ == self.candidates@,
            r.errors@ == self.errors@,
    {
        CleanupPreview {
            root: self.root.clone(),
            total_candidate_size: self.total_candidate_size,
            reclaimable_size: self.reclaimable_size,
            protected_size: self.protected_size,
            candidate_count: self.candidate_count,
            protected_count: self.protected_count,
            error_count: self.error_count,
            candidates: copy_candidates(&self.candidates),
            errors: crate::text::copy_strings(&self.errors),
        }
    }
}

impl CleanupCandidate {
    /// A copy of the candidate.
    pub fn copy(&self) -> (r: CleanupCandidate)
        ensures
            r == *self,
    {
        CleanupCandidate {
            path: self.path.clone(),
            kind: self.kind,
            size: self.size,
            modified: self.modified,
            rule_id: self.rule_id,
            rule_label: self.rule_label,
            reason: self.reason.clone(),
            risk: self.risk,
            protected: self.protected,
        }
    }
}

/// A copy of a list of candidates.
pub fn copy_candidates(v: &Vec<CleanupCandidate>) -> (r: Vec<CleanupCandidate>)
    ensures
        r@ == v@,
{
    let mut r: Vec<CleanupCandidate> = Vec::new();
    let mut i: usize = 0;
    while i < v.len()
        invariant
            i <= v@.len(),
            r@ == v@.subrange(0, i as int),
        decreases v.len() - i,
    {
        r.push(v[i].copy());
        i = i + 1;
        assert(r@ =~= v@.subrange(0, i as int));
    }
    assert(v@.subrange(0, v@.len() as int) =~= v@);
    r
}

/// Retained candidates stay ranked largest-first whatever is recorded.
pub proof fn lemma_record_keeps_ranking(s: Seq<CleanupCandidate>, c: CleanupCandidate)
    requires
        is_sorted(s, candidate_order()),
    ensures
        is_sorted(truncated(insert_sorted(s, c, candidate_order()), RETAINED_CANDIDATE_LIMIT as int), candidate_order()),
{
    lemma_candidate_order();
    lemma_insert_sorted_sorted(s, c, candidate_order());
}

} // verus!

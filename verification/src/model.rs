//! The scan model: file and directory records, the running totals of a scan, and the
//! directory tree built from them.
use vstd::prelude::*;
use vstd::hash_map::StringHashMap;
use crate::cleanup::{sat_add, truncated};
use crate::order::{
    compare_text_chars, key2_lt, key_lt, lemma_key2_lt, lemma_key2_order, lemma_key_order, lemma_text_key_order,
    lemma_text_lt_total, text_key_lt,
};
use crate::sorted::{
    insert_sorted, is_sorted, lemma_insert_pos, lemma_insert_sorted_sorted, lemma_insert_take, lemma_sort_by,
    lemma_sorted_unique, merge_sort,
    sort_by, strict_weak,
};
use crate::text::{
    chars_of, is_ws, lower_char, lower_seq, push_all, push_lit, str_eq, string_from_chars, to_lower, trim, trim_chars,
    trim_end, trim_start,
};
use crate::winpath::{
    extension, extension_chars, file_name, file_name_chars, last_dot, lemma_parent_shorter, name_extension, parent,
    canon, canonical_chars, parent_chars, path_order_chars, path_order_text, path_starts_with,
    path_starts_with_chars,
};

verus! {

/// Version of the saved scan format.
pub const SCAN_STATS_SCHEMA_VERSION: u32 = 4;

/// Version of this library, recorded in saved scans.
pub const APP_VERSION: &'static str = "0.1.0";

/// The label of files without an extension.
pub const NO_EXTENSION_LABEL: &'static str = "[无扩展名]";

/// What a scan leaves out.
#[derive(Debug, Clone, PartialEq, Eq)]
pub struct ScanFilterConfig {
    pub excluded_directories: Vec<String>,
    pub excluded_extensions: Vec<String>,
    pub same_file_system: bool,
}

impl Default for ScanFilterConfig {
    fn default() -> (r: Self)
        ensures
            r.excluded_directories@.len() == 0,
            r.excluded_extensions@.len() == 0,
            !r.same_file_system,
    {
        ScanFilterConfig {
            excluded_directories: Vec::new(),
            excluded_extensions: Vec::new(),
            same_file_system: false,
        }
    }
}

impl ScanFilterConfig {
    /// Whether the filter leaves anything out.
    pub fn is_active(&self) -> (r: bool)
        ensures
            r == (self.excluded_directories@.len() > 0 || self.excluded_extensions@.len() > 0
                || self.same_file_system),
    {
        !self.excluded_directories.is_empty() || !self.excluded_extensions.is_empty()
            || self.same_file_system
    }

    /// A copy of the filter.
    pub fn copy(&self) -> (r: ScanFilterConfig)
        ensures
            r.excluded_directories@ == self.excluded_directories@,
            r.excluded_extensions@ == self.excluded_extensions@,
            r.same_file_system == self.same_file_system,
    {
        ScanFilterConfig {
            excluded_directories: crate::text::copy_strings(&self.excluded_directories),
            excluded_extensions: crate::text::copy_strings(&self.excluded_extensions),
            same_file_system: self.same_file_system,
        }
    }
}

/// The text with its leading dots removed.
pub open spec fn strip_leading_dots(s: Seq<char>) -> Seq<char>
    decreases s.len(),
{
    if s.len() > 0 && s[0] == '.' {
        strip_leading_dots(s.drop_first())
    } else {
        s
    }
}

/// The extension filter a user entry stands for: trimmed, without leading dots, lowercase,
/// with one leading dot; the "no extension" entry stands for the no-extension label.
pub open spec fn spec_normalize_extension_filter(entry: Seq<char>) -> Option<Seq<char>> {
    let t = trim(entry);
    if t.len() == 0 {
        None
    } else if t == "无扩展名"@ || t == NO_EXTENSION_LABEL@ {
        Some(NO_EXTENSION_LABEL@)
    } else {
        let e = lower_seq(strip_leading_dots(t));
        if e.len() == 0 {
            None
        } else {
            Some(seq!['.'] + e)
        }
    }
}

/// The extension filter for a user entry such as `tmp`, `.LOG` or `[无扩展名]`.
pub fn normalize_extension_filter(extension: &str) -> (r: Option<String>)
    ensures
        r is Some == spec_normalize_extension_filter(extension@) is Some,
        r matches Some(s) ==> Some(s@) == spec_normalize_extension_filter(extension@),
{
    let v = chars_of(extension);
    let t = trim_chars(v.as_slice());
    if t.len() == 0 {
        return None;
    }
    if str_eq(t.as_slice(), "无扩展名") || str_eq(t.as_slice(), NO_EXTENSION_LABEL) {
        return Some(String::from_str(NO_EXTENSION_LABEL));
    }
    let mut start: usize = 0;
    assert(t@.subrange(0, t@.len() as int) =~= t@);
    while start < t.len() && t[start] == '.'
        invariant
            start <= t@.len(),
            strip_leading_dots(t@) == strip_leading_dots(t@.subrange(start as int, t@.len() as int)),
        decreases t.len() - start,
    {
        assert(t@.subrange(start as int, t@.len() as int).drop_first() =~= t@.subrange(
            start + 1,
            t@.len() as int,
        ));
        start = start + 1;
    }
    let rest = crate::text::slice_copy(t.as_slice(), start, t.len());
    assert(strip_leading_dots(t@) == rest@);
    let lower = to_lower(rest.as_slice());
    if lower.len() == 0 {
        return None;
    }
    let mut out: Vec<char> = Vec::new();
    out.push('.');
    push_all(&mut out, lower.as_slice());
    assert(out@ =~= seq!['.'] + lower@);
    Some(string_from_chars(out.as_slice()))
}

/// The extension label of a path: `.` and the lowercase extension, or the no-extension label.
pub open spec fn spec_extension_label(path: Seq<char>) -> Seq<char> {
    match extension(path) {
        Some(e) => seq!['.'] + lower_seq(e),
        None => NO_EXTENSION_LABEL@,
    }
}

/// The extension label of a path, such as `.tmp`.
pub fn file_extension_label(path: &str) -> (r: String)
    ensures
        r@ == spec_extension_label(path@),
{
    let v = chars_of(path);
    match extension_chars(v.as_slice()) {
        Some(e) => {
            let lower = to_lower(e.as_slice());
            let mut out: Vec<char> = Vec::new();
            out.push('.');
            push_all(&mut out, lower.as_slice());
            assert(out@ =~= seq!['.'] + lower@);
            string_from_chars(out.as_slice())
        },
        None => String::from_str(NO_EXTENSION_LABEL),
    }
}

proof fn lemma_last_dot_bound(name: Seq<char>)
    ensures
        last_dot(name) < name.len(),
    decreases name.len(),
{
    if name.len() > 1 && name.last() != '.' {
        lemma_last_dot_bound(name.drop_last());
    }
}

proof fn lemma_no_dot_after_last(name: Seq<char>, k: int)
    requires
        last_dot(name) < k < name.len(),
        1 <= k,
    ensures
        name[k] != '.',
    decreases name.len(),
{
    if name.len() > 1 && name.last() != '.' && k < name.len() - 1 {
        lemma_no_dot_after_last(name.drop_last(), k);
    }
}

/// An extension label, given back as a filter entry, stands for itself: a label of a path
/// filters that path's files. This holds unless the extension is empty or ends in white
/// space (which the entry's trimming would remove).
pub proof fn lemma_label_is_its_own_filter(path: Seq<char>)
    requires
        (match extension(path) {
            Some(e) => e.len() > 0 && !is_ws(e.last()),
            None => true,
        }),
    ensures
        spec_normalize_extension_filter(spec_extension_label(path)) == Some(spec_extension_label(path)),
{
    let l = spec_extension_label(path);
    reveal_strlit("[无扩展名]");
    reveal_strlit("无扩展名");
    match extension(path) {
        Some(e) => {
            assert(file_name(path) is Some);
            let name = file_name(path)->0;
            assert(name_extension(name) == Some(e));
            let d = last_dot(name);
            assert(d >= 1);
            lemma_last_dot_bound(name);
            assert(e == name.subrange(d + 1, name.len() as int));
            assert(d + 1 < name.len());
            lemma_no_dot_after_last(name, d + 1);
            assert(e[0] == name[d + 1]);
            let low = lower_seq(e);
            assert(l == seq!['.'] + low);
            assert(l[0] == '.');
            assert(trim_start(l) == l);
            assert(l.last() == lower_char(e.last()));
            assert(trim_end(l) == l);
            assert(trim(l) == l);
            assert(l != "无扩展名"@ && l != NO_EXTENSION_LABEL@) by {
                assert("无扩展名"@[0] != '.');
                assert(NO_EXTENSION_LABEL@[0] != '.');
            }
            assert(l.drop_first() =~= low);
            assert(low[0] == lower_char(e[0]));
            assert(strip_leading_dots(low) == low);
            assert(strip_leading_dots(l) == low);
            assert(lower_seq(low) =~= low);
        },
        None => {
            assert(l == NO_EXTENSION_LABEL@);
            assert(trim_start(l) == l);
            assert(trim_end(l) == l);
        },
    }
}

/// The name shown for a path: its file name, or the whole path when it has none.
pub open spec fn spec_path_label(path: Seq<char>) -> Seq<char> {
    match file_name(path) {
        Some(name) => if name.len() > 0 {
            name
        } else {
            path
        },
        None => path,
    }
}

/// The name shown for a path.
pub fn path_label(path: &str) -> (r: String)
    ensures
        r@ == spec_path_label(path@),
{
    let v = chars_of(path);
    match file_name_chars(v.as_slice()) {
        Some(name) => {
            if name.len() > 0 {
                string_from_chars(name.as_slice())
            } else {
                String::from_str(path)
            }
        },
        None => String::from_str(path),
    }
}

/// One scanned file.
#[derive(Debug, Clone)]
pub struct FileRecord {
    pub path: String,
    pub size: u64,
    /// Modification time in seconds since the epoch.
    pub modified: Option<u64>,
    pub extension: String,
}

impl FileRecord {
    /// A copy of the record.
    pub fn copy(&self) -> (r: FileRecord)
        ensures
            r == *self,
    {
        FileRecord {
            path: self.path.clone(),
            size: self.size,
            modified: self.modified,
            extension: self.extension.clone(),
        }
    }
}

/// Totals of one directory.
#[derive(Debug, Clone)]
pub struct DirectoryRecord {
    pub path: String,
    /// Size of every file below the directory.
    pub total_size: u64,
    /// Number of files directly in the directory.
    pub direct_file_count: u64,
    /// Size of the files directly in the directory.
    pub direct_file_size: u64,
    /// Number of files below the directory.
    pub descendant_file_count: u64,
}

impl DirectoryRecord {
    /// The name shown for the directory.
    pub fn name(&self) -> (r: String)
        ensures
            r@ == spec_path_label(self.path@),
    {
        path_label(self.path.as_str())
    }

    /// A copy of the record.
    pub fn copy(&self) -> (r: DirectoryRecord)
        ensures
            r == *self,
    {
        DirectoryRecord {
            path: self.path.clone(),
            total_size: self.total_size,
            direct_file_count: self.direct_file_count,
            direct_file_size: self.direct_file_size,
            descendant_file_count: self.descendant_file_count,
        }
    }
}

/// Totals of one extension.
#[derive(Debug, Clone)]
pub struct ExtensionRecord {
    pub extension: String,
    pub total_size: u64,
    pub file_count: u64,
}

impl ExtensionRecord {
    /// A copy of the record.
    pub fn copy(&self) -> (r: ExtensionRecord)
        ensures
            r == *self,
    {
        ExtensionRecord {
            extension: self.extension.clone(),
            total_size: self.total_size,
            file_count: self.file_count,
        }
    }
}

// ---------------------------------------------------------------------------------------
// Which directories a file counts towards

/// `d` is `p` or one of its ancestors, and every directory from `p` up to `d` lies under
/// `root`: the directories a file in `p` adds its size to.
pub open spec fn credits(p: Seq<char>, d: Seq<char>, root: Seq<char>) -> bool
    decreases p.len(),
{
    path_starts_with(p, root) && (p == d || match parent(p) {
        Some(q) => q.len() < p.len() && credits(q, d, root),
        None => false,
    })
}

/// The file counts towards the total of `d` when scanning `root`.
pub open spec fn below(d: Seq<char>, root: Seq<char>) -> spec_fn(FileRecord) -> bool {
    |f: FileRecord| match parent(f.path@) {
        Some(p) => credits(p, d, root),
        None => false,
    }
}

/// The file lies directly in `d`.
pub open spec fn directly_in(d: Seq<char>) -> spec_fn(FileRecord) -> bool {
    |f: FileRecord| parent(f.path@) == Some(d)
}

/// The file has extension label `e`.
pub open spec fn labelled(e: Seq<char>) -> spec_fn(FileRecord) -> bool {
    |f: FileRecord| f.extension@ == e
}

/// Every file.
pub open spec fn every_file() -> spec_fn(FileRecord) -> bool {
    |f: FileRecord| true
}

/// Total size of the files that `pick` selects.
pub open spec fn weight(files: Seq<FileRecord>, pick: spec_fn(FileRecord) -> bool) -> int
    decreases files.len(),
{
    if files.len() == 0 {
        0
    } else {
        weight(files.drop_last(), pick) + if pick(files.last()) {
            files.last().size as int
        } else {
            0
        }
    }
}

/// Number of the files that `pick` selects.
pub open spec fn tally(files: Seq<FileRecord>, pick: spec_fn(FileRecord) -> bool) -> int
    decreases files.len(),
{
    if files.len() == 0 {
        0
    } else {
        tally(files.drop_last(), pick) + if pick(files.last()) {
            1int
        } else {
            0
        }
    }
}

/// The sizes of all files fit in a `u64`: no total has saturated.
pub open spec fn fits(files: Seq<FileRecord>) -> bool {
    weight(files, every_file()) <= u64::MAX
}

pub proof fn lemma_weight_push(files: Seq<FileRecord>, f: FileRecord, pick: spec_fn(FileRecord) -> bool)
    ensures
        weight(files.push(f), pick) == weight(files, pick) + if pick(f) {
            f.size as int
        } else {
            0
        },
        tally(files.push(f), pick) == tally(files, pick) + if pick(f) {
            1int
        } else {
            0
        },
{
    assert(files.push(f).drop_last() =~= files);
}

/// Weights and tallies are bounded by those of all files.
pub proof fn lemma_weight_bounds(files: Seq<FileRecord>, pick: spec_fn(FileRecord) -> bool)
    ensures
        0 <= weight(files, pick) <= weight(files, every_file()),
        0 <= tally(files, pick) <= files.len(),
    decreases files.len(),
{
    if files.len() > 0 {
        lemma_weight_bounds(files.drop_last(), pick);
    }
}

/// Nothing selected weighs nothing.
pub proof fn lemma_weight_none(files: Seq<FileRecord>, pick: spec_fn(FileRecord) -> bool)
    requires
        forall|i: int| 0 <= i < files.len() ==> !pick(#[trigger] files[i]),
    ensures
        weight(files, pick) == 0,
        tally(files, pick) == 0,
    decreases files.len(),
{
    if files.len() > 0 {
        let rest = files.drop_last();
        assert forall|i: int| 0 <= i < rest.len() implies !pick(#[trigger] rest[i]) by {
            assert(rest[i] == files[i]);
        }
        lemma_weight_none(rest, pick);
    }
}

/// One step up the chain: from a directory under `root`, the credited directories are the
/// directory itself and those credited from its parent.
pub proof fn lemma_credits_step(cur: Seq<char>, d: Seq<char>, root: Seq<char>)
    requires
        path_starts_with(cur, root),
    ensures
        credits(cur, cur, root),
        parent(cur) is Some ==> credits(cur, d, root) == (cur == d || credits(parent(cur)->0, d, root)),
        parent(cur) is None ==> credits(cur, d, root) == (cur == d),
{
    if parent(cur) is Some {
        lemma_parent_shorter(cur);
    }
}

/// A credited directory is no longer than where the chain starts, and lies under `root`.
pub proof fn lemma_credits_len(p: Seq<char>, d: Seq<char>, root: Seq<char>)
    requires
        credits(p, d, root),
    ensures
        d.len() <= p.len(),
        path_starts_with(d, root),
    decreases p.len(),
{
    if p != d {
        lemma_credits_len(parent(p)->0, d, root);
    }
}

// ---------------------------------------------------------------------------------------
// Orders

/// Larger files first (a stable sort keeps equal sizes in arrival order).
pub open spec fn larger_file() -> spec_fn(FileRecord, FileRecord) -> bool {
    |a: FileRecord, b: FileRecord| key_lt((-(a.size as int), 0, Seq::<char>::empty()), (-(b.size as int), 0, Seq::<char>::empty()))
}

/// Larger files first, then by path.
pub open spec fn file_by_size() -> spec_fn(FileRecord, FileRecord) -> bool {
    |a: FileRecord, b: FileRecord| key_lt(
        (-(a.size as int), 0, path_order_text(a.path@)),
        (-(b.size as int), 0, path_order_text(b.path@)),
    )
}

/// By path, then larger files first.
pub open spec fn file_by_path() -> spec_fn(FileRecord, FileRecord) -> bool {
    |a: FileRecord, b: FileRecord| text_key_lt(
        (path_order_text(a.path@), -(a.size as int)),
        (path_order_text(b.path@), -(b.size as int)),
    )
}

/// Larger directories first, then by path (component by component, then by the text of
/// the spelling).
pub open spec fn dir_by_size() -> spec_fn(DirectoryRecord, DirectoryRecord) -> bool {
    |a: DirectoryRecord, b: DirectoryRecord| key2_lt(dir_size_key(a), dir_size_key(b))
}

/// The key by which `dir_by_size` orders a record.
pub open spec fn dir_size_key(d: DirectoryRecord) -> (int, Seq<char>, Seq<char>) {
    (-(d.total_size as int), path_order_text(d.path@), d.path@)
}

/// Larger extensions first, then by extension.
pub open spec fn extension_by_size() -> spec_fn(ExtensionRecord, ExtensionRecord) -> bool {
    |a: ExtensionRecord, b: ExtensionRecord| key_lt((-(a.total_size as int), 0, a.extension@), (-(b.total_size as int), 0, b.extension@))
}

/// Directories by path (component by component, then by the text of the spelling).
pub open spec fn dir_by_path() -> spec_fn(DirectoryRecord, DirectoryRecord) -> bool {
    |a: DirectoryRecord, b: DirectoryRecord| key2_lt(
        (0, path_order_text(a.path@), a.path@),
        (0, path_order_text(b.path@), b.path@),
    )
}

/// The orders above are strict weak orders.
pub proof fn lemma_model_orders()
    ensures
        strict_weak(larger_file()),
        strict_weak(file_by_size()),
        strict_weak(file_by_path()),
        strict_weak(dir_by_size()),
        strict_weak(extension_by_size()),
        strict_weak(dir_by_path()),
{
    lemma_key_order(larger_file(), |f: FileRecord| (-(f.size as int), 0int, Seq::<char>::empty()));
    lemma_key_order(file_by_size(), |f: FileRecord| (-(f.size as int), 0int, path_order_text(f.path@)));
    lemma_text_key_order(file_by_path(), |f: FileRecord| (path_order_text(f.path@), -(f.size as int)));
    lemma_key2_order(dir_by_size(), |d: DirectoryRecord| dir_size_key(d));
    lemma_key_order(extension_by_size(), |e: ExtensionRecord| (-(e.total_size as int), 0int, e.extension@));
    lemma_key2_order(dir_by_path(), |d: DirectoryRecord| (0int, path_order_text(d.path@), d.path@));
}

pub(crate) fn text_less(a: &String, b: &String) -> (r: bool)
    ensures
        r == crate::order::text_lt(a@, b@),
{
    let va = chars_of(a.as_str());
    let vb = chars_of(b.as_str());
    compare_text_chars(va.as_slice(), vb.as_slice()) < 0
}

/// Whether path `a` comes before path `b`, component by component.
pub(crate) fn path_less(a: &String, b: &String) -> (r: bool)
    ensures
        r == crate::order::text_lt(path_order_text(a@), path_order_text(b@)),
{
    let va = chars_of(a.as_str());
    let vb = chars_of(b.as_str());
    let ka = path_order_chars(va.as_slice());
    let kb = path_order_chars(vb.as_slice());
    compare_text_chars(ka.as_slice(), kb.as_slice()) < 0
}

/// Whether directory path `a` comes before `b`: component by component, then by the text of
/// the spelling.
fn dir_path_less(a: &String, b: &String) -> (r: bool)
    ensures
        r == (crate::order::text_lt(path_order_text(a@), path_order_text(b@)) || (path_order_text(a@)
            == path_order_text(b@) && crate::order::text_lt(a@, b@))),
{
    if path_less(a, b) {
        true
    } else if path_same_order(a, b) {
        text_less(a, b)
    } else {
        false
    }
}

/// Whether paths `a` and `b` are ordered as equal.
fn path_same_order(a: &String, b: &String) -> (r: bool)
    ensures
        r == (path_order_text(a@) == path_order_text(b@)),
{
    let va = chars_of(a.as_str());
    let vb = chars_of(b.as_str());
    let ka = path_order_chars(va.as_slice());
    let kb = path_order_chars(vb.as_slice());
    crate::text::chars_eq(ka.as_slice(), kb.as_slice())
}

/// How many of the largest files a scan keeps.
pub const LARGEST_FILE_LIMIT: usize = 250;

/// How many directories and extensions a final snapshot lists.
pub const LISTED_LIMIT: usize = 250;

/// How many error messages a scan keeps.
pub const RETAINED_ERROR_LIMIT: usize = 300;

/// The largest files among `files`, as kept by pushing each and re-sorting stably.
pub open spec fn largest_of(files: Seq<FileRecord>) -> Seq<FileRecord>
    decreases files.len(),
{
    if files.len() == 0 {
        Seq::empty()
    } else {
        truncated(insert_sorted(largest_of(files.drop_last()), files.last(), larger_file()), LARGEST_FILE_LIMIT as int)
    }
}

/// The records among `dirs` whose parent is `p`, in order.
pub open spec fn records_under(dirs: Seq<DirectoryRecord>, p: Seq<char>) -> Seq<DirectoryRecord>
    decreases dirs.len(),
{
    if dirs.len() == 0 {
        Seq::empty()
    } else if parent(dirs.last().path@) == Some(p) {
        records_under(dirs.drop_last(), p).push(dirs.last())
    } else {
        records_under(dirs.drop_last(), p)
    }
}

/// `v` lists the records among `dirs` whose parent is `p`, larger first, then by path.
pub open spec fn lists_children(v: Seq<DirectoryRecord>, dirs: Seq<DirectoryRecord>, p: Seq<char>) -> bool {
    is_sorted(v, dir_by_size()) && v.to_multiset() == records_under(dirs, p).to_multiset()
}

// ---------------------------------------------------------------------------------------
// Time

#[verifier::external_type_specification]
#[verifier::external_body]
pub struct ExInstant(std::time::Instant);

/// `Instant::now`: the current time (nothing is stated of it).
#[verifier::external_body]
fn instant_now() -> std::time::Instant {
    std::time::Instant::now()
}

/// `Instant::elapsed`: the time since `start` (nothing is stated of it).
#[verifier::external_body]
fn instant_elapsed(start: &std::time::Instant) -> std::time::Duration {
    start.elapsed()
}

// ---------------------------------------------------------------------------------------
// The running totals of a scan

/// Running totals of a scan under `root`.
pub struct ScanAccumulator {
    root: String,
    filter_config: ScanFilterConfig,
    total_size: u64,
    file_count: u64,
    dir_count: u64,
    error_count: u64,
    dirs: Vec<DirectoryRecord>,
    dir_index: StringHashMap<usize>,
    extensions: Vec<ExtensionRecord>,
    extension_index: StringHashMap<usize>,
    all_files: Vec<FileRecord>,
    largest_files: Vec<FileRecord>,
    errors: Vec<String>,
    cached_top_level_dirs: Option<Vec<DirectoryRecord>>,
    cache_dirty: bool,
    scan_started_at: std::time::Instant,
}

impl ScanAccumulator {
    pub closed spec fn root_path(&self) -> Seq<char> {
        self.root@
    }

    pub closed spec fn filter(&self) -> ScanFilterConfig {
        self.filter_config
    }

    /// Every file recorded, in order.
    pub closed spec fn files(&self) -> Seq<FileRecord> {
        self.all_files@
    }

    /// Every directory recorded, in order of first recording.
    pub closed spec fn dirs(&self) -> Seq<DirectoryRecord> {
        self.dirs@
    }

    /// The totals of every extension seen, in order of first sight.
    pub closed spec fn extension_records(&self) -> Seq<ExtensionRecord> {
        self.extensions@
    }

    /// The largest files kept.
    pub closed spec fn largest(&self) -> Seq<FileRecord> {
        self.largest_files@
    }

    pub closed spec fn error_list(&self) -> Seq<String> {
        self.errors@
    }

    pub closed spec fn spec_total_size(&self) -> u64 {
        self.total_size
    }

    pub closed spec fn spec_file_count(&self) -> u64 {
        self.file_count
    }

    pub closed spec fn spec_dir_count(&self) -> u64 {
        self.dir_count
    }

    pub closed spec fn spec_error_count(&self) -> u64 {
        self.error_count
    }

    /// `d` has a record.
    pub closed spec fn has_dir(&self, d: Seq<char>) -> bool {
        self.dir_index@.contains_key(d)
    }

    /// The records are indexed by path and by extension, every directory a file counts
    /// towards has a record, and every record holds the totals of the files recorded.
    pub closed spec fn inv(&self) -> bool {
        let root = self.root@;
        let files = self.all_files@;
        let dirs = self.dirs@;
        let exts = self.extensions@;
        &&& self.dir_count == dirs.len()
        &&& forall|i: int| 0 <= i < dirs.len() ==> self.dir_index@.contains_key((#[trigger] dirs[i]).path@)
            && self.dir_index@[dirs[i].path@] == i
        &&& forall|k: Seq<char>| #[trigger] self.dir_index@.contains_key(k) ==> self.dir_index@[k] < dirs.len()
            && dirs[self.dir_index@[k] as int].path@ == k
        &&& forall|i: int| 0 <= i < exts.len() ==> self.extension_index@.contains_key((#[trigger] exts[i]).extension@)
            && self.extension_index@[exts[i].extension@] == i
        &&& forall|k: Seq<char>| #[trigger] self.extension_index@.contains_key(k) ==> self.extension_index@[k] < exts.len()
            && exts[self.extension_index@[k] as int].extension@ == k
        &&& files.len() <= self.file_count
        &&& forall|j: int, d: Seq<char>| 0 <= j < files.len() && #[trigger] below(d, root)(files[j]) ==> #[trigger] self.dir_index@.contains_key(d)
        &&& forall|j: int| 0 <= j < files.len() && (#[trigger] parent(files[j].path@)) is Some ==> self.dir_index@.contains_key(parent(files[j].path@)->0)
        &&& forall|j: int| 0 <= j < files.len() ==> self.extension_index@.contains_key((#[trigger] files[j]).extension@)
        &&& forall|i: int| 0 <= i < dirs.len() ==> (#[trigger] dirs[i]).direct_file_count == tally(files, directly_in(dirs[i].path@))
            && dirs[i].descendant_file_count == tally(files, below(dirs[i].path@, root))
        &&& forall|i: int| 0 <= i < exts.len() ==> (#[trigger] exts[i]).file_count == tally(files, labelled(exts[i].extension@))
        &&& fits(files) ==> self.total_size == weight(files, every_file())
        &&& fits(files) ==> forall|i: int| 0 <= i < dirs.len() ==> (#[trigger] dirs[i]).total_size == weight(files, below(dirs[i].path@, root))
            && dirs[i].direct_file_size == weight(files, directly_in(dirs[i].path@))
        &&& fits(files) ==> forall|i: int| 0 <= i < exts.len() ==> (#[trigger] exts[i]).total_size == weight(files, labelled(exts[i].extension@))
        &&& self.largest_files@ == largest_of(files)
        &&& self.errors@.len() <= RETAINED_ERROR_LIMIT
        &&& !self.cache_dirty ==> (self.cached_top_level_dirs matches Some(v) && lists_children(v@, dirs, root))
    }
}

impl ScanAccumulator {
    /// What every well-formed accumulator holds, whatever was recorded: a directory has a
    /// record exactly when it was recorded (as the root, by `record_directory`, or as the
    /// parent or an ancestor under the root of a recorded file); each directory record
    /// holds the count and size of the files directly in it and of the files that count
    /// towards it; each extension record holds those of its files; every extension seen
    /// has a record; the largest files are those `largest_of` keeps. Sizes are exact
    /// while no total has saturated.
    pub proof fn lemma_records(&self)
        requires
            self.inv(),
        ensures
            self.spec_dir_count() == self.dirs().len(),
            forall|d: Seq<char>| #[trigger] self.has_dir(d) <==> exists|i: int| 0 <= i < self.dirs().len()
                && (#[trigger] self.dirs()[i]).path@ == d,
            forall|i: int, j: int| 0 <= i < j < self.dirs().len() ==> (#[trigger] self.dirs()[i]).path@
                != (#[trigger] self.dirs()[j]).path@,
            forall|j: int, d: Seq<char>| 0 <= j < self.files().len() && #[trigger] below(d, self.root_path())(
                self.files()[j],
            ) ==> #[trigger] self.has_dir(d),
            forall|j: int| 0 <= j < self.files().len() && (#[trigger] parent(self.files()[j].path@)) is Some
                ==> self.has_dir(parent(self.files()[j].path@)->0),
            forall|j: int| 0 <= j < self.files().len() ==> exists|i: int| 0 <= i < self.extension_records().len()
                && (#[trigger] self.extension_records()[i]).extension@ == (#[trigger] self.files()[j]).extension@,
            forall|i: int| 0 <= i < self.dirs().len() ==> (#[trigger] self.dirs()[i]).direct_file_count == tally(
                self.files(),
                directly_in(self.dirs()[i].path@),
            ) && self.dirs()[i].descendant_file_count == tally(self.files(), below(self.dirs()[i].path@, self.root_path())),
            forall|i: int| 0 <= i < self.extension_records().len() ==> (
            #[trigger] self.extension_records()[i]).file_count == tally(
                self.files(),
                labelled(self.extension_records()[i].extension@),
            ),
            fits(self.files()) ==> self.spec_total_size() == weight(self.files(), every_file()),
            fits(self.files()) ==> forall|i: int| 0 <= i < self.dirs().len() ==> (
            #[trigger] self.dirs()[i]).total_size == weight(self.files(), below(self.dirs()[i].path@, self.root_path()))
                && self.dirs()[i].direct_file_size == weight(self.files(), directly_in(self.dirs()[i].path@)),
            fits(self.files()) ==> forall|i: int| 0 <= i < self.extension_records().len() ==> (
            #[trigger] self.extension_records()[i]).total_size == weight(
                self.files(),
                labelled(self.extension_records()[i].extension@),
            ),
            self.largest() == largest_of(self.files()),
            self.files().len() <= self.spec_file_count(),
    {
        let dirs = self.dirs();
        assert forall|d: Seq<char>| #[trigger] self.has_dir(d) <==> exists|i: int| 0 <= i < dirs.len()
            && (#[trigger] dirs[i]).path@ == d by {
            if self.has_dir(d) {
                let i = self.dir_index@[d] as int;
                assert(dirs[i].path@ == d);
            }
            if exists|i: int| 0 <= i < dirs.len() && (#[trigger] dirs[i]).path@ == d {
                let i = choose|i: int| 0 <= i < dirs.len() && (#[trigger] dirs[i]).path@ == d;
                assert(self.dir_index@.contains_key(dirs[i].path@));
            }
        }
        assert forall|i: int, j: int| 0 <= i < j < dirs.len() implies (#[trigger] dirs[i]).path@
            != (#[trigger] dirs[j]).path@ by {
            if dirs[i].path@ == dirs[j].path@ {
                assert(self.dir_index@[dirs[i].path@] == i);
            }
        }
        let exts = self.extension_records();
        let files = self.files();
        assert forall|j: int| 0 <= j < files.len() implies exists|i: int| 0 <= i < exts.len()
            && (#[trigger] exts[i]).extension@ == (#[trigger] files[j]).extension@ by {
            let i = self.extension_index@[files[j].extension@] as int;
            assert(exts[i].extension@ == files[j].extension@);
        }
    }
}

proof fn lemma_records_under_within(dirs: Seq<DirectoryRecord>, p: Seq<char>)
    ensures
        forall|x: DirectoryRecord| #[trigger] records_under(dirs, p).contains(x) ==> dirs.contains(x),
    decreases dirs.len(),
{
    if dirs.len() > 0 {
        let rest = dirs.drop_last();
        lemma_records_under_within(rest, p);
        assert forall|x: DirectoryRecord| #[trigger] records_under(dirs, p).contains(x) implies dirs.contains(x) by {
            let u = records_under(dirs, p);
            let k = choose|k: int| 0 <= k < u.len() && u[k] == x;
            if parent(dirs.last().path@) == Some(p) && k == u.len() - 1 {
                assert(dirs[dirs.len() - 1] == x);
            } else {
                assert(records_under(rest, p)[k] == x);
                assert(records_under(rest, p).contains(x));
                let i = choose|i: int| 0 <= i < rest.len() && rest[i] == x;
                assert(dirs[i] == x);
            }
        }
    }
}

/// The listing of the records directly under `p`: larger first, then by path.
pub open spec fn children_listing(dirs: Seq<DirectoryRecord>, p: Seq<char>) -> Seq<DirectoryRecord> {
    sort_by(records_under(dirs, p), dir_by_size())
}

impl ScanAccumulator {
    /// There is one listing of the children of a directory: any sorted listing of them is
    /// `children_listing`, so the cached top-level list and the listing of the root's
    /// children are the same list.
    pub proof fn lemma_children_listing(&self, a: Seq<DirectoryRecord>, p: Seq<char>)
        requires
            self.inv(),
            lists_children(a, self.dirs(), p),
        ensures
            a == children_listing(self.dirs(), p),
    {
        self.lemma_records();
        lemma_model_orders();
        let dirs = self.dirs();
        let u = records_under(dirs, p);
        let b = children_listing(dirs, p);
        lemma_sort_by(u, dir_by_size());
        lemma_records_under_within(dirs, p);
        a.to_multiset_ensures();
        u.to_multiset_ensures();
        assert forall|x: DirectoryRecord, y: DirectoryRecord| a.contains(x) && a.contains(y) && x != y implies
            dir_by_size()(x, y) || dir_by_size()(y, x) by {
            assert(a.to_multiset().count(x) > 0 && a.to_multiset().count(y) > 0);
            assert(u.contains(x) && u.contains(y));
            assert(dirs.contains(x) && dirs.contains(y));
            let i = choose|i: int| 0 <= i < dirs.len() && dirs[i] == x;
            let j = choose|j: int| 0 <= j < dirs.len() && dirs[j] == y;
            assert(i != j);
            if i < j {
                assert(dirs[i].path@ != dirs[j].path@);
            } else {
                assert(dirs[j].path@ != dirs[i].path@);
            }
            lemma_key2_lt(dir_size_key(x), dir_size_key(y), dir_size_key(x));
        }
        lemma_sorted_unique(a, b, dir_by_size());
    }
}

/// `d` is a record of `path` with no files yet.
pub open spec fn is_empty_record(d: DirectoryRecord, path: Seq<char>) -> bool {
    &&& d.path@ == path
    &&& d.total_size == 0
    &&& d.direct_file_count == 0
    &&& d.direct_file_size == 0
    &&& d.descendant_file_count == 0
}

/// The canonical spelling of a path.
pub fn canonical_string(path: &str) -> (r: String)
    ensures
        r@ == canon(path@),
{
    let v = chars_of(path);
    let c = canonical_chars(v.as_slice());
    string_from_chars(c.as_slice())
}

/// A record with no files yet.
pub open spec fn empty_record(path: String) -> DirectoryRecord {
    DirectoryRecord { path, total_size: 0, direct_file_count: 0, direct_file_size: 0, descendant_file_count: 0 }
}

impl ScanAccumulator {
    /// The directory records are indexed by path.
    closed spec fn indexed(&self) -> bool {
        let dirs = self.dirs@;
        &&& self.dir_count == dirs.len()
        &&& forall|i: int| 0 <= i < dirs.len() ==> self.dir_index@.contains_key((#[trigger] dirs[i]).path@)
            && self.dir_index@[dirs[i].path@] == i
        &&& forall|k: Seq<char>| #[trigger] self.dir_index@.contains_key(k) ==> self.dir_index@[k] < dirs.len()
            && dirs[self.dir_index@[k] as int].path@ == k
    }

    /// Only the directory records, their index and the cache flag may differ.
    closed spec fn same_but_dirs(&self, other: &Self) -> bool {
        &&& self.root == other.root
        &&& self.filter_config == other.filter_config
        &&& self.total_size == other.total_size
        &&& self.file_count == other.file_count
        &&& self.error_count == other.error_count
        &&& self.extensions == other.extensions
        &&& self.extension_index == other.extension_index
        &&& self.all_files == other.all_files
        &&& self.largest_files == other.largest_files
        &&& self.errors == other.errors
        &&& self.cached_top_level_dirs == other.cached_top_level_dirs
        &&& self.scan_started_at == other.scan_started_at
    }

    /// The position of the record of `path`, made empty if there was none.
    fn dir_slot(&mut self, path: String) -> (i: usize)
        requires
            old(self).indexed(),
        ensures
            final(self).indexed(),
            final(self).same_but_dirs(old(self)),
            i < final(self).dirs@.len(),
            final(self).dirs@[i as int].path@ == path@,
            old(self).dir_index@.contains_key(path@) ==> final(self).dirs@ == old(self).dirs@
                && final(self).dir_index@ == old(self).dir_index@
                && final(self).cache_dirty == old(self).cache_dirty,
            !old(self).dir_index@.contains_key(path@) ==> final(self).dirs@ == old(self).dirs@.push(empty_record(path))
                && final(self).dir_index@ == old(self).dir_index@.insert(path@, i)
                && final(self).cache_dirty,
    {
        match self.dir_index.get(path.as_str()) {
            Some(i) => {
                return *i;
            },
            None => {},
        }
        let i = self.dirs.len();
        let key = path.clone();
        self.dirs.push(DirectoryRecord {
            path,
            total_size: 0,
            direct_file_count: 0,
            direct_file_size: 0,
            descendant_file_count: 0,
        });
        self.dir_index.insert(key, i);
        self.dir_count = self.dirs.len() as u64;
        self.cache_dirty = true;
        i
    }

    /// A new record for a directory not seen before holds no files.
    proof fn lemma_new_dir_empty(&self, d: Seq<char>)
        requires
            self.inv(),
            !self.dir_index@.contains_key(d),
        ensures
            weight(self.all_files@, below(d, self.root@)) == 0,
            tally(self.all_files@, below(d, self.root@)) == 0,
            weight(self.all_files@, directly_in(d)) == 0,
            tally(self.all_files@, directly_in(d)) == 0,
    {
        let files = self.all_files@;
        assert forall|j: int| 0 <= j < files.len() implies !below(d, self.root@)(#[trigger] files[j]) by {
            if below(d, self.root@)(files[j]) {
                assert(self.dir_index@.contains_key(d));
            }
        }
        assert forall|j: int| 0 <= j < files.len() implies !directly_in(d)(#[trigger] files[j]) by {
            if directly_in(d)(files[j]) {
                assert(parent(files[j].path@) is Some);
            }
        }
        lemma_weight_none(files, below(d, self.root@));
        lemma_weight_none(files, directly_in(d));
    }

    /// Records a directory by its canonical spelling; a directory already recorded, under
    /// any spelling, is left as it is.
    pub fn record_directory(&mut self, path: String)
        requires
            old(self).inv(),
        ensures
            final(self).inv(),
            old(self).has_dir(canon(path@)) ==> final(self).dirs() == old(self).dirs(),
            !old(self).has_dir(canon(path@)) ==> final(self).dirs().len() == old(self).dirs().len() + 1
                && final(self).dirs().drop_last() == old(self).dirs() && is_empty_record(
                final(self).dirs().last(),
                canon(path@),
            ),
            final(self).has_dir(canon(path@)),
            forall|d: Seq<char>| old(self).has_dir(d) ==> #[trigger] final(self).has_dir(d),
            forall|d: Seq<char>| #[trigger] final(self).has_dir(d) ==> old(self).has_dir(d) || d == canon(path@),
            final(self).spec_dir_count() == final(self).dirs().len(),
            final(self).root_path() == old(self).root_path(),
            final(self).filter() == old(self).filter(),
            final(self).files() == old(self).files(),
            final(self).extension_records() == old(self).extension_records(),
            final(self).largest() == old(self).largest(),
            final(self).error_list() == old(self).error_list(),
            final(self).spec_total_size() == old(self).spec_total_size(),
            final(self).spec_file_count() == old(self).spec_file_count(),
            final(self).spec_error_count() == old(self).spec_error_count(),
    {
        let c = canonical_string(path.as_str());
        self.record_directory_at(c);
        proof {
            if !old(self).has_dir(canon(path@)) {
                assert(final(self).dirs().drop_last() =~= old(self).dirs());
            }
        }
    }

    /// Records a directory under the spelling given.
    fn record_directory_at(&mut self, path: String)
        requires
            old(self).inv(),
        ensures
            final(self).inv(),
            old(self).has_dir(path@) ==> final(self).dirs() == old(self).dirs(),
            !old(self).has_dir(path@) ==> final(self).dirs() == old(self).dirs().push(empty_record(path)),
            final(self).has_dir(path@),
            forall|d: Seq<char>| old(self).has_dir(d) ==> #[trigger] final(self).has_dir(d),
            forall|d: Seq<char>| #[trigger] final(self).has_dir(d) ==> old(self).has_dir(d) || d == path@,
            final(self).spec_dir_count() == final(self).dirs().len(),
            final(self).root_path() == old(self).root_path(),
            final(self).filter() == old(self).filter(),
            final(self).files() == old(self).files(),
            final(self).extension_records() == old(self).extension_records(),
            final(self).largest() == old(self).largest(),
            final(self).error_list() == old(self).error_list(),
            final(self).spec_total_size() == old(self).spec_total_size(),
            final(self).spec_file_count() == old(self).spec_file_count(),
            final(self).spec_error_count() == old(self).spec_error_count(),
    {
        proof {
            if !self.dir_index@.contains_key(path@) {
                self.lemma_new_dir_empty(path@);
            }
        }
        let ghost old_self = *self;
        self.dir_slot(path);
        proof {
            let dirs = self.dirs@;
            let files = self.all_files@;
            let root = self.root@;
            assert forall|i: int| 0 <= i < dirs.len() implies (#[trigger] dirs[i]).direct_file_count == tally(files, directly_in(dirs[i].path@))
                && dirs[i].descendant_file_count == tally(files, below(dirs[i].path@, root)) by {
                if i < old_self.dirs@.len() {
                    assert(dirs[i] == old_self.dirs@[i]);
                }
            }
            if fits(files) {
                assert forall|i: int| 0 <= i < dirs.len() implies (#[trigger] dirs[i]).total_size == weight(files, below(dirs[i].path@, root))
                    && dirs[i].direct_file_size == weight(files, directly_in(dirs[i].path@)) by {
                    if i < old_self.dirs@.len() {
                        assert(dirs[i] == old_self.dirs@[i]);
                    }
                }
            }
            assert forall|j: int, d: Seq<char>| 0 <= j < files.len() && #[trigger] below(d, root)(files[j]) implies #[trigger] self.dir_index@.contains_key(d) by {
                assert(old_self.dir_index@.contains_key(d));
            }
            assert forall|j: int| 0 <= j < files.len() && (#[trigger] parent(files[j].path@)) is Some implies self.dir_index@.contains_key(parent(files[j].path@)->0) by {
                assert(old_self.dir_index@.contains_key(parent(files[j].path@)->0));
            }
        }
    }
}

impl ScanAccumulator {
    /// The extension records are indexed by extension.
    closed spec fn ext_indexed(&self) -> bool {
        let exts = self.extensions@;
        &&& forall|i: int| 0 <= i < exts.len() ==> self.extension_index@.contains_key((#[trigger] exts[i]).extension@)
            && self.extension_index@[exts[i].extension@] == i
        &&& forall|k: Seq<char>| #[trigger] self.extension_index@.contains_key(k) ==> self.extension_index@[k] < exts.len()
            && exts[self.extension_index@[k] as int].extension@ == k
    }

    /// Adds a file to the totals of its extension.
    fn add_to_extension(&mut self, file: &FileRecord)
        requires
            old(self).ext_indexed(),
            forall|i: int| 0 <= i < old(self).extensions@.len() ==> (#[trigger] old(self).extensions@[i]).file_count
                <= old(self).all_files@.len(),
            old(self).all_files@.len() < u64::MAX,
        ensures
            final(self).ext_indexed(),
            final(self).dirs == old(self).dirs,
            final(self).dir_index == old(self).dir_index,
            final(self).dir_count == old(self).dir_count,
            final(self).root == old(self).root,
            final(self).all_files == old(self).all_files,
            final(self).largest_files == old(self).largest_files,
            final(self).errors == old(self).errors,
            final(self).total_size == old(self).total_size,
            final(self).file_count == old(self).file_count,
            final(self).cache_dirty == old(self).cache_dirty,
            final(self).cached_top_level_dirs == old(self).cached_top_level_dirs,
            final(self).filter_config == old(self).filter_config,
            final(self).error_count == old(self).error_count,
            final(self).scan_started_at == old(self).scan_started_at,
            final(self).extension_index@.contains_key(file.extension@),
            forall|k: Seq<char>| old(self).extension_index@.contains_key(k) ==> #[trigger] final(self).extension_index@.contains_key(k),
            forall|i: int| 0 <= i < final(self).extensions@.len() ==> {
                let e = #[trigger] final(self).extensions@[i];
                let was = old(self).extension_index@.contains_key(e.extension@);
                let before = if was { old(self).extensions@[old(self).extension_index@[e.extension@] as int] } else {
                    ExtensionRecord { extension: e.extension, total_size: 0, file_count: 0 }
                };
                &&& e.extension@ == before.extension@
                &&& e.file_count == before.file_count + if e.extension@ == file.extension@ { 1int } else { 0 }
                &&& e.total_size == if e.extension@ == file.extension@ { sat_add(before.total_size, file.size) } else { before.total_size }
            },
            forall|k: Seq<char>| #[trigger] final(self).extension_index@.contains_key(k) && !old(self).extension_index@.contains_key(k)
                ==> k == file.extension@,
    {
        let ghost old_exts = self.extensions@;
        let ghost old_index = self.extension_index@;
        let i = match self.extension_index.get(file.extension.as_str()) {
            Some(i) => *i,
            None => {
                let i = self.extensions.len();
                self.extensions.push(ExtensionRecord { extension: file.extension.clone(), total_size: 0, file_count: 0 });
                self.extension_index.insert(file.extension.clone(), i);
                i
            },
        };
        let ghost mid = self.extensions@;
        let mut rec = self.extensions[i].copy();
        rec.total_size = rec.total_size.saturating_add(file.size);
        rec.file_count = rec.file_count + 1;
        self.extensions.set(i, rec);
        proof {
            let exts = self.extensions@;
            assert forall|j: int| 0 <= j < exts.len() implies {
                let e = #[trigger] exts[j];
                let was = old_index.contains_key(e.extension@);
                let before = if was { old_exts[old_index[e.extension@] as int] } else {
                    ExtensionRecord { extension: e.extension, total_size: 0, file_count: 0 }
                };
                &&& e.extension@ == before.extension@
                &&& e.file_count == before.file_count + if e.extension@ == file.extension@ { 1int } else { 0 }
                &&& e.total_size == if e.extension@ == file.extension@ { sat_add(before.total_size, file.size) } else { before.total_size }
            } by {
                if j < old_exts.len() {
                    assert(old_index.contains_key(old_exts[j].extension@));
                    assert(old_index[old_exts[j].extension@] == j);
                }
                if j != i {
                    assert(exts[j] == mid[j]);
                }
            }
        }
    }

    /// Records a file under the canonical spelling of its path: it is added to the totals, to the totals of its extension, to the
    /// direct totals of its parent directory, and to the totals of the parent and of each
    /// ancestor under the root; it joins the files and, if it is among the largest, the
    /// largest files.
    pub fn record_file(&mut self, file: FileRecord)
        requires
            old(self).inv(),
            old(self).spec_file_count() < u64::MAX,
        ensures
            final(self).inv(),
            final(self).files().len() == old(self).files().len() + 1,
            final(self).files().drop_last() == old(self).files(),
            final(self).files().last().path@ == canon(file.path@),
            final(self).files().last().size == file.size,
            final(self).files().last().modified == file.modified,
            final(self).files().last().extension == file.extension,
            final(self).spec_total_size() == sat_add(old(self).spec_total_size(), file.size),
            final(self).spec_file_count() == old(self).spec_file_count() + 1,
            final(self).root_path() == old(self).root_path(),
            final(self).filter() == old(self).filter(),
            final(self).error_list() == old(self).error_list(),
            final(self).spec_error_count() == old(self).spec_error_count(),
            final(self).spec_dir_count() == final(self).dirs().len(),
            forall|d: Seq<char>| old(self).has_dir(d) ==> #[trigger] final(self).has_dir(d),
    {
        let path = canonical_string(file.path.as_str());
        let f = FileRecord { path, size: file.size, modified: file.modified, extension: file.extension };
        self.record_file_at(f);
        proof {
            assert(final(self).files().drop_last() =~= old(self).files());
        }
    }

    /// Records a file under the spelling given.
    fn record_file_at(&mut self, file: FileRecord)
        requires
            old(self).inv(),
            old(self).spec_file_count() < u64::MAX,
        ensures
            final(self).inv(),
            final(self).files() == old(self).files().push(file),
            final(self).spec_total_size() == sat_add(old(self).spec_total_size(), file.size),
            final(self).spec_file_count() == old(self).spec_file_count() + 1,
            final(self).root_path() == old(self).root_path(),
            final(self).filter() == old(self).filter(),
            final(self).error_list() == old(self).error_list(),
            final(self).spec_error_count() == old(self).spec_error_count(),
            final(self).spec_dir_count() == final(self).dirs().len(),
            forall|d: Seq<char>| old(self).has_dir(d) ==> #[trigger] final(self).has_dir(d),
    {
        let ghost s0 = *self;
        let ghost files0 = self.all_files@;
        let ghost root = self.root@;
        let ghost f = file;
        proof {
            lemma_weight_bounds(files0, every_file());
            assert forall|i: int| 0 <= i < self.extensions@.len() implies (#[trigger] self.extensions@[i]).file_count
                <= self.all_files@.len() by {
                lemma_weight_bounds(files0, labelled(self.extensions@[i].extension@));
            }
        }
        self.total_size = self.total_size.saturating_add(file.size);
        self.file_count = self.file_count + 1;
        self.cache_dirty = true;
        let ghost exts0 = self.extensions@;
        let ghost ext_index0 = self.extension_index@;
        self.add_to_extension(&file);
        let ghost dirs0 = self.dirs@;
        let ghost index0 = self.dir_index@;
        proof {
            assert forall|i: int| 0 <= i < dirs0.len() implies (#[trigger] dirs0[i]).direct_file_count < u64::MAX
                && dirs0[i].descendant_file_count < u64::MAX by {
                lemma_weight_bounds(files0, directly_in(dirs0[i].path@));
                lemma_weight_bounds(files0, below(dirs0[i].path@, root));
            }
        }
        self.credit_directories(&file);
        self.all_files.push(file.copy());
        proof {
            lemma_largest_sorted(files0);
        }
        push_largest(&mut self.largest_files, file);
        proof {
            let files = self.all_files@;
            assert(files == files0.push(f));
            lemma_weight_push(files0, f, every_file());
            lemma_weight_bounds(files0, every_file());
            lemma_weight_bounds(files, every_file());
            assert(files.drop_last() =~= files0);
            assert forall|j: int, d: Seq<char>| 0 <= j < files.len() && #[trigger] below(d, root)(files[j]) implies #[trigger] self.dir_index@.contains_key(d) by {
                if j < files0.len() {
                    assert(files[j] == files0[j]);
                    assert(index0.contains_key(d));
                }
            }
            assert forall|j: int| 0 <= j < files.len() && (#[trigger] parent(files[j].path@)) is Some implies self.dir_index@.contains_key(parent(files[j].path@)->0) by {
                if j < files0.len() {
                    assert(files[j] == files0[j]);
                    assert(index0.contains_key(parent(files0[j].path@)->0));
                } else {
                    assert(directly_in(parent(f.path@)->0)(f));
                }
            }
            assert forall|j: int| 0 <= j < files.len() implies self.extension_index@.contains_key((#[trigger] files[j]).extension@) by {
                if j < files0.len() {
                    assert(files[j] == files0[j]);
                    assert(ext_index0.contains_key(files0[j].extension@));
                }
            }
            let dirs = self.dirs@;
            assert forall|i: int| 0 <= i < dirs.len() implies {
                &&& (#[trigger] dirs[i]).direct_file_count == tally(files, directly_in(dirs[i].path@))
                &&& dirs[i].descendant_file_count == tally(files, below(dirs[i].path@, root))
                &&& fits(files) ==> dirs[i].total_size == weight(files, below(dirs[i].path@, root))
                    && dirs[i].direct_file_size == weight(files, directly_in(dirs[i].path@))
            } by {
                let e = dirs[i];
                let d = e.path@;
                assert(dir_updated(e, dirs0, index0, f, root));
                lemma_weight_push(files0, f, directly_in(d));
                lemma_weight_push(files0, f, below(d, root));
                lemma_weight_bounds(files, directly_in(d));
                lemma_weight_bounds(files, below(d, root));
                if index0.contains_key(d) {
                    let k = index0[d] as int;
                    assert(dirs0[k].path@ == d);
                } else {
                    s0.lemma_new_dir_empty(d);
                }
            }
            let exts = self.extensions@;
            assert forall|i: int| 0 <= i < exts.len() implies {
                &&& (#[trigger] exts[i]).file_count == tally(files, labelled(exts[i].extension@))
                &&& fits(files) ==> exts[i].total_size == weight(files, labelled(exts[i].extension@))
            } by {
                let e = exts[i];
                let x = e.extension@;
                lemma_weight_push(files0, f, labelled(x));
                lemma_weight_bounds(files, labelled(x));
                if ext_index0.contains_key(x) {
                    let k = ext_index0[x] as int;
                    assert(exts0[k].extension@ == x);
                } else {
                    assert forall|j: int| 0 <= j < files0.len() implies !labelled(x)(#[trigger] files0[j]) by {
                        if labelled(x)(files0[j]) {
                            assert(ext_index0.contains_key(files0[j].extension@));
                        }
                    }
                    lemma_weight_none(files0, labelled(x));
                }
            }
            assert(self.largest_files@ == largest_of(files));
            assert(fits(files) ==> self.total_size == weight(files, every_file()));
            assert(fits(files) ==> forall|i: int| 0 <= i < dirs.len() ==> (#[trigger] dirs[i]).total_size == weight(files, below(dirs[i].path@, root))
                && dirs[i].direct_file_size == weight(files, directly_in(dirs[i].path@)));
            assert(fits(files) ==> forall|i: int| 0 <= i < exts.len() ==> (#[trigger] exts[i]).total_size == weight(files, labelled(exts[i].extension@)));
            assert(files.len() <= self.file_count);
            assert(self.errors@.len() <= RETAINED_ERROR_LIMIT);
            assert(self.dir_count == dirs.len());
            assert(forall|i: int| 0 <= i < dirs.len() ==> (#[trigger] dirs[i]).direct_file_count == tally(files, directly_in(dirs[i].path@))
                && dirs[i].descendant_file_count == tally(files, below(dirs[i].path@, root)));
            assert(forall|i: int| 0 <= i < exts.len() ==> (#[trigger] exts[i]).file_count == tally(files, labelled(exts[i].extension@)));
            assert(self.indexed());
            assert(self.ext_indexed());
            assert(!self.cache_dirty ==> (self.cached_top_level_dirs matches Some(v) && lists_children(v@, dirs, root)));
        }
    }
}

/// The record `e` after a file `f` is recorded: `before` is its record before (an empty
/// one for a directory not recorded before); the direct totals grow when `f` lies directly
/// in it and the totals grow when `f` counts towards it.
pub open spec fn dir_updated(
    e: DirectoryRecord,
    dirs0: Seq<DirectoryRecord>,
    index0: Map<Seq<char>, usize>,
    f: FileRecord,
    root: Seq<char>,
) -> bool {
    let was = index0.contains_key(e.path@);
    let before = if was { dirs0[index0[e.path@] as int] } else { empty_record(e.path) };
    let direct = directly_in(e.path@)(f);
    let under = below(e.path@, root)(f);
    &&& e.direct_file_count == before.direct_file_count + if direct { 1int } else { 0 }
    &&& e.direct_file_size == if direct { sat_add(before.direct_file_size, f.size) } else { before.direct_file_size }
    &&& e.descendant_file_count == before.descendant_file_count + if under { 1int } else { 0 }
    &&& e.total_size == if under { sat_add(before.total_size, f.size) } else { before.total_size }
}

/// The same, while the ancestors still `pending` have not been credited yet.
pub open spec fn dir_partly_updated(
    e: DirectoryRecord,
    dirs0: Seq<DirectoryRecord>,
    index0: Map<Seq<char>, usize>,
    f: FileRecord,
    p: Seq<char>,
    root: Seq<char>,
    pending: spec_fn(Seq<char>) -> bool,
) -> bool {
    let was = index0.contains_key(e.path@);
    let before = if was { dirs0[index0[e.path@] as int] } else { empty_record(e.path) };
    let direct = e.path@ == p;
    let under = credits(p, e.path@, root) && !pending(e.path@);
    &&& e.direct_file_count == before.direct_file_count + if direct { 1int } else { 0 }
    &&& e.direct_file_size == if direct { sat_add(before.direct_file_size, f.size) } else { before.direct_file_size }
    &&& e.descendant_file_count == before.descendant_file_count + if under { 1int } else { 0 }
    &&& e.total_size == if under { sat_add(before.total_size, f.size) } else { before.total_size }
}

impl ScanAccumulator {
    /// Adds a file to the direct totals of its parent and to the totals of the parent and
    /// of each ancestor under the root, recording those directories.
    fn credit_directories(&mut self, file: &FileRecord)
        requires
            old(self).indexed(),
            forall|i: int| 0 <= i < old(self).dirs@.len() ==> (#[trigger] old(self).dirs@[i]).direct_file_count < u64::MAX
                && old(self).dirs@[i].descendant_file_count < u64::MAX,
        ensures
            final(self).indexed(),
            final(self).same_but_dirs(old(self)),
            old(self).cache_dirty ==> final(self).cache_dirty,
            forall|i: int| 0 <= i < final(self).dirs@.len() ==> dir_updated(
                #[trigger] final(self).dirs@[i],
                old(self).dirs@,
                old(self).dir_index@,
                *file,
                old(self).root@,
            ),
            forall|k: Seq<char>| old(self).dir_index@.contains_key(k) ==> #[trigger] final(self).dir_index@.contains_key(k),
            forall|k: Seq<char>| #[trigger] final(self).dir_index@.contains_key(k) && !old(self).dir_index@.contains_key(k)
                ==> directly_in(k)(*file) || below(k, old(self).root@)(*file),
            forall|k: Seq<char>| directly_in(k)(*file) || below(k, old(self).root@)(*file) ==> #[trigger] final(self).dir_index@.contains_key(k),
    {
        let ghost dirs0 = self.dirs@;
        let ghost index0 = self.dir_index@;
        let ghost root = self.root@;
        let pv = chars_of(file.path.as_str());
        match parent_chars(pv.as_slice()) {
            None => {
                proof {
                    assert forall|i: int| 0 <= i < self.dirs@.len() implies dir_updated(
                        #[trigger] self.dirs@[i], dirs0, index0, *file, root) by {
                        assert(index0.contains_key(self.dirs@[i].path@));
                        assert(index0[self.dirs@[i].path@] == i);
                    }
                }
            },
            Some(par) => {
                let ghost p = par@;
                let pi = self.dir_slot(string_from_chars(par.as_slice()));
                let mut rec = self.dirs[pi].copy();
                proof {
                    if index0.contains_key(p) {
                        assert(dirs0[index0[p] as int] == rec);
                    }
                }
                rec.direct_file_count = rec.direct_file_count + 1;
                rec.direct_file_size = rec.direct_file_size.saturating_add(file.size);
                self.dirs.set(pi, rec);
                let rv = chars_of(self.root.as_str());
                let mut cur: Vec<char> = par;
                let mut going = true;
                proof {
                    let pending = |d: Seq<char>| going && credits(cur@, d, root);
                    assert forall|i: int| 0 <= i < self.dirs@.len() implies dir_partly_updated(
                        #[trigger] self.dirs@[i], dirs0, index0, *file, p, root, pending) by {
                        let e = self.dirs@[i];
                        if credits(p, e.path@, root) {
                            assert(path_starts_with(p, root));
                            lemma_credits_step(p, e.path@, root);
                        }
                        if index0.contains_key(e.path@) {
                            assert(index0[e.path@] < dirs0.len());
                        }
                    }
                }
                while going
                    invariant
                        self.indexed(),
                        self.same_but_dirs(old(self)),
                        old(self).cache_dirty ==> self.cache_dirty,
                        rv@ == root,
                        root == old(self).root@,
                        dirs0 == old(self).dirs@,
                        index0 == old(self).dir_index@,
                        forall|k: Seq<char>| #[trigger] index0.contains_key(k) ==> index0[k] < dirs0.len()
                            && dirs0[index0[k] as int].path@ == k,
                        parent(file.path@) == Some(p),
                        forall|i: int| 0 <= i < dirs0.len() ==> (#[trigger] dirs0[i]).direct_file_count < u64::MAX
                            && dirs0[i].descendant_file_count < u64::MAX,
                        forall|d: Seq<char>| going && credits(cur@, d, root) ==> #[trigger] credits(p, d, root),
                        forall|i: int| 0 <= i < self.dirs@.len() ==> dir_partly_updated(
                            #[trigger] self.dirs@[i],
                            dirs0,
                            index0,
                            *file,
                            p,
                            root,
                            |d: Seq<char>| going && credits(cur@, d, root),
                        ),
                        forall|k: Seq<char>| index0.contains_key(k) ==> #[trigger] self.dir_index@.contains_key(k),
                        forall|k: Seq<char>| #[trigger] self.dir_index@.contains_key(k) && !index0.contains_key(k)
                            ==> k == p || (credits(p, k, root) && !(going && credits(cur@, k, root))),
                        self.dir_index@.contains_key(p),
                        forall|k: Seq<char>| credits(p, k, root) && !(going && credits(cur@, k, root))
                            ==> #[trigger] self.dir_index@.contains_key(k),
                    decreases (if going { cur@.len() + 1 } else { 0 }),
                {
                    if !path_starts_with_chars(cur.as_slice(), rv.as_slice()) {
                        going = false;
                    } else {
                        let ghost c = cur@;
                        let ghost dirs1 = self.dirs@;
                        let ghost index1 = self.dir_index@;
                        proof {
                            lemma_credits_step(c, c, root);
                        }
                        let idx = self.dir_slot(string_from_chars(cur.as_slice()));
                        let mut rec = self.dirs[idx].copy();
                        proof {
                            if index1.contains_key(c) {
                                assert(dirs1[index1[c] as int] == rec);
                            }
                            if index0.contains_key(c) {
                                assert(index0[c] < dirs0.len());
                            }
                        }
                        rec.descendant_file_count = rec.descendant_file_count + 1;
                        rec.total_size = rec.total_size.saturating_add(file.size);
                        self.dirs.set(idx, rec);
                        let next = parent_chars(cur.as_slice());
                        match next {
                            Some(q) => {
                                proof {
                                    lemma_parent_shorter(c);
                                }
                                cur = q;
                            },
                            None => {
                                going = false;
                            },
                        }
                        proof {
                            // the chain from here on is the old chain without `c`
                            assert forall|d: Seq<char>| #![trigger credits(p, d, root)]
                                true implies (credits(c, d, root) == (c == d || (going && credits(cur@, d, root)))) by {
                                lemma_credits_step(c, d, root);
                            }
                            if going {
                                if credits(cur@, c, root) {
                                    lemma_credits_len(cur@, c, root);
                                }
                            }
                            assert forall|i: int| 0 <= i < self.dirs@.len() implies dir_partly_updated(
                                #[trigger] self.dirs@[i], dirs0, index0, *file, p, root,
                                |d: Seq<char>| going && credits(cur@, d, root)) by {
                                let e = self.dirs@[i];
                                lemma_credits_step(c, e.path@, root);
                                if i != idx {
                                    assert(e == dirs1[i]);
                                    assert(e.path@ != c);
                                } 
                            }
                        }
                    }
                }
                proof {
                    assert forall|i: int| 0 <= i < self.dirs@.len() implies dir_updated(
                        #[trigger] self.dirs@[i], dirs0, index0, *file, root) by {
                        let e = self.dirs@[i];
                        assert(dir_partly_updated(e, dirs0, index0, *file, p, root, |d: Seq<char>| going && credits(cur@, d, root)));
                    }
                }
            },
        }
    }
}

/// Pushes a file into a list of the largest files, keeping the list ordered and bounded.
fn push_largest(items: &mut Vec<FileRecord>, item: FileRecord)
    requires
        is_sorted(old(items)@, larger_file()),
    ensures
        final(items)@ == truncated(insert_sorted(old(items)@, item, larger_file()), LARGEST_FILE_LIMIT as int),
{
    let ghost old_list = items@;
    let mut k: usize = 0;
    let mut found = false;
    while k < items.len() && !found
        invariant
            k <= items@.len(),
            items@ == old_list,
            forall|j: int| 0 <= j < k ==> !larger_file()(item, #[trigger] old_list[j]),
            found ==> k < old_list.len() && larger_file()(item, old_list[k as int]),
        decreases items.len() - k, if found { 0int } else { 1int },
    {
        if item.size > items[k].size {
            found = true;
        } else {
            k = k + 1;
        }
    }
    proof {
        lemma_insert_pos(old_list, item, larger_file(), k as int);
    }
    items.insert(k, item);
    assert(items@ =~= insert_sorted(old_list, item, larger_file()));
    if items.len() > LARGEST_FILE_LIMIT {
        items.truncate(LARGEST_FILE_LIMIT);
    }
}

/// The kept largest files are ordered largest first.
pub proof fn lemma_largest_sorted(files: Seq<FileRecord>)
    ensures
        is_sorted(largest_of(files), larger_file()),
    decreases files.len(),
{
    if files.len() > 0 {
        lemma_largest_sorted(files.drop_last());
        lemma_model_orders();
        lemma_insert_sorted_sorted(largest_of(files.drop_last()), files.last(), larger_file());
    }
}

/// The largest files kept are the first `LARGEST_FILE_LIMIT` of all files stably sorted
/// larger first.
pub proof fn lemma_largest_of(files: Seq<FileRecord>)
    ensures
        largest_of(files) == truncated(sort_by(files, larger_file()), LARGEST_FILE_LIMIT as int),
        first_sorted(largest_of(files), files, larger_file(), LARGEST_FILE_LIMIT as int),
    decreases files.len(),
{
    lemma_model_orders();
    lemma_sort_by(files, larger_file());
    if files.len() > 0 {
        let rest = files.drop_last();
        let n = LARGEST_FILE_LIMIT as int;
        lemma_largest_of(rest);
        lemma_sort_by(rest, larger_file());
        let s = sort_by(rest, larger_file());
        if s.len() > n {
            lemma_insert_take(s, files.last(), larger_file(), n);
            lemma_insert_sorted_sorted(s.take(n), files.last(), larger_file());
            lemma_insert_sorted_sorted(s, files.last(), larger_file());
        }
    }
}

impl Default for ScanAccumulator {
    fn default() -> (r: Self)
        ensures
            r.inv(),
            r.root_path() == Seq::<char>::empty(),
            r.files().len() == 0,
            r.dirs().len() == 0,
            r.extension_records().len() == 0,
            r.error_list().len() == 0,
            r.spec_total_size() == 0,
            r.spec_file_count() == 0,
            r.spec_dir_count() == 0,
            r.spec_error_count() == 0,
    {
        ScanAccumulator {
            root: String::new(),
            filter_config: ScanFilterConfig::default(),
            total_size: 0,
            file_count: 0,
            dir_count: 0,
            error_count: 0,
            dirs: Vec::new(),
            dir_index: StringHashMap::new(),
            extensions: Vec::new(),
            extension_index: StringHashMap::new(),
            all_files: Vec::new(),
            largest_files: Vec::new(),
            errors: Vec::new(),
            cached_top_level_dirs: None,
            cache_dirty: true,
            scan_started_at: instant_now(),
        }
    }
}

impl ScanAccumulator {
    /// An accumulator for a scan of `root` with no filter.
    pub fn new(root: String) -> (r: Self)
        ensures
            r.inv(),
            r.root_path() == canon(root@),
            r.files().len() == 0,
            r.dirs().len() == 1,
            is_empty_record(r.dirs()[0], canon(root@)),
            r.extension_records().len() == 0,
            r.error_list().len() == 0,
            r.spec_total_size() == 0,
            r.spec_file_count() == 0,
            r.spec_dir_count() == 1,
            r.spec_error_count() == 0,
            r.has_dir(canon(root@)),
    {
        Self::new_with_filter_config(root, ScanFilterConfig::default())
    }

    /// An accumulator for a scan of `root` under a filter; the root is recorded.
    pub fn new_with_filter_config(root: String, filter_config: ScanFilterConfig) -> (r: Self)
        ensures
            r.inv(),
            r.root_path() == canon(root@),
            r.filter() == filter_config,
            r.files().len() == 0,
            r.dirs().len() == 1,
            is_empty_record(r.dirs()[0], canon(root@)),
            r.extension_records().len() == 0,
            r.error_list().len() == 0,
            r.spec_total_size() == 0,
            r.spec_file_count() == 0,
            r.spec_dir_count() == 1,
            r.spec_error_count() == 0,
            r.has_dir(canon(root@)),
    {
        let root = canonical_string(root.as_str());
        let mut this = ScanAccumulator {
            root: root.clone(),
            filter_config,
            total_size: 0,
            file_count: 0,
            dir_count: 0,
            error_count: 0,
            dirs: Vec::new(),
            dir_index: StringHashMap::new(),
            extensions: Vec::new(),
            extension_index: StringHashMap::new(),
            all_files: Vec::new(),
            largest_files: Vec::new(),
            errors: Vec::new(),
            cached_top_level_dirs: None,
            cache_dirty: true,
            scan_started_at: instant_now(),
        };
        this.record_directory_at(root);
        assert(this.dirs() =~= seq![empty_record(root)]);
        this
    }

    /// Counts a file without recording it (a counting pass).
    pub fn record_file_count(&mut self)
        requires
            old(self).inv(),
            old(self).spec_file_count() < u64::MAX,
        ensures
            final(self).inv(),
            final(self).spec_file_count() == old(self).spec_file_count() + 1,
            final(self).files() == old(self).files(),
            final(self).dirs() == old(self).dirs(),
            final(self).extension_records() == old(self).extension_records(),
            final(self).error_list() == old(self).error_list(),
            final(self).root_path() == old(self).root_path(),
            final(self).filter() == old(self).filter(),
            final(self).spec_total_size() == old(self).spec_total_size(),
            final(self).spec_dir_count() == old(self).spec_dir_count(),
            final(self).spec_error_count() == old(self).spec_error_count(),
            forall|d: Seq<char>| #[trigger] final(self).has_dir(d) == old(self).has_dir(d),
    {
        self.file_count = self.file_count + 1;
        self.cache_dirty = true;
    }

    /// Counts an error; the first 300 messages are kept.
    pub fn record_error(&mut self, message: String)
        requires
            old(self).inv(),
            old(self).spec_error_count() < u64::MAX,
        ensures
            final(self).inv(),
            final(self).spec_error_count() == old(self).spec_error_count() + 1,
            old(self).error_list().len() < RETAINED_ERROR_LIMIT ==> final(self).error_list() == old(self).error_list().push(message),
            old(self).error_list().len() >= RETAINED_ERROR_LIMIT ==> final(self).error_list() == old(self).error_list(),
            final(self).files() == old(self).files(),
            final(self).dirs() == old(self).dirs(),
            final(self).extension_records() == old(self).extension_records(),
            final(self).root_path() == old(self).root_path(),
            final(self).filter() == old(self).filter(),
            final(self).spec_total_size() == old(self).spec_total_size(),
            final(self).spec_file_count() == old(self).spec_file_count(),
            final(self).spec_dir_count() == old(self).spec_dir_count(),
            forall|d: Seq<char>| #[trigger] final(self).has_dir(d) == old(self).has_dir(d),
    {
        self.error_count = self.error_count + 1;
        if self.errors.len() < RETAINED_ERROR_LIMIT {
            self.errors.push(message);
        }
    }

    /// Time since the accumulator was made.
    pub fn elapsed_time(&self) -> std::time::Duration {
        instant_elapsed(&self.scan_started_at)
    }

    /// Number of directories recorded.
    pub fn get_dir_count(&self) -> (r: u64)
        ensures
            r == self.spec_dir_count(),
    {
        self.dir_count
    }

    /// Number of files counted.
    pub fn get_file_count(&self) -> (r: u64)
        ensures
            r == self.spec_file_count(),
    {
        self.file_count
    }

    /// Number of errors counted.
    pub fn get_error_count(&self) -> (r: u64)
        ensures
            r == self.spec_error_count(),
    {
        self.error_count
    }
}

// ---------------------------------------------------------------------------------------
// Listing directories

pub(crate) fn copy_records(v: &Vec<DirectoryRecord>) -> (r: Vec<DirectoryRecord>)
    ensures
        r@ == v@,
{
    let mut r: Vec<DirectoryRecord> = Vec::new();
    let mut i: usize = 0;
    while i < v.len()
        invariant
            i <= v@.len(),
            r@ == v@.take(i as int),
        decreases v.len() - i,
    {
        r.push(v[i].copy());
        i = i + 1;
        assert(r@ =~= v@.take(i as int));
    }
    assert(r@ =~= v@);
    r
}

/// Copies of the records whose parent is `p`, in order.
fn records_under_exec(dirs: &Vec<DirectoryRecord>, p: &[char]) -> (r: Vec<DirectoryRecord>)
    ensures
        r@ == records_under(dirs@, p@),
{
    let mut r: Vec<DirectoryRecord> = Vec::new();
    let mut i: usize = 0;
    while i < dirs.len()
        invariant
            i <= dirs@.len(),
            r@ == records_under(dirs@.take(i as int), p@),
        decreases dirs.len() - i,
    {
        let pv = chars_of(dirs[i].path.as_str());
        let par = parent_chars(pv.as_slice());
        let is_child = match par {
            Some(q) => crate::text::chars_eq(q.as_slice(), p),
            None => false,
        };
        assert(dirs@.take(i as int + 1).drop_last() =~= dirs@.take(i as int));
        if is_child {
            r.push(dirs[i].copy());
        }
        i = i + 1;
    }
    assert(dirs@.take(dirs@.len() as int) =~= dirs@);
    r
}

/// Sorts directory records, larger first, then by path.
pub(crate) fn sort_dirs_by_size(v: Vec<DirectoryRecord>) -> (r: Vec<DirectoryRecord>)
    ensures
        is_sorted(r@, dir_by_size()),
        r@.to_multiset() == v@.to_multiset(),
{
    let less = |a: &DirectoryRecord, b: &DirectoryRecord| -> (r: bool)
        ensures
            r == dir_by_size()(*a, *b),
        {
            if a.total_size != b.total_size {
                a.total_size > b.total_size
            } else {
                dir_path_less(&a.path, &b.path)
            }
        };
    proof {
        lemma_model_orders();
    }
    merge_sort(v, &less, Ghost(dir_by_size()))
}

impl ScanAccumulator {
    /// The directories directly under the root, larger first, then by path; the list is
    /// kept until a directory or a file is recorded.
    pub fn get_top_level_dirs(&mut self) -> (r: Vec<DirectoryRecord>)
        requires
            old(self).inv(),
        ensures
            final(self).inv(),
            lists_children(r@, final(self).dirs(), final(self).root_path()),
            r@ == children_listing(final(self).dirs(), final(self).root_path()),
            final(self).dirs() == old(self).dirs(),
            final(self).files() == old(self).files(),
            final(self).extension_records() == old(self).extension_records(),
            final(self).largest() == old(self).largest(),
            final(self).error_list() == old(self).error_list(),
            final(self).root_path() == old(self).root_path(),
            final(self).filter() == old(self).filter(),
            final(self).spec_total_size() == old(self).spec_total_size(),
            final(self).spec_file_count() == old(self).spec_file_count(),
            final(self).spec_dir_count() == old(self).spec_dir_count(),
            final(self).spec_error_count() == old(self).spec_error_count(),
            forall|d: Seq<char>| #[trigger] final(self).has_dir(d) == old(self).has_dir(d),
    {
        if !self.cache_dirty {
            match &self.cached_top_level_dirs {
                Some(cached) => {
                    let r = copy_records(cached);
                    proof {
                        self.lemma_children_listing(r@, self.root@);
                    }
                    return r;
                },
                None => {},
            }
        }
        let rv = chars_of(self.root.as_str());
        let under = records_under_exec(&self.dirs, rv.as_slice());
        let top_level = sort_dirs_by_size(under);
        self.cached_top_level_dirs = Some(copy_records(&top_level));
        self.cache_dirty = false;
        proof {
            self.lemma_children_listing(top_level@, self.root@);
        }
        top_level
    }

    /// The directories directly under `parent_path` (by its canonical spelling), larger
    /// first, then by path.
    pub fn get_children_of(&self, parent_path: &str) -> (r: Vec<DirectoryRecord>)
        requires
            self.inv(),
        ensures
            lists_children(r@, self.dirs(), canon(parent_path@)),
            r@ == children_listing(self.dirs(), canon(parent_path@)),
    {
        let pv0 = chars_of(parent_path);
        let pv = canonical_chars(pv0.as_slice());
        let under = records_under_exec(&self.dirs, pv.as_slice());
        let r = sort_dirs_by_size(under);
        proof {
            self.lemma_children_listing(r@, canon(parent_path@));
        }
        r
    }
}

// ---------------------------------------------------------------------------------------
// The directory tree

/// One directory of the tree.
pub struct DirectoryNode {
    pub record: DirectoryRecord,
    pub parent: Option<usize>,
    /// Positions of the subdirectories, larger first, then by path.
    pub children: Vec<usize>,
}

/// The recorded directories as a tree, in path order.
pub struct DirectoryTree {
    pub root_index: usize,
    pub nodes: Vec<DirectoryNode>,
    pub path_index: StringHashMap<usize>,
}

/// The records of the nodes.
pub open spec fn node_records(nodes: Seq<DirectoryNode>) -> Seq<DirectoryRecord> {
    nodes.map_values(|n: DirectoryNode| n.record)
}

/// The position of each path among the records; a later record with the same path wins.
pub open spec fn path_positions(recs: Seq<DirectoryRecord>) -> Map<Seq<char>, usize>
    decreases recs.len(),
{
    if recs.len() == 0 {
        Map::empty()
    } else {
        path_positions(recs.drop_last()).insert(recs.last().path@, (recs.len() - 1) as usize)
    }
}

/// Sort key of a position: larger records first, then by path (positions past the end last).
pub open spec fn child_key(recs: Seq<DirectoryRecord>, a: usize) -> (int, Seq<char>, Seq<char>) {
    if a < recs.len() {
        dir_size_key(recs[a as int])
    } else {
        (1, Seq::empty(), Seq::empty())
    }
}

/// Subdirectories by position: larger first, then by path.
pub open spec fn child_order(recs: Seq<DirectoryRecord>) -> spec_fn(usize, usize) -> bool {
    |a: usize, b: usize| key2_lt(child_key(recs, a), child_key(recs, b))
}

/// The position of the parent of the record at `k`: none for the root and for records
/// whose parent has no record.
pub open spec fn parent_position(recs: Seq<DirectoryRecord>, root_index: usize, k: int) -> Option<usize> {
    if k == root_index {
        None
    } else {
        match parent(recs[k].path@) {
            Some(q) => if path_positions(recs).contains_key(q) {
                Some(path_positions(recs)[q])
            } else {
                None
            },
            None => None,
        }
    }
}

/// `t` is the tree of the records `dirs` of a scan of `root`: the nodes hold the records
/// in path order, the root is the node of `root` (the first node when there is none), each
/// other node's parent is the node of its parent directory, and each node lists exactly
/// the nodes whose parent it is, larger first, then by path.
pub open spec fn tree_of(t: DirectoryTree, dirs: Seq<DirectoryRecord>, root: Seq<char>) -> bool {
    let nodes = t.nodes@;
    let recs = node_records(nodes);
    &&& nodes.len() <= usize::MAX
    &&& recs.to_multiset() == dirs.to_multiset()
    &&& is_sorted(recs, dir_by_path())
    &&& t.path_index@ == path_positions(recs)
    &&& t.root_index == (if path_positions(recs).contains_key(root) { path_positions(recs)[root] } else { 0 })
    &&& forall|k: int| 0 <= k < nodes.len() ==> (#[trigger] nodes[k]).parent == parent_position(recs, t.root_index, k)
    &&& forall|k: int| 0 <= k < nodes.len() ==> is_sorted((#[trigger] nodes[k]).children@, child_order(recs))
        && nodes[k].children@.no_duplicates()
    &&& forall|k: int, c: usize| 0 <= k < nodes.len() ==> ((#[trigger] nodes[k].children@.contains(c)) <==> (c < nodes.len()
        && nodes[c as int].parent == Some(k as usize)))
}

impl DirectoryTree {
    /// A tree of the given nodes, with its path index built (as after reading a saved tree).
    pub fn from_nodes(root_index: usize, nodes: Vec<DirectoryNode>) -> (r: DirectoryTree)
        ensures
            r.root_index == root_index,
            r.nodes@ == nodes@,
            r.path_index@ == path_positions(node_records(nodes@)),
    {
        let mut tree = DirectoryTree { root_index, nodes, path_index: StringHashMap::new() };
        tree.rebuild_path_index();
        tree
    }

    /// Rebuilds the path index from the nodes.
    pub fn rebuild_path_index(&mut self)
        ensures
            final(self).path_index@ == path_positions(node_records(final(self).nodes@)),
            final(self).nodes == old(self).nodes,
            final(self).root_index == old(self).root_index,
    {
        self.path_index.clear();
        let mut i: usize = 0;
        while i < self.nodes.len()
            invariant
                i <= self.nodes@.len(),
                self.nodes == old(self).nodes,
                self.root_index == old(self).root_index,
                self.path_index@ == path_positions(node_records(self.nodes@).take(i as int)),
            decreases self.nodes.len() - i,
        {
            let ghost recs = node_records(self.nodes@);
            assert(recs.take(i as int + 1).drop_last() =~= recs.take(i as int));
            self.path_index.insert(self.nodes[i].record.path.clone(), i);
            i = i + 1;
        }
        assert(node_records(self.nodes@).take(i as int) =~= node_records(self.nodes@));
    }

    /// The position of the node of `path`.
    pub fn node_index_for_path(&self, path: &str) -> (r: Option<usize>)
        ensures
            r == (if self.path_index@.contains_key(canon(path@)) {
                Some(self.path_index@[canon(path@)])
            } else {
                None::<usize>
            }),
    {
        let c = canonical_string(path);
        match self.path_index.get(c.as_str()) {
            Some(i) => Some(*i),
            None => None,
        }
    }
}

/// Sorts directory records by path.
fn sort_dirs_by_path(v: Vec<DirectoryRecord>) -> (r: Vec<DirectoryRecord>)
    ensures
        is_sorted(r@, dir_by_path()),
        r@.to_multiset() == v@.to_multiset(),
{
    let less = |a: &DirectoryRecord, b: &DirectoryRecord| -> (r: bool)
        ensures
            r == dir_by_path()(*a, *b),
        { dir_path_less(&a.path, &b.path) };
    proof {
        lemma_model_orders();
    }
    merge_sort(v, &less, Ghost(dir_by_path()))
}

/// The child order is a strict weak order.
pub proof fn lemma_child_order(recs: Seq<DirectoryRecord>)
    ensures
        strict_weak(child_order(recs)),
{
    lemma_key2_order(child_order(recs), |a: usize| child_key(recs, a));
}

/// Sorts positions of records, larger first, then by path.
fn sort_children(v: Vec<usize>, recs: &Vec<DirectoryRecord>) -> (r: Vec<usize>)
    requires
        forall|i: int| 0 <= i < v@.len() ==> (#[trigger] v@[i]) < recs@.len(),
    ensures
        is_sorted(r@, child_order(recs@)),
        r@.to_multiset() == v@.to_multiset(),
{
    let less = |a: &usize, b: &usize| -> (r: bool)
        ensures
            r == child_order(recs@)(*a, *b),
        {
            if *a < recs.len() && *b < recs.len() {
                let ra = &recs[*a];
                let rb = &recs[*b];
                if ra.total_size != rb.total_size {
                    ra.total_size > rb.total_size
                } else {
                    dir_path_less(&ra.path, &rb.path)
                }
            } else {
                *a < recs.len() && *b >= recs.len()
            }
        };
    proof {
        lemma_child_order(recs@);
    }
    merge_sort(v, &less, Ghost(child_order(recs@)))
}

/// No two records share a path.
pub open spec fn unique_paths(recs: Seq<DirectoryRecord>) -> bool {
    forall|i: int, j: int| 0 <= i < recs.len() && 0 <= j < recs.len() && i != j ==> (#[trigger] recs[i]).path@ != (#[trigger] recs[j]).path@
}

/// With unique paths, each record's path leads to its position, and only record paths do.
pub proof fn lemma_path_positions(recs: Seq<DirectoryRecord>)
    requires
        unique_paths(recs),
        recs.len() <= usize::MAX,
    ensures
        forall|k: int| 0 <= k < recs.len() ==> path_positions(recs).contains_key((#[trigger] recs[k]).path@)
            && path_positions(recs)[recs[k].path@] == k,
        forall|q: Seq<char>| #[trigger] path_positions(recs).contains_key(q) ==> path_positions(recs)[q] < recs.len()
            && recs[path_positions(recs)[q] as int].path@ == q,
    decreases recs.len(),
{
    if recs.len() > 0 {
        let rest = recs.drop_last();
        assert(unique_paths(rest)) by {
            assert forall|i: int, j: int| 0 <= i < rest.len() && 0 <= j < rest.len() && i != j implies (#[trigger] rest[i]).path@ != (#[trigger] rest[j]).path@ by {
                assert(rest[i] == recs[i] && rest[j] == recs[j]);
            }
        }
        lemma_path_positions(rest);
        let last = recs.len() - 1;
        assert(path_positions(recs) == path_positions(rest).insert(recs[last].path@, last as usize));
        assert forall|k: int| 0 <= k < recs.len() implies path_positions(recs).contains_key((#[trigger] recs[k]).path@)
            && path_positions(recs)[recs[k].path@] == k by {
            if k < rest.len() {
                assert(rest[k] == recs[k]);
                assert(recs[k].path@ != recs[last].path@);
                assert(path_positions(rest).contains_key(rest[k].path@));
                assert(path_positions(rest)[rest[k].path@] == k);
            } else {
                assert(k == last);
            }
        }
        assert forall|q: Seq<char>| #[trigger] path_positions(recs).contains_key(q) implies path_positions(recs)[q] < recs.len()
            && recs[path_positions(recs)[q] as int].path@ == q by {
            if q != recs[last].path@ {
                assert(path_positions(rest).contains_key(q));
                let k = path_positions(rest)[q] as int;
                assert(rest[k] == recs[k]);
            }
        }
    }
}

/// The position index holds exactly the paths of the records, each leading to a record
/// with that path (the last one, where paths repeat).
pub proof fn lemma_path_positions_keys(recs: Seq<DirectoryRecord>)
    requires
        recs.len() <= usize::MAX,
    ensures
        forall|q: Seq<char>| #[trigger] path_positions(recs).contains_key(q) <==> exists|k: int| 0 <= k < recs.len()
            && (#[trigger] recs[k]).path@ == q,
        forall|q: Seq<char>| #[trigger] path_positions(recs).contains_key(q) ==> path_positions(recs)[q] < recs.len()
            && recs[path_positions(recs)[q] as int].path@ == q,
    decreases recs.len(),
{
    if recs.len() > 0 {
        let rest = recs.drop_last();
        lemma_path_positions_keys(rest);
        let last = recs.len() - 1;
        assert(path_positions(recs) == path_positions(rest).insert(recs[last].path@, last as usize));
        assert forall|q: Seq<char>| #[trigger] path_positions(recs).contains_key(q) <==> exists|k: int| 0 <= k < recs.len()
            && (#[trigger] recs[k]).path@ == q by {
            if path_positions(recs).contains_key(q) && q != recs[last].path@ {
                let k = choose|k: int| 0 <= k < rest.len() && (#[trigger] rest[k]).path@ == q;
                assert(recs[k] == rest[k]);
            }
            if exists|k: int| 0 <= k < recs.len() && (#[trigger] recs[k]).path@ == q {
                let k = choose|k: int| 0 <= k < recs.len() && (#[trigger] recs[k]).path@ == q;
                if k < last {
                    assert(rest[k] == recs[k]);
                }
            }
        }
        assert forall|q: Seq<char>| #[trigger] path_positions(recs).contains_key(q) implies path_positions(recs)[q] < recs.len()
            && recs[path_positions(recs)[q] as int].path@ == q by {
            if q != recs[last].path@ {
                let k = path_positions(rest)[q] as int;
                assert(rest[k] == recs[k]);
            }
        }
    }
}

impl DirectoryTree {
    /// After the path index is rebuilt, it finds exactly the paths of the nodes, each at a
    /// node with that path; with unique paths, each node is found at its own position.
    pub proof fn lemma_rebuilt_index(&self)
        requires
            self.path_index@ == path_positions(node_records(self.nodes@)),
            self.nodes@.len() <= usize::MAX,
        ensures
            forall|q: Seq<char>| #[trigger] self.path_index@.contains_key(q) <==> exists|k: int| 0 <= k < self.nodes@.len()
                && (#[trigger] self.nodes@[k]).record.path@ == q,
            forall|q: Seq<char>| #[trigger] self.path_index@.contains_key(q) ==> self.path_index@[q] < self.nodes@.len()
                && self.nodes@[self.path_index@[q] as int].record.path@ == q,
            unique_paths(node_records(self.nodes@)) ==> forall|k: int| 0 <= k < self.nodes@.len() ==> self.path_index@[(
            #[trigger] self.nodes@[k]).record.path@] == k,
    {
        let recs = node_records(self.nodes@);
        lemma_path_positions_keys(recs);
        assert forall|k: int| 0 <= k < self.nodes@.len() implies #[trigger] recs[k] == self.nodes@[k].record by {}
        assert forall|q: Seq<char>| #[trigger] self.path_index@.contains_key(q) <==> exists|k: int| 0 <= k < self.nodes@.len()
            && (#[trigger] self.nodes@[k]).record.path@ == q by {
            if exists|k: int| 0 <= k < self.nodes@.len() && (#[trigger] self.nodes@[k]).record.path@ == q {
                let k = choose|k: int| 0 <= k < self.nodes@.len() && (#[trigger] self.nodes@[k]).record.path@ == q;
                assert(recs[k].path@ == q);
            }
            if self.path_index@.contains_key(q) {
                let k = choose|k: int| 0 <= k < recs.len() && (#[trigger] recs[k]).path@ == q;
                assert(self.nodes@[k].record.path@ == q);
            }
        }
        if unique_paths(recs) {
            lemma_path_positions(recs);
            assert forall|k: int| 0 <= k < self.nodes@.len() implies self.path_index@[(
            #[trigger] self.nodes@[k]).record.path@] == k by {
                assert(recs[k] == self.nodes@[k].record);
            }
        }
    }
}

/// Records with the same elements as records with unique paths have unique paths too.
pub proof fn lemma_unique_paths_permuted(a: Seq<DirectoryRecord>, b: Seq<DirectoryRecord>)
    requires
        unique_paths(a),
        a.to_multiset() == b.to_multiset(),
    ensures
        unique_paths(b),
{
    broadcast use vstd::seq_lib::group_to_multiset_ensures;
    assert(a.no_duplicates()) by {
        assert forall|i: int, j: int| 0 <= i < a.len() && 0 <= j < a.len() && i != j implies a[i] != a[j] by {
            assert(a[i].path@ != a[j].path@);
        }
    }
    a.lemma_multiset_has_no_duplicates();
    b.lemma_multiset_has_no_duplicates_conv();
    assert forall|i: int, j: int| 0 <= i < b.len() && 0 <= j < b.len() && i != j implies (#[trigger] b[i]).path@ != (#[trigger] b[j]).path@ by {
        assert(b.to_multiset().count(b[i]) > 0);
        assert(b.to_multiset().count(b[j]) > 0);
        assert(a.contains(b[i]));
        assert(a.contains(b[j]));
        let x = choose|x: int| 0 <= x < a.len() && a[x] == b[i];
        let y = choose|y: int| 0 <= y < a.len() && a[y] == b[j];
        if b[i].path@ == b[j].path@ {
            assert(x == y);
        }
    }
}

impl ScanAccumulator {
    /// The recorded directories as a tree.
    fn build_directory_tree(&self) -> (t: DirectoryTree)
        requires
            self.inv(),
        ensures
            tree_of(t, self.dirs(), self.root_path()),
    {
        let records = sort_dirs_by_path(copy_records(&self.dirs));
        let ghost recs = records@;
        let n = records.len();
        proof {
            assert(unique_paths(self.dirs@)) by {
                assert forall|i: int, j: int| 0 <= i < self.dirs@.len() && 0 <= j < self.dirs@.len() && i != j
                    implies (#[trigger] self.dirs@[i]).path@ != (#[trigger] self.dirs@[j]).path@ by {
                    assert(self.dir_index@[self.dirs@[i].path@] == i);
                    assert(self.dir_index@[self.dirs@[j].path@] == j);
                }
            }
            lemma_unique_paths_permuted(self.dirs@, recs);
            lemma_path_positions(recs);
        }
        let mut path_index: StringHashMap<usize> = StringHashMap::new();
        let mut i: usize = 0;
        while i < n
            invariant
                n == recs.len(),
                records@ == recs,
                i <= n,
                path_index@ == path_positions(recs.take(i as int)),
            decreases n - i,
        {
            assert(recs.take(i as int + 1).drop_last() =~= recs.take(i as int));
            path_index.insert(records[i].path.clone(), i);
            i = i + 1;
        }
        assert(recs.take(n as int) =~= recs);
        let root_index: usize = match path_index.get(self.root.as_str()) {
            Some(r) => *r,
            None => 0,
        };
        let mut parents: Vec<Option<usize>> = Vec::new();
        let mut kids: Vec<Vec<usize>> = Vec::new();
        let mut j: usize = 0;
        while j < n
            invariant
                j <= n,
                kids@.len() == j,
                forall|k: int| 0 <= k < j ==> (#[trigger] kids@[k])@.len() == 0,
            decreases n - j,
        {
            kids.push(Vec::new());
            j = j + 1;
        }
        let mut index: usize = 0;
        while index < n
            invariant
                n == recs.len(),
                records@ == recs,
                path_index@ == path_positions(recs),
                unique_paths(recs),
                forall|q: Seq<char>| #[trigger] path_positions(recs).contains_key(q) ==> path_positions(recs)[q] < recs.len()
                    && recs[path_positions(recs)[q] as int].path@ == q,
                root_index == (if path_positions(recs).contains_key(self.root@) { path_positions(recs)[self.root@] } else { 0 }),
                index <= n,
                parents@.len() == index,
                kids@.len() == n,
                forall|k: int| 0 <= k < index ==> (#[trigger] parents@[k]) == parent_position(recs, root_index, k),
                forall|k: int, c: usize| 0 <= k < n ==> ((#[trigger] kids@[k]@.contains(c)) <==> (c < index && parents@[c as int] == Some(k as usize))),
                forall|k: int| 0 <= k < n ==> (#[trigger] kids@[k])@.no_duplicates(),
            decreases n - index,
        {
            let mut pp: Option<usize> = None;
            if index != root_index {
                let pv = chars_of(records[index].path.as_str());
                match parent_chars(pv.as_slice()) {
                    Some(q) => {
                        let qs = string_from_chars(q.as_slice());
                        match path_index.get(qs.as_str()) {
                            Some(pi) => {
                                pp = Some(*pi);
                            },
                            None => {},
                        }
                    },
                    None => {},
                }
            }
            assert(pp == parent_position(recs, root_index, index as int));
            let ghost old_kids = kids@;
            parents.push(pp);
            match pp {
                Some(pi) => {
                    let mut list = kids[pi].clone();
                    assert(list@ =~= old_kids[pi as int]@);
                    list.push(index);
                    kids.set(pi, list);
                    proof {
                        assert forall|k: int, c: usize| 0 <= k < n implies ((#[trigger] kids@[k]@.contains(c)) <==> (c < index + 1 && parents@[c as int] == Some(k as usize))) by {
                            if k == pi {
                                assert(kids@[k]@ == old_kids[k]@.push(index));
                                if c == index {
                                    assert(kids@[k]@[kids@[k]@.len() - 1] == index);
                                }
                                if old_kids[k]@.contains(c) {
                                    let w = choose|w: int| 0 <= w < old_kids[k]@.len() && old_kids[k]@[w] == c;
                                    assert(kids@[k]@[w] == c);
                                }
                            } else {
                                assert(kids@[k] == old_kids[k]);
                            }
                        }
                        assert forall|k: int| 0 <= k < n implies (#[trigger] kids@[k])@.no_duplicates() by {
                            if k == pi {
                                assert(!old_kids[k]@.contains(index));
                                assert(kids@[k]@ == old_kids[k]@.push(index));
                            } else {
                                assert(kids@[k] == old_kids[k]);
                            }
                        }
                    }
                },
                None => {
                    proof {
                        assert forall|k: int, c: usize| 0 <= k < n implies ((#[trigger] kids@[k]@.contains(c)) <==> (c < index + 1 && parents@[c as int] == Some(k as usize))) by {
                            assert(kids@[k] == old_kids[k]);
                        }
                    }
                },
            }
            index = index + 1;
        }
        let mut nodes: Vec<DirectoryNode> = Vec::new();
        let mut k: usize = 0;
        while k < n
            invariant
                n == recs.len(),
                records@ == recs,
                kids@.len() == n,
                parents@.len() == n,
                k <= n,
                nodes@.len() == k,
                forall|m: int| 0 <= m < k ==> (#[trigger] nodes@[m]).record == recs[m] && nodes@[m].parent == parents@[m],
                forall|m: int| 0 <= m < k ==> is_sorted((#[trigger] nodes@[m]).children@, child_order(recs))
                    && nodes@[m].children@.to_multiset() == kids@[m]@.to_multiset(),
                forall|m: int, c: usize| 0 <= m < n ==> ((#[trigger] kids@[m]@.contains(c)) <==> (c < n && parents@[c as int] == Some(m as usize))),
            decreases n - k,
        {
            let list = kids[k].clone();
            assert(list@ =~= kids@[k as int]@);
            assert forall|a: int| 0 <= a < list@.len() implies (#[trigger] list@[a]) < records@.len() by {
                assert(kids@[k as int]@.contains(list@[a]));
            }
            let children = sort_children(list, &records);
            nodes.push(DirectoryNode { record: records[k].copy(), parent: parents[k], children });
            k = k + 1;
        }
        let t = DirectoryTree { root_index, nodes, path_index };
        proof {
            broadcast use vstd::seq_lib::group_to_multiset_ensures;
            let ns = t.nodes@;
            assert(node_records(ns) =~= recs);
            assert forall|m: int| 0 <= m < ns.len() implies is_sorted((#[trigger] ns[m]).children@, child_order(recs))
                && ns[m].children@.no_duplicates() by {
                kids@[m]@.lemma_multiset_has_no_duplicates();
                ns[m].children@.lemma_multiset_has_no_duplicates_conv();
            }
            assert forall|m: int, c: usize| 0 <= m < ns.len() implies ((#[trigger] ns[m].children@.contains(c)) <==> (c < ns.len()
                && ns[c as int].parent == Some(m as usize))) by {
                assert(ns[m].children@.contains(c) == (ns[m].children@.to_multiset().count(c) > 0));
                assert(kids@[m]@.contains(c) == (kids@[m]@.to_multiset().count(c) > 0));
                if c < ns.len() {
                    assert(ns[c as int].parent == parents@[c as int]);
                }
            }
        }
        t
    }
}

// ---------------------------------------------------------------------------------------
// Snapshots

/// What a scan found.
pub struct ScanStats {
    pub schema_version: u32,
    pub saved_at_unix_secs: Option<u64>,
    pub app_version: Option<String>,
    pub root: String,
    pub filter_config: ScanFilterConfig,
    pub total_size: u64,
    pub file_count: u64,
    pub dir_count: u64,
    pub error_count: u64,
    /// The largest files, largest first.
    pub largest_files: Vec<FileRecord>,
    /// Every file, by path (final snapshots only).
    pub all_files: Vec<FileRecord>,
    /// The largest directories, largest first (final snapshots only).
    pub largest_dirs: Vec<DirectoryRecord>,
    /// The largest extensions, largest first (final snapshots only).
    pub extensions: Vec<ExtensionRecord>,
    pub errors: Vec<String>,
    /// The directory tree (final snapshots only).
    pub directory_tree: Option<DirectoryTree>,
    /// The directories directly under the root, largest first.
    pub top_level_dirs: Vec<DirectoryRecord>,
}

/// The schema version of a scan saved without one.
pub fn default_schema_version() -> (r: u32)
    ensures
        r == SCAN_STATS_SCHEMA_VERSION,
{
    SCAN_STATS_SCHEMA_VERSION
}

impl Default for ScanStats {
    fn default() -> (r: Self)
        ensures
            r.schema_version == SCAN_STATS_SCHEMA_VERSION,
            r.saved_at_unix_secs is None,
            r.app_version matches Some(v) && v@ == APP_VERSION@,
            r.root@ == Seq::<char>::empty(),
            r.filter_config.excluded_directories@.len() == 0,
            r.filter_config.excluded_extensions@.len() == 0,
            !r.filter_config.same_file_system,
            r.total_size == 0,
            r.file_count == 0,
            r.dir_count == 0,
            r.error_count == 0,
            r.largest_files@.len() == 0,
            r.all_files@.len() == 0,
            r.largest_dirs@.len() == 0,
            r.extensions@.len() == 0,
            r.errors@.len() == 0,
            r.directory_tree is None,
            r.top_level_dirs@.len() == 0,
    {
        ScanStats {
            schema_version: SCAN_STATS_SCHEMA_VERSION,
            saved_at_unix_secs: None,
            app_version: Some(String::from_str(APP_VERSION)),
            root: String::new(),
            filter_config: ScanFilterConfig::default(),
            total_size: 0,
            file_count: 0,
            dir_count: 0,
            error_count: 0,
            largest_files: Vec::new(),
            all_files: Vec::new(),
            largest_dirs: Vec::new(),
            extensions: Vec::new(),
            errors: Vec::new(),
            directory_tree: None,
            top_level_dirs: Vec::new(),
        }
    }
}

/// `SystemTime::now` as whole seconds since the Unix epoch (`None` for a clock before the
/// epoch); nothing is stated of the value.
#[verifier::external_body]
fn unix_time_secs() -> Option<u64> {
    match std::time::SystemTime::now().duration_since(std::time::UNIX_EPOCH) {
        Ok(d) => Some(d.as_secs()),
        Err(_) => None,
    }
}

impl ScanStats {
    /// Rebuilds the path index of the tree, if there is one.
    pub fn rebuild_indexes(&mut self)
        ensures
            old(self).directory_tree is None ==> final(self).directory_tree is None,
            old(self).directory_tree matches Some(t) ==> (final(self).directory_tree matches Some(u)
                && u.nodes == t.nodes && u.root_index == t.root_index
                && u.path_index@ == path_positions(node_records(u.nodes@))),
    {
        match &mut self.directory_tree {
            Some(tree) => tree.rebuild_path_index(),
            None => {},
        }
    }

    /// Marks the scan as saved at `saved_at` (seconds since the epoch) by this version.
    pub fn prepare_for_save_at(&mut self, saved_at: Option<u64>)
        ensures
            final(self).schema_version == SCAN_STATS_SCHEMA_VERSION,
            final(self).saved_at_unix_secs == saved_at,
            final(self).app_version matches Some(v) && v@ == APP_VERSION@,
            final(self).root == old(self).root,
            final(self).total_size == old(self).total_size,
            final(self).file_count == old(self).file_count,
            final(self).dir_count == old(self).dir_count,
            final(self).error_count == old(self).error_count,
    {
        self.schema_version = SCAN_STATS_SCHEMA_VERSION;
        self.saved_at_unix_secs = saved_at;
        self.app_version = Some(String::from_str(APP_VERSION));
    }

    /// Marks the scan as saved now by this version.
    pub fn prepare_for_save(&mut self)
        ensures
            final(self).schema_version == SCAN_STATS_SCHEMA_VERSION,
            final(self).app_version matches Some(v) && v@ == APP_VERSION@,
            final(self).root == old(self).root,
            final(self).total_size == old(self).total_size,
            final(self).file_count == old(self).file_count,
            final(self).dir_count == old(self).dir_count,
            final(self).error_count == old(self).error_count,
    {
        let now = unix_time_secs();
        self.prepare_for_save_at(now);
    }

    /// A scan saved before versions were recorded counts as version 1.
    pub fn normalize_cache_metadata_after_load(&mut self)
        ensures
            final(self).schema_version == if old(self).schema_version == 0 { 1 } else { old(self).schema_version },
            final(self).saved_at_unix_secs == old(self).saved_at_unix_secs,
            final(self).app_version == old(self).app_version,
            final(self).root == old(self).root,
            final(self).total_size == old(self).total_size,
    {
        if self.schema_version == 0 {
            self.schema_version = 1;
        }
    }
}

fn copy_files(v: &Vec<FileRecord>) -> (r: Vec<FileRecord>)
    ensures
        r@ == v@,
{
    let mut r: Vec<FileRecord> = Vec::new();
    let mut i: usize = 0;
    while i < v.len()
        invariant
            i <= v@.len(),
            r@ == v@.take(i as int),
        decreases v.len() - i,
    {
        r.push(v[i].copy());
        i = i + 1;
        assert(r@ =~= v@.take(i as int));
    }
    assert(r@ =~= v@);
    r
}

fn copy_extensions(v: &Vec<ExtensionRecord>) -> (r: Vec<ExtensionRecord>)
    ensures
        r@ == v@,
{
    let mut r: Vec<ExtensionRecord> = Vec::new();
    let mut i: usize = 0;
    while i < v.len()
        invariant
            i <= v@.len(),
            r@ == v@.take(i as int),
        decreases v.len() - i,
    {
        r.push(v[i].copy());
        i = i + 1;
        assert(r@ =~= v@.take(i as int));
    }
    assert(r@ =~= v@);
    r
}

impl DirectoryNode {
    /// A copy of the node.
    pub fn copy(&self) -> (r: DirectoryNode)
        ensures
            r.record == self.record,
            r.parent == self.parent,
            r.children@ == self.children@,
    {
        DirectoryNode { record: self.record.copy(), parent: self.parent, children: self.children.clone() }
    }
}

impl DirectoryTree {
    /// A copy of the tree, with its index built anew.
    pub fn copy(&self) -> (r: DirectoryTree)
        ensures
            r.root_index == self.root_index,
            r.nodes@.len() == self.nodes@.len(),
            forall|k: int| 0 <= k < self.nodes@.len() ==> {
                &&& (#[trigger] r.nodes@[k]).record == self.nodes@[k].record
                &&& r.nodes@[k].parent == self.nodes@[k].parent
                &&& r.nodes@[k].children@ == self.nodes@[k].children@
            },
            r.path_index@ == path_positions(node_records(r.nodes@)),
    {
        let mut nodes: Vec<DirectoryNode> = Vec::new();
        let mut i: usize = 0;
        while i < self.nodes.len()
            invariant
                i <= self.nodes@.len(),
                nodes@.len() == i,
                forall|k: int| 0 <= k < i ==> {
                    &&& (#[trigger] nodes@[k]).record == self.nodes@[k].record
                    &&& nodes@[k].parent == self.nodes@[k].parent
                    &&& nodes@[k].children@ == self.nodes@[k].children@
                },
            decreases self.nodes.len() - i,
        {
            nodes.push(self.nodes[i].copy());
            i = i + 1;
        }
        DirectoryTree::from_nodes(self.root_index, nodes)
    }
}

impl ScanStats {
    /// A copy of the scan (its tree with its index built anew).
    pub fn copy(&self) -> (r: ScanStats)
        ensures
            r.schema_version == self.schema_version,
            r.saved_at_unix_secs == self.saved_at_unix_secs,
            r.app_version == self.app_version,
            r.root == self.root,
            r.filter_config.excluded_directories@ == self.filter_config.excluded_directories@,
            r.filter_config.excluded_extensions@ == self.filter_config.excluded_extensions@,
            r.filter_config.same_file_system == self.filter_config.same_file_system,
            r.total_size == self.total_size,
            r.file_count == self.file_count,
            r.dir_count == self.dir_count,
            r.error_count == self.error_count,
            r.largest_files@ == self.largest_files@,
            r.all_files@ == self.all_files@,
            r.largest_dirs@ == self.largest_dirs@,
            r.extensions@ == self.extensions@,
            r.errors@ == self.errors@,
            r.top_level_dirs@ == self.top_level_dirs@,
            r.directory_tree is Some == self.directory_tree is Some,
    {
        ScanStats {
            schema_version: self.schema_version,
            saved_at_unix_secs: self.saved_at_unix_secs,
            app_version: self.app_version.clone(),
            root: self.root.clone(),
            filter_config: self.filter_config.copy(),
            total_size: self.total_size,
            file_count: self.file_count,
            dir_count: self.dir_count,
            error_count: self.error_count,
            largest_files: copy_files(&self.largest_files),
            all_files: copy_files(&self.all_files),
            largest_dirs: copy_records(&self.largest_dirs),
            extensions: copy_extensions(&self.extensions),
            errors: crate::text::copy_strings(&self.errors),
            directory_tree: match &self.directory_tree {
                Some(t) => Some(t.copy()),
                None => None,
            },
            top_level_dirs: copy_records(&self.top_level_dirs),
        }
    }
}

/// Sorts files, larger first, then by path.
fn sort_files_by_size(v: Vec<FileRecord>) -> (r: Vec<FileRecord>)
    ensures
        is_sorted(r@, file_by_size()),
        r@.to_multiset() == v@.to_multiset(),
{
    let less = |a: &FileRecord, b: &FileRecord| -> (r: bool)
        ensures
            r == file_by_size()(*a, *b),
        {
            if a.size != b.size {
                a.size > b.size
            } else {
                path_less(&a.path, &b.path)
            }
        };
    proof {
        lemma_model_orders();
    }
    merge_sort(v, &less, Ghost(file_by_size()))
}

/// Sorts files by path, then larger first.
pub(crate) fn sort_files_by_path(v: Vec<FileRecord>) -> (r: Vec<FileRecord>)
    ensures
        is_sorted(r@, file_by_path()),
        r@.to_multiset() == v@.to_multiset(),
{
    let less = |a: &FileRecord, b: &FileRecord| -> (r: bool)
        ensures
            r == file_by_path()(*a, *b),
        {
            if path_less(&a.path, &b.path) {
                true
            } else if path_same_order(&a.path, &b.path) {
                a.size > b.size
            } else {
                false
            }
        };
    proof {
        lemma_model_orders();
    }
    merge_sort(v, &less, Ghost(file_by_path()))
}

/// Sorts extension records, larger first, then by extension.
fn sort_extensions_by_size(v: Vec<ExtensionRecord>) -> (r: Vec<ExtensionRecord>)
    ensures
        is_sorted(r@, extension_by_size()),
        r@.to_multiset() == v@.to_multiset(),
{
    let less = |a: &ExtensionRecord, b: &ExtensionRecord| -> (r: bool)
        ensures
            r == extension_by_size()(*a, *b),
        {
            if a.total_size != b.total_size {
                a.total_size > b.total_size
            } else {
                text_less(&a.extension, &b.extension)
            }
        };
    proof {
        lemma_model_orders();
    }
    merge_sort(v, &less, Ghost(extension_by_size()))
}

/// `v` is `items` ordered by `before`, cut to at most `n` elements.
pub open spec fn first_sorted<T>(v: Seq<T>, items: Seq<T>, before: spec_fn(T, T) -> bool, n: int) -> bool {
    exists|s: Seq<T>| #[trigger] is_sorted(s, before) && s.to_multiset() == items.to_multiset() && v == truncated(s, n)
}

/// `a` holds the same filter as `b`.
pub open spec fn same_filter(a: ScanFilterConfig, b: ScanFilterConfig) -> bool {
    a.excluded_directories@ == b.excluded_directories@ && a.excluded_extensions@ == b.excluded_extensions@
        && a.same_file_system == b.same_file_system
}

/// The parts common to every snapshot of `acc`.
pub open spec fn snapshot_common(r: ScanStats, acc: ScanAccumulator) -> bool {
    &&& r.schema_version == SCAN_STATS_SCHEMA_VERSION
    &&& r.saved_at_unix_secs is None
    &&& (r.app_version matches Some(v) && v@ == APP_VERSION@)
    &&& r.root@ == acc.root_path()
    &&& same_filter(r.filter_config, acc.filter())
    &&& r.total_size == acc.spec_total_size()
    &&& r.file_count == acc.spec_file_count()
    &&& r.dir_count == acc.spec_dir_count()
    &&& r.error_count == acc.spec_error_count()
    &&& is_sorted(r.largest_files@, file_by_size())
    &&& r.largest_files@.to_multiset() == acc.largest().to_multiset()
    &&& r.errors@ == acc.error_list()
    &&& lists_children(r.top_level_dirs@, acc.dirs(), acc.root_path())
}

impl ScanAccumulator {
    /// Only the cached list of top-level directories may differ.
    pub open spec fn same_totals(&self, other: &Self) -> bool {
        &&& self.dirs() == other.dirs()
        &&& self.files() == other.files()
        &&& self.extension_records() == other.extension_records()
        &&& self.largest() == other.largest()
        &&& self.error_list() == other.error_list()
        &&& self.root_path() == other.root_path()
        &&& self.filter() == other.filter()
        &&& self.spec_total_size() == other.spec_total_size()
        &&& self.spec_file_count() == other.spec_file_count()
        &&& self.spec_dir_count() == other.spec_dir_count()
        &&& self.spec_error_count() == other.spec_error_count()
        &&& forall|d: Seq<char>| #[trigger] self.has_dir(d) == other.has_dir(d)
    }

    /// A quick snapshot while scanning: totals, the largest files and the top-level
    /// directories; no tree, no file list, no directory or extension ranking.
    pub fn progress_snapshot(&mut self) -> (r: ScanStats)
        requires
            old(self).inv(),
        ensures
            final(self).inv(),
            final(self).same_totals(old(self)),
            snapshot_common(r, *final(self)),
            r.all_files@.len() == 0,
            r.largest_dirs@.len() == 0,
            r.extensions@.len() == 0,
            r.directory_tree is None,
    {
        self.snapshot_optimized(false, false)
    }

    /// The full snapshot at the end of a scan: every file by path, the 250 largest
    /// directories and extensions, and the directory tree.
    pub fn final_snapshot(&mut self) -> (r: ScanStats)
        requires
            old(self).inv(),
        ensures
            final(self).inv(),
            final(self).same_totals(old(self)),
            snapshot_common(r, *final(self)),
            is_sorted(r.all_files@, file_by_path()),
            r.all_files@.to_multiset() == final(self).files().to_multiset(),
            first_sorted(r.largest_dirs@, final(self).dirs(), dir_by_size(), LISTED_LIMIT as int),
            first_sorted(r.extensions@, final(self).extension_records(), extension_by_size(), LISTED_LIMIT as int),
            r.directory_tree matches Some(t) && tree_of(t, final(self).dirs(), final(self).root_path()),
            final(self).stays_under_root() ==> (r.directory_tree matches Some(t) && sizes_add_up(t)),
    {
        let r = self.snapshot(true, true);
        proof {
            if self.stays_under_root() {
                lemma_tree_sizes_add_up(*self, r.directory_tree->0);
            }
        }
        r
    }

    fn snapshot_optimized(&mut self, include_tree: bool, include_all_files: bool) -> (r: ScanStats)
        requires
            old(self).inv(),
        ensures
            final(self).inv(),
            final(self).same_totals(old(self)),
            snapshot_common(r, *final(self)),
            r.largest_dirs@.len() == 0,
            r.extensions@.len() == 0,
            include_all_files ==> is_sorted(r.all_files@, file_by_path())
                && r.all_files@.to_multiset() == final(self).files().to_multiset(),
            !include_all_files ==> r.all_files@.len() == 0,
            include_tree ==> (r.directory_tree matches Some(t) && tree_of(t, final(self).dirs(), final(self).root_path())),
            !include_tree ==> r.directory_tree is None,
    {
        let top_level_dirs = self.get_top_level_dirs();
        let largest_files = sort_files_by_size(copy_files(&self.largest_files));
        let all_files = if include_all_files {
            sort_files_by_path(copy_files(&self.all_files))
        } else {
            Vec::new()
        };
        let directory_tree = if include_tree {
            Some(self.build_directory_tree())
        } else {
            None
        };
        ScanStats {
            schema_version: SCAN_STATS_SCHEMA_VERSION,
            saved_at_unix_secs: None,
            app_version: Some(String::from_str(APP_VERSION)),
            root: self.root.clone(),
            filter_config: self.filter_config.copy(),
            total_size: self.total_size,
            file_count: self.file_count,
            dir_count: self.dir_count,
            error_count: self.error_count,
            largest_files,
            all_files,
            largest_dirs: Vec::new(),
            extensions: Vec::new(),
            errors: crate::text::copy_strings(&self.errors),
            directory_tree,
            top_level_dirs,
        }
    }

    fn snapshot(&mut self, include_tree: bool, include_all_files: bool) -> (r: ScanStats)
        requires
            old(self).inv(),
        ensures
            final(self).inv(),
            final(self).same_totals(old(self)),
            snapshot_common(r, *final(self)),
            first_sorted(r.largest_dirs@, final(self).dirs(), dir_by_size(), LISTED_LIMIT as int),
            first_sorted(r.extensions@, final(self).extension_records(), extension_by_size(), LISTED_LIMIT as int),
            include_all_files ==> is_sorted(r.all_files@, file_by_path())
                && r.all_files@.to_multiset() == final(self).files().to_multiset(),
            !include_all_files ==> r.all_files@.len() == 0,
            include_tree ==> (r.directory_tree matches Some(t) && tree_of(t, final(self).dirs(), final(self).root_path())),
            !include_tree ==> r.directory_tree is None,
    {
        let top_level_dirs = self.get_top_level_dirs();
        let mut largest_dirs = sort_dirs_by_size(copy_records(&self.dirs));
        let ghost sorted_dirs = largest_dirs@;
        if largest_dirs.len() > LISTED_LIMIT {
            largest_dirs.truncate(LISTED_LIMIT);
        }
        assert(is_sorted(sorted_dirs, dir_by_size()));
        let mut extensions = sort_extensions_by_size(copy_extensions(&self.extensions));
        let ghost sorted_exts = extensions@;
        if extensions.len() > LISTED_LIMIT {
            extensions.truncate(LISTED_LIMIT);
        }
        assert(is_sorted(sorted_exts, extension_by_size()));
        let largest_files = sort_files_by_size(copy_files(&self.largest_files));
        let all_files = if include_all_files {
            sort_files_by_path(copy_files(&self.all_files))
        } else {
            Vec::new()
        };
        let directory_tree = if include_tree {
            Some(self.build_directory_tree())
        } else {
            None
        };
        ScanStats {
            schema_version: SCAN_STATS_SCHEMA_VERSION,
            saved_at_unix_secs: None,
            app_version: Some(String::from_str(APP_VERSION)),
            root: self.root.clone(),
            filter_config: self.filter_config.copy(),
            total_size: self.total_size,
            file_count: self.file_count,
            dir_count: self.dir_count,
            error_count: self.error_count,
            largest_files,
            all_files,
            largest_dirs,
            extensions,
            errors: crate::text::copy_strings(&self.errors),
            directory_tree,
            top_level_dirs,
        }
    }
}

// ---------------------------------------------------------------------------------------
// Directory sizes add up

/// Sum of the totals of the nodes at the positions `kids`.
pub open spec fn children_total(nodes: Seq<DirectoryNode>, kids: Seq<usize>) -> int
    decreases kids.len(),
{
    if kids.len() == 0 {
        0
    } else {
        children_total(nodes, kids.drop_last()) + nodes[kids.last() as int].record.total_size
    }
}

/// Every node's total is the size of the files directly in it plus the totals of its
/// subdirectories.
pub open spec fn sizes_add_up(t: DirectoryTree) -> bool {
    forall|k: int| 0 <= k < t.nodes@.len() ==> (#[trigger] t.nodes@[k]).record.total_size
        == t.nodes@[k].record.direct_file_size + children_total(t.nodes@, t.nodes@[k].children@)
}

impl ScanAccumulator {
    /// The scan stayed under its root: the root has a record, every recorded directory
    /// lies under the root, and the sizes of all files together fit in a `u64`.
    pub open spec fn stays_under_root(&self) -> bool {
        &&& self.has_dir(self.root_path())
        &&& forall|i: int| 0 <= i < self.dirs().len() ==> path_starts_with((#[trigger] self.dirs()[i]).path@, self.root_path())
        &&& fits(self.files())
    }
}

/// Going up from `q` to `p`, the step just below `p`.
proof fn lemma_chain_below(q: Seq<char>, p: Seq<char>, root: Seq<char>) -> (d: Seq<char>)
    requires
        credits(q, p, root),
        q != p,
    ensures
        credits(q, d, root),
        parent(d) == Some(p),
    decreases q.len(),
{
    let up = parent(q)->0;
    lemma_credits_step(q, p, root);
    if up == p {
        lemma_credits_step(q, q, root);
        q
    } else {
        let d = lemma_chain_below(up, p, root);
        lemma_credits_step(q, d, root);
        d
    }
}

/// A chain that reaches a directory reaches its parent when the parent lies under `root`.
proof fn lemma_chain_up(q: Seq<char>, d: Seq<char>, p: Seq<char>, root: Seq<char>)
    requires
        credits(q, d, root),
        parent(d) == Some(p),
        path_starts_with(p, root),
    ensures
        credits(q, p, root),
    decreases q.len(),
{
    lemma_credits_step(q, p, root);
    if q == d {
        lemma_credits_step(p, p, root);
        lemma_parent_shorter(q);
    } else {
        lemma_credits_step(q, d, root);
        lemma_chain_up(parent(q)->0, d, p, root);
    }
}

/// A chain passes through at most one child of a directory.
proof fn lemma_chain_unique(q: Seq<char>, d1: Seq<char>, d2: Seq<char>, root: Seq<char>)
    requires
        credits(q, d1, root),
        credits(q, d2, root),
        parent(d1) is Some,
        parent(d1) == parent(d2),
    ensures
        d1 == d2,
    decreases q.len(),
{
    lemma_credits_step(q, d1, root);
    lemma_credits_step(q, d2, root);
    if q == d1 && q != d2 {
        let p = parent(q)->0;
        lemma_credits_len(p, d2, root);
        lemma_parent_shorter(d2);
    } else if q == d2 && q != d1 {
        let p = parent(q)->0;
        lemma_credits_len(p, d1, root);
        lemma_parent_shorter(d1);
    } else if q != d1 && q != d2 {
        lemma_chain_unique(parent(q)->0, d1, d2, root);
    }
}

/// What the file adds to the totals of the nodes at the positions `kids`.
pub open spec fn kid_file_sum(nodes: Seq<DirectoryNode>, kids: Seq<usize>, f: FileRecord, root: Seq<char>) -> int
    decreases kids.len(),
{
    if kids.len() == 0 {
        0
    } else {
        kid_file_sum(nodes, kids.drop_last(), f, root) + if below(nodes[kids.last() as int].record.path@, root)(f) {
            f.size as int
        } else {
            0
        }
    }
}

/// The totals that `files` give the nodes at the positions `kids`.
pub open spec fn kid_sum(files: Seq<FileRecord>, nodes: Seq<DirectoryNode>, kids: Seq<usize>, root: Seq<char>) -> int
    decreases kids.len(),
{
    if kids.len() == 0 {
        0
    } else {
        kid_sum(files, nodes, kids.drop_last(), root) + weight(files, below(nodes[kids.last() as int].record.path@, root))
    }
}

proof fn lemma_kid_sum_push(files: Seq<FileRecord>, f: FileRecord, nodes: Seq<DirectoryNode>, kids: Seq<usize>, root: Seq<char>)
    ensures
        kid_sum(files.push(f), nodes, kids, root) == kid_sum(files, nodes, kids, root) + kid_file_sum(nodes, kids, f, root),
    decreases kids.len(),
{
    if kids.len() > 0 {
        lemma_kid_sum_push(files, f, nodes, kids.drop_last(), root);
        lemma_weight_push(files, f, below(nodes[kids.last() as int].record.path@, root));
    }
}

proof fn lemma_kid_sum_empty(nodes: Seq<DirectoryNode>, kids: Seq<usize>, root: Seq<char>)
    ensures
        kid_sum(Seq::empty(), nodes, kids, root) == 0,
    decreases kids.len(),
{
    if kids.len() > 0 {
        lemma_kid_sum_empty(nodes, kids.drop_last(), root);
    }
}

proof fn lemma_kid_file_sum_zero(nodes: Seq<DirectoryNode>, kids: Seq<usize>, f: FileRecord, root: Seq<char>)
    requires
        forall|a: int| 0 <= a < kids.len() ==> !below(nodes[(#[trigger] kids[a]) as int].record.path@, root)(f),
    ensures
        kid_file_sum(nodes, kids, f, root) == 0,
    decreases kids.len(),
{
    if kids.len() > 0 {
        let rest = kids.drop_last();
        assert forall|a: int| 0 <= a < rest.len() implies !below(nodes[(#[trigger] rest[a]) as int].record.path@, root)(f) by {
            assert(rest[a] == kids[a]);
        }
        lemma_kid_file_sum_zero(nodes, rest, f, root);
        assert(!below(nodes[kids[kids.len() - 1] as int].record.path@, root)(f));
    }
}

proof fn lemma_kid_file_sum_one(nodes: Seq<DirectoryNode>, kids: Seq<usize>, f: FileRecord, root: Seq<char>, c0: usize)
    requires
        kids.no_duplicates(),
        kids.contains(c0),
        below(nodes[c0 as int].record.path@, root)(f),
        forall|a: int| 0 <= a < kids.len() && kids[a] != c0 ==> !below(nodes[(#[trigger] kids[a]) as int].record.path@, root)(f),
    ensures
        kid_file_sum(nodes, kids, f, root) == f.size,
    decreases kids.len(),
{
    let rest = kids.drop_last();
    let last = kids[kids.len() - 1];
    assert(rest.no_duplicates()) by {
        assert forall|i: int, j: int| 0 <= i < rest.len() && 0 <= j < rest.len() && i != j implies rest[i] != rest[j] by {
            assert(rest[i] == kids[i] && rest[j] == kids[j]);
        }
    }
    if last == c0 {
        assert forall|a: int| 0 <= a < rest.len() implies !below(nodes[(#[trigger] rest[a]) as int].record.path@, root)(f) by {
            assert(rest[a] == kids[a]);
            assert(kids[a] != kids[kids.len() - 1]);
        }
        lemma_kid_file_sum_zero(nodes, rest, f, root);
    } else {
        let w = choose|w: int| 0 <= w < kids.len() && kids[w] == c0;
        assert(w < kids.len() - 1);
        assert(rest[w] == c0);
        assert forall|a: int| 0 <= a < rest.len() && rest[a] != c0 implies !below(nodes[(#[trigger] rest[a]) as int].record.path@, root)(f) by {
            assert(rest[a] == kids[a]);
        }
        lemma_kid_file_sum_one(nodes, rest, f, root, c0);
    }
}

proof fn lemma_children_total(nodes: Seq<DirectoryNode>, kids: Seq<usize>, files: Seq<FileRecord>, root: Seq<char>)
    requires
        forall|a: int| 0 <= a < kids.len() ==> nodes[(#[trigger] kids[a]) as int].record.total_size
            == weight(files, below(nodes[kids[a] as int].record.path@, root)),
    ensures
        children_total(nodes, kids) == kid_sum(files, nodes, kids, root),
    decreases kids.len(),
{
    if kids.len() > 0 {
        let rest = kids.drop_last();
        assert forall|a: int| 0 <= a < rest.len() implies nodes[(#[trigger] rest[a]) as int].record.total_size
            == weight(files, below(nodes[rest[a] as int].record.path@, root)) by {
            assert(rest[a] == kids[a]);
        }
        lemma_children_total(nodes, rest, files, root);
        assert(nodes[kids[kids.len() - 1] as int].record.total_size == weight(files, below(nodes[kids[kids.len() - 1] as int].record.path@, root)));
    }
}

/// Law: in the tree of a scan that stayed under its root, every directory's total is the
/// size of the files directly in it plus the totals of its subdirectories.
pub proof fn lemma_tree_sizes_add_up(acc: ScanAccumulator, t: DirectoryTree)
    requires
        acc.inv(),
        acc.stays_under_root(),
        tree_of(t, acc.dirs(), acc.root_path()),
    ensures
        sizes_add_up(t),
{
    broadcast use vstd::seq_lib::group_to_multiset_ensures;
    let files = acc.all_files@;
    let root = acc.root@;
    let dirs = acc.dirs@;
    let nodes = t.nodes@;
    let recs = node_records(nodes);
    let n = nodes.len();
    assert(unique_paths(dirs)) by {
        assert forall|i: int, j: int| 0 <= i < dirs.len() && 0 <= j < dirs.len() && i != j
            implies (#[trigger] dirs[i]).path@ != (#[trigger] dirs[j]).path@ by {
            assert(acc.dir_index@[dirs[i].path@] == i);
            assert(acc.dir_index@[dirs[j].path@] == j);
        }
    }
    lemma_unique_paths_permuted(dirs, recs);
    assert(recs.len() == dirs.len()) by {
        assert(recs.to_multiset().len() == dirs.to_multiset().len());
    }
    lemma_path_positions(recs);
    // each node holds a record of the scan
    assert forall|k: int| #![trigger recs[k]] 0 <= k < n implies exists|i: int| 0 <= i < dirs.len() && (#[trigger] dirs[i]) == recs[k] by {
        assert(recs.to_multiset().count(recs[k]) > 0);
        assert(dirs.contains(recs[k]));
    }
    // each recorded path has a node
    assert forall|d: Seq<char>| #[trigger] acc.dir_index@.contains_key(d) implies path_positions(recs).contains_key(d) by {
        let i = acc.dir_index@[d] as int;
        assert(dirs.to_multiset().count(dirs[i]) > 0);
        assert(recs.contains(dirs[i]));
        let k = choose|k: int| 0 <= k < recs.len() && recs[k] == dirs[i];
        assert(path_positions(recs).contains_key(recs[k].path@));
    }
    let ri = t.root_index as int;
    assert(path_positions(recs).contains_key(root));
    assert(recs[ri].path@ == root);
    lemma_weight_bounds(files, every_file());
    assert forall|k: int| 0 <= k < n implies (#[trigger] nodes[k]).record.total_size
        == nodes[k].record.direct_file_size + children_total(nodes, nodes[k].children@) by {
        let pk = recs[k].path@;
        let kids = nodes[k].children@;
        let i = choose|i: int| 0 <= i < dirs.len() && (#[trigger] dirs[i]) == recs[k];
        assert(nodes[k].record == recs[k]);
        assert(path_starts_with(pk, root));
        // the children are the nodes other than the root whose parent is `pk`
        assert forall|c: usize| #[trigger] kids.contains(c) <==> (c < n && c != t.root_index
            && parent(recs[c as int].path@) == Some(pk)) by {
            if c < n {
                assert(nodes[c as int].parent == parent_position(recs, t.root_index, c as int));
                match parent(recs[c as int].path@) {
                    Some(q) => {
                        if path_positions(recs).contains_key(q) {
                            if path_positions(recs)[q] == k {
                                assert(q == pk);
                            }
                        }
                        if q == pk {
                            assert(path_positions(recs)[q] == k);
                        }
                    },
                    None => {},
                }
            }
        }
        // every child's total is what the files give it
        assert forall|a: int| 0 <= a < kids.len() implies nodes[(#[trigger] kids[a]) as int].record.total_size
            == weight(files, below(nodes[kids[a] as int].record.path@, root)) by {
            let c = kids[a] as int;
            assert(kids.contains(kids[a]));
            let j = choose|j: int| 0 <= j < dirs.len() && (#[trigger] dirs[j]) == recs[c];
            assert(nodes[c].record == recs[c]);
        }
        lemma_children_total(nodes, kids, files, root);
        // file by file, the directory's share splits into its direct share and its children's
        assert forall|m: int| 0 <= m <= files.len() implies #[trigger] weight(files.take(m), below(pk, root))
            == weight(files.take(m), directly_in(pk)) + kid_sum(files.take(m), nodes, kids, root) by {
            lemma_split_prefix(acc, t, k, m);
        }
        assert(files.take(files.len() as int) =~= files);
    }
}

/// The split of one directory's share holds for every prefix of the files.
proof fn lemma_split_prefix(acc: ScanAccumulator, t: DirectoryTree, k: int, m: int)
    requires
        acc.inv(),
        acc.stays_under_root(),
        tree_of(t, acc.dirs(), acc.root_path()),
        0 <= k < t.nodes@.len(),
        0 <= m <= acc.all_files@.len(),
        unique_paths(node_records(t.nodes@)),
        forall|q: Seq<char>| #[trigger] path_positions(node_records(t.nodes@)).contains_key(q)
            ==> path_positions(node_records(t.nodes@))[q] < t.nodes@.len()
            && node_records(t.nodes@)[path_positions(node_records(t.nodes@))[q] as int].path@ == q,
        forall|kk: int| 0 <= kk < t.nodes@.len() ==> path_positions(node_records(t.nodes@)).contains_key((#[trigger] node_records(t.nodes@)[kk]).path@)
            && path_positions(node_records(t.nodes@))[node_records(t.nodes@)[kk].path@] == kk,
        forall|d: Seq<char>| #[trigger] acc.dir_index@.contains_key(d) ==> path_positions(node_records(t.nodes@)).contains_key(d),
        node_records(t.nodes@)[t.root_index as int].path@ == acc.root@,
        t.root_index < t.nodes@.len(),
        path_starts_with(t.nodes@[k].record.path@, acc.root@),
        forall|c: usize| #[trigger] t.nodes@[k].children@.contains(c) <==> (c < t.nodes@.len() && c != t.root_index
            && parent(node_records(t.nodes@)[c as int].path@) == Some(t.nodes@[k].record.path@)),
    ensures
        weight(acc.all_files@.take(m), below(t.nodes@[k].record.path@, acc.root@))
            == weight(acc.all_files@.take(m), directly_in(t.nodes@[k].record.path@))
            + kid_sum(acc.all_files@.take(m), t.nodes@, t.nodes@[k].children@, acc.root@),
    decreases m,
{
    let files = acc.all_files@;
    let root = acc.root@;
    let nodes = t.nodes@;
    let recs = node_records(nodes);
    let pk = nodes[k].record.path@;
    let kids = nodes[k].children@;
    if m == 0 {
        assert(files.take(0) =~= Seq::<FileRecord>::empty());
        lemma_kid_sum_empty(nodes, kids, root);
    } else {
        lemma_split_prefix(acc, t, k, m - 1);
        let g = files.take(m - 1);
        let f = files[m - 1];
        assert(files.take(m) =~= g.push(f));
        lemma_weight_push(g, f, below(pk, root));
        lemma_weight_push(g, f, directly_in(pk));
        lemma_kid_sum_push(g, f, nodes, kids, root);
        // the file's own share
        assert(kids.no_duplicates());
        match parent(f.path@) {
            None => {
                assert forall|a: int| 0 <= a < kids.len() implies !below(nodes[(#[trigger] kids[a]) as int].record.path@, root)(f) by {}
                lemma_kid_file_sum_zero(nodes, kids, f, root);
            },
            Some(q) => {
                if q == pk {
                    lemma_credits_step(pk, pk, root);
                    assert forall|a: int| 0 <= a < kids.len() implies !below(nodes[(#[trigger] kids[a]) as int].record.path@, root)(f) by {
                        let c = kids[a];
                        assert(kids.contains(c));
                        let pc = nodes[c as int].record.path@;
                        assert(recs[c as int].path@ == pc);
                        if credits(q, pc, root) {
                            lemma_credits_len(q, pc, root);
                            lemma_parent_shorter(pc);
                        }
                    }
                    lemma_kid_file_sum_zero(nodes, kids, f, root);
                } else if credits(q, pk, root) {
                    let d = lemma_chain_below(q, pk, root);
                    assert(below(d, root)(f));
                    assert(acc.dir_index@.contains_key(d));
                    let c0 = path_positions(recs)[d];
                    assert(recs[c0 as int].path@ == d);
                    if c0 == t.root_index {
                        // the root's parent would lie under the root
                        lemma_parent_shorter(root);
                        lemma_credits_len(q, pk, root);
                    }
                    assert(kids.contains(c0));
                    assert(nodes[c0 as int].record.path@ == d);
                    assert forall|a: int| 0 <= a < kids.len() && kids[a] != c0 implies !below(nodes[(#[trigger] kids[a]) as int].record.path@, root)(f) by {
                        let c = kids[a];
                        assert(kids.contains(c));
                        let pc = nodes[c as int].record.path@;
                        assert(recs[c as int].path@ == pc);
                        if credits(q, pc, root) {
                            lemma_chain_unique(q, pc, d, root);
                            assert(path_positions(recs)[pc] == c);
                        }
                    }
                    lemma_kid_file_sum_one(nodes, kids, f, root, c0);
                } else {
                    assert forall|a: int| 0 <= a < kids.len() implies !below(nodes[(#[trigger] kids[a]) as int].record.path@, root)(f) by {
                        let c = kids[a];
                        assert(kids.contains(c));
                        let pc = nodes[c as int].record.path@;
                        assert(recs[c as int].path@ == pc);
                        if credits(q, pc, root) {
                            lemma_chain_up(q, pc, pk, root);
                        }
                    }
                    lemma_kid_file_sum_zero(nodes, kids, f, root);
                }
            },
        }
    }
}

} // verus!

//! How the result tables are sorted: the column chosen, its direction, and the comparison
//! of two rows (the chosen column first, then the path, so that equal rows keep a fixed
//! order). Paths and texts compare by character code.
use vstd::prelude::*;
use std::cmp::Ordering;
use crate::ai_analysis::AiReviewFinding;
use crate::cleanup::CleanupCandidate;
use crate::duplicates::DuplicateGroup;
use crate::comparison::{
    chained, int_comparison, is_comparison, lemma_chained, lemma_int_comparison, lemma_projected,
    lemma_reversed, lemma_text_comparison, projected, reversed, text_comparison,
};
use crate::format::{count, spec_count};
use crate::model::{spec_path_label, DirectoryRecord, ExtensionRecord, FileRecord};
use crate::winpath::{path_order_chars, path_order_text};
use crate::order::{compare_text_chars, text_order};
use crate::report::{file_name_text, shown_file_name};
use crate::text::{chars_of, lower_seq, push_all, push_lit, string_from_chars, to_lower};

verus! {

/// The direction of a sorted column.
#[derive(Debug, Clone, Copy, PartialEq, Eq, Structural)]
pub enum SortDirection {
    Asc,
    Desc,
}

impl SortDirection {
    /// The other direction.
    pub fn toggled(self) -> (r: Self)
        ensures
            r == (match self {
                SortDirection::Asc => SortDirection::Desc,
                SortDirection::Desc => SortDirection::Asc,
            }),
    {
        match self {
            SortDirection::Asc => SortDirection::Desc,
            SortDirection::Desc => SortDirection::Asc,
        }
    }

    /// The arrow shown next to the column name.
    pub fn arrow(self) -> (r: &'static str)
        ensures
            r@ == (match self {
                SortDirection::Asc => "↑"@,
                SortDirection::Desc => "↓"@,
            }),
    {
        match self {
            SortDirection::Asc => "↑",
            SortDirection::Desc => "↓",
        }
    }
}

/// A column that a table can be sorted by.
pub trait SortKey: Copy + Sized {
    /// Whether two columns are the same.
    fn same(&self, other: &Self) -> (r: bool)
        ensures
            r == (*self == *other);
}

/// The column a table is sorted by, and its direction.
#[derive(Debug, Clone, Copy)]
pub struct SortState<K> {
    pub key: K,
    pub direction: SortDirection,
}

impl<K: SortKey> SortState<K> {
    pub fn new(key: K, direction: SortDirection) -> (r: Self)
        ensures
            r.key == key,
            r.direction == direction,
    {
        SortState { key, direction }
    }

    /// A click on a column: the same column turns its direction round, another column is
    /// sorted in its default direction.
    pub fn select(&mut self, key: K, default_direction: SortDirection)
        ensures
            old(self).key == key ==> final(self).key == key && final(self).direction == old(self).direction.toggled_spec(),
            old(self).key != key ==> final(self).key == key && final(self).direction == default_direction,
    {
        if self.key.same(&key) {
            self.direction = self.direction.toggled();
        } else {
            self.key = key;
            self.direction = default_direction;
        }
    }
}

impl SortDirection {
    /// The other direction.
    pub open spec fn toggled_spec(self) -> SortDirection {
        match self {
            SortDirection::Asc => SortDirection::Desc,
            SortDirection::Desc => SortDirection::Asc,
        }
    }
}

#[derive(Debug, Clone, Copy, PartialEq, Eq, Structural)]
pub enum DirectorySortKey {
    Name,
    Size,
    Percent,
    Files,
    Path,
}

#[derive(Debug, Clone, Copy, PartialEq, Eq, Structural)]
pub enum FileSortKey {
    Name,
    Size,
    Extension,
    Path,
}

#[derive(Debug, Clone, Copy, PartialEq, Eq, Structural)]
pub enum ExtensionSortKey {
    Extension,
    Size,
    Percent,
    FileCount,
}

#[derive(Debug, Clone, Copy, PartialEq, Eq, Structural)]
pub enum CleanupSortKey {
    Rule,
    Risk,
    Protected,
    Size,
    Path,
}

#[derive(Debug, Clone, Copy, PartialEq, Eq, Structural)]
pub enum DuplicateSortKey {
    Size,
    Count,
    Reclaimable,
    Protected,
    KeepPath,
}

#[derive(Debug, Clone, Copy, PartialEq, Eq, Structural)]
pub enum AiSortKey {
    FinalRecommendation,
    AuditStatus,
    Risk,
    Confidence,
    Category,
    Source,
    Size,
    Protected,
    Path,
}

impl SortKey for DirectorySortKey {
    fn same(&self, other: &Self) -> (r: bool) {
        *self == *other
    }
}

impl SortKey for FileSortKey {
    fn same(&self, other: &Self) -> (r: bool) {
        *self == *other
    }
}

impl SortKey for ExtensionSortKey {
    fn same(&self, other: &Self) -> (r: bool) {
        *self == *other
    }
}

impl SortKey for CleanupSortKey {
    fn same(&self, other: &Self) -> (r: bool) {
        *self == *other
    }
}

impl SortKey for DuplicateSortKey {
    fn same(&self, other: &Self) -> (r: bool) {
        *self == *other
    }
}

impl SortKey for AiSortKey {
    fn same(&self, other: &Self) -> (r: bool) {
        *self == *other
    }
}

// ---------------------------------------------------------------------------------------
// Three-way comparisons

/// An ordering as -1, 0 or 1.
pub open spec fn ord_value(o: Ordering) -> int {
    match o {
        Ordering::Less => -1,
        Ordering::Equal => 0,
        Ordering::Greater => 1,
    }
}

fn ordering_of(v: i8) -> (r: Ordering)
    requires
        -1 <= v <= 1,
    ensures
        ord_value(r) == v,
{
    if v < 0 {
        Ordering::Less
    } else if v == 0 {
        Ordering::Equal
    } else {
        Ordering::Greater
    }
}

/// Numbers compared: -1, 0 or 1.
pub open spec fn three_way(a: int, b: int) -> int {
    if a < b {
        -1
    } else if a == b {
        0
    } else {
        1
    }
}

/// Two numbers compared: -1, 0 or 1.
pub open spec fn three_way_u64(a: u64, b: u64) -> int {
    three_way(a as int, b as int)
}

/// Two ranks compared: -1, 0 or 1.
pub open spec fn three_way_u8(a: u8, b: u8) -> int {
    three_way(a as int, b as int)
}

fn compare_u8(a: u8, b: u8) -> (r: Ordering)
    ensures
        ord_value(r) == three_way_u8(a, b),
{
    if a < b {
        Ordering::Less
    } else if a == b {
        Ordering::Equal
    } else {
        Ordering::Greater
    }
}

fn compare_u64(a: u64, b: u64) -> (r: Ordering)
    ensures
        ord_value(r) == three_way_u64(a, b),
{
    if a < b {
        Ordering::Less
    } else if a == b {
        Ordering::Equal
    } else {
        Ordering::Greater
    }
}

/// `first`, unless it is a tie; then `second`.
pub open spec fn then_value(first: int, second: int) -> int {
    if first == 0 {
        second
    } else {
        first
    }
}

/// The comparison in the given direction.
pub open spec fn directed(v: int, direction: SortDirection) -> int {
    match direction {
        SortDirection::Asc => v,
        SortDirection::Desc => -v,
    }
}

fn apply_direction(ordering: Ordering, direction: SortDirection) -> (r: Ordering)
    ensures
        ord_value(r) == directed(ord_value(ordering), direction),
{
    match direction {
        SortDirection::Asc => ordering,
        SortDirection::Desc => match ordering {
            Ordering::Less => Ordering::Greater,
            Ordering::Equal => Ordering::Equal,
            Ordering::Greater => Ordering::Less,
        },
    }
}

fn then_with(first: Ordering, second: Ordering) -> (r: Ordering)
    ensures
        ord_value(r) == then_value(ord_value(first), ord_value(second)),
{
    match first {
        Ordering::Equal => second,
        _ => first,
    }
}

/// Texts compared without regard to ASCII case, then exactly.
pub open spec fn text_value(left: Seq<char>, right: Seq<char>) -> int {
    then_value(text_order(lower_seq(left), lower_seq(right)), text_order(left, right))
}

/// Texts compared without regard to ASCII case, ties broken by the exact texts.
pub fn compare_text(left: &str, right: &str) -> (r: Ordering)
    ensures
        ord_value(r) == text_value(left@, right@),
{
    let l = chars_of(left);
    let r = chars_of(right);
    let ll = to_lower(l.as_slice());
    let rl = to_lower(r.as_slice());
    let first = ordering_of(compare_text_chars(ll.as_slice(), rl.as_slice()));
    let second = ordering_of(compare_text_chars(l.as_slice(), r.as_slice()));
    then_with(first, second)
}

fn compare_exact(left: &str, right: &str) -> (r: Ordering)
    ensures
        ord_value(r) == text_order(left@, right@),
{
    let l = chars_of(left);
    let r = chars_of(right);
    ordering_of(compare_text_chars(l.as_slice(), r.as_slice()))
}

/// Paths compared component by component.
fn compare_paths(left: &str, right: &str) -> (r: Ordering)
    ensures
        ord_value(r) == text_order(path_order_text(left@), path_order_text(right@)),
{
    let l = chars_of(left);
    let r = chars_of(right);
    let lk = path_order_chars(l.as_slice());
    let rk = path_order_chars(r.as_slice());
    ordering_of(compare_text_chars(lk.as_slice(), rk.as_slice()))
}

fn compare_bool(a: bool, b: bool) -> (r: Ordering)
    ensures
        ord_value(r) == three_way(if a { 1int } else { 0 }, if b { 1int } else { 0 }),
{
    if a == b {
        Ordering::Equal
    } else if !a {
        Ordering::Less
    } else {
        Ordering::Greater
    }
}

// ---------------------------------------------------------------------------------------
// Rows

/// Two directories compared by the chosen column, then by path.
pub open spec fn directory_value(l: DirectoryRecord, r: DirectoryRecord, key: DirectorySortKey, direction: SortDirection) -> int {
    let primary = match key {
        DirectorySortKey::Name => text_value(spec_path_label(l.path@), spec_path_label(r.path@)),
        DirectorySortKey::Size | DirectorySortKey::Percent => three_way_u64(l.total_size, r.total_size),
        DirectorySortKey::Files => three_way_u64(l.descendant_file_count, r.descendant_file_count),
        DirectorySortKey::Path => text_order(path_order_text(l.path@), path_order_text(r.path@)),
    };
    then_value(directed(primary, direction), text_order(path_order_text(l.path@), path_order_text(r.path@)))
}

/// Two directories compared for a table.
pub fn compare_directories(l: &DirectoryRecord, r: &DirectoryRecord, sort: SortState<DirectorySortKey>) -> (o: Ordering)
    ensures
        ord_value(o) == directory_value(*l, *r, sort.key, sort.direction),
{
    let primary = match sort.key {
        DirectorySortKey::Name => compare_text(l.name().as_str(), r.name().as_str()),
        DirectorySortKey::Size | DirectorySortKey::Percent => compare_u64(l.total_size, r.total_size),
        DirectorySortKey::Files => compare_u64(l.descendant_file_count, r.descendant_file_count),
        DirectorySortKey::Path => compare_paths(l.path.as_str(), r.path.as_str()),
    };
    then_with(apply_direction(primary, sort.direction), compare_paths(l.path.as_str(), r.path.as_str()))
}

/// Two files compared by the chosen column, then by path.
pub open spec fn file_value(l: FileRecord, r: FileRecord, key: FileSortKey, direction: SortDirection) -> int {
    let primary = match key {
        FileSortKey::Name => text_value(shown_file_name(l.path@), shown_file_name(r.path@)),
        FileSortKey::Size => three_way_u64(l.size, r.size),
        FileSortKey::Extension => text_value(l.extension@, r.extension@),
        FileSortKey::Path => text_order(path_order_text(l.path@), path_order_text(r.path@)),
    };
    then_value(directed(primary, direction), text_order(path_order_text(l.path@), path_order_text(r.path@)))
}

/// Two files compared for a table.
pub fn compare_files(l: &FileRecord, r: &FileRecord, sort: SortState<FileSortKey>) -> (o: Ordering)
    ensures
        ord_value(o) == file_value(*l, *r, sort.key, sort.direction),
{
    let primary = match sort.key {
        FileSortKey::Name => compare_text(file_name_text(l.path.as_str()).as_str(), file_name_text(r.path.as_str()).as_str()),
        FileSortKey::Size => compare_u64(l.size, r.size),
        FileSortKey::Extension => compare_text(l.extension.as_str(), r.extension.as_str()),
        FileSortKey::Path => compare_paths(l.path.as_str(), r.path.as_str()),
    };
    then_with(apply_direction(primary, sort.direction), compare_paths(l.path.as_str(), r.path.as_str()))
}

/// Two extensions compared by the chosen column, then by extension.
pub open spec fn extension_value(l: ExtensionRecord, r: ExtensionRecord, key: ExtensionSortKey, direction: SortDirection) -> int {
    let primary = match key {
        ExtensionSortKey::Extension => text_value(l.extension@, r.extension@),
        ExtensionSortKey::Size | ExtensionSortKey::Percent => three_way_u64(l.total_size, r.total_size),
        ExtensionSortKey::FileCount => three_way_u64(l.file_count, r.file_count),
    };
    then_value(directed(primary, direction), text_order(l.extension@, r.extension@))
}

/// Two extensions compared for a table.
pub fn compare_extensions(l: &ExtensionRecord, r: &ExtensionRecord, sort: SortState<ExtensionSortKey>) -> (o: Ordering)
    ensures
        ord_value(o) == extension_value(*l, *r, sort.key, sort.direction),
{
    let primary = match sort.key {
        ExtensionSortKey::Extension => compare_text(l.extension.as_str(), r.extension.as_str()),
        ExtensionSortKey::Size | ExtensionSortKey::Percent => compare_u64(l.total_size, r.total_size),
        ExtensionSortKey::FileCount => compare_u64(l.file_count, r.file_count),
    };
    then_with(apply_direction(primary, sort.direction), compare_exact(l.extension.as_str(), r.extension.as_str()))
}

/// Two cleanup candidates compared by the chosen column, then by path.
pub open spec fn cleanup_value(l: CleanupCandidate, r: CleanupCandidate, key: CleanupSortKey, direction: SortDirection) -> int {
    let primary = match key {
        CleanupSortKey::Rule => text_value(l.rule_label@, r.rule_label@),
        CleanupSortKey::Risk => three_way_u8(l.risk.spec_rank(), r.risk.spec_rank()),
        CleanupSortKey::Protected => three_way(if l.protected { 1int } else { 0 }, if r.protected { 1int } else { 0 }),
        CleanupSortKey::Size => three_way_u64(l.size, r.size),
        CleanupSortKey::Path => text_order(path_order_text(l.path@), path_order_text(r.path@)),
    };
    then_value(directed(primary, direction), text_order(path_order_text(l.path@), path_order_text(r.path@)))
}

/// Two cleanup candidates compared for a table.
pub fn compare_cleanup_candidates(l: &CleanupCandidate, r: &CleanupCandidate, sort: SortState<CleanupSortKey>) -> (o: Ordering)
    ensures
        ord_value(o) == cleanup_value(*l, *r, sort.key, sort.direction),
{
    let primary = match sort.key {
        CleanupSortKey::Rule => compare_text(l.rule_label, r.rule_label),
        CleanupSortKey::Risk => compare_u8(l.risk.rank(), r.risk.rank()),
        CleanupSortKey::Protected => compare_bool(l.protected, r.protected),
        CleanupSortKey::Size => compare_u64(l.size, r.size),
        CleanupSortKey::Path => compare_paths(l.path.as_str(), r.path.as_str()),
    };
    then_with(apply_direction(primary, sort.direction), compare_paths(l.path.as_str(), r.path.as_str()))
}

/// Two duplicate groups compared by the chosen column, then by kept path.
pub open spec fn duplicate_value(l: DuplicateGroup, r: DuplicateGroup, key: DuplicateSortKey, direction: SortDirection) -> int {
    let primary = match key {
        DuplicateSortKey::Size => three_way_u64(l.size, r.size),
        DuplicateSortKey::Count => three_way_u64(l.duplicate_count, r.duplicate_count),
        DuplicateSortKey::Reclaimable => three_way_u64(l.reclaimable_size, r.reclaimable_size),
        DuplicateSortKey::Protected => three_way_u64(l.protected_size, r.protected_size),
        DuplicateSortKey::KeepPath => text_order(path_order_text(l.keep_path@), path_order_text(r.keep_path@)),
    };
    then_value(directed(primary, direction), text_order(path_order_text(l.keep_path@), path_order_text(r.keep_path@)))
}

/// Two duplicate groups compared for a table.
pub fn compare_duplicate_groups(l: &DuplicateGroup, r: &DuplicateGroup, sort: SortState<DuplicateSortKey>) -> (o: Ordering)
    ensures
        ord_value(o) == duplicate_value(*l, *r, sort.key, sort.direction),
{
    let primary = match sort.key {
        DuplicateSortKey::Size => compare_u64(l.size, r.size),
        DuplicateSortKey::Count => compare_u64(l.duplicate_count, r.duplicate_count),
        DuplicateSortKey::Reclaimable => compare_u64(l.reclaimable_size, r.reclaimable_size),
        DuplicateSortKey::Protected => compare_u64(l.protected_size, r.protected_size),
        DuplicateSortKey::KeepPath => compare_paths(l.keep_path.as_str(), r.keep_path.as_str()),
    };
    then_with(apply_direction(primary, sort.direction), compare_paths(l.keep_path.as_str(), r.keep_path.as_str()))
}

/// Two findings compared by the chosen column, then by path; for the confidence column the
/// comparison of the two confidences is handed in.
pub open spec fn finding_value(
    l: AiReviewFinding,
    r: AiReviewFinding,
    key: AiSortKey,
    direction: SortDirection,
    confidence: int,
) -> int {
    let primary = match key {
        AiSortKey::FinalRecommendation => three_way_u8(l.final_recommendation.spec_rank(), r.final_recommendation.spec_rank()),
        AiSortKey::AuditStatus => three_way_u8(l.audit_status.spec_rank(), r.audit_status.spec_rank()),
        AiSortKey::Risk => three_way_u8(l.risk.spec_rank(), r.risk.spec_rank()),
        AiSortKey::Confidence => confidence,
        AiSortKey::Category => three_way_u8(l.category.spec_rank(), r.category.spec_rank()),
        AiSortKey::Source => text_value(l.source.spec_label(), r.source.spec_label()),
        AiSortKey::Size => three_way_u64(l.size, r.size),
        AiSortKey::Protected => three_way(if l.protected { 1int } else { 0 }, if r.protected { 1int } else { 0 }),
        AiSortKey::Path => text_order(path_order_text(l.path@), path_order_text(r.path@)),
    };
    then_value(directed(primary, direction), text_order(path_order_text(l.path@), path_order_text(r.path@)))
}

/// Two findings compared for a table, given how their confidences compare.
pub fn compare_ai_findings(
    l: &AiReviewFinding,
    r: &AiReviewFinding,
    sort: SortState<AiSortKey>,
    confidence: Ordering,
) -> (o: Ordering)
    ensures
        ord_value(o) == finding_value(*l, *r, sort.key, sort.direction, ord_value(confidence)),
{
    let primary = match sort.key {
        AiSortKey::FinalRecommendation => compare_u8(l.final_recommendation.rank(), r.final_recommendation.rank()),
        AiSortKey::AuditStatus => compare_u8(l.audit_status.rank(), r.audit_status.rank()),
        AiSortKey::Risk => compare_u8(l.risk.rank(), r.risk.rank()),
        AiSortKey::Confidence => confidence,
        AiSortKey::Category => compare_u8(l.category.rank(), r.category.rank()),
        AiSortKey::Source => compare_text(l.source.label(), r.source.label()),
        AiSortKey::Size => compare_u64(l.size, r.size),
        AiSortKey::Protected => compare_bool(l.protected, r.protected),
        AiSortKey::Path => compare_paths(l.path.as_str(), r.path.as_str()),
    };
    then_with(apply_direction(primary, sort.direction), compare_paths(l.path.as_str(), r.path.as_str()))
}

/// The line under a table: how many rows are shown, match the search and are kept.
pub open spec fn spec_result_count_text(visible: nat, matched: nat, retained: nat, unit: Seq<char>) -> Seq<char> {
    "显示 "@ + spec_count(visible) + " / 匹配 "@ + spec_count(matched) + " / 当前保留 "@ + spec_count(retained) + " 个"@
        + unit + "。"@
}

/// The line under a table.
pub fn result_count_text(visible: u64, matched: u64, retained: u64, unit: &str) -> (r: String)
    ensures
        r@ == spec_result_count_text(visible as nat, matched as nat, retained as nat, unit@),
{
    let mut m: Vec<char> = Vec::new();
    push_lit(&mut m, "显示 ");
    let a = count(visible);
    let av = chars_of(a.as_str());
    push_all(&mut m, av.as_slice());
    push_lit(&mut m, " / 匹配 ");
    let b = count(matched);
    let bv = chars_of(b.as_str());
    push_all(&mut m, bv.as_slice());
    push_lit(&mut m, " / 当前保留 ");
    let c = count(retained);
    let cv = chars_of(c.as_str());
    push_all(&mut m, cv.as_slice());
    push_lit(&mut m, " 个");
    let u = chars_of(unit);
    push_all(&mut m, u.as_slice());
    push_lit(&mut m, "。");
    assert(m@ =~= spec_result_count_text(visible as nat, matched as nat, retained as nat, unit@));
    string_from_chars(m.as_slice())
}

// ---------------------------------------------------------------------------------------
// Every table order is a comparison

/// The chosen column in its direction, ties broken by a second comparison.
pub open spec fn table_comparison<T>(
    primary: spec_fn(T, T) -> int,
    direction: SortDirection,
    tie: spec_fn(T, T) -> int,
) -> spec_fn(T, T) -> int {
    |l: T, r: T| then_value(directed(primary(l, r), direction), tie(l, r))
}

proof fn lemma_table_comparison<T>(primary: spec_fn(T, T) -> int, direction: SortDirection, tie: spec_fn(T, T) -> int)
    requires
        is_comparison(primary),
        is_comparison(tie),
    ensures
        is_comparison(table_comparison(primary, direction, tie)),
{
    let d = match direction {
        SortDirection::Asc => primary,
        SortDirection::Desc => reversed(primary),
    };
    if direction == SortDirection::Desc {
        lemma_reversed(primary);
    }
    lemma_chained(d, tie);
    assert(table_comparison(primary, direction, tie) =~= chained(d, tie));
}

/// Texts compared without regard to ASCII case, ties broken by the exact texts.
pub open spec fn text_value_comparison() -> spec_fn(Seq<char>, Seq<char>) -> int {
    |a: Seq<char>, b: Seq<char>| text_value(a, b)
}

proof fn lemma_text_value_comparison()
    ensures
        is_comparison(text_value_comparison()),
{
    let lower = |s: Seq<char>| lower_seq(s);
    lemma_text_comparison();
    lemma_projected(text_comparison(), lower);
    lemma_chained(projected(text_comparison(), lower), text_comparison());
    assert(text_value_comparison() =~= chained(projected(text_comparison(), lower), text_comparison()));
}

/// Directory rows compared for a table.
pub open spec fn directory_comparison(key: DirectorySortKey, direction: SortDirection) -> spec_fn(DirectoryRecord, DirectoryRecord) -> int {
    |l: DirectoryRecord, r: DirectoryRecord| directory_value(l, r, key, direction)
}

/// Whatever the column and the direction, directory rows are ordered by a comparison.
pub proof fn lemma_directory_comparison(key: DirectorySortKey, direction: SortDirection)
    ensures
        is_comparison(directory_comparison(key, direction)),
{
    lemma_int_comparison();
    lemma_text_comparison();
    lemma_text_value_comparison();
    let path_of = |d: DirectoryRecord| path_order_text(d.path@);
    let path = projected(text_comparison(), path_of);
    lemma_projected(text_comparison(), path_of);
    let label_of = |d: DirectoryRecord| spec_path_label(d.path@);
    let size_of = |d: DirectoryRecord| d.total_size as int;
    let files_of = |d: DirectoryRecord| d.descendant_file_count as int;
    lemma_projected(text_value_comparison(), label_of);
    lemma_projected(int_comparison(), size_of);
    lemma_projected(int_comparison(), files_of);
    let primary = match key {
        DirectorySortKey::Name => projected(text_value_comparison(), label_of),
        DirectorySortKey::Size | DirectorySortKey::Percent => projected(int_comparison(), size_of),
        DirectorySortKey::Files => projected(int_comparison(), files_of),
        DirectorySortKey::Path => path,
    };
    lemma_table_comparison(primary, direction, path);
    assert(directory_comparison(key, direction) =~= table_comparison(primary, direction, path));
}

/// File rows compared for a table.
pub open spec fn file_comparison(key: FileSortKey, direction: SortDirection) -> spec_fn(FileRecord, FileRecord) -> int {
    |l: FileRecord, r: FileRecord| file_value(l, r, key, direction)
}

/// Whatever the column and the direction, file rows are ordered by a comparison.
pub proof fn lemma_file_comparison(key: FileSortKey, direction: SortDirection)
    ensures
        is_comparison(file_comparison(key, direction)),
{
    lemma_int_comparison();
    lemma_text_comparison();
    lemma_text_value_comparison();
    let path_of = |f: FileRecord| path_order_text(f.path@);
    let path = projected(text_comparison(), path_of);
    lemma_projected(text_comparison(), path_of);
    let name_of = |f: FileRecord| shown_file_name(f.path@);
    let size_of = |f: FileRecord| f.size as int;
    let extension_of = |f: FileRecord| f.extension@;
    lemma_projected(text_value_comparison(), name_of);
    lemma_projected(int_comparison(), size_of);
    lemma_projected(text_value_comparison(), extension_of);
    let primary = match key {
        FileSortKey::Name => projected(text_value_comparison(), name_of),
        FileSortKey::Size => projected(int_comparison(), size_of),
        FileSortKey::Extension => projected(text_value_comparison(), extension_of),
        FileSortKey::Path => path,
    };
    lemma_table_comparison(primary, direction, path);
    assert(file_comparison(key, direction) =~= table_comparison(primary, direction, path));
}

/// Extension rows compared for a table.
pub open spec fn extension_comparison(key: ExtensionSortKey, direction: SortDirection) -> spec_fn(ExtensionRecord, ExtensionRecord) -> int {
    |l: ExtensionRecord, r: ExtensionRecord| extension_value(l, r, key, direction)
}

/// Whatever the column and the direction, extension rows are ordered by a comparison.
pub proof fn lemma_extension_comparison(key: ExtensionSortKey, direction: SortDirection)
    ensures
        is_comparison(extension_comparison(key, direction)),
{
    lemma_int_comparison();
    lemma_text_comparison();
    lemma_text_value_comparison();
    let extension_of = |e: ExtensionRecord| e.extension@;
    let exact = projected(text_comparison(), extension_of);
    lemma_projected(text_comparison(), extension_of);
    let size_of = |e: ExtensionRecord| e.total_size as int;
    let count_of = |e: ExtensionRecord| e.file_count as int;
    lemma_projected(text_value_comparison(), extension_of);
    lemma_projected(int_comparison(), size_of);
    lemma_projected(int_comparison(), count_of);
    let primary = match key {
        ExtensionSortKey::Extension => projected(text_value_comparison(), extension_of),
        ExtensionSortKey::Size | ExtensionSortKey::Percent => projected(int_comparison(), size_of),
        ExtensionSortKey::FileCount => projected(int_comparison(), count_of),
    };
    lemma_table_comparison(primary, direction, exact);
    assert(extension_comparison(key, direction) =~= table_comparison(primary, direction, exact));
}

/// Cleanup candidates compared for a table.
pub open spec fn cleanup_comparison(key: CleanupSortKey, direction: SortDirection) -> spec_fn(CleanupCandidate, CleanupCandidate) -> int {
    |l: CleanupCandidate, r: CleanupCandidate| cleanup_value(l, r, key, direction)
}

/// Whatever the column and the direction, cleanup candidates are ordered by a comparison.
pub proof fn lemma_cleanup_comparison(key: CleanupSortKey, direction: SortDirection)
    ensures
        is_comparison(cleanup_comparison(key, direction)),
{
    lemma_int_comparison();
    lemma_text_comparison();
    lemma_text_value_comparison();
    let path_of = |c: CleanupCandidate| path_order_text(c.path@);
    let path = projected(text_comparison(), path_of);
    lemma_projected(text_comparison(), path_of);
    let rule_of = |c: CleanupCandidate| c.rule_label@;
    let risk_of = |c: CleanupCandidate| c.risk.spec_rank() as int;
    let protected_of = |c: CleanupCandidate| if c.protected { 1int } else { 0 };
    let size_of = |c: CleanupCandidate| c.size as int;
    lemma_projected(text_value_comparison(), rule_of);
    lemma_projected(int_comparison(), risk_of);
    lemma_projected(int_comparison(), protected_of);
    lemma_projected(int_comparison(), size_of);
    let primary = match key {
        CleanupSortKey::Rule => projected(text_value_comparison(), rule_of),
        CleanupSortKey::Risk => projected(int_comparison(), risk_of),
        CleanupSortKey::Protected => projected(int_comparison(), protected_of),
        CleanupSortKey::Size => projected(int_comparison(), size_of),
        CleanupSortKey::Path => path,
    };
    lemma_table_comparison(primary, direction, path);
    assert(cleanup_comparison(key, direction) =~= table_comparison(primary, direction, path));
}

/// Duplicate groups compared for a table.
pub open spec fn duplicate_comparison(key: DuplicateSortKey, direction: SortDirection) -> spec_fn(DuplicateGroup, DuplicateGroup) -> int {
    |l: DuplicateGroup, r: DuplicateGroup| duplicate_value(l, r, key, direction)
}

/// Whatever the column and the direction, duplicate groups are ordered by a comparison.
pub proof fn lemma_duplicate_comparison(key: DuplicateSortKey, direction: SortDirection)
    ensures
        is_comparison(duplicate_comparison(key, direction)),
{
    lemma_int_comparison();
    lemma_text_comparison();
    let keep_of = |g: DuplicateGroup| path_order_text(g.keep_path@);
    let keep = projected(text_comparison(), keep_of);
    lemma_projected(text_comparison(), keep_of);
    let size_of = |g: DuplicateGroup| g.size as int;
    let count_of = |g: DuplicateGroup| g.duplicate_count as int;
    let reclaimable_of = |g: DuplicateGroup| g.reclaimable_size as int;
    let protected_of = |g: DuplicateGroup| g.protected_size as int;
    lemma_projected(int_comparison(), size_of);
    lemma_projected(int_comparison(), count_of);
    lemma_projected(int_comparison(), reclaimable_of);
    lemma_projected(int_comparison(), protected_of);
    let primary = match key {
        DuplicateSortKey::Size => projected(int_comparison(), size_of),
        DuplicateSortKey::Count => projected(int_comparison(), count_of),
        DuplicateSortKey::Reclaimable => projected(int_comparison(), reclaimable_of),
        DuplicateSortKey::Protected => projected(int_comparison(), protected_of),
        DuplicateSortKey::KeepPath => keep,
    };
    lemma_table_comparison(primary, direction, keep);
    assert(duplicate_comparison(key, direction) =~= table_comparison(primary, direction, keep));
}

/// Findings, each with the rank of its confidence, compared for a table.
pub open spec fn finding_comparison(key: AiSortKey, direction: SortDirection) -> spec_fn((AiReviewFinding, u64), (AiReviewFinding, u64)) -> int {
    |l: (AiReviewFinding, u64), r: (AiReviewFinding, u64)| finding_value(l.0, r.0, key, direction, three_way_u64(l.1, r.1))
}

/// Whatever the column and the direction, findings ranked by confidence are ordered by a
/// comparison.
pub proof fn lemma_finding_comparison(key: AiSortKey, direction: SortDirection)
    ensures
        is_comparison(finding_comparison(key, direction)),
{
    lemma_int_comparison();
    lemma_text_comparison();
    lemma_text_value_comparison();
    let path_of = |f: (AiReviewFinding, u64)| path_order_text(f.0.path@);
    let path = projected(text_comparison(), path_of);
    lemma_projected(text_comparison(), path_of);
    let recommendation_of = |f: (AiReviewFinding, u64)| f.0.final_recommendation.spec_rank() as int;
    let status_of = |f: (AiReviewFinding, u64)| f.0.audit_status.spec_rank() as int;
    let risk_of = |f: (AiReviewFinding, u64)| f.0.risk.spec_rank() as int;
    let confidence_of = |f: (AiReviewFinding, u64)| f.1 as int;
    let category_of = |f: (AiReviewFinding, u64)| f.0.category.spec_rank() as int;
    let source_of = |f: (AiReviewFinding, u64)| f.0.source.spec_label();
    let size_of = |f: (AiReviewFinding, u64)| f.0.size as int;
    let protected_of = |f: (AiReviewFinding, u64)| if f.0.protected { 1int } else { 0 };
    lemma_projected(int_comparison(), recommendation_of);
    lemma_projected(int_comparison(), status_of);
    lemma_projected(int_comparison(), risk_of);
    lemma_projected(int_comparison(), confidence_of);
    lemma_projected(int_comparison(), category_of);
    lemma_projected(text_value_comparison(), source_of);
    lemma_projected(int_comparison(), size_of);
    lemma_projected(int_comparison(), protected_of);
    let primary = match key {
        AiSortKey::FinalRecommendation => projected(int_comparison(), recommendation_of),
        AiSortKey::AuditStatus => projected(int_comparison(), status_of),
        AiSortKey::Risk => projected(int_comparison(), risk_of),
        AiSortKey::Confidence => projected(int_comparison(), confidence_of),
        AiSortKey::Category => projected(int_comparison(), category_of),
        AiSortKey::Source => projected(text_value_comparison(), source_of),
        AiSortKey::Size => projected(int_comparison(), size_of),
        AiSortKey::Protected => projected(int_comparison(), protected_of),
        AiSortKey::Path => path,
    };
    lemma_table_comparison(primary, direction, path);
    assert(finding_comparison(key, direction) =~= table_comparison(primary, direction, path));
}

} // verus!

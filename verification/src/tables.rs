//! What a result table shows: the records that match the search, in the order of the
//! chosen column, at most a fixed number of rows, and the counts for the line under it.
//! Rows are positions in the list that the table reads.
use vstd::prelude::*;
use std::cmp::Ordering;
use crate::ai_analysis::{AiAnalysisReport, AiReviewFinding};
use crate::cleanup::{CleanupCandidate, CleanupPreview};
use crate::comparison::{before_of, is_comparison, lemma_comparison_orders, projected};
use crate::duplicates::{DuplicateGroup, DuplicatePreview};
use crate::model::{DirectoryNode, DirectoryRecord, ExtensionRecord, FileRecord, ScanStats};
use crate::search::{
    ai_finding_matches, cleanup_candidate_matches, directory_matches, duplicate_group_matches,
    extension_matches, file_matches, normalized_query, spec_ai_finding_matches,
    spec_cleanup_candidate_matches, spec_directory_matches, spec_duplicate_group_matches,
    spec_extension_matches, spec_file_matches, spec_normalized_query,
};
use crate::sorted::{computes, is_sorted, merge_sort};
use crate::table_order::{
    compare_ai_findings, compare_cleanup_candidates, compare_directories, compare_duplicate_groups,
    compare_extensions, compare_files, cleanup_comparison, directory_comparison, duplicate_comparison,
    extension_comparison, file_comparison, finding_comparison, lemma_cleanup_comparison,
    lemma_directory_comparison, lemma_duplicate_comparison, lemma_extension_comparison,
    lemma_file_comparison, lemma_finding_comparison, result_count_text, spec_result_count_text,
    AiSortKey, CleanupSortKey, DirectorySortKey, DuplicateSortKey, ExtensionSortKey, FileSortKey,
    SortDirection, SortState,
};
use crate::text::owned;

verus! {

/// The most rows a table shows.
pub const TABLE_ROW_LIMIT: usize = 120;

/// Positions in a list, compared by the records at them; positions past the end come last.
pub open spec fn position_order<T>(items: Seq<T>, c: spec_fn(T, T) -> int) -> spec_fn(usize, usize) -> int {
    |i: usize, j: usize|
        if i < items.len() && j < items.len() {
            c(items[i as int], items[j as int])
        } else if i < items.len() {
            -1int
        } else if j < items.len() {
            1int
        } else {
            0int
        }
}

/// The positions `0..n`.
pub open spec fn all_positions(n: nat) -> Seq<usize> {
    Seq::new(n, |i: int| i as usize)
}

/// Whether the record at a position is kept.
pub open spec fn kept_at<T>(items: Seq<T>, keep: spec_fn(T) -> bool) -> spec_fn(usize) -> bool {
    |i: usize| keep(items[i as int])
}

/// The positions of the records that `keep` accepts, in list order.
pub open spec fn positions_where<T>(items: Seq<T>, keep: spec_fn(T) -> bool) -> Seq<usize> {
    all_positions(items.len()).filter(kept_at(items, keep))
}

/// `rows` are the first `limit` of the `matching` positions in `order`: an arrangement of
/// all of them in which none comes strictly before an earlier one, cut after `limit`.
pub open spec fn first_rows(rows: Seq<usize>, matching: Seq<usize>, order: spec_fn(usize, usize) -> int, limit: nat) -> bool {
    exists|s: Seq<usize>|
        #[trigger] is_sorted(s, before_of(order)) && s.to_multiset() == matching.to_multiset() && rows == s.take(
            if s.len() < limit {
                s.len() as int
            } else {
                limit as int
            },
        )
}

/// The rows of a table.
pub struct TableRows {
    /// Positions of the rows shown, in table order.
    pub rows: Vec<usize>,
    /// How many records match the search.
    pub matched: usize,
    /// How many records the table reads.
    pub retained: usize,
    /// Whether the search reads the complete list rather than the largest entries.
    pub full_search: bool,
    /// What a row is called in the line under the table.
    pub unit: String,
}

/// The table reads `items`, keeps those that `keep` accepts and orders them by `order`.
pub open spec fn shows<T>(r: TableRows, items: Seq<T>, keep: spec_fn(T) -> bool, order: spec_fn(usize, usize) -> int) -> bool {
    &&& first_rows(r.rows@, positions_where(items, keep), order, TABLE_ROW_LIMIT as nat)
    &&& r.matched == positions_where(items, keep).len()
    &&& r.retained == items.len()
}

impl TableRows {
    /// The line under the table: rows shown, rows matching, records read.
    pub fn count_text(&self) -> (r: String)
        ensures
            r@ == spec_result_count_text(self.rows@.len(), self.matched as nat, self.retained as nat, self.unit@),
    {
        result_count_text(self.rows.len() as u64, self.matched as u64, self.retained as u64, self.unit.as_str())
    }
}

/// Positions compared through a comparison of records form a comparison.
pub proof fn lemma_position_order<T>(items: Seq<T>, c: spec_fn(T, T) -> int)
    requires
        is_comparison(c),
    ensures
        is_comparison(position_order(items, c)),
{
    let p = position_order(items, c);
    assert forall|a: usize, b: usize| #[trigger] p(a, b) == -p(b, a) by {
        if a < items.len() && b < items.len() {
            assert(c(items[a as int], items[b as int]) == -c(items[b as int], items[a as int]));
        }
    }
    assert forall|a: usize, b: usize, x: usize| #[trigger] p(a, b) <= 0 && #[trigger] p(b, x) <= 0 implies p(a, x) <= 0 by {
        if a < items.len() && b < items.len() && x < items.len() {
            assert(c(items[a as int], items[b as int]) <= 0 && c(items[b as int], items[x as int]) <= 0);
        }
    }
}

fn matching_positions<T, P: Fn(&T) -> bool>(items: &Vec<T>, keep: &P, Ghost(k): Ghost<spec_fn(T) -> bool>) -> (r: Vec<usize>)
    requires
        forall|x: &T| #[trigger] keep.requires((x,)),
        forall|x: &T, b: bool| keep.ensures((x,), b) ==> b == k(*x),
    ensures
        r@ == positions_where(items@, k),
{
    let mut r: Vec<usize> = Vec::new();
    let mut i: usize = 0;
    while i < items.len()
        invariant
            i <= items@.len(),
            forall|x: &T| #[trigger] keep.requires((x,)),
            forall|x: &T, b: bool| keep.ensures((x,), b) ==> b == k(*x),
            r@ == all_positions(i as nat).filter(kept_at(items@, k)),
        decreases items.len() - i,
    {
        let ghost before = all_positions(i as nat);
        let ghost after = all_positions((i + 1) as nat);
        proof {
            reveal(Seq::filter);
            assert(after.drop_last() =~= before);
            assert(after.last() == i);
        }
        if keep(&items[i]) {
            r.push(i);
        }
        i = i + 1;
    }
    r
}

fn first_positions<L: Fn(&usize, &usize) -> bool>(
    matching: Vec<usize>,
    less: &L,
    Ghost(order): Ghost<spec_fn(usize, usize) -> int>,
) -> (r: Vec<usize>)
    requires
        is_comparison(order),
        computes(*less, before_of(order)),
    ensures
        first_rows(r@, matching@, order, TABLE_ROW_LIMIT as nat),
{
    proof {
        lemma_comparison_orders(order);
    }
    let sorted = merge_sort(matching, less, Ghost(before_of(order)));
    let ghost s = sorted@;
    let mut rows = sorted;
    rows.truncate(TABLE_ROW_LIMIT);
    assert(is_sorted(s, before_of(order)));
    assert(rows@ =~= s.take(if s.len() < TABLE_ROW_LIMIT as nat { s.len() as int } else { TABLE_ROW_LIMIT as int }));
    rows
}

// ---------------------------------------------------------------------------------------
// Directories

/// Tree nodes compared by their records.
pub open spec fn node_comparison(key: DirectorySortKey, direction: SortDirection) -> spec_fn(DirectoryNode, DirectoryNode) -> int {
    projected(directory_comparison(key, direction), |n: DirectoryNode| n.record)
}

fn node_less(nodes: &Vec<DirectoryNode>, a: usize, b: usize, sort: SortState<DirectorySortKey>) -> (r: bool)
    ensures
        r == before_of(position_order(nodes@, node_comparison(sort.key, sort.direction)))(a, b),
{
    if a < nodes.len() && b < nodes.len() {
        match compare_directories(&nodes[a].record, &nodes[b].record, sort) {
            Ordering::Less => true,
            _ => false,
        }
    } else {
        a < nodes.len()
    }
}

fn directory_less(dirs: &Vec<DirectoryRecord>, a: usize, b: usize, sort: SortState<DirectorySortKey>) -> (r: bool)
    ensures
        r == before_of(position_order(dirs@, directory_comparison(sort.key, sort.direction)))(a, b),
{
    if a < dirs.len() && b < dirs.len() {
        match compare_directories(&dirs[a], &dirs[b], sort) {
            Ordering::Less => true,
            _ => false,
        }
    } else {
        a < dirs.len()
    }
}

/// The directory search reads the complete tree: the search is not empty and there is a
/// tree.
pub open spec fn directory_full_search(stats: ScanStats, search_query: Seq<char>) -> bool {
    spec_normalized_query(search_query).len() > 0 && stats.directory_tree is Some
}

/// The directory table: with a search and a directory tree, every directory of the tree
/// that matches; otherwise the largest directories that match. Sorted by the chosen
/// column, at most the row limit.
pub fn directory_rows(stats: &ScanStats, search_query: &str, sort: SortState<DirectorySortKey>) -> (r: TableRows)
    ensures
        r.full_search == directory_full_search(*stats, search_query@),
        r.full_search ==> shows(
            r,
            stats.directory_tree->0.nodes@,
            |n: DirectoryNode| spec_directory_matches(n.record, spec_normalized_query(search_query@)),
            position_order(stats.directory_tree->0.nodes@, node_comparison(sort.key, sort.direction)),
        ),
        !r.full_search ==> shows(
            r,
            stats.largest_dirs@,
            |d: DirectoryRecord| spec_directory_matches(d, spec_normalized_query(search_query@)),
            position_order(stats.largest_dirs@, directory_comparison(sort.key, sort.direction)),
        ),
        r.unit@ == (if r.full_search { "完整目录"@ } else { "目录"@ }),
{
    let query = normalized_query(search_query);
    proof {
        lemma_directory_comparison(sort.key, sort.direction);
    }
    if !query.as_str().is_empty() && stats.directory_tree.is_some() {
        let tree = stats.directory_tree.as_ref().unwrap();
        let nodes = &tree.nodes;
        let keep = |n: &DirectoryNode| -> (b: bool)
            ensures
                b == spec_directory_matches(n.record, query@),
            { directory_matches(&n.record, query.as_str()) };
        let matching = matching_positions(nodes, &keep, Ghost(|n: DirectoryNode| spec_directory_matches(n.record, query@)));
        let matched = matching.len();
        let less = |x: &usize, y: &usize| -> (b: bool)
            ensures
                b == before_of(position_order(nodes@, node_comparison(sort.key, sort.direction)))(*x, *y),
            { node_less(nodes, *x, *y, sort) };
        proof {
            crate::comparison::lemma_projected(directory_comparison(sort.key, sort.direction), |n: DirectoryNode| n.record);
            lemma_position_order(nodes@, node_comparison(sort.key, sort.direction));
        }
        let rows = first_positions(matching, &less, Ghost(position_order(nodes@, node_comparison(sort.key, sort.direction))));
        TableRows { rows, matched, retained: nodes.len(), full_search: true, unit: owned("完整目录") }
    } else {
        let dirs = &stats.largest_dirs;
        let keep = |d: &DirectoryRecord| -> (b: bool)
            ensures
                b == spec_directory_matches(*d, query@),
            { directory_matches(d, query.as_str()) };
        let matching = matching_positions(dirs, &keep, Ghost(|d: DirectoryRecord| spec_directory_matches(d, query@)));
        let matched = matching.len();
        let less = |x: &usize, y: &usize| -> (b: bool)
            ensures
                b == before_of(position_order(dirs@, directory_comparison(sort.key, sort.direction)))(*x, *y),
            { directory_less(dirs, *x, *y, sort) };
        proof {
            lemma_position_order(dirs@, directory_comparison(sort.key, sort.direction));
        }
        let rows = first_positions(matching, &less, Ghost(position_order(dirs@, directory_comparison(sort.key, sort.direction))));
        TableRows { rows, matched, retained: dirs.len(), full_search: false, unit: owned("目录") }
    }
}

// ---------------------------------------------------------------------------------------
// Files

fn file_less(files: &Vec<FileRecord>, a: usize, b: usize, sort: SortState<FileSortKey>) -> (r: bool)
    ensures
        r == before_of(position_order(files@, file_comparison(sort.key, sort.direction)))(a, b),
{
    if a < files.len() && b < files.len() {
        match compare_files(&files[a], &files[b], sort) {
            Ordering::Less => true,
            _ => false,
        }
    } else {
        a < files.len()
    }
}

/// The file search reads the complete file list: the search is not empty and the list is.
pub open spec fn file_full_search(stats: ScanStats, search_query: Seq<char>) -> bool {
    spec_normalized_query(search_query).len() > 0 && stats.all_files@.len() > 0
}

/// A search that can only read the largest files, although more files were counted.
pub open spec fn spec_file_search_is_partial(stats: ScanStats, search_query: Seq<char>) -> bool {
    spec_normalized_query(search_query).len() > 0 && stats.all_files@.len() == 0
        && stats.file_count > stats.largest_files@.len()
}

/// Whether the file search can only read the largest files, although more were counted.
pub fn file_search_is_partial(stats: &ScanStats, search_query: &str) -> (r: bool)
    ensures
        r == spec_file_search_is_partial(*stats, search_query@),
{
    let query = normalized_query(search_query);
    !query.as_str().is_empty() && stats.all_files.len() == 0 && stats.file_count > stats.largest_files.len() as u64
}

/// The file table: with a search and a complete file list, every file that matches;
/// otherwise the largest files that match. Sorted by the chosen column, at most the row
/// limit.
pub fn file_rows(stats: &ScanStats, search_query: &str, sort: SortState<FileSortKey>) -> (r: TableRows)
    ensures
        r.full_search == file_full_search(*stats, search_query@),
        r.full_search ==> shows(
            r,
            stats.all_files@,
            |f: FileRecord| spec_file_matches(f, spec_normalized_query(search_query@)),
            position_order(stats.all_files@, file_comparison(sort.key, sort.direction)),
        ),
        !r.full_search ==> shows(
            r,
            stats.largest_files@,
            |f: FileRecord| spec_file_matches(f, spec_normalized_query(search_query@)),
            position_order(stats.largest_files@, file_comparison(sort.key, sort.direction)),
        ),
        r.unit@ == (if r.full_search { "完整文件"@ } else { "文件"@ }),
{
    let query = normalized_query(search_query);
    proof {
        lemma_file_comparison(sort.key, sort.direction);
    }
    let full_search = !query.as_str().is_empty() && stats.all_files.len() > 0;
    let files = if full_search { &stats.all_files } else { &stats.largest_files };
    let keep = |f: &FileRecord| -> (b: bool)
        ensures
            b == spec_file_matches(*f, query@),
        { file_matches(f, query.as_str()) };
    let matching = matching_positions(files, &keep, Ghost(|f: FileRecord| spec_file_matches(f, query@)));
    let matched = matching.len();
    let less = |x: &usize, y: &usize| -> (b: bool)
        ensures
            b == before_of(position_order(files@, file_comparison(sort.key, sort.direction)))(*x, *y),
        { file_less(files, *x, *y, sort) };
    proof {
        lemma_position_order(files@, file_comparison(sort.key, sort.direction));
    }
    let rows = first_positions(matching, &less, Ghost(position_order(files@, file_comparison(sort.key, sort.direction))));
    let unit = if full_search { owned("完整文件") } else { owned("文件") };
    TableRows { rows, matched, retained: files.len(), full_search, unit }
}

// ---------------------------------------------------------------------------------------
// Extensions

fn extension_less(exts: &Vec<ExtensionRecord>, a: usize, b: usize, sort: SortState<ExtensionSortKey>) -> (r: bool)
    ensures
        r == before_of(position_order(exts@, extension_comparison(sort.key, sort.direction)))(a, b),
{
    if a < exts.len() && b < exts.len() {
        match compare_extensions(&exts[a], &exts[b], sort) {
            Ordering::Less => true,
            _ => false,
        }
    } else {
        a < exts.len()
    }
}

/// The extension table: the extensions that match, sorted by the chosen column, at most
/// the row limit.
pub fn extension_rows(stats: &ScanStats, search_query: &str, sort: SortState<ExtensionSortKey>) -> (r: TableRows)
    ensures
        !r.full_search,
        shows(
            r,
            stats.extensions@,
            |e: ExtensionRecord| spec_extension_matches(e, spec_normalized_query(search_query@)),
            position_order(stats.extensions@, extension_comparison(sort.key, sort.direction)),
        ),
        r.unit@ == "类型"@,
{
    let query = normalized_query(search_query);
    proof {
        lemma_extension_comparison(sort.key, sort.direction);
    }
    let exts = &stats.extensions;
    let keep = |e: &ExtensionRecord| -> (b: bool)
        ensures
            b == spec_extension_matches(*e, query@),
        { extension_matches(e, query.as_str()) };
    let matching = matching_positions(exts, &keep, Ghost(|e: ExtensionRecord| spec_extension_matches(e, query@)));
    let matched = matching.len();
    let less = |x: &usize, y: &usize| -> (b: bool)
        ensures
            b == before_of(position_order(exts@, extension_comparison(sort.key, sort.direction)))(*x, *y),
        { extension_less(exts, *x, *y, sort) };
    proof {
        lemma_position_order(exts@, extension_comparison(sort.key, sort.direction));
    }
    let rows = first_positions(matching, &less, Ghost(position_order(exts@, extension_comparison(sort.key, sort.direction))));
    TableRows { rows, matched, retained: exts.len(), full_search: false, unit: owned("类型") }
}

// ---------------------------------------------------------------------------------------
// Cleanup candidates

fn cleanup_less(items: &Vec<CleanupCandidate>, a: usize, b: usize, sort: SortState<CleanupSortKey>) -> (r: bool)
    ensures
        r == before_of(position_order(items@, cleanup_comparison(sort.key, sort.direction)))(a, b),
{
    if a < items.len() && b < items.len() {
        match compare_cleanup_candidates(&items[a], &items[b], sort) {
            Ordering::Less => true,
            _ => false,
        }
    } else {
        a < items.len()
    }
}

/// The cleanup preview table: the candidates that match, sorted by the chosen column, at
/// most the row limit.
pub fn cleanup_rows(preview: &CleanupPreview, search_query: &str, sort: SortState<CleanupSortKey>) -> (r: TableRows)
    ensures
        !r.full_search,
        shows(
            r,
            preview.candidates@,
            |c: CleanupCandidate| spec_cleanup_candidate_matches(c, spec_normalized_query(search_query@)),
            position_order(preview.candidates@, cleanup_comparison(sort.key, sort.direction)),
        ),
        r.unit@ == "候选"@,
{
    let query = normalized_query(search_query);
    proof {
        lemma_cleanup_comparison(sort.key, sort.direction);
    }
    let items = &preview.candidates;
    let keep = |c: &CleanupCandidate| -> (b: bool)
        ensures
            b == spec_cleanup_candidate_matches(*c, query@),
        { cleanup_candidate_matches(c, query.as_str()) };
    let matching = matching_positions(items, &keep, Ghost(|c: CleanupCandidate| spec_cleanup_candidate_matches(c, query@)));
    let matched = matching.len();
    let less = |x: &usize, y: &usize| -> (b: bool)
        ensures
            b == before_of(position_order(items@, cleanup_comparison(sort.key, sort.direction)))(*x, *y),
        { cleanup_less(items, *x, *y, sort) };
    proof {
        lemma_position_order(items@, cleanup_comparison(sort.key, sort.direction));
    }
    let rows = first_positions(matching, &less, Ghost(position_order(items@, cleanup_comparison(sort.key, sort.direction))));
    TableRows { rows, matched, retained: items.len(), full_search: false, unit: owned("候选") }
}

// ---------------------------------------------------------------------------------------
// Duplicate groups

fn duplicate_less(groups: &Vec<DuplicateGroup>, a: usize, b: usize, sort: SortState<DuplicateSortKey>) -> (r: bool)
    ensures
        r == before_of(position_order(groups@, duplicate_comparison(sort.key, sort.direction)))(a, b),
{
    if a < groups.len() && b < groups.len() {
        match compare_duplicate_groups(&groups[a], &groups[b], sort) {
            Ordering::Less => true,
            _ => false,
        }
    } else {
        a < groups.len()
    }
}

/// The duplicate preview table: the groups that match, sorted by the chosen column, at
/// most the row limit.
pub fn duplicate_rows(preview: &DuplicatePreview, search_query: &str, sort: SortState<DuplicateSortKey>) -> (r: TableRows)
    ensures
        !r.full_search,
        shows(
            r,
            preview.groups@,
            |g: DuplicateGroup| spec_duplicate_group_matches(g, spec_normalized_query(search_query@)),
            position_order(preview.groups@, duplicate_comparison(sort.key, sort.direction)),
        ),
        r.unit@ == "重复组"@,
{
    let query = normalized_query(search_query);
    proof {
        lemma_duplicate_comparison(sort.key, sort.direction);
    }
    let groups = &preview.groups;
    let keep = |g: &DuplicateGroup| -> (b: bool)
        ensures
            b == spec_duplicate_group_matches(*g, query@),
        { duplicate_group_matches(g, query.as_str()) };
    let matching = matching_positions(groups, &keep, Ghost(|g: DuplicateGroup| spec_duplicate_group_matches(g, query@)));
    let matched = matching.len();
    let less = |x: &usize, y: &usize| -> (b: bool)
        ensures
            b == before_of(position_order(groups@, duplicate_comparison(sort.key, sort.direction)))(*x, *y),
        { duplicate_less(groups, *x, *y, sort) };
    proof {
        lemma_position_order(groups@, duplicate_comparison(sort.key, sort.direction));
    }
    let rows = first_positions(matching, &less, Ghost(position_order(groups@, duplicate_comparison(sort.key, sort.direction))));
    TableRows { rows, matched, retained: groups.len(), full_search: false, unit: owned("重复组") }
}

// ---------------------------------------------------------------------------------------
// Review findings

/// The rank of the confidence at a position: ranks order as the confidences do; a missing
/// rank is 0.
pub open spec fn rank_at(ranks: Seq<u64>, i: int) -> u64 {
    if 0 <= i < ranks.len() {
        ranks[i]
    } else {
        0
    }
}

/// Each finding with the rank of its confidence.
pub open spec fn ranked_findings(findings: Seq<AiReviewFinding>, ranks: Seq<u64>) -> Seq<(AiReviewFinding, u64)> {
    Seq::new(findings.len(), |i: int| (findings[i], rank_at(ranks, i)))
}

fn rank_of(ranks: &Vec<u64>, i: usize) -> (r: u64)
    ensures
        r == rank_at(ranks@, i as int),
{
    if i < ranks.len() {
        ranks[i]
    } else {
        0
    }
}

fn finding_less(findings: &Vec<AiReviewFinding>, ranks: &Vec<u64>, a: usize, b: usize, sort: SortState<AiSortKey>) -> (r: bool)
    ensures
        r == before_of(position_order(ranked_findings(findings@, ranks@), finding_comparison(sort.key, sort.direction)))(a, b),
{
    if a < findings.len() && b < findings.len() {
        let ra = rank_of(ranks, a);
        let rb = rank_of(ranks, b);
        let confidence = if ra < rb {
            Ordering::Less
        } else if ra == rb {
            Ordering::Equal
        } else {
            Ordering::Greater
        };
        match compare_ai_findings(&findings[a], &findings[b], sort, confidence) {
            Ordering::Less => true,
            _ => false,
        }
    } else {
        a < findings.len()
    }
}

/// The review table: the findings that match, sorted by the chosen column, at most the
/// row limit. `confidence_ranks[i]` orders the confidence of finding `i` as the
/// confidences themselves are ordered.
pub fn finding_rows(
    report: &AiAnalysisReport,
    confidence_ranks: &Vec<u64>,
    search_query: &str,
    sort: SortState<AiSortKey>,
) -> (r: TableRows)
    ensures
        !r.full_search,
        shows(
            r,
            report.findings@,
            |f: AiReviewFinding| spec_ai_finding_matches(f, spec_normalized_query(search_query@)),
            position_order(ranked_findings(report.findings@, confidence_ranks@), finding_comparison(sort.key, sort.direction)),
        ),
        r.unit@ == "AI 条目"@,
{
    let query = normalized_query(search_query);
    proof {
        lemma_finding_comparison(sort.key, sort.direction);
    }
    let findings = &report.findings;
    let keep = |f: &AiReviewFinding| -> (b: bool)
        ensures
            b == spec_ai_finding_matches(*f, query@),
        { ai_finding_matches(f, query.as_str()) };
    let matching = matching_positions(findings, &keep, Ghost(|f: AiReviewFinding| spec_ai_finding_matches(f, query@)));
    let matched = matching.len();
    let less = |x: &usize, y: &usize| -> (b: bool)
        ensures
            b == before_of(position_order(ranked_findings(findings@, confidence_ranks@), finding_comparison(sort.key, sort.direction)))(*x, *y),
        { finding_less(findings, confidence_ranks, *x, *y, sort) };
    proof {
        lemma_position_order(ranked_findings(findings@, confidence_ranks@), finding_comparison(sort.key, sort.direction));
    }
    let rows = first_positions(
        matching,
        &less,
        Ghost(position_order(ranked_findings(findings@, confidence_ranks@), finding_comparison(sort.key, sort.direction))),
    );
    TableRows { rows, matched, retained: findings.len(), full_search: false, unit: owned("AI 条目") }
}

// ---------------------------------------------------------------------------------------
// Errors

/// An error is listed when the query is empty or the error holds it.
pub open spec fn spec_error_matches(e: String, query: Seq<char>) -> bool {
    query.len() == 0 || crate::search::spec_text_matches(e@, query)
}

/// The errors listed for a search: their positions, in the order recorded.
pub fn error_rows(stats: &ScanStats, search_query: &str) -> (r: Vec<usize>)
    ensures
        r@ == positions_where(stats.errors@, |e: String| spec_error_matches(e, spec_normalized_query(search_query@))),
{
    let query = normalized_query(search_query);
    let keep = |e: &String| -> (b: bool)
        ensures
            b == spec_error_matches(*e, query@),
        { query.as_str().is_empty() || crate::search::text_matches(e.as_str(), query.as_str()) };
    matching_positions(&stats.errors, &keep, Ghost(|e: String| spec_error_matches(e, query@)))
}

/// The line over the error list: errors counted, kept and matching.
pub open spec fn spec_error_count_text(error_count: nat, kept: nat, matched: nat) -> Seq<char> {
    "共 "@ + crate::format::spec_count(error_count) + " 个访问错误，当前保留 "@ + crate::format::spec_count(kept)
        + " 条，匹配 "@ + crate::format::spec_count(matched) + " 条。"@
}

/// The line over the error list.
pub fn error_count_text(stats: &ScanStats, matched: usize) -> (r: String)
    ensures
        r@ == spec_error_count_text(stats.error_count as nat, stats.errors@.len(), matched as nat),
{
    let mut m: Vec<char> = Vec::new();
    crate::text::push_lit(&mut m, "共 ");
    let a = crate::format::count(stats.error_count);
    crate::text::push_lit(&mut m, a.as_str());
    crate::text::push_lit(&mut m, " 个访问错误，当前保留 ");
    let b = crate::format::count(stats.errors.len() as u64);
    crate::text::push_lit(&mut m, b.as_str());
    crate::text::push_lit(&mut m, " 条，匹配 ");
    let c = crate::format::count(matched as u64);
    crate::text::push_lit(&mut m, c.as_str());
    crate::text::push_lit(&mut m, " 条。");
    crate::text::string_from_chars(m.as_slice())
}

// ---------------------------------------------------------------------------------------
// The directory tree panel

/// The deepest level the tree panel shows.
pub const TREE_PANEL_MAX_DEPTH: usize = 5;

/// Whether the tree panel has the directory at `path` unfolded.
pub open spec fn is_expanded(expanded: Seq<String>, path: Seq<char>) -> bool {
    exists|k: int| 0 <= k < expanded.len() && (#[trigger] expanded[k])@ == path
}

/// The rows the tree panel shows from node `i` at `depth` on: the node, then, when it has
/// subdirectories and is unfolded (the root always is), the rows of each subdirectory in
/// order, one level deeper; nothing deeper than the deepest level.
pub open spec fn tree_rows(nodes: Seq<DirectoryNode>, expanded: Seq<String>, i: usize, depth: nat) -> Seq<(usize, usize)>
    decreases 6 - depth, 0nat,
{
    if depth > TREE_PANEL_MAX_DEPTH || i >= nodes.len() {
        Seq::empty()
    } else {
        let node = nodes[i as int];
        let unfolded = node.children@.len() > 0 && (is_expanded(expanded, node.record.path@) || depth == 0);
        seq![(i, depth as usize)] + if unfolded {
            children_rows(nodes, expanded, node.children@, depth + 1)
        } else {
            Seq::empty()
        }
    }
}

/// The rows of the subdirectories `children`, each at `depth`, one after the other.
pub open spec fn children_rows(nodes: Seq<DirectoryNode>, expanded: Seq<String>, children: Seq<usize>, depth: nat) -> Seq<
    (usize, usize),
>
    decreases 6 - depth, children.len(),
{
    if children.len() == 0 || depth > 6 {
        Seq::empty()
    } else {
        children_rows(nodes, expanded, children.drop_last(), depth) + tree_rows(nodes, expanded, children.last(), depth)
    }
}

fn expanded_contains(expanded: &Vec<String>, path: &str) -> (r: bool)
    ensures
        r == is_expanded(expanded@, path@),
{
    let p = crate::text::chars_of(path);
    let mut i: usize = 0;
    while i < expanded.len()
        invariant
            i <= expanded@.len(),
            p@ == path@,
            forall|k: int| 0 <= k < i ==> (#[trigger] expanded@[k])@ != path@,
        decreases expanded.len() - i,
    {
        let e = crate::text::chars_of(expanded[i].as_str());
        if crate::text::chars_eq(e.as_slice(), p.as_slice()) {
            return true;
        }
        i = i + 1;
    }
    false
}

fn push_tree_rows(nodes: &Vec<DirectoryNode>, expanded: &Vec<String>, i: usize, depth: usize, out: &mut Vec<(usize, usize)>)
    requires
        depth <= 6,
    ensures
        final(out)@ == old(out)@ + tree_rows(nodes@, expanded@, i, depth as nat),
    decreases 6 - depth,
{
    if depth > TREE_PANEL_MAX_DEPTH || i >= nodes.len() {
        assert(old(out)@ + Seq::<(usize, usize)>::empty() =~= old(out)@);
        return;
    }
    out.push((i, depth));
    let node = &nodes[i];
    let unfolded = node.children.len() > 0 && (expanded_contains(expanded, node.record.path.as_str()) || depth == 0);
    let ghost start = out@;
    if unfolded {
        let children = &node.children;
        let mut k: usize = 0;
        while k < children.len()
            invariant
                k <= children@.len(),
                depth < 6,
                out@ == start + children_rows(nodes@, expanded@, children@.take(k as int), depth as nat + 1),
            decreases children.len() - k,
        {
            assert(children@.take(k as int + 1).drop_last() =~= children@.take(k as int));
            assert(children@.take(k as int + 1).last() == children@[k as int]);
            let ghost before = out@;
            push_tree_rows(nodes, expanded, children[k], depth + 1, out);
            assert(out@ =~= start + children_rows(nodes@, expanded@, children@.take(k as int + 1), depth as nat + 1));
            k = k + 1;
        }
        assert(children@.take(children@.len() as int) =~= children@);
        assert(out@ =~= old(out)@ + tree_rows(nodes@, expanded@, i, depth as nat));
    } else {
        assert(out@ =~= old(out)@ + tree_rows(nodes@, expanded@, i, depth as nat));
    }
}

/// The rows of the directory tree panel, from the root: each a node's position and its
/// depth.
pub fn tree_panel_rows(tree: &crate::model::DirectoryTree, expanded: &Vec<String>) -> (r: Vec<(usize, usize)>)
    ensures
        r@ == tree_rows(tree.nodes@, expanded@, tree.root_index, 0),
{
    let mut out: Vec<(usize, usize)> = Vec::new();
    push_tree_rows(&tree.nodes, expanded, tree.root_index, 0, &mut out);
    assert(out@ =~= tree_rows(tree.nodes@, expanded@, tree.root_index, 0));
    out
}

} // verus!

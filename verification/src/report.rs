//! CSV reports of a scan and of the cleanup, duplicate and AI previews: the cells of each
//! row, how a cell is quoted, which records a report lists and the summary shown after an
//! export. Sizes as shown to people and AI confidences are formatted by the caller and
//! handed in as text.
use vstd::prelude::*;
use crate::ai_analysis::{AiAnalysisReport, AiReviewFinding};
use crate::cleanup::{CleanupCandidate, CleanupPreview, CleanupRisk};
use crate::duplicates::{DuplicateFile, DuplicateGroup, DuplicatePreview};
use crate::format::{count, spec_count};
use crate::model::{
    dir_by_size, spec_path_label, DirectoryRecord, ExtensionRecord, FileRecord, ScanStats,
};
use crate::sorted::{is_sorted, merge_sort};
use crate::text::{chars_of, decimal, decimal_chars, has_char, push_all, push_lit, string_from_chars};
use crate::winpath::file_name;

verus! {

/// The texts of the cells.
pub open spec fn texts(v: Seq<String>) -> Seq<Seq<char>> {
    v.map_values(|s: String| s@)
}

// ---------------------------------------------------------------------------------------
// Cells and lines

/// A cell as written: quoted, with quotes doubled, when it holds a comma, a quote or a
/// line break; else as it is.
pub open spec fn spec_csv_cell(value: Seq<char>) -> Seq<char> {
    if has_char(value, ',') || has_char(value, '"') || has_char(value, '\n') || has_char(value, '\r') {
        seq!['"'] + doubled_quotes(value) + seq!['"']
    } else {
        value
    }
}

/// The text with every `"` doubled.
pub open spec fn doubled_quotes(s: Seq<char>) -> Seq<char>
    decreases s.len(),
{
    if s.len() == 0 {
        s
    } else {
        doubled_quotes(s.drop_last()) + if s.last() == '"' {
            seq!['"', '"']
        } else {
            seq![s.last()]
        }
    }
}

/// A cell as written to a CSV file.
pub fn csv_cell(value: &str) -> (r: String)
    ensures
        r@ == spec_csv_cell(value@),
{
    let v = chars_of(value);
    let quoted = crate::text::has_char_exec(v.as_slice(), ',') || crate::text::has_char_exec(v.as_slice(), '"')
        || crate::text::has_char_exec(v.as_slice(), '\n') || crate::text::has_char_exec(v.as_slice(), '\r');
    if !quoted {
        return String::from_str(value);
    }
    let mut out: Vec<char> = Vec::new();
    out.push('"');
    let mut i: usize = 0;
    while i < v.len()
        invariant
            i <= v@.len(),
            out@ == seq!['"'] + doubled_quotes(v@.take(i as int)),
        decreases v.len() - i,
    {
        assert(v@.take(i as int + 1).drop_last() =~= v@.take(i as int));
        if v[i] == '"' {
            out.push('"');
            out.push('"');
        } else {
            out.push(v[i]);
        }
        assert(out@ =~= seq!['"'] + doubled_quotes(v@.take(i as int + 1)));
        i = i + 1;
    }
    assert(v@.take(i as int) =~= v@);
    out.push('"');
    string_from_chars(out.as_slice())
}

/// The cells written, separated by commas.
pub open spec fn joined_cells(cells: Seq<Seq<char>>) -> Seq<char>
    decreases cells.len(),
{
    if cells.len() == 0 {
        Seq::empty()
    } else if cells.len() == 1 {
        spec_csv_cell(cells[0])
    } else {
        joined_cells(cells.drop_last()) + seq![','] + spec_csv_cell(cells.last())
    }
}

/// One line of a CSV file: the cells, then a line break.
pub fn csv_line(cells: &[String]) -> (r: String)
    ensures
        r@ == joined_cells(texts(cells@)) + seq!['\n'],
{
    let mut out: Vec<char> = Vec::new();
    let mut i: usize = 0;
    while i < cells.len()
        invariant
            i <= cells@.len(),
            out@ == joined_cells(texts(cells@.take(i as int))),
        decreases cells.len() - i,
    {
        assert(texts(cells@.take(i as int + 1)).drop_last() =~= texts(cells@.take(i as int)));
        if i > 0 {
            out.push(',');
        }
        let cell = csv_cell(cells[i].as_str());
        let cv = chars_of(cell.as_str());
        push_all(&mut out, cv.as_slice());
        i = i + 1;
    }
    assert(cells@.take(i as int) =~= cells@);
    out.push('\n');
    string_from_chars(out.as_slice())
}

// ---------------------------------------------------------------------------------------
// Small texts

/// A number in decimal.
pub fn number_text(n: u64) -> (r: String)
    ensures
        r@ == decimal(n as nat),
{
    let d = decimal_chars(n);
    string_from_chars(d.as_slice())
}

/// `true` or `false`.
pub open spec fn bool_text(b: bool) -> Seq<char> {
    if b {
        "true"@
    } else {
        "false"@
    }
}

fn bool_string(b: bool) -> (r: String)
    ensures
        r@ == bool_text(b),
{
    if b {
        String::from_str("true")
    } else {
        String::from_str("false")
    }
}

/// A time in seconds since the epoch, or nothing.
pub open spec fn unix_secs_text(t: Option<u64>) -> Seq<char> {
    match t {
        Some(s) => decimal(s as nat),
        None => Seq::empty(),
    }
}

/// A time in seconds since the epoch as written, empty when unknown.
pub fn unix_secs_string(t: Option<u64>) -> (r: String)
    ensures
        r@ == unix_secs_text(t),
{
    match t {
        Some(s) => number_text(s),
        None => String::new(),
    }
}

/// The file name of a path, or `[未知文件名]`.
pub open spec fn shown_file_name(path: Seq<char>) -> Seq<char> {
    match file_name(path) {
        Some(n) => n,
        None => "[未知文件名]"@,
    }
}

/// The file name of a path as shown.
pub fn file_name_text(path: &str) -> (r: String)
    ensures
        r@ == shown_file_name(path@),
{
    let v = chars_of(path);
    match crate::winpath::file_name_chars(v.as_slice()) {
        Some(n) => string_from_chars(n.as_slice()),
        None => String::from_str("[未知文件名]"),
    }
}

fn lit(s: &str) -> (r: String)
    ensures
        r@ == s@,
{
    String::from_str(s)
}

// ---------------------------------------------------------------------------------------
// The scan report

/// The column names of the scan report.
pub fn scan_report_header() -> (r: Vec<String>)
    ensures
        texts(r@) == seq![
            "kind"@, "name"@, "path"@, "size_bytes"@, "size_display"@, "file_count"@, "extension"@,
            "modified_unix_secs"@, "message"@,
        ],
{
    let r = vec![
        lit("kind"), lit("name"), lit("path"), lit("size_bytes"), lit("size_display"), lit("file_count"),
        lit("extension"), lit("modified_unix_secs"), lit("message"),
    ];
    assert(texts(r@) =~= seq![
        "kind"@, "name"@, "path"@, "size_bytes"@, "size_display"@, "file_count"@, "extension"@,
        "modified_unix_secs"@, "message"@,
    ]);
    r
}

/// A summary row: its name, then the path, the size, its display and the count columns.
pub open spec fn summary_row(name: Seq<char>, path: Seq<char>, size: Seq<char>, shown: Seq<char>, n: Seq<char>) -> Seq<Seq<char>> {
    seq!["summary"@, name, path, size, shown, n, Seq::empty(), Seq::empty(), Seq::empty()]
}

fn summary_row_exec(name: &str, path: String, size: String, shown: String, n: String) -> (r: Vec<String>)
    ensures
        texts(r@) == summary_row(name@, path@, size@, shown@, n@),
{
    let r = vec![lit("summary"), lit(name), path, size, shown, n, String::new(), String::new(), String::new()];
    assert(texts(r@) =~= summary_row(name@, path@, size@, shown@, n@));
    r
}

/// The summary rows of a scan: its root, total size (with `total_size_display`), and its
/// file, directory and error counts.
pub fn scan_summary_rows(stats: &ScanStats, total_size_display: &str) -> (r: Vec<Vec<String>>)
    ensures
        r@.len() == 5,
        texts(r@[0]@) == summary_row("root"@, stats.root@, Seq::empty(), Seq::empty(), Seq::empty()),
        texts(r@[1]@) == summary_row("total_size_bytes"@, Seq::empty(), decimal(stats.total_size as nat), total_size_display@, Seq::empty()),
        texts(r@[2]@) == summary_row("file_count"@, Seq::empty(), Seq::empty(), Seq::empty(), decimal(stats.file_count as nat)),
        texts(r@[3]@) == summary_row("dir_count"@, Seq::empty(), Seq::empty(), Seq::empty(), decimal(stats.dir_count as nat)),
        texts(r@[4]@) == summary_row("error_count"@, Seq::empty(), Seq::empty(), Seq::empty(), decimal(stats.error_count as nat)),
{
    let mut r: Vec<Vec<String>> = Vec::new();
    r.push(summary_row_exec("root", stats.root.clone(), String::new(), String::new(), String::new()));
    r.push(summary_row_exec("total_size_bytes", String::new(), number_text(stats.total_size), lit(total_size_display), String::new()));
    r.push(summary_row_exec("file_count", String::new(), String::new(), String::new(), number_text(stats.file_count)));
    r.push(summary_row_exec("dir_count", String::new(), String::new(), String::new(), number_text(stats.dir_count)));
    r.push(summary_row_exec("error_count", String::new(), String::new(), String::new(), number_text(stats.error_count)));
    r
}

/// The row of a directory.
pub open spec fn spec_directory_row(d: DirectoryRecord, size_display: Seq<char>) -> Seq<Seq<char>> {
    seq![
        "directory"@,
        spec_path_label(d.path@),
        d.path@,
        decimal(d.total_size as nat),
        size_display,
        decimal(d.descendant_file_count as nat),
        Seq::empty(),
        Seq::empty(),
        "direct_file_size="@ + decimal(d.direct_file_size as nat) + "; direct_file_count="@ + decimal(d.direct_file_count as nat),
    ]
}

/// The row of a directory, with its size as shown.
pub fn directory_row(d: &DirectoryRecord, size_display: &str) -> (r: Vec<String>)
    ensures
        texts(r@) == spec_directory_row(*d, size_display@),
{
    let mut m: Vec<char> = Vec::new();
    push_lit(&mut m, "direct_file_size=");
    let a = decimal_chars(d.direct_file_size);
    push_all(&mut m, a.as_slice());
    push_lit(&mut m, "; direct_file_count=");
    let b = decimal_chars(d.direct_file_count);
    push_all(&mut m, b.as_slice());
    let r = vec![
        lit("directory"),
        d.name(),
        d.path.clone(),
        number_text(d.total_size),
        lit(size_display),
        number_text(d.descendant_file_count),
        String::new(),
        String::new(),
        string_from_chars(m.as_slice()),
    ];
    assert(texts(r@) =~= spec_directory_row(*d, size_display@));
    r
}

/// The row of a file.
pub open spec fn spec_file_row(f: FileRecord, size_display: Seq<char>) -> Seq<Seq<char>> {
    seq![
        "file"@,
        shown_file_name(f.path@),
        f.path@,
        decimal(f.size as nat),
        size_display,
        Seq::empty(),
        f.extension@,
        unix_secs_text(f.modified),
        Seq::empty(),
    ]
}

/// The row of a file, with its size as shown.
pub fn file_row(f: &FileRecord, size_display: &str) -> (r: Vec<String>)
    ensures
        texts(r@) == spec_file_row(*f, size_display@),
{
    let r = vec![
        lit("file"),
        file_name_text(f.path.as_str()),
        f.path.clone(),
        number_text(f.size),
        lit(size_display),
        String::new(),
        f.extension.clone(),
        unix_secs_string(f.modified),
        String::new(),
    ];
    assert(texts(r@) =~= spec_file_row(*f, size_display@));
    r
}

/// The row of an extension.
pub open spec fn spec_extension_row(e: ExtensionRecord, size_display: Seq<char>) -> Seq<Seq<char>> {
    seq![
        "extension"@,
        e.extension@,
        Seq::empty(),
        decimal(e.total_size as nat),
        size_display,
        decimal(e.file_count as nat),
        e.extension@,
        Seq::empty(),
        Seq::empty(),
    ]
}

/// The row of an extension, with its size as shown.
pub fn extension_row(e: &ExtensionRecord, size_display: &str) -> (r: Vec<String>)
    ensures
        texts(r@) == spec_extension_row(*e, size_display@),
{
    let r = vec![
        lit("extension"),
        e.extension.clone(),
        String::new(),
        number_text(e.total_size),
        lit(size_display),
        number_text(e.file_count),
        e.extension.clone(),
        String::new(),
        String::new(),
    ];
    assert(texts(r@) =~= spec_extension_row(*e, size_display@));
    r
}

/// The row of a scan error.
pub fn error_row(error: &str) -> (r: Vec<String>)
    ensures
        texts(r@) == seq!["error"@, Seq::empty(), Seq::empty(), Seq::empty(), Seq::empty(), Seq::empty(), Seq::empty(), Seq::empty(), error@],
{
    let r = vec![
        lit("error"), String::new(), String::new(), String::new(), String::new(), String::new(), String::new(),
        String::new(), lit(error),
    ];
    assert(texts(r@) =~= seq!["error"@, Seq::empty(), Seq::empty(), Seq::empty(), Seq::empty(), Seq::empty(), Seq::empty(), Seq::empty(), error@]);
    r
}

/// The directories a scan report lists: every directory of the tree, larger first, then by
/// path; without a tree, the largest directories as kept.
pub fn directories_for_export(stats: &ScanStats) -> (r: Vec<DirectoryRecord>)
    ensures
        match stats.directory_tree {
            Some(t) => r@.to_multiset() == crate::model::node_records(t.nodes@).to_multiset() && is_sorted(r@, dir_by_size()),
            None => r@ == stats.largest_dirs@,
        },
{
    match &stats.directory_tree {
        Some(tree) => {
            let mut v: Vec<DirectoryRecord> = Vec::new();
            let mut i: usize = 0;
            while i < tree.nodes.len()
                invariant
                    i <= tree.nodes@.len(),
                    v@ == crate::model::node_records(tree.nodes@.take(i as int)),
                decreases tree.nodes.len() - i,
            {
                v.push(tree.nodes[i].record.copy());
                assert(v@ =~= crate::model::node_records(tree.nodes@.take(i as int + 1)));
                i = i + 1;
            }
            assert(tree.nodes@.take(i as int) =~= tree.nodes@);
            crate::model::sort_dirs_by_size(v)
        },
        None => crate::model::copy_records(&stats.largest_dirs),
    }
}

/// The files a scan report lists: every file when the scan kept them all, else the largest.
pub open spec fn exported_files(stats: ScanStats) -> Seq<FileRecord> {
    if stats.all_files@.len() == 0 {
        stats.largest_files@
    } else {
        stats.all_files@
    }
}

/// The message after a scan report was written.
pub open spec fn spec_scan_report_summary(
    directory_count: nat,
    full_tree: bool,
    file_count: nat,
    all_files: bool,
    extension_count: nat,
    error_count: nat,
) -> Seq<char> {
    spec_count(directory_count) + seq![' '] + (if full_tree { "完整目录"@ } else { "Top 目录"@ }) + "，"@
        + spec_count(file_count) + " 个"@ + (if all_files { "完整文件"@ } else { "最大文件"@ }) + "，"@
        + spec_count(extension_count) + " 个类型，"@ + spec_count(error_count) + " 条错误"@
}

/// What a scan report holds, as told after writing it.
pub fn scan_report_summary(
    directory_count: u64,
    full_tree: bool,
    file_count: u64,
    all_files: bool,
    extension_count: u64,
    error_count: u64,
) -> (r: String)
    ensures
        r@ == spec_scan_report_summary(
            directory_count as nat,
            full_tree,
            file_count as nat,
            all_files,
            extension_count as nat,
            error_count as nat,
        ),
{
    let mut m: Vec<char> = Vec::new();
    push_count(&mut m, directory_count);
    m.push(' ');
    push_lit(&mut m, if full_tree { "完整目录" } else { "Top 目录" });
    push_lit(&mut m, "，");
    push_count(&mut m, file_count);
    push_lit(&mut m, " 个");
    push_lit(&mut m, if all_files { "完整文件" } else { "最大文件" });
    push_lit(&mut m, "，");
    push_count(&mut m, extension_count);
    push_lit(&mut m, " 个类型，");
    push_count(&mut m, error_count);
    push_lit(&mut m, " 条错误");
    assert(m@ =~= spec_scan_report_summary(
        directory_count as nat,
        full_tree,
        file_count as nat,
        all_files,
        extension_count as nat,
        error_count as nat,
    ));
    string_from_chars(m.as_slice())
}

fn push_count(m: &mut Vec<char>, n: u64)
    ensures
        final(m)@ == old(m)@ + spec_count(n as nat),
{
    let c = count(n);
    let cv = chars_of(c.as_str());
    push_all(m, cv.as_slice());
}

/// How a saved scan describes itself: schema version, save time and program version.
pub open spec fn spec_cache_metadata_summary(schema_version: u32, saved_at: Option<u64>, app_version: Option<Seq<char>>) -> Seq<char> {
    "schema v"@ + decimal(schema_version as nat) + "，"@ + (match saved_at {
        Some(t) => "saved_at="@ + decimal(t as nat),
        None => "旧缓存，无保存时间"@,
    }) + "，app "@ + (match app_version {
        Some(v) => v,
        None => "未知版本"@,
    })
}

/// How a saved scan describes itself.
pub fn scan_cache_metadata_summary(stats: &ScanStats) -> (r: String)
    ensures
        r@ == spec_cache_metadata_summary(
            stats.schema_version,
            stats.saved_at_unix_secs,
            match stats.app_version {
                Some(v) => Some(v@),
                None => None,
            },
        ),
{
    let mut m: Vec<char> = Vec::new();
    push_lit(&mut m, "schema v");
    let v = decimal_chars(stats.schema_version as u64);
    push_all(&mut m, v.as_slice());
    push_lit(&mut m, "，");
    match stats.saved_at_unix_secs {
        Some(t) => {
            push_lit(&mut m, "saved_at=");
            let d = decimal_chars(t);
            push_all(&mut m, d.as_slice());
        },
        None => push_lit(&mut m, "旧缓存，无保存时间"),
    }
    push_lit(&mut m, "，app ");
    match &stats.app_version {
        Some(a) => {
            let av = chars_of(a.as_str());
            push_all(&mut m, av.as_slice());
        },
        None => push_lit(&mut m, "未知版本"),
    }
    assert(m@ =~= spec_cache_metadata_summary(
        stats.schema_version,
        stats.saved_at_unix_secs,
        match stats.app_version {
            Some(v) => Some(v@),
            None => None,
        },
    ));
    string_from_chars(m.as_slice())
}

// ---------------------------------------------------------------------------------------
// The cleanup, duplicate and AI reports

/// The column names of the cleanup report.
pub fn cleanup_report_header() -> (r: Vec<String>)
    ensures
        texts(r@) == seq![
            "mode"@, "action_taken"@, "rule_id"@, "rule_label"@, "risk"@, "protected"@, "candidate_kind"@,
            "path"@, "size_bytes"@, "size_display"@, "modified_unix_secs"@, "reason"@,
        ],
{
    let r = vec![
        lit("mode"), lit("action_taken"), lit("rule_id"), lit("rule_label"), lit("risk"), lit("protected"),
        lit("candidate_kind"), lit("path"), lit("size_bytes"), lit("size_display"), lit("modified_unix_secs"),
        lit("reason"),
    ];
    assert(texts(r@) =~= seq![
        "mode"@, "action_taken"@, "rule_id"@, "rule_label"@, "risk"@, "protected"@, "candidate_kind"@,
        "path"@, "size_bytes"@, "size_display"@, "modified_unix_secs"@, "reason"@,
    ]);
    r
}

/// The text of a cleanup risk.
pub open spec fn cleanup_risk_text(r: CleanupRisk) -> Seq<char> {
    match r {
        CleanupRisk::Low => "low"@,
        CleanupRisk::Medium => "medium"@,
    }
}

/// The row of a cleanup candidate: a dry run, nothing done.
pub open spec fn spec_cleanup_candidate_row(c: CleanupCandidate, size_display: Seq<char>) -> Seq<Seq<char>> {
    seq![
        "dry-run"@,
        "none"@,
        c.rule_id@,
        c.rule_label@,
        cleanup_risk_text(c.risk),
        bool_text(c.protected),
        "file"@,
        c.path@,
        decimal(c.size as nat),
        size_display,
        unix_secs_text(c.modified),
        c.reason@,
    ]
}

/// The row of a cleanup candidate, with its size as shown.
pub fn cleanup_candidate_row(c: &CleanupCandidate, size_display: &str) -> (r: Vec<String>)
    ensures
        texts(r@) == spec_cleanup_candidate_row(*c, size_display@),
{
    let r = vec![
        lit("dry-run"),
        lit("none"),
        lit(c.rule_id),
        lit(c.rule_label),
        lit(c.risk.as_str()),
        bool_string(c.protected),
        lit(c.kind.as_str()),
        c.path.clone(),
        number_text(c.size),
        lit(size_display),
        unix_secs_string(c.modified),
        c.reason.clone(),
    ];
    assert(texts(r@) =~= spec_cleanup_candidate_row(*c, size_display@));
    r
}

/// The message after a cleanup report was written; sizes as shown are handed in.
pub open spec fn spec_cleanup_report_summary(p: CleanupPreview, total: Seq<char>, reclaimable: Seq<char>, protected: Seq<char>) -> Seq<char> {
    "dry-run，保留 "@ + spec_count(p.candidates@.len()) + " / 总计 "@ + spec_count(p.candidate_count as nat)
        + " 个候选，候选总大小 "@ + total + "，预计可清理 "@ + reclaimable + "，受保护 "@
        + spec_count(p.protected_count as nat) + " 个 / "@ + protected
}

/// What a cleanup report holds, as told after writing it.
pub fn cleanup_report_summary(p: &CleanupPreview, total: &str, reclaimable: &str, protected: &str) -> (r: String)
    ensures
        r@ == spec_cleanup_report_summary(*p, total@, reclaimable@, protected@),
{
    let mut m: Vec<char> = Vec::new();
    push_lit(&mut m, "dry-run，保留 ");
    push_count(&mut m, p.candidates.len() as u64);
    push_lit(&mut m, " / 总计 ");
    push_count(&mut m, p.candidate_count);
    push_lit(&mut m, " 个候选，候选总大小 ");
    push_str(&mut m, total);
    push_lit(&mut m, "，预计可清理 ");
    push_str(&mut m, reclaimable);
    push_lit(&mut m, "，受保护 ");
    push_count(&mut m, p.protected_count);
    push_lit(&mut m, " 个 / ");
    push_str(&mut m, protected);
    assert(m@ =~= spec_cleanup_report_summary(*p, total@, reclaimable@, protected@));
    string_from_chars(m.as_slice())
}

fn push_str(m: &mut Vec<char>, s: &str)
    ensures
        final(m)@ == old(m)@ + s@,
{
    let v = chars_of(s);
    push_all(m, v.as_slice());
}

/// The column names of the duplicate report.
pub fn duplicate_report_header() -> (r: Vec<String>)
    ensures
        texts(r@) == seq![
            "mode"@, "action_taken"@, "group_hash"@, "group_size_bytes"@, "group_size_display"@,
            "duplicate_count"@, "reclaimable_bytes"@, "protected_bytes"@, "file_role"@, "protected"@, "path"@,
            "modified_unix_secs"@,
        ],
{
    let r = vec![
        lit("mode"), lit("action_taken"), lit("group_hash"), lit("group_size_bytes"), lit("group_size_display"),
        lit("duplicate_count"), lit("reclaimable_bytes"), lit("protected_bytes"), lit("file_role"), lit("protected"),
        lit("path"), lit("modified_unix_secs"),
    ];
    assert(texts(r@) =~= seq![
        "mode"@, "action_taken"@, "group_hash"@, "group_size_bytes"@, "group_size_display"@,
        "duplicate_count"@, "reclaimable_bytes"@, "protected_bytes"@, "file_role"@, "protected"@, "path"@,
        "modified_unix_secs"@,
    ]);
    r
}

/// The row of one file of a duplicate group.
pub open spec fn spec_duplicate_file_row(g: DuplicateGroup, f: DuplicateFile, size_display: Seq<char>) -> Seq<Seq<char>> {
    seq![
        "dry-run"@,
        "none"@,
        g.hash@,
        decimal(g.size as nat),
        size_display,
        decimal(g.duplicate_count as nat),
        decimal(g.reclaimable_size as nat),
        decimal(g.protected_size as nat),
        if f.keep { "keep"@ } else { "duplicate"@ },
        bool_text(f.protected),
        f.path@,
        unix_secs_text(f.modified),
    ]
}

/// The row of one file of a duplicate group, with the group's size as shown.
pub fn duplicate_file_row(g: &DuplicateGroup, f: &DuplicateFile, size_display: &str) -> (r: Vec<String>)
    ensures
        texts(r@) == spec_duplicate_file_row(*g, *f, size_display@),
{
    let r = vec![
        lit("dry-run"),
        lit("none"),
        g.hash.clone(),
        number_text(g.size),
        lit(size_display),
        number_text(g.duplicate_count),
        number_text(g.reclaimable_size),
        number_text(g.protected_size),
        lit(if f.keep { "keep" } else { "duplicate" }),
        bool_string(f.protected),
        f.path.clone(),
        unix_secs_string(f.modified),
    ];
    assert(texts(r@) =~= spec_duplicate_file_row(*g, *f, size_display@));
    r
}

/// The message after a duplicate report was written; sizes as shown are handed in.
pub open spec fn spec_duplicate_report_summary(p: DuplicatePreview, reclaimable: Seq<char>, protected: Seq<char>) -> Seq<char> {
    "dry-run，保留 "@ + spec_count(p.groups@.len()) + " / 总计 "@ + spec_count(p.duplicate_group_count as nat)
        + " 个重复组，重复副本 "@ + spec_count(p.duplicate_file_count as nat) + " 个，预计可回收 "@ + reclaimable
        + "，受保护 "@ + protected
}

/// What a duplicate report holds, as told after writing it.
pub fn duplicate_report_summary(p: &DuplicatePreview, reclaimable: &str, protected: &str) -> (r: String)
    ensures
        r@ == spec_duplicate_report_summary(*p, reclaimable@, protected@),
{
    let mut m: Vec<char> = Vec::new();
    push_lit(&mut m, "dry-run，保留 ");
    push_count(&mut m, p.groups.len() as u64);
    push_lit(&mut m, " / 总计 ");
    push_count(&mut m, p.duplicate_group_count);
    push_lit(&mut m, " 个重复组，重复副本 ");
    push_count(&mut m, p.duplicate_file_count);
    push_lit(&mut m, " 个，预计可回收 ");
    push_str(&mut m, reclaimable);
    push_lit(&mut m, "，受保护 ");
    push_str(&mut m, protected);
    assert(m@ =~= spec_duplicate_report_summary(*p, reclaimable@, protected@));
    string_from_chars(m.as_slice())
}

/// The column names of the AI report.
pub fn ai_report_header() -> (r: Vec<String>)
    ensures
        texts(r@) == seq![
            "mode"@, "action_taken"@, "source"@, "category"@, "risk"@, "confidence"@, "protected"@,
            "analysis_recommendation"@, "analysis_reason"@, "audit_status"@, "audit_reason"@,
            "final_recommendation"@, "delete_list_candidate"@, "path"@, "size_bytes"@, "size_display"@,
            "provider"@, "model"@,
        ],
{
    let r = vec![
        lit("mode"), lit("action_taken"), lit("source"), lit("category"), lit("risk"), lit("confidence"),
        lit("protected"), lit("analysis_recommendation"), lit("analysis_reason"), lit("audit_status"),
        lit("audit_reason"), lit("final_recommendation"), lit("delete_list_candidate"), lit("path"),
        lit("size_bytes"), lit("size_display"), lit("provider"), lit("model"),
    ];
    assert(texts(r@) =~= seq![
        "mode"@, "action_taken"@, "source"@, "category"@, "risk"@, "confidence"@, "protected"@,
        "analysis_recommendation"@, "analysis_reason"@, "audit_status"@, "audit_reason"@,
        "final_recommendation"@, "delete_list_candidate"@, "path"@, "size_bytes"@, "size_display"@,
        "provider"@, "model"@,
    ]);
    r
}

/// The row of a finding in the AI report; its confidence and size as shown are handed in.
pub open spec fn spec_ai_finding_row(report: AiAnalysisReport, f: AiReviewFinding, confidence: Seq<char>, size_display: Seq<char>) -> Seq<Seq<char>> {
    seq![
        "ai-review"@,
        "none"@,
        f.source.spec_as_str(),
        f.category.spec_as_str(),
        f.risk.spec_as_str(),
        confidence,
        bool_text(f.protected),
        f.analysis_recommendation.spec_as_str(),
        f.analysis_reason@,
        f.audit_status.spec_as_str(),
        f.audit_reason@,
        f.final_recommendation.spec_as_str(),
        bool_text(f.spec_is_delete_list_candidate()),
        f.path@,
        decimal(f.size as nat),
        size_display,
        report.provider_label@,
        report.model@,
    ]
}

/// The row of a finding in the AI report.
pub fn ai_finding_row(report: &AiAnalysisReport, f: &AiReviewFinding, confidence: &str, size_display: &str) -> (r: Vec<String>)
    ensures
        texts(r@) == spec_ai_finding_row(*report, *f, confidence@, size_display@),
{
    let r = vec![
        lit("ai-review"),
        lit("none"),
        lit(f.source.as_str()),
        lit(f.category.as_str()),
        lit(f.risk.as_str()),
        lit(confidence),
        bool_string(f.protected),
        lit(f.analysis_recommendation.as_str()),
        f.analysis_reason.clone(),
        lit(f.audit_status.as_str()),
        f.audit_reason.clone(),
        lit(f.final_recommendation.as_str()),
        bool_string(f.is_delete_list_candidate()),
        f.path.clone(),
        number_text(f.size),
        lit(size_display),
        report.provider_label.clone(),
        report.model.clone(),
    ];
    assert(texts(r@) =~= spec_ai_finding_row(*report, *f, confidence@, size_display@));
    r
}

/// The rows after the findings of an AI report: a row `errors`, then one row per error,
/// when there are errors.
pub fn ai_error_rows(report: &AiAnalysisReport) -> (r: Vec<Vec<String>>)
    ensures
        report.errors@.len() == 0 ==> r@.len() == 0,
        report.errors@.len() > 0 ==> r@.len() == report.errors@.len() + 1 && texts(r@[0]@) == seq!["errors"@]
            && forall|k: int| 0 <= k < report.errors@.len() ==> texts(#[trigger] r@[k + 1]@) == seq![report.errors@[k]@],
{
    let mut r: Vec<Vec<String>> = Vec::new();
    if report.errors.len() == 0 {
        return r;
    }
    let head = vec![lit("errors")];
    assert(texts(head@) =~= seq!["errors"@]);
    r.push(head);
    let mut i: usize = 0;
    while i < report.errors.len()
        invariant
            i <= report.errors@.len(),
            r@.len() == i + 1,
            texts(r@[0]@) == seq!["errors"@],
            forall|k: int| 0 <= k < i ==> texts(#[trigger] r@[k + 1]@) == seq![report.errors@[k]@],
        decreases report.errors.len() - i,
    {
        let row = vec![report.errors[i].clone()];
        assert(texts(row@) =~= seq![report.errors@[i as int]@]);
        r.push(row);
        i = i + 1;
    }
    r
}

/// The message after an AI report was written.
pub open spec fn spec_ai_report_summary(report: AiAnalysisReport) -> Seq<char> {
    "ai-review/report-only，候选 "@ + spec_count(report.candidate_count as nat) + " 个，待删清单 "@
        + spec_count(report.delete_candidate_count as nat) + " 个，需人工复核 "@
        + spec_count(report.needs_review_count as nat) + " 个，受保护 "@ + spec_count(report.protected_count as nat)
        + " 个，错误 "@ + spec_count(report.error_count as nat) + " 条"@
}

/// What an AI report holds, as told after writing it.
pub fn ai_report_summary(report: &AiAnalysisReport) -> (r: String)
    ensures
        r@ == spec_ai_report_summary(*report),
{
    let mut m: Vec<char> = Vec::new();
    push_lit(&mut m, "ai-review/report-only，候选 ");
    push_count(&mut m, report.candidate_count);
    push_lit(&mut m, " 个，待删清单 ");
    push_count(&mut m, report.delete_candidate_count);
    push_lit(&mut m, " 个，需人工复核 ");
    push_count(&mut m, report.needs_review_count);
    push_lit(&mut m, " 个，受保护 ");
    push_count(&mut m, report.protected_count);
    push_lit(&mut m, " 个，错误 ");
    push_count(&mut m, report.error_count);
    push_lit(&mut m, " 条");
    assert(m@ =~= spec_ai_report_summary(*report));
    string_from_chars(m.as_slice())
}

/// The column names of the AI delete list.
pub fn ai_delete_list_header() -> (r: Vec<String>)
    ensures
        texts(r@) == seq![
            "mode"@, "action_taken"@, "source"@, "category"@, "risk"@, "confidence"@, "audit_status"@,
            "final_recommendation"@, "path"@, "size_bytes"@, "size_display"@, "audit_reason"@,
        ],
{
    let r = vec![
        lit("mode"), lit("action_taken"), lit("source"), lit("category"), lit("risk"), lit("confidence"),
        lit("audit_status"), lit("final_recommendation"), lit("path"), lit("size_bytes"), lit("size_display"),
        lit("audit_reason"),
    ];
    assert(texts(r@) =~= seq![
        "mode"@, "action_taken"@, "source"@, "category"@, "risk"@, "confidence"@, "audit_status"@,
        "final_recommendation"@, "path"@, "size_bytes"@, "size_display"@, "audit_reason"@,
    ]);
    r
}

/// The row of a finding on the AI delete list.
pub open spec fn spec_delete_list_row(f: AiReviewFinding, confidence: Seq<char>, size_display: Seq<char>) -> Seq<Seq<char>> {
    seq![
        "ai-review"@,
        "none"@,
        f.source.spec_as_str(),
        f.category.spec_as_str(),
        f.risk.spec_as_str(),
        confidence,
        f.audit_status.spec_as_str(),
        f.final_recommendation.spec_as_str(),
        f.path@,
        decimal(f.size as nat),
        size_display,
        f.audit_reason@,
    ]
}

/// The row of a finding on the AI delete list.
pub fn delete_list_row(f: &AiReviewFinding, confidence: &str, size_display: &str) -> (r: Vec<String>)
    ensures
        texts(r@) == spec_delete_list_row(*f, confidence@, size_display@),
{
    let r = vec![
        lit("ai-review"),
        lit("none"),
        lit(f.source.as_str()),
        lit(f.category.as_str()),
        lit(f.risk.as_str()),
        lit(confidence),
        lit(f.audit_status.as_str()),
        lit(f.final_recommendation.as_str()),
        f.path.clone(),
        number_text(f.size),
        lit(size_display),
        f.audit_reason.clone(),
    ];
    assert(texts(r@) =~= spec_delete_list_row(*f, confidence@, size_display@));
    r
}

/// Positions of the findings that belong on the delete list, in order.
pub open spec fn delete_list_positions(fs: Seq<AiReviewFinding>) -> Seq<int>
    decreases fs.len(),
{
    if fs.len() == 0 {
        Seq::empty()
    } else {
        let before = delete_list_positions(fs.drop_last());
        if fs.last().spec_is_delete_list_candidate() {
            before.push(fs.len() - 1)
        } else {
            before
        }
    }
}

/// Total size of the delete list, capped at `u64::MAX` at each step.
pub open spec fn delete_list_size(fs: Seq<AiReviewFinding>) -> u64
    decreases fs.len(),
{
    if fs.len() == 0 {
        0
    } else {
        let before = delete_list_size(fs.drop_last());
        if fs.last().spec_is_delete_list_candidate() {
            let s = before + fs.last().size;
            if s > u64::MAX {
                u64::MAX
            } else {
                s as u64
            }
        } else {
            before
        }
    }
}

/// The positions of the findings on the delete list, with their count and total size.
pub fn delete_list(findings: &[AiReviewFinding]) -> (r: (Vec<usize>, u64, u64))
    ensures
        r.0@.len() == delete_list_positions(findings@).len(),
        forall|k: int| 0 <= k < r.0@.len() ==> #[trigger] r.0@[k] as int == delete_list_positions(findings@)[k],
        r.1 == r.0@.len(),
        r.2 == delete_list_size(findings@),
{
    let mut positions: Vec<usize> = Vec::new();
    let mut exported: u64 = 0;
    let mut size: u64 = 0;
    let mut i: usize = 0;
    while i < findings.len()
        invariant
            i <= findings@.len(),
            positions@.len() == delete_list_positions(findings@.take(i as int)).len(),
            forall|k: int| 0 <= k < positions@.len() ==> #[trigger] positions@[k] as int == delete_list_positions(findings@.take(i as int))[k],
            exported == positions@.len(),
            positions@.len() <= i,
            size == delete_list_size(findings@.take(i as int)),
        decreases findings.len() - i,
    {
        assert(findings@.take(i as int + 1).drop_last() =~= findings@.take(i as int));
        if findings[i].is_delete_list_candidate() {
            positions.push(i);
            exported = exported + 1;
            size = size.saturating_add(findings[i].size);
        }
        i = i + 1;
    }
    assert(findings@.take(i as int) =~= findings@);
    (positions, exported, size)
}

/// The message after the AI delete list was written; its total size as shown is handed in.
pub open spec fn spec_delete_list_summary(exported: nat, size_display: Seq<char>) -> Seq<char> {
    "ai-review/report-only，导出待删候选 "@ + spec_count(exported) + " 个，合计 "@ + size_display
        + "；action_taken=none，请人工确认后自行处理"@
}

/// What the AI delete list holds, as told after writing it.
pub fn delete_list_summary(exported: u64, size_display: &str) -> (r: String)
    ensures
        r@ == spec_delete_list_summary(exported as nat, size_display@),
{
    let mut m: Vec<char> = Vec::new();
    push_lit(&mut m, "ai-review/report-only，导出待删候选 ");
    push_count(&mut m, exported);
    push_lit(&mut m, " 个，合计 ");
    push_str(&mut m, size_display);
    push_lit(&mut m, "；action_taken=none，请人工确认后自行处理");
    assert(m@ =~= spec_delete_list_summary(exported as nat, size_display@));
    string_from_chars(m.as_slice())
}

} // verus!

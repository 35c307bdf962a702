use cdrive_manager::ai_analysis::{
    AiAnalysisReport, AiAuditStatus, AiCleanupCategory, AiCleanupRisk, AiFindingSource, AiRecommendation,
    AiReviewFinding,
};
use cdrive_manager::cleanup::{CleanupCandidate, CleanupCandidateKind, CleanupPreview, CleanupRisk};
use cdrive_manager::duplicates::{duplicate_group_from_candidates, CandidateFile, DuplicatePreview};
use cdrive_manager::model::{DirectoryNode, DirectoryRecord, DirectoryTree, ExtensionRecord, FileRecord, ScanStats};
use cdrive_manager::table_order::{
    AiSortKey, CleanupSortKey, DirectorySortKey, DuplicateSortKey, ExtensionSortKey, FileSortKey, SortDirection,
    SortState,
};
use cdrive_manager::tables::{
    cleanup_rows, directory_rows, duplicate_rows, error_count_text, error_rows, extension_rows, file_rows,
    file_search_is_partial, finding_rows, tree_panel_rows,
    TABLE_ROW_LIMIT,
};

fn dir(path: &str, size: u64) -> DirectoryRecord {
    DirectoryRecord {
        path: path.to_owned(),
        total_size: size,
        direct_file_count: 0,
        direct_file_size: 0,
        descendant_file_count: 0,
    }
}

fn file(path: &str, size: u64, extension: &str) -> FileRecord {
    FileRecord { path: path.to_owned(), size, modified: None, extension: extension.to_owned() }
}

#[test]
fn directory_rows_search_the_tree_only_with_a_query() {
    let mut stats = ScanStats::default();
    stats.largest_dirs = vec![dir("C:\\b", 5), dir("C:\\a", 9), dir("C:\\photos", 7)];
    let by_size = SortState::new(DirectorySortKey::Size, SortDirection::Desc);
    let rows = directory_rows(&stats, "", by_size);
    assert!(!rows.full_search);
    assert_eq!(rows.rows, vec![1, 2, 0]);
    assert_eq!(rows.matched, 3);
    assert_eq!(rows.retained, 3);
    assert_eq!(rows.count_text(), "显示 3 / 匹配 3 / 当前保留 3 个目录。");

    let nodes = vec![
        DirectoryNode { record: dir("C:\\", 30), parent: None, children: vec![1, 2] },
        DirectoryNode { record: dir("C:\\Photos", 4), parent: Some(0), children: vec![] },
        DirectoryNode { record: dir("C:\\old photos", 6), parent: Some(0), children: vec![] },
    ];
    stats.directory_tree = Some(DirectoryTree::from_nodes(0, nodes));
    let rows = directory_rows(&stats, " PHOTO ", by_size);
    assert!(rows.full_search);
    assert_eq!(rows.rows, vec![2, 1]);
    assert_eq!(rows.matched, 2);
    assert_eq!(rows.retained, 3);
    assert_eq!(rows.unit, "完整目录");
    let by_name = SortState::new(DirectorySortKey::Name, SortDirection::Asc);
    assert_eq!(directory_rows(&stats, "photo", by_name).rows, vec![2, 1]);
}

#[test]
fn file_rows_show_at_most_the_row_limit() {
    let mut stats = ScanStats::default();
    stats.largest_files = (0..150u64).map(|i| file(&format!("C:\\f{i:03}.txt"), i, ".txt")).collect();
    stats.file_count = 400;
    let by_size = SortState::new(FileSortKey::Size, SortDirection::Desc);
    let rows = file_rows(&stats, "", by_size);
    assert_eq!(rows.rows.len(), TABLE_ROW_LIMIT);
    assert_eq!(rows.rows[0], 149);
    assert_eq!(rows.rows[119], 30);
    assert_eq!(rows.matched, 150);
    assert_eq!(rows.count_text(), "显示 120 / 匹配 150 / 当前保留 150 个文件。");
    assert!(file_search_is_partial(&stats, "f1"));
    assert!(!file_search_is_partial(&stats, "  "));

    stats.all_files = vec![file("C:\\x\\song.mp3", 3, ".mp3"), file("C:\\y\\Song.mp3", 3, ".mp3"), file("C:\\z.txt", 9, ".txt")];
    let rows = file_rows(&stats, "song", by_size);
    assert!(rows.full_search);
    assert_eq!(rows.rows, vec![0, 1]);
    assert_eq!(rows.retained, 3);
    assert!(!file_search_is_partial(&stats, "song"));
}

#[test]
fn extension_rows_filter_and_sort() {
    let mut stats = ScanStats::default();
    stats.extensions = vec![
        ExtensionRecord { extension: ".log".to_owned(), total_size: 5, file_count: 9 },
        ExtensionRecord { extension: ".LOGX".to_owned(), total_size: 8, file_count: 1 },
        ExtensionRecord { extension: ".txt".to_owned(), total_size: 1, file_count: 2 },
    ];
    let by_count = SortState::new(ExtensionSortKey::FileCount, SortDirection::Desc);
    let rows = extension_rows(&stats, "log", by_count);
    assert_eq!(rows.rows, vec![0, 1]);
    assert_eq!(rows.matched, 2);
    assert_eq!(rows.count_text(), "显示 2 / 匹配 2 / 当前保留 3 个类型。");
}

fn candidate(path: &str, size: u64, risk: CleanupRisk, protected: bool) -> CleanupCandidate {
    CleanupCandidate {
        path: path.to_owned(),
        kind: CleanupCandidateKind::File,
        size,
        modified: None,
        rule_id: "temp",
        rule_label: "临时文件",
        reason: "temporary".to_owned(),
        risk,
        protected,
    }
}

#[test]
fn cleanup_rows_sort_by_risk_then_path() {
    let preview = CleanupPreview {
        root: "C:\\".to_owned(),
        total_candidate_size: 0,
        reclaimable_size: 0,
        protected_size: 0,
        candidate_count: 3,
        protected_count: 0,
        error_count: 0,
        candidates: vec![
            candidate("C:\\c.tmp", 1, CleanupRisk::Low, false),
            candidate("C:\\b.tmp", 2, CleanupRisk::Medium, true),
            candidate("C:\\a.tmp", 3, CleanupRisk::Low, false),
        ],
        errors: vec![],
    };
    let by_risk = SortState::new(CleanupSortKey::Risk, SortDirection::Desc);
    assert_eq!(cleanup_rows(&preview, "", by_risk).rows, vec![1, 2, 0]);
    let by_path = SortState::new(CleanupSortKey::Path, SortDirection::Asc);
    assert_eq!(cleanup_rows(&preview, "", by_path).rows, vec![2, 1, 0]);
    let rows = cleanup_rows(&preview, "c.tmp", by_path);
    assert_eq!(rows.rows, vec![0]);
    assert_eq!(rows.count_text(), "显示 1 / 匹配 1 / 当前保留 3 个候选。");
}

fn member(path: &str) -> CandidateFile {
    CandidateFile { path: path.to_owned(), size: 4, modified: Some(1) }
}

#[test]
fn duplicate_rows_sort_by_reclaimable_size() {
    let mut g1 = duplicate_group_from_candidates("h1".to_owned(), vec![member("C:\\a1"), member("C:\\a2")]);
    g1.reclaimable_size = 4;
    let mut g2 = duplicate_group_from_candidates("h2".to_owned(), vec![member("C:\\b1"), member("C:\\b2"), member("C:\\b3")]);
    g2.reclaimable_size = 8;
    let preview = DuplicatePreview {
        root: "C:\\".to_owned(),
        min_size: 1,
        scanned_file_count: 5,
        hashed_file_count: 5,
        duplicate_group_count: 2,
        duplicate_file_count: 3,
        duplicate_size: 12,
        reclaimable_size: 12,
        protected_size: 0,
        error_count: 0,
        groups: vec![g1, g2],
        errors: vec![],
    };
    let by_reclaimable = SortState::new(DuplicateSortKey::Reclaimable, SortDirection::Desc);
    assert_eq!(duplicate_rows(&preview, "", by_reclaimable).rows, vec![1, 0]);
    let rows = duplicate_rows(&preview, "b3", by_reclaimable);
    assert_eq!(rows.rows, vec![1]);
    assert_eq!(rows.unit, "重复组");
}

fn finding(path: &str, size: u64) -> AiReviewFinding {
    AiReviewFinding {
        path: path.to_owned(),
        display_path: path.to_owned(),
        size,
        source: AiFindingSource::CleanupPreview,
        category: AiCleanupCategory::TempFile,
        risk: AiCleanupRisk::Low,
        protected: false,
        analysis_recommendation: AiRecommendation::CandidateForDeletion,
        analysis_reason: "temp".to_owned(),
        audit_status: AiAuditStatus::Approved,
        audit_reason: "ok".to_owned(),
        final_recommendation: AiRecommendation::CandidateForDeletion,
    }
}

#[test]
fn finding_rows_sort_by_confidence_rank() {
    let report = AiAnalysisReport {
        root: "C:\\".to_owned(),
        provider_label: "p".to_owned(),
        model: "m".to_owned(),
        candidate_count: 3,
        delete_candidate_count: 3,
        needs_review_count: 0,
        rejected_count: 0,
        protected_count: 0,
        error_count: 0,
        findings: vec![finding("C:\\a", 1), finding("C:\\b", 2), finding("C:\\c", 3)],
        errors: vec![],
    };
    let by_confidence = SortState::new(AiSortKey::Confidence, SortDirection::Desc);
    assert_eq!(finding_rows(&report, &vec![5, 9, 1], "", by_confidence).rows, vec![1, 0, 2]);
    assert_eq!(finding_rows(&report, &vec![], "", by_confidence).rows, vec![0, 1, 2]);
    let by_size = SortState::new(AiSortKey::Size, SortDirection::Asc);
    let rows = finding_rows(&report, &vec![], "c:\\b", by_size);
    assert_eq!(rows.rows, vec![1]);
    assert_eq!(rows.count_text(), "显示 1 / 匹配 1 / 当前保留 3 个AI 条目。");
}

#[test]
fn errors_are_filtered_by_the_search() {
    let mut stats = ScanStats::default();
    stats.errors = vec!["Access denied: C:\\System".to_owned(), "Broken link C:\\x".to_owned(), "access DENIED: D:\\y".to_owned()];
    stats.error_count = 7;
    let rows = error_rows(&stats, " denied ");
    assert_eq!(rows, vec![0, 2]);
    assert_eq!(error_rows(&stats, ""), vec![0, 1, 2]);
    assert_eq!(error_count_text(&stats, rows.len()), "共 7 个访问错误，当前保留 3 条，匹配 2 条。");
}

#[test]
fn the_tree_panel_shows_unfolded_directories() {
    let node = |path: &str, parent: Option<usize>, children: Vec<usize>| DirectoryNode { record: dir(path, 1), parent, children };
    let tree = DirectoryTree::from_nodes(
        0,
        vec![
            node("C:\\", None, vec![1, 2]),
            node("C:\\a", Some(0), vec![3]),
            node("C:\\b", Some(0), vec![]),
            node("C:\\a\\c", Some(1), vec![]),
        ],
    );
    assert_eq!(tree_panel_rows(&tree, &vec![]), vec![(0, 0), (1, 1), (2, 1)]);
    assert_eq!(tree_panel_rows(&tree, &vec!["C:\\a".to_owned()]), vec![(0, 0), (1, 1), (3, 2), (2, 1)]);
}

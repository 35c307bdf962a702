use cdrive_manager::ai_analysis::{
    AiAnalysisReport, AiAuditStatus, AiCleanupCategory, AiCleanupRisk, AiFindingSource, AiProviderConfig,
    AiRecommendation, AiReviewFinding,
};
use cdrive_manager::cleanup::{cleanup_candidate_for_file, default_cleanup_rules};
use cdrive_manager::duplicates::{duplicate_group_from_candidates, CandidateFile};
use cdrive_manager::model::{DirectoryRecord, ExtensionRecord, FileRecord, ScanAccumulator};
use cdrive_manager::report::{
    ai_error_rows, ai_finding_row, ai_report_header, ai_report_summary, cleanup_candidate_row, csv_cell, csv_line,
    delete_list, delete_list_row, delete_list_summary, directories_for_export, directory_row, duplicate_file_row,
    error_row, extension_row, file_name_text, file_row, scan_cache_metadata_summary, scan_report_header,
    scan_report_summary, scan_summary_rows, unix_secs_string,
};

fn finding(path: &str, size: u64, protected: bool, status: AiAuditStatus) -> AiReviewFinding {
    AiReviewFinding {
        path: path.to_owned(),
        display_path: path.to_owned(),
        size,
        source: AiFindingSource::CleanupPreview,
        category: AiCleanupCategory::TempFile,
        risk: AiCleanupRisk::Low,
        protected,
        analysis_recommendation: AiRecommendation::CandidateForDeletion,
        analysis_reason: "临时文件".to_owned(),
        audit_status: status,
        audit_reason: "通过".to_owned(),
        final_recommendation: AiRecommendation::CandidateForDeletion,
    }
}

#[test]
fn csv_cells_are_quoted_when_needed() {
    assert_eq!(csv_cell("plain"), "plain");
    assert_eq!(csv_cell("a,b"), "\"a,b\"");
    assert_eq!(csv_cell("say \"hi\""), "\"say \"\"hi\"\"\"");
    assert_eq!(csv_cell("two\nlines"), "\"two\nlines\"");
    assert_eq!(csv_line(&["a".to_owned(), "b,c".to_owned(), String::new()]), "a,\"b,c\",\n");
    assert_eq!(csv_line(&[]), "\n");
}

#[test]
fn scan_report_rows() {
    assert_eq!(scan_report_header().len(), 9);
    let dir = DirectoryRecord {
        path: "C:\\data\\photos".to_owned(),
        total_size: 300,
        direct_file_count: 2,
        direct_file_size: 100,
        descendant_file_count: 5,
    };
    let row = directory_row(&dir, "300 B");
    assert_eq!(
        row,
        vec!["directory", "photos", "C:\\data\\photos", "300", "300 B", "5", "", "", "direct_file_size=100; direct_file_count=2"]
    );
    let file = FileRecord { path: "C:\\data\\a.log".to_owned(), size: 7, modified: Some(42), extension: ".log".to_owned() };
    assert_eq!(file_row(&file, "7 B"), vec!["file", "a.log", "C:\\data\\a.log", "7", "7 B", "", ".log", "42", ""]);
    let ext = ExtensionRecord { extension: ".log".to_owned(), total_size: 7, file_count: 1 };
    assert_eq!(extension_row(&ext, "7 B"), vec!["extension", ".log", "", "7", "7 B", "1", ".log", "", ""]);
    assert_eq!(error_row("denied"), vec!["error", "", "", "", "", "", "", "", "denied"]);
    assert_eq!(unix_secs_string(None), "");
    assert_eq!(file_name_text("C:\\"), "[未知文件名]");
}

#[test]
fn scan_report_lists_tree_directories_largest_first() {
    let mut acc = ScanAccumulator::new("C:\\r".to_owned());
    acc.record_directory("C:\\r\\a".to_owned());
    acc.record_directory("C:\\r\\b".to_owned());
    acc.record_file(FileRecord { path: "C:\\r\\a\\x".to_owned(), size: 2, modified: None, extension: "".to_owned() });
    acc.record_file(FileRecord { path: "C:\\r\\b\\y".to_owned(), size: 5, modified: None, extension: "".to_owned() });
    acc.record_error("denied".to_owned());
    let stats = acc.final_snapshot();
    let dirs = directories_for_export(&stats);
    let paths: Vec<&str> = dirs.iter().map(|d| d.path.as_str()).collect();
    assert_eq!(paths, vec!["C:\\r", "C:\\r\\b", "C:\\r\\a"]);
    let rows = scan_summary_rows(&stats, "7 B");
    assert_eq!(rows[0][2], "C:\\r");
    assert_eq!(rows[1][3], "7");
    assert_eq!(rows[1][4], "7 B");
    assert_eq!(rows[2][5], "2");
    assert_eq!(rows[4][5], "1");
    assert_eq!(
        scan_report_summary(3, true, 1200, true, 4, 0),
        "3 完整目录，1,200 个完整文件，4 个类型，0 条错误"
    );
    assert_eq!(scan_report_summary(1, false, 2, false, 0, 1), "1 Top 目录，2 个最大文件，0 个类型，1 条错误");
}

#[test]
fn cache_metadata_is_described() {
    let mut acc = ScanAccumulator::new("C:\\r".to_owned());
    acc.record_directory("C:\\r\\a".to_owned());
    let mut stats = acc.final_snapshot();
    stats.schema_version = 4;
    stats.saved_at_unix_secs = Some(1700000000);
    stats.app_version = Some("0.1.0".to_owned());
    assert_eq!(scan_cache_metadata_summary(&stats), "schema v4，saved_at=1700000000，app 0.1.0");
    stats.saved_at_unix_secs = None;
    stats.app_version = None;
    assert_eq!(scan_cache_metadata_summary(&stats), "schema v4，旧缓存，无保存时间，app 未知版本");
}

#[test]
fn cleanup_and_duplicate_rows() {
    let rules = default_cleanup_rules();
    let candidate = cleanup_candidate_for_file("C:\\w", "C:\\w\\x.tmp", 42, Some(9), &rules).unwrap();
    let row = cleanup_candidate_row(&candidate, "42 B");
    assert_eq!(row[0], "dry-run");
    assert_eq!(row[1], "none");
    assert_eq!(row[2], "temp_extension");
    assert_eq!(row[4], "low");
    assert_eq!(row[5], "false");
    assert_eq!(row[6], "file");
    assert_eq!(row[7], "C:\\w\\x.tmp");
    assert_eq!(row[8], "42");
    assert_eq!(row[10], "9");

    let group = duplicate_group_from_candidates(
        "hash".to_owned(),
        vec![
            CandidateFile { path: "C:\\b.bin".to_owned(), size: 10, modified: None },
            CandidateFile { path: "C:\\a.bin".to_owned(), size: 10, modified: Some(3) },
        ],
    );
    let first = duplicate_file_row(&group, &group.files[0], "10 B");
    assert_eq!(first[8], "keep");
    assert_eq!(first[10], "C:\\b.bin");
    assert_eq!(first[11], "");
    let second = duplicate_file_row(&group, &group.files[1], "10 B");
    assert_eq!(second[8], "duplicate");
    assert_eq!(second[11], "3");
    assert_eq!(second[6], "10");
}

#[test]
fn ai_rows_and_delete_list() {
    let findings = vec![
        finding("C:\\a.tmp", 10, false, AiAuditStatus::Approved),
        finding("C:\\b.tmp", 20, true, AiAuditStatus::Approved),
        finding("C:\\c.tmp", u64::MAX, false, AiAuditStatus::Corrected),
    ];
    let (positions, count, size) = delete_list(&findings);
    assert_eq!(positions, vec![0, 2]);
    assert_eq!(count, 2);
    assert_eq!(size, u64::MAX);
    let config = AiProviderConfig::default();
    let report = AiAnalysisReport::from_findings("C:\\".to_owned(), &config, findings, vec!["e1".to_owned()]);
    assert_eq!(ai_report_header().len(), 18);
    let row = ai_finding_row(&report, &report.findings[1], "0.90", "20 B");
    assert_eq!(row[5], "0.90");
    assert_eq!(row[6], "true");
    assert_eq!(row[12], "false");
    assert_eq!(row[16], "api.openai.com/v1");
    assert_eq!(row[17], "gpt-4o-mini");
    let dl = delete_list_row(&report.findings[0], "0.90", "10 B");
    assert_eq!(dl.len(), 12);
    assert_eq!(dl[8], "C:\\a.tmp");
    let errors = ai_error_rows(&report);
    assert_eq!(errors, vec![vec!["errors".to_owned()], vec!["e1".to_owned()]]);
    assert_eq!(
        ai_report_summary(&report),
        "ai-review/report-only，候选 3 个，待删清单 2 个，需人工复核 0 个，受保护 1 个，错误 1 条"
    );
    assert_eq!(
        delete_list_summary(2, "30 B"),
        "ai-review/report-only，导出待删候选 2 个，合计 30 B；action_taken=none，请人工确认后自行处理"
    );
}

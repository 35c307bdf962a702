use cdrive_manager::cleanup::{
    cleanup_candidate_for_file, default_cleanup_rules, is_protected_path, CleanupCandidate,
    CleanupCandidateKind, CleanupPreviewAccumulator, CleanupRisk,
};

#[test]
fn temp_extension_rule_matches_temp_files() {
    let rules = default_cleanup_rules();
    let root = "C:\\work";
    let candidate =
        cleanup_candidate_for_file(root, "C:\\work\\build\\x.tmp", 42, None, &rules).unwrap();

    assert_eq!(candidate.rule_id, "temp_extension");
    assert_eq!(candidate.size, 42);
    assert!(!candidate.protected);
}

#[test]
fn temp_cache_directory_rule_matches_files_inside_cache_dir() {
    let rules = default_cleanup_rules();
    let root = "C:\\work";
    let candidate =
        cleanup_candidate_for_file(root, "C:\\work\\Cache\\payload.bin", 10, None, &rules).unwrap();

    assert_eq!(candidate.rule_id, "temp_cache_directory");
}

#[test]
fn protected_candidates_do_not_count_as_reclaimable() {
    let mut accumulator = CleanupPreviewAccumulator::new("C:\\");
    accumulator.record_candidate(CleanupCandidate {
        path: "C:\\Windows\\Temp\\x.tmp".to_owned(),
        kind: CleanupCandidateKind::File,
        size: 100,
        modified: None,
        rule_id: "temp_extension",
        rule_label: "临时文件扩展名",
        reason: "test".to_owned(),
        risk: CleanupRisk::Low,
        protected: true,
    });
    accumulator.record_candidate(CleanupCandidate {
        path: "C:\\Users\\Alice\\AppData\\Local\\Temp\\x.tmp".to_owned(),
        kind: CleanupCandidateKind::File,
        size: 50,
        modified: None,
        rule_id: "temp_extension",
        rule_label: "临时文件扩展名",
        reason: "test".to_owned(),
        risk: CleanupRisk::Low,
        protected: false,
    });

    let preview = accumulator.snapshot();
    assert_eq!(preview.total_candidate_size, 150);
    assert_eq!(preview.protected_size, 100);
    assert_eq!(preview.reclaimable_size, 50);
    assert_eq!(preview.protected_count, 1);
}

#[test]
fn retained_candidates_are_sorted_by_size() {
    let mut accumulator = CleanupPreviewAccumulator::new("C:\\work");
    accumulator.record_candidate(test_candidate("small.tmp", 1));
    accumulator.record_candidate(test_candidate("large.tmp", 100));
    accumulator.record_candidate(test_candidate("medium.tmp", 50));

    let preview = accumulator.snapshot();
    let sizes: Vec<_> = preview
        .candidates
        .iter()
        .map(|candidate| candidate.size)
        .collect();
    assert_eq!(sizes, vec![100, 50, 1]);
}

fn test_candidate(name: &str, size: u64) -> CleanupCandidate {
    CleanupCandidate {
        path: format!("C:\\work\\{}", name),
        kind: CleanupCandidateKind::File,
        size,
        modified: None,
        rule_id: "temp_extension",
        rule_label: "临时文件扩展名",
        reason: "test".to_owned(),
        risk: CleanupRisk::Low,
        protected: false,
    }
}

#[test]
fn cleanup_extension_reason_names_rule() {
    let rules = default_cleanup_rules();
    let candidate =
        cleanup_candidate_for_file("C:\\work", "C:\\work\\APP.LOG", 7, Some(5), &rules).unwrap();
    assert_eq!(candidate.rule_id, "log_dump_extension");
    assert_eq!(candidate.reason, "扩展名 .log 命中规则：日志/转储文件。常见日志或诊断转储文件。");
    assert_eq!(candidate.risk, CleanupRisk::Medium);
    assert_eq!(candidate.modified, Some(5));
}

#[test]
fn cleanup_cache_reason_keeps_original_case() {
    let rules = default_cleanup_rules();
    let candidate =
        cleanup_candidate_for_file("C:\\work", "C:\\work\\Caches\\a\\b.bin", 7, None, &rules).unwrap();
    assert!(candidate.reason.starts_with("位于临时/缓存目录：Caches。"));
}

#[test]
fn cleanup_ignores_files_outside_root_and_unmatched_files() {
    let rules = default_cleanup_rules();
    assert!(cleanup_candidate_for_file("C:\\work", "D:\\other\\x.tmp", 1, None, &rules).is_none());
    assert!(cleanup_candidate_for_file("C:\\work", "C:\\work\\src\\main.rs", 1, None, &rules).is_none());
}

#[test]
fn cleanup_protection_rules() {
    assert!(is_protected_path("C:\\Windows.old\\x.tmp"));
    assert!(is_protected_path("c:/program files/app/x.log"));
    assert!(is_protected_path("D:\\Data\\Pictures\\x.bak"));
    assert!(!is_protected_path("C:\\Program Files2\\x.log"));
    assert!(!is_protected_path("C:\\work\\x.tmp"));
}

#[test]
fn cleanup_error_messages_are_bounded() {
    let mut accumulator = CleanupPreviewAccumulator::new("C:\\work");
    for index in 0..310 {
        accumulator.record_error(format!("error {}", index));
    }
    let preview = accumulator.snapshot();
    assert_eq!(preview.error_count, 310);
    assert_eq!(preview.errors.len(), 300);
}

#[test]
fn cleanup_rank_is_kind_labels() {
    assert_eq!(CleanupRisk::Low.rank(), 0);
    assert_eq!(CleanupRisk::Medium.rank(), 1);
    assert_eq!(CleanupRisk::Medium.label(), "中");
    assert_eq!(CleanupRisk::Low.as_str(), "low");
    assert_eq!(CleanupCandidateKind::File.label(), "文件");
    assert_eq!(CleanupCandidateKind::File.as_str(), "file");
}

use cdrive_manager::engine::classification::{FileCategory, FileImportance, SystemLayer};
use cdrive_manager::engine::static_rules::StaticRuleEngine;

fn decide(path: &str) -> (String, FileCategory, SystemLayer, FileImportance) {
    let engine = StaticRuleEngine::new();
    let r = engine.classify(path).expect("path should be classified");
    (r.matched_rule, r.classification.category, r.classification.layer, r.classification.importance)
}

#[test]
fn drivers_rule_wins_over_system32() {
    let (id, cat, layer, imp) = decide("C:\\Windows\\System32\\drivers\\ntfs.sys");
    assert_eq!(id, "kernel_drivers");
    assert!(matches!(cat, FileCategory::SystemDriver));
    assert!(matches!(layer, SystemLayer::Kernel));
    assert!(matches!(imp, FileImportance::Critical));
}

#[test]
fn driver_store_and_spooler_win_over_system32() {
    let (id, cat, _, _) = decide("C:\\Windows\\System32\\DriverStore\\FileRepository\\x.inf");
    assert_eq!(id, "service_driverstore");
    assert!(matches!(cat, FileCategory::DriverStore));
    let (id, cat, _, imp) = decide("C:\\Windows\\System32\\spool\\PRINTERS\\job.spl");
    assert_eq!(id, "service_printspooler");
    assert!(matches!(cat, FileCategory::PrintSpooler));
    assert!(matches!(imp, FileImportance::Essential));
}

#[test]
fn plain_system32_file_is_kernel_binary() {
    let (id, cat, layer, _) = decide("C:\\Windows\\System32\\kernel32.dll");
    assert_eq!(id, "kernel_system32");
    assert!(matches!(cat, FileCategory::SystemBinary));
    assert!(matches!(layer, SystemLayer::Kernel));
}

#[test]
fn specific_log_rules_win_over_windows_logs() {
    let (id, cat, _, _) = decide("C:\\Windows\\Logs\\CBS\\CBS.log");
    assert_eq!(id, "system_cbs_logs");
    assert!(matches!(cat, FileCategory::CBSLog));
    let (id, _, _, _) = decide("C:\\Windows\\Logs\\DISM\\dism.log");
    assert_eq!(id, "system_dism_logs");
    let (id, cat, _, _) = decide("C:\\Windows\\Logs\\other.log");
    assert_eq!(id, "runtime_logs");
    assert!(matches!(cat, FileCategory::SystemLog));
}

#[test]
fn specific_windows_old_rules_win_over_windows_old() {
    let (id, cat, _, imp) = decide("C:\\Windows.old\\Windows\\Temp\\a.tmp");
    assert_eq!(id, "system_windows_old_temp");
    assert!(matches!(cat, FileCategory::SystemTemp));
    assert!(matches!(imp, FileImportance::Disposable));
    let (id, _, _, imp) = decide("C:\\Windows.old\\Users\\a.txt");
    assert_eq!(id, "runtime_windows_old");
    assert!(matches!(imp, FileImportance::Essential));
}

#[test]
fn windows_temp_is_decided_by_system_temp_rule() {
    let (id, cat, _, imp) = decide("C:\\Windows\\Temp\\foo.tmp");
    assert_eq!(id, "runtime_system_temp");
    assert!(matches!(cat, FileCategory::SystemTemp));
    assert!(matches!(imp, FileImportance::Disposable));
}

#[test]
fn prefetch_and_unknown_paths() {
    let (id, cat, _, _) = decide("C:\\Windows\\Prefetch\\CHROME.EXE-12345678.pf");
    assert_eq!(id, "runtime_prefetch");
    assert!(matches!(cat, FileCategory::PrefetchData));
    let engine = StaticRuleEngine::new();
    assert!(engine.classify("C:\\MyCustomApp\\data.dat").is_none());
}

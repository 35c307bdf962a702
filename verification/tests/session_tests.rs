use std::sync::Arc;
use std::time::Duration;

use cdrive_manager::ai_analysis::{AiAnalysisFinished, AiAnalysisPhase, AiAnalysisProgress, AiAnalysisReport};
use cdrive_manager::cleanup::{CleanupPreview, CleanupPreviewFinished, CleanupPreviewProgress};
use cdrive_manager::duplicates::{DuplicatePreview, DuplicatePreviewFinished, DuplicatePreviewPhase, DuplicatePreviewProgress};
use cdrive_manager::color_palette::FileCategory;
use cdrive_manager::model::{ExtensionRecord, ScanStats};
use cdrive_manager::scanner::{ScanFinished, ScanMode, ScanProgress};
use cdrive_manager::session::{CacheManager, ExportKind, OverviewValue, Request, ResultTab, ScanFollowUp, Session};

fn stats(root: &str, files: u64, dirs: u64) -> ScanStats {
    let mut s = ScanStats::default();
    s.root = root.to_owned();
    s.file_count = files;
    s.dir_count = dirs;
    s
}

fn progress(mode: ScanMode, current: Option<&str>, threads: Option<usize>) -> ScanProgress {
    ScanProgress {
        stats: Arc::new(stats("C:\\", 1, 1)),
        current_path: current.map(str::to_owned),
        finished: false,
        cancelled: false,
        estimated_total_dirs: None,
        estimated_total_files: None,
        scan_mode: mode,
        active_threads: threads,
    }
}

fn finished(mode: ScanMode, cancelled: bool) -> ScanFinished {
    ScanFinished {
        stats: Arc::new(stats("C:\\Data", 1234, 56)),
        cancelled,
        scan_mode: mode,
        total_dirs: 56,
        total_files: 1234,
        elapsed_time: Duration::from_secs(75),
    }
}

fn cleanup_preview(root: &str) -> CleanupPreview {
    CleanupPreview {
        root: root.to_owned(),
        total_candidate_size: 30,
        reclaimable_size: 20,
        protected_size: 10,
        candidate_count: 1500,
        protected_count: 1,
        error_count: 2,
        candidates: vec![],
        errors: vec![],
    }
}

fn duplicate_preview(root: &str) -> DuplicatePreview {
    DuplicatePreview {
        root: root.to_owned(),
        min_size: 1024,
        scanned_file_count: 10,
        hashed_file_count: 4,
        duplicate_group_count: 2,
        duplicate_file_count: 3,
        duplicate_size: 300,
        reclaimable_size: 200,
        protected_size: 100,
        error_count: 0,
        groups: vec![],
        errors: vec![],
    }
}

#[test]
fn a_new_session_is_ready() {
    let session = Session::new("C:\\".to_owned());
    assert_eq!(session.status_message, "准备扫描。第一版只分析空间占用，不删除任何文件。");
    assert_eq!(session.cleanup_rules.len(), 4);
    assert!(session.cleanup_rules.iter().all(|r| r.enabled));
    assert_eq!(session.enabled_cleanup_rule_count(), 4);
    assert_eq!(session.selected_tab, ResultTab::Directories);
    assert_eq!(session.duplicate_min_size_bytes, 1024);
    assert!(session.current_stats().is_none());
}

#[test]
fn scans_start_only_on_a_directory() {
    let mut session = Session::new("   ".to_owned());
    assert!(session.start_scan(true, true).is_none());
    assert_eq!(session.status_message, "请输入要扫描的目录。");
    session.root_input = " C:\\Data ".to_owned();
    assert_eq!(session.root_candidate(), "C:\\Data");
    assert!(session.start_scan(false, false).is_none());
    assert_eq!(session.status_message, "路径不存在：C:\\Data");
    assert!(session.start_scan(true, false).is_none());
    assert_eq!(session.status_message, "路径不是目录：C:\\Data");
    assert!(!session.cancel_scan());

    session.scan_filter_excluded_dirs = "node_modules; target".to_owned();
    let options = session.start_scan(true, true).unwrap();
    assert_eq!(options.root, "C:\\Data");
    assert_eq!(options.mode, ScanMode::ParallelFullScan);
    assert_eq!(options.filter_config.excluded_directories, vec!["node_modules", "target"]);
    assert!(session.scan_in_progress);
    assert!(session.quick_scan_complete);
    assert_eq!(session.status_message, "多线程扫描中：C:\\Data");
    assert!(session.cancel_scan());
    assert!(session.cancel_requested);
    assert_eq!(session.status_message, "正在取消扫描，已扫描结果会保留……");

    let options = session.start_mft_scan(true, true).unwrap();
    assert_eq!(options.drive_letter, Some('C'));
    assert_eq!(options.mode, ScanMode::MftScan);
    assert_eq!(session.status_message, "MFT 高速扫描中：驱动器 C:...");
}

#[test]
fn scan_reports_set_the_status_line() {
    let mut session = Session::new("C:\\".to_owned());
    session.apply_progress(progress(ScanMode::ParallelFullScan, Some("C:\\Windows"), Some(6)), None);
    assert_eq!(session.status_message, "多线程 (6线程)扫描：C:\\Windows");
    session.apply_progress(progress(ScanMode::ParallelFullScan, None, Some(6)), None);
    assert_eq!(session.status_message, "多线程详细扫描中 (6 线程)...");
    session.apply_progress(progress(ScanMode::QuickCount, Some("C:\\x"), None), None);
    assert_eq!(session.status_message, "快速统计：C:\\x");
    session.apply_progress(progress(ScanMode::MftScan, None, None), None);
    assert_eq!(session.status_message, "MFT 高速扫描中...");
    let mut estimated = progress(ScanMode::FullScan, Some("C:\\y"), None);
    estimated.estimated_total_dirs = Some(100);
    session.apply_progress(estimated, Some("12.5% (3秒)".to_owned()));
    assert_eq!(session.status_message, "单线程扫描：C:\\y");
    assert_eq!(session.estimated_total_dirs, Some(100));
    session.apply_progress(progress(ScanMode::FullScan, Some("C:\\z"), None), Some("12.5% (3秒)".to_owned()));
    assert_eq!(session.status_message, "单线程扫描中：12.5% (3秒) C:\\z");
    let mut done = progress(ScanMode::FullScan, None, None);
    done.cancelled = true;
    session.apply_progress(done, None);
    assert_eq!(session.status_message, "扫描已取消，当前显示的是部分结果。");
}

#[test]
fn finished_scans_are_shown_and_cached() {
    let mut session = Session::new("C:\\Data".to_owned());
    session.start_scan(true, true).unwrap();
    match session.apply_finished(finished(ScanMode::QuickCount, false), 75, "1.00 KB", 8) {
        ScanFollowUp::StartScan(options) => assert_eq!(options.mode, ScanMode::ParallelFullScan),
        _ => panic!("the detailed scan should follow the quick count"),
    }
    assert_eq!(session.status_message, "快速统计完成：56 个目录，1,234 个文件。开始多线程详细扫描 (8 线程)...");
    assert_eq!(session.estimated_total_files, Some(1234));

    let follow_up = session.apply_finished(finished(ScanMode::ParallelFullScan, false), 75, "1.00 KB", 8);
    assert!(matches!(follow_up, ScanFollowUp::SaveLatestScan));
    assert!(!session.scan_in_progress);
    assert_eq!(session.current_stats().unwrap().file_count, 1234);
    assert_eq!(session.status_message, "多线程扫描完成：1,234 个文件，56 个目录，总计 1.00 KB。 耗时：1m 15s");
    session.latest_scan_saved(Ok("C:\\cache.sqlite3".to_owned()));
    assert!(session.status_message.ends_with(" 已写入 SQLite 最新缓存：C:\\cache.sqlite3。"));

    let follow_up = session.apply_finished(finished(ScanMode::FullScan, true), 5, "9 B", 8);
    assert!(matches!(follow_up, ScanFollowUp::Nothing));
    assert_eq!(session.status_message, "单线程扫描已取消：已统计 1,234 个文件，56 个目录，部分结果共 9 B。 耗时：5s");
}

#[test]
fn cleanup_previews_need_a_scan_and_a_rule() {
    let mut session = Session::new("C:\\".to_owned());
    assert!(session.start_cleanup_preview().is_none());
    assert_eq!(session.status_message, "请先完成扫描或打开已保存的扫描结果，再生成清理预览。");
    session.set_loaded_stats(stats("C:\\Data", 1, 1));
    assert_eq!(session.root_input, "C:\\Data");
    session.set_all_cleanup_rules_enabled(false);
    assert_eq!(session.enabled_cleanup_rule_count(), 0);
    assert!(session.start_cleanup_preview().is_none());
    assert_eq!(session.status_message, "请至少启用一条清理预览规则。");
    session.set_cleanup_rule_enabled(1, true);
    let (options, rules) = session.start_cleanup_preview().unwrap();
    assert_eq!(options.root, "C:\\Data");
    assert_eq!(rules.len(), 1);
    assert_eq!(rules[0].id, "log_dump_extension");
    assert_eq!(session.selected_tab, ResultTab::CleanupPreview);
    assert_eq!(session.status_message, "正在生成 dry-run 清理预览：C:\\Data，启用 1 条规则。不会删除、移动或修改任何文件。");

    session.apply_cleanup_preview_progress(CleanupPreviewProgress {
        preview: Arc::new(cleanup_preview("C:\\Data")),
        current_path: Some("C:\\Data\\a.log".to_owned()),
        finished: false,
        cancelled: false,
    });
    assert_eq!(session.status_message, "正在预览：C:\\Data\\a.log");
    assert!(session.current_cleanup_preview().is_some());
    assert!(session.cancel_cleanup_preview());
    session.apply_cleanup_preview_finished(
        CleanupPreviewFinished { preview: Arc::new(cleanup_preview("C:\\Data")), cancelled: false },
        "20 B",
        "10 B",
    );
    assert!(!session.cleanup_in_progress);
    assert_eq!(
        session.status_message,
        "清理预览完成：C:\\Data 下发现 1,500 个候选，dry-run 预计可清理 20 B，受保护 10 B，错误 2 条。当前版本不会执行清理。"
    );
    session.reset_cleanup_rules();
    assert_eq!(session.enabled_cleanup_rule_count(), 4);
    assert!(session.cleanup_preview.is_none());
    assert_eq!(session.status_message, "清理规则已变化，请重新生成 dry-run 预览。");
}

#[test]
fn duplicate_searches_and_reviews_follow_the_previews() {
    let mut session = Session::new("C:\\".to_owned());
    assert!(session.start_duplicate_preview("1.00 KB").is_none());
    assert!(session.start_ai_analysis().is_none());
    assert_eq!(session.status_message, "请先生成清理预览或重复文件预览，再启动 AI 分析审核。");
    session.set_loaded_stats(stats("D:\\", 1, 1));
    let options = session.start_duplicate_preview("1.00 KB").unwrap();
    assert_eq!(options.root, "D:\\");
    assert_eq!(options.min_size, 1024);
    assert_eq!(
        session.status_message,
        "正在 dry-run 查找重复文件：D:\\，仅哈希不小于 1.00 KB 的同大小候选；不会删除、移动或修改任何文件。"
    );
    session.apply_duplicate_preview_progress(DuplicatePreviewProgress {
        preview: Arc::new(duplicate_preview("D:\\")),
        current_path: None,
        phase: DuplicatePreviewPhase::HashingCandidates,
        finished: false,
        cancelled: false,
    });
    assert_eq!(session.status_message, "正在计算候选哈希……");
    session.apply_duplicate_preview_finished(
        DuplicatePreviewFinished { preview: Arc::new(duplicate_preview("D:\\")), cancelled: false },
        "200 B",
        "100 B",
    );
    assert_eq!(
        session.status_message,
        "重复文件检测完成：D:\\ 下发现 2 个重复组、3 个重复副本，dry-run 预计可回收 200 B，受保护 100 B，错误 0 条。当前版本不会执行删除。"
    );
    session.set_duplicate_min_size(0);
    assert_eq!(session.duplicate_min_size_bytes, 1);
    assert!(session.duplicate_preview.is_none());
    assert_eq!(session.status_message, "重复检测配置已变化，请重新查找重复文件。");

    session.apply_cleanup_preview_finished(
        CleanupPreviewFinished { preview: Arc::new(cleanup_preview("D:\\Users")), cancelled: true },
        "20 B",
        "10 B",
    );
    assert!(session.status_message.starts_with("清理预览已取消：D:\\Users 下发现 1,500 个候选"));
    let options = session.start_ai_analysis().unwrap();
    assert_eq!(options.root, "D:\\Users");
    assert!(options.duplicate_preview.is_none());
    assert_eq!(session.selected_tab, ResultTab::AiReview);
    assert_eq!(session.status_message, "正在进行 AI 分析审核：D:\\Users，模型 gpt-4o-mini。dry-run/report-only，不会删除、移动或修改任何文件。");

    let report = AiAnalysisReport {
        root: "D:\\Users".to_owned(),
        provider_label: "p".to_owned(),
        model: "m".to_owned(),
        candidate_count: 12,
        delete_candidate_count: 3,
        needs_review_count: 4,
        rejected_count: 5,
        protected_count: 0,
        error_count: 1,
        findings: vec![],
        errors: vec![],
    };
    session.apply_ai_analysis_progress(AiAnalysisProgress {
        report: Arc::new(report.clone()),
        phase: AiAnalysisPhase::Auditing,
        current_item: Some("c3".to_owned()),
        finished: false,
        cancelled: false,
    });
    assert_eq!(session.status_message, "正在AI 审核：c3");
    session.apply_ai_analysis_finished(AiAnalysisFinished { report: Arc::new(report), cancelled: false });
    assert_eq!(
        session.status_message,
        "AI 分析审核完成：12 个候选，可导出待删候选 3 个，需人工复核 4 个，拒绝/保留 5 个，错误 1 条。请人工确认后自行处理；本程序不会删除文件。"
    );
    assert!(!session.ai_analysis_in_progress);
}

#[test]
fn saving_opening_and_exporting_report_on_the_status_line() {
    let mut session = Session::new("C:\\".to_owned());
    assert!(session.scan_to_save().is_none());
    assert_eq!(session.status_message, "没有可保存的扫描结果。");
    assert!(!session.can_export(ExportKind::AiDeleteList));
    assert_eq!(session.status_message, "没有可导出的 AI 待删清单。");
    session.scan_result_opened("C:\\scan.json", Err("bad json".to_owned()));
    assert_eq!(session.status_message, "打开扫描结果失败：C:\\scan.json (bad json)");
    let mut loaded = stats("E:\\", 3, 2);
    loaded.schema_version = 2;
    loaded.saved_at_unix_secs = Some(100);
    loaded.app_version = Some("0.1.0".to_owned());
    session.scan_result_opened("C:\\scan.json", Ok(loaded));
    assert_eq!(session.root_input, "E:\\");
    assert_eq!(session.status_message, "已打开扫描结果：C:\\scan.json (schema v2，saved_at=100，app 0.1.0)");
    assert!(session.can_export(ExportKind::ScanReport));
    session.exported(ExportKind::ScanReport, "C:\\r.csv", Ok("3 行".to_owned()));
    assert_eq!(session.status_message, "已导出 CSV 报告：C:\\r.csv (3 行)");
    session.exported(ExportKind::CleanupPreview, "C:\\c.csv", Err("denied".to_owned()));
    assert_eq!(session.status_message, "导出清理预览失败：C:\\c.csv (denied)");
    session.scan_result_saved("C:\\s.json", Ok(()));
    assert_eq!(session.status_message, "已保存扫描结果：C:\\s.json");
    session.cached_scan_opened("F:\\", Ok(None));
    assert_eq!(session.status_message, "没有找到该目录的 SQLite 扫描缓存：F:\\");
}

#[test]
fn the_treemap_stays_inside_the_scanned_tree() {
    let mut session = Session::new("C:\\".to_owned());
    let scanned = stats("C:\\Data", 0, 0);
    session.enter_treemap_dir("C:\\Data\\Photos".to_owned());
    assert_eq!(session.status_message, "Treemap 已进入目录：C:\\Data\\Photos");
    assert_eq!(session.treemap_current_dir(&scanned), "C:\\Data");
    assert!(session.treemap_current_dir.is_none());
    session.treemap_up(&scanned, "C:\\Data\\Photos\\2020");
    assert_eq!(session.treemap_current_dir.as_deref(), Some("C:\\Data\\Photos"));
    session.treemap_to_root();
    assert!(session.treemap_current_dir.is_none());
}

#[test]
fn requests_follow_what_is_running() {
    let mut session = Session::new("C:\\Data".to_owned());
    assert!(session.available(Request::StartScan));
    assert!(!session.available(Request::SaveResult));
    assert!(!session.available(Request::StartAiAnalysis));
    assert_eq!(session.busy_label(), None);
    session.start_scan(true, true).unwrap();
    assert!(session.busy());
    assert_eq!(session.busy_label(), Some("扫描中"));
    assert!(!session.available(Request::StartScan));
    assert!(session.available(Request::CancelScan));
    session.cancel_scan();
    assert!(!session.available(Request::CancelScan));
    assert_eq!(session.busy_label(), Some("取消扫描中"));
    session.apply_finished(finished(ScanMode::ParallelFullScan, true), 1, "1 B", 1);
    assert!(!session.busy());
    assert!(session.available(Request::SaveResult));
    assert!(session.available(Request::StartCleanupPreview));
    session.set_all_cleanup_rules_enabled(false);
    assert!(!session.available(Request::StartCleanupPreview));
}

#[test]
fn the_cache_manager_confirms_deletions() {
    let mut session = Session::new("C:\\".to_owned());
    let mut manager = CacheManager::new();
    manager.open_window();
    manager.listed(&mut session, Err("no home".to_owned()));
    assert_eq!(session.status_message, "无法获取缓存数据库路径: no home");
    assert!(manager.db_path.is_none());
    manager.request_delete("c:\\data".to_owned());
    assert_eq!(manager.confirm_delete(), None);
    manager.listed(&mut session, Ok(("C:\\cache.db".to_owned(), vec![], Some(4096))));
    assert_eq!(manager.db_size, Some(4096));
    manager.request_delete("c:\\data".to_owned());
    manager.cancel_delete();
    assert!(manager.delete_confirmation.is_none());
    manager.request_delete("c:\\data".to_owned());
    assert_eq!(manager.confirm_delete(), Some(("C:\\cache.db".to_owned(), "c:\\data".to_owned())));
    assert!(manager.delete_confirmation.is_none());
    assert!(manager.deleted(&mut session, "c:\\data", Ok(true)));
    assert_eq!(session.status_message, "已删除缓存: c:\\data");
    assert!(!manager.deleted(&mut session, "c:\\data", Ok(false)));
    assert_eq!(session.status_message, "缓存记录不存在");
    manager.entry_loaded(&mut session, "c:\\other", Ok(Some(stats("C:\\Other", 2, 1))));
    assert!(!manager.open);
    assert_eq!(session.current_stats().unwrap().root, "C:\\Other");
    assert_eq!(session.status_message, "已从缓存加载：c:\\other");
}

#[test]
fn directories_chosen_in_the_table_show_in_the_treemap() {
    let mut session = Session::new("C:\\".to_owned());
    session.locate_in_treemap("C:\\Data", "C:\\Data\\Music".to_owned());
    assert_eq!(session.treemap_current_dir.as_deref(), Some("C:\\Data\\Music"));
    assert_eq!(session.status_message, "Treemap 已定位目录：C:\\Data\\Music");
    session.locate_in_treemap("C:\\Data", "C:\\Data".to_owned());
    assert!(session.treemap_current_dir.is_none());
}

#[test]
fn panels_remember_unfolded_directories_and_picked_extensions() {
    let mut session = Session::new("C:\\".to_owned());
    session.toggle_expanded("C:\\a");
    assert_eq!(session.expanded_dirs, vec!["C:\\a"]);
    session.toggle_expanded("C:\\b");
    session.toggle_expanded("C:\\a");
    assert_eq!(session.expanded_dirs, vec!["C:\\b"]);
    session.toggle_extension(".log");
    session.toggle_extension(".tmp");
    assert_eq!(session.selected_extensions.len(), 2);
    session.clear_extension_filter();
    assert!(session.selected_extensions.is_empty());
}

#[test]
fn the_overview_lists_what_is_on_show() {
    let mut session = Session::new("C:\\".to_owned());
    let mut scanned = stats("C:\\Data", 1200, 30);
    scanned.total_size = 4096;
    scanned.filter_config.excluded_directories = vec!["node_modules".to_owned(), "target".to_owned()];
    scanned.filter_config.same_file_system = true;
    let rows = session.overview_rows(&scanned);
    let labels: Vec<&str> = rows.iter().map(|(label, _)| label.as_str()).collect();
    assert_eq!(labels, vec!["扫描根目录", "累计大小", "文件数量", "目录数量", "访问错误", "扫描过滤", "排除目录", "同文件系统"]);
    assert_eq!(rows[1].1, OverviewValue::Size(4096));
    assert_eq!(rows[2].1, OverviewValue::Text("1,200".to_owned()));
    assert_eq!(rows[6].1, OverviewValue::Text("node_modules, target".to_owned()));
    assert_eq!(session.overview_notes().len(), 1);

    session.set_loaded_stats(scanned.copy());
    session.apply_cleanup_preview_finished(
        CleanupPreviewFinished { preview: Arc::new(cleanup_preview("C:\\Data")), cancelled: false },
        "20 B",
        "10 B",
    );
    session.start_scan(true, true).unwrap();
    session.apply_progress(progress(ScanMode::ParallelFullScan, Some("C:\\Data\\x"), None), None);
    let rows = session.overview_rows(&scanned);
    let labels: Vec<&str> = rows.iter().map(|(label, _)| label.as_str()).collect();
    assert_eq!(&labels[5..7], &["扫描状态", "当前路径"]);
    assert_eq!(rows[5].1, OverviewValue::Text("正在扫描".to_owned()));
    assert_eq!(session.overview_notes().len(), 2);
}

#[test]
fn ai_settings_stay_within_bounds() {
    let mut session = Session::new("C:\\".to_owned());
    session.set_ai_max_candidates(0);
    assert_eq!(session.ai_provider_config.max_candidates, 1);
    session.set_ai_max_candidates(5000);
    assert_eq!(session.ai_provider_config.max_candidates, 1000);
    session.set_ai_timeout_secs(1);
    assert_eq!(session.ai_provider_config.timeout_secs, 5);
    session.set_ai_timeout_secs(30);
    assert_eq!(session.ai_provider_config.timeout_secs, 30);
    assert!(session.available(Request::EditAiConfig));
    assert!(session.available(Request::EditScanFilter));
}

#[test]
fn the_extension_panel_lists_the_largest_extensions() {
    let mut session = Session::new("C:\\".to_owned());
    let mut scanned = stats("C:\\", 0, 0);
    scanned.extensions = (0..20u64)
        .map(|i| ExtensionRecord { extension: if i == 0 { ".EXE".to_owned() } else { format!(".x{i}") }, total_size: 100 - i, file_count: 1 })
        .collect();
    session.toggle_extension(".x3");
    let rows = session.extension_panel_rows(&scanned);
    assert_eq!(rows.len(), 15);
    assert_eq!(rows[0].category, FileCategory::Executable);
    assert!(rows[3].selected);
    assert!(!rows[2].selected);
}

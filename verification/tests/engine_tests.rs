use cdrive_manager::engine::classification::{FileCategory, FileClassification, FileImportance, SystemLayer};
use cdrive_manager::engine::risk_assessment::{DecisionSource, Recommendation, RiskAssessment, RiskLevel};
use cdrive_manager::engine::static_rules::{path_matches_prefix, StaticRuleEngine};
use cdrive_manager::engine::risk_engine::{RiskEngine, SafetyVerdict};
use cdrive_manager::glob::glob_matches;



#[test]
fn system_layer_rank_order() {
    assert!(SystemLayer::Kernel.rank() < SystemLayer::SystemService.rank());
    assert!(SystemLayer::SystemService.rank() < SystemLayer::SystemConfig.rank());
    assert!(SystemLayer::SystemConfig.rank() < SystemLayer::SystemRuntime.rank());
    assert!(SystemLayer::SystemRuntime.rank() < SystemLayer::Application.rank());
    assert!(SystemLayer::Application.rank() < SystemLayer::UserSpace.rank());
}

#[test]
fn file_category_maps_to_correct_layer() {
    // 内核层
    assert!(matches!(FileCategory::SystemBinary.layer(), SystemLayer::Kernel));
    assert!(matches!(FileCategory::ComponentStore.layer(), SystemLayer::Kernel));
    assert!(matches!(FileCategory::SystemDriver.layer(), SystemLayer::Kernel));

    // 服务层
    assert!(matches!(FileCategory::DriverStore.layer(), SystemLayer::SystemService));
    assert!(matches!(FileCategory::ServiceExecutable.layer(), SystemLayer::SystemService));

    // 运行时层
    assert!(matches!(FileCategory::SystemTemp.layer(), SystemLayer::SystemRuntime));
    assert!(matches!(FileCategory::PrefetchData.layer(), SystemLayer::SystemRuntime));
    assert!(matches!(FileCategory::WindowsUpdateCache.layer(), SystemLayer::SystemRuntime));

    // 配置层
    assert!(matches!(FileCategory::WinSxSManifestFile.layer(), SystemLayer::SystemConfig));
    assert!(matches!(FileCategory::GroupPolicy.layer(), SystemLayer::SystemConfig));

    // 应用本体
    assert!(matches!(FileCategory::ApplicationBinary.layer(), SystemLayer::Application));
    assert!(matches!(FileCategory::AppModule.layer(), SystemLayer::Application));

    // 应用数据
    assert!(matches!(FileCategory::BrowserCache.layer(), SystemLayer::Application));
    assert!(matches!(FileCategory::BuildArtifact.layer(), SystemLayer::Application));

    // 用户空间
    assert!(matches!(FileCategory::UserDocument.layer(), SystemLayer::UserSpace));
    assert!(matches!(FileCategory::UserDownload.layer(), SystemLayer::UserSpace));

    // 通用 → 默认用户空间
    assert!(matches!(FileCategory::Unknown.layer(), SystemLayer::UserSpace));
}

#[test]
fn file_importance_base_scores() {
    assert_eq!(FileImportance::Critical.base_score(), 100);
    assert_eq!(FileImportance::Essential.base_score(), 70);
    assert_eq!(FileImportance::Performance.base_score(), 40);
    assert_eq!(FileImportance::Optional.base_score(), 20);
    assert_eq!(FileImportance::Disposable.base_score(), 5);
}

#[test]
fn file_importance_labels() {
    assert_eq!(FileImportance::Critical.label(), "关键");
    assert_eq!(FileImportance::Essential.label(), "重要");
    assert_eq!(FileImportance::Performance.label(), "性能");
    assert_eq!(FileImportance::Optional.label(), "可选");
    assert_eq!(FileImportance::Disposable.label(), "可丢弃");
}

#[test]
fn file_classification_builder() {
    let fc = FileClassification::new(
        "C:\\Windows\\Temp\\test.tmp",
        FileCategory::SystemTemp,
        FileImportance::Disposable,
    )
    .with_owner("Windows")
    .with_role("系统临时文件");

    assert_eq!(fc.path, "C:\\Windows\\Temp\\test.tmp");
    assert!(matches!(fc.layer, SystemLayer::SystemRuntime));
    assert!(matches!(fc.category, FileCategory::SystemTemp));
    assert_eq!(fc.owner, Some("Windows".to_string()));
    assert_eq!(fc.role_in_app, Some("系统临时文件".to_string()));
    assert!(matches!(fc.importance, FileImportance::Disposable));
}



#[test]
fn risk_level_from_score() {
    assert!(matches!(RiskLevel::from_score(0), RiskLevel::Safe));
    assert!(matches!(RiskLevel::from_score(5), RiskLevel::Safe));
    assert!(matches!(RiskLevel::from_score(10), RiskLevel::Safe));
    assert!(matches!(RiskLevel::from_score(11), RiskLevel::Low));
    assert!(matches!(RiskLevel::from_score(30), RiskLevel::Low));
    assert!(matches!(RiskLevel::from_score(31), RiskLevel::Medium));
    assert!(matches!(RiskLevel::from_score(60), RiskLevel::Medium));
    assert!(matches!(RiskLevel::from_score(61), RiskLevel::High));
    assert!(matches!(RiskLevel::from_score(90), RiskLevel::High));
    assert!(matches!(RiskLevel::from_score(91), RiskLevel::Critical));
    assert!(matches!(RiskLevel::from_score(100), RiskLevel::Critical));
}

#[test]
fn risk_assessment_from_base_score() {
    let assessment = RiskAssessment::from_base(40);
    assert_eq!(assessment.base_score, 40);
    assert_eq!(assessment.final_score, 40);
    assert!(matches!(assessment.level, RiskLevel::Medium));
    assert!(!assessment.is_safe_to_delete()); // 40 > 30
}

#[test]
fn risk_assessment_with_adjustments() {
    let assessment = RiskAssessment::from_base(20)
        .with_dynamic(15)     // +15
        .with_age(-10)        // -10
        .with_dependency(5);  // +5

    // 20 + 15 - 10 + 5 = 30
    assert_eq!(assessment.final_score, 30);
    assert!(matches!(assessment.level, RiskLevel::Low));
    assert!(assessment.is_safe_to_delete()); // 30 <= 30
}

#[test]
fn risk_assessment_clamps_to_0_100() {
    // 超过 100 应被钳制
    let high = RiskAssessment::from_base(90)
        .with_dynamic(20);  // 90 + 20 = 110 → 100
    assert_eq!(high.final_score, 100);
    assert!(matches!(high.level, RiskLevel::Critical));

    // 低于 0 应被钳制
    let low = RiskAssessment::from_base(10)
        .with_dynamic(-30);  // 10 - 30 = -20 → 0
    assert_eq!(low.final_score, 0);
    assert!(matches!(low.level, RiskLevel::Safe));
}

#[test]
fn recommendation_labels() {
    assert_eq!(Recommendation::Delete.label(), "删除");
    assert_eq!(Recommendation::Keep.label(), "保留");
    assert_eq!(Recommendation::Review.label(), "需确认");
    assert_eq!(Recommendation::Unknown.label(), "未知");
}

#[test]
fn decision_source_labels() {
    assert_eq!(DecisionSource::StaticRule.label(), "静态规则");
    assert_eq!(DecisionSource::DynamicPerception.label(), "动态感知");
    assert_eq!(DecisionSource::AiAssist.label(), "AI 辅助");
    assert_eq!(DecisionSource::UserConfirmed.label(), "用户确认");
    assert_eq!(DecisionSource::Unknown.label(), "未知");
}



#[test]
fn engine_classifies_system_binary() {
    let engine = StaticRuleEngine::new();
    let result = engine.classify(("C:\\Windows\\System32\\kernel32.dll"));
    assert!(result.is_some(), "System32 kernel32.dll should be classified");
    let result = result.unwrap();
    assert!(matches!(result.classification.layer, SystemLayer::Kernel));
    assert!(matches!(result.classification.category, FileCategory::SystemBinary));
}

#[test]
fn engine_classifies_winsxs() {
    let engine = StaticRuleEngine::new();
    let result = engine.classify(("C:\\Windows\\WinSxS\\amd64_microsoft-windows-shell32_31bf3856ad364e35_10.0.19041.1_none_7c8c5c5c5c5c5c5c\\shell32.dll"));
    assert!(result.is_some(), "WinSxS file should be classified");
    let result = result.unwrap();
    assert!(matches!(result.classification.layer, SystemLayer::Kernel));
    assert!(matches!(result.classification.category, FileCategory::ComponentStore));
}

#[test]
fn engine_classifies_windows_update_cache() {
    let engine = StaticRuleEngine::new();
    let result = engine.classify(("C:\\Windows\\SoftwareDistribution\\Download\\KB123456\\payload.cab"));
    assert!(result.is_some(), "Windows Update cache should be classified");
    let result = result.unwrap();
    assert!(matches!(result.classification.category, FileCategory::WindowsUpdateCache));
}

#[test]
fn engine_classifies_prefetch() {
    let engine = StaticRuleEngine::new();
    let result = engine.classify(("C:\\Windows\\Prefetch\\CHROME.EXE-12345678.pf"));
    assert!(result.is_some(), "Prefetch file should be classified");
    let result = result.unwrap();
    assert!(matches!(result.classification.category, FileCategory::PrefetchData));
}

#[test]
fn engine_classifies_wer_reports() {
    let engine = StaticRuleEngine::new();
    let result = engine.classify(("C:\\ProgramData\\Microsoft\\Windows\\WER\\ReportQueue\\AppCrash_guid\\report.wer"));
    assert!(result.is_some(), "WER report should be classified");
    let result = result.unwrap();
    assert!(matches!(result.classification.category, FileCategory::ErrorReport));
}

#[test]
fn engine_classifies_windows_temp() {
    let engine = StaticRuleEngine::new();
    let result = engine.classify(("C:\\Windows\\Temp\\foo.tmp"));
    assert!(result.is_some(), "Windows Temp should be classified");
    let result = result.unwrap();
    assert!(matches!(result.classification.category, FileCategory::SystemTemp));
}

#[test]
fn engine_classifies_windows_old() {
    let engine = StaticRuleEngine::new();
    let result = engine.classify(("C:\\Windows.old\\Windows\\System32\\drivers\\etc\\hosts"));
    assert!(result.is_some(), "Windows.old should be classified");
    let result = result.unwrap();
    assert!(matches!(result.classification.layer, SystemLayer::SystemRuntime));
}

#[test]
fn engine_classifies_browser_cache() {
    let engine = StaticRuleEngine::new();
    let result = engine.classify(("C:\\Users\\Alice\\AppData\\Local\\Google\\Chrome\\User Data\\Default\\Cache\\data_1"));
    assert!(result.is_some(), "Chrome cache should be classified");
    let result = result.unwrap();
    assert!(matches!(result.classification.category, FileCategory::BrowserCache));
}

#[test]
fn engine_classifies_package_cache_npm() {
    let engine = StaticRuleEngine::new();
    let result = engine.classify(("C:\\Users\\Alice\\.npm\\_cacache\\index-v5\\xx\\yy"));
    assert!(result.is_some(), "npm cache should be classified");
    let result = result.unwrap();
    assert!(matches!(result.classification.category, FileCategory::PackageManagerCache));
}

#[test]
fn engine_classifies_build_artifact() {
    let engine = StaticRuleEngine::new();
    let result = engine.classify(("C:\\dev\\myapp\\target\\debug\\myapp.exe"));
    assert!(result.is_some(), "Build artifact should be classified");
    let result = result.unwrap();
    assert!(matches!(result.classification.category, FileCategory::BuildArtifact));
}

#[test]
fn engine_classifies_thumbnail_cache() {
    let engine = StaticRuleEngine::new();
    let result = engine.classify(("C:\\Users\\Alice\\AppData\\Local\\Microsoft\\Windows\\Explorer\\thumbcache_256.db"));
    assert!(result.is_some(), "Thumbnail cache should be classified");
    let result = result.unwrap();
    assert!(matches!(result.classification.category, FileCategory::ThumbnailCache));
}

#[test]
fn engine_classifies_temp_extension() {
    let engine = StaticRuleEngine::new();
    let result = engine.classify(("C:\\work\\scratch\\x.tmp"));
    assert!(result.is_some(), ".tmp should be classified");
    let result = result.unwrap();
    assert!(matches!(result.classification.category, FileCategory::GenericTemp));
}

#[test]
fn engine_classifies_log_extension() {
    let engine = StaticRuleEngine::new();
    let result = engine.classify(("C:\\work\\app.log"));
    assert!(result.is_some(), ".log should be classified");
    let result = result.unwrap();
    assert!(matches!(result.classification.category, FileCategory::GenericLog));
}

#[test]
fn engine_classifies_download_fragment() {
    let engine = StaticRuleEngine::new();
    let result = engine.classify(("C:\\Users\\Alice\\Downloads\\video.crdownload"));
    assert!(result.is_some(), ".crdownload should be classified");
    let result = result.unwrap();
    assert!(matches!(result.classification.category, FileCategory::GenericFragment));
}

#[test]
fn engine_does_not_classify_unknown() {
    let engine = StaticRuleEngine::new();
    // 使用一个真正未知的路径（不在任何规则中）
    let result = engine.classify(("C:\\MyCustomApp\\data.dat"));
    assert!(result.is_none(), "Unknown path should not be classified by static rules");
}

// ─── 受保护路径测试 ───

#[test]
fn protected_system32() {
    let engine = StaticRuleEngine::new();
    assert!(engine.is_protected_path(("C:\\Windows\\System32\\kernel32.dll")));
    assert!(engine.is_protected_path(("C:\\Windows\\System32")));
}

#[test]
fn protected_winsxs() {
    let engine = StaticRuleEngine::new();
    assert!(engine.is_protected_path(("C:\\Windows\\WinSxS\\manifest")));
}

#[test]
fn protected_installer() {
    let engine = StaticRuleEngine::new();
    assert!(engine.is_protected_path(("C:\\Windows\\Installer\\abc.msi")));
}

#[test]
fn protected_program_files() {
    let engine = StaticRuleEngine::new();
    assert!(engine.is_protected_path(("C:\\Program Files\\App\\app.exe")));
    assert!(engine.is_protected_path(("C:\\Program Files (x86)\\App\\app.exe")));
}

#[test]
fn protected_programdata() {
    let engine = StaticRuleEngine::new();
    assert!(engine.is_protected_path(("C:\\ProgramData\\App\\state.db")));
}

#[test]
fn protected_user_libraries() {
    let engine = StaticRuleEngine::new();
    assert!(engine.is_protected_path(("C:\\Users\\Alice\\Desktop\\file.txt")));
    assert!(engine.is_protected_path(("C:\\Users\\Alice\\Downloads\\setup.exe")));
    assert!(engine.is_protected_path(("C:\\Users\\Bob\\文档\\report.docx")));
}

#[test]
fn not_protected_outside_users() {
    let engine = StaticRuleEngine::new();
    assert!(!engine.is_protected_path(("C:\\work\\Downloads\\setup.exe")));
    assert!(!engine.is_protected_path(("D:\\backup\\Documents\\x")));
}

#[test]
fn not_protected_windows_old() {
    let engine = StaticRuleEngine::new();
    assert!(!engine.is_protected_path(("C:\\Windows.old\\Windows\\System32")));
}

#[test]
fn not_protected_user_document() {
    let engine = StaticRuleEngine::new();
    // Users 目录下的 Documents 是受保护的库文件夹，但不在 Users 下的同名文件夹不受保护
    assert!(engine.is_protected_path(("C:\\Users\\Alice\\Documents\\report.docx")));
    assert!(!engine.is_protected_path(("C:\\work\\Documents\\report.docx")));
}



#[test]
fn risk_engine_analyzes_system_temp() {
    let engine = RiskEngine::new();
    let result = engine.analyze(("C:\\Windows\\Temp\\foo.tmp"));
    assert!(result.is_some());
    let result = result.unwrap();
    assert!(result.risk.is_safe_to_delete());
    assert_eq!(result.impact_description, "可安全删除，下次需要时自动重建");
}

#[test]
fn risk_engine_analyzes_browser_cache() {
    let engine = RiskEngine::new();
    let result = engine.analyze(("C:\\Users\\Alice\\AppData\\Local\\Google\\Chrome\\User Data\\Default\\Cache\\data_1"));
    assert!(result.is_some());
    let result = result.unwrap();
    assert!(result.risk.is_safe_to_delete());
}

#[test]
fn risk_engine_analyzes_unknown() {
    let engine = RiskEngine::new();
    let result = engine.analyze(("C:\\Users\\Alice\\Documents\\report.docx"));
    // 未知文件通过 AI 返回 Unknown 分类（保守策略）
    assert!(result.is_some(), "AI should return Unknown classification for unknown files");
    let result = result.unwrap();
    assert!(matches!(result.classification.category, FileCategory::Unknown));
    // 风险分应为 70（Essential）
    assert_eq!(result.risk.final_score, 70);
}

#[test]
fn risk_engine_can_delete_safe_file() {
    let engine = RiskEngine::new();
    // Windows Update 下载缓存是可安全删除的（不在系统保护路径中）
    let verdict = engine.can_delete(("C:\\Windows\\SoftwareDistribution\\Download\\KB12345\\payload.cab"));
    assert!(verdict.is_safe(), "Windows Update cache should be safe to delete");
}

#[test]
fn risk_engine_cannot_delete_system_file() {
    let engine = RiskEngine::new();
    let verdict = engine.can_delete(("C:\\Windows\\System32\\kernel32.dll"));
    assert!(!verdict.is_safe());
    assert!(verdict.is_unsafe());
}

#[test]
fn risk_engine_cannot_delete_protected_path() {
    let engine = RiskEngine::new();
    let verdict = engine.can_delete(("C:\\ProgramData\\App\\state.db"));
    assert!(!verdict.is_safe());
}

#[test]
fn safety_verdict_states() {
    assert!(SafetyVerdict::Safe.is_safe());
    assert!(!SafetyVerdict::Safe.is_unsafe());
    assert!(!SafetyVerdict::Safe.is_unknown());

    assert!(!SafetyVerdict::Unsafe("test".to_string()).is_safe());
    assert!(SafetyVerdict::Unsafe("test".to_string()).is_unsafe());
    assert!(!SafetyVerdict::Unsafe("test".to_string()).is_unknown());

    assert!(!SafetyVerdict::Unknown.is_safe());
    assert!(!SafetyVerdict::Unknown.is_unsafe());
    assert!(SafetyVerdict::Unknown.is_unknown());
}



#[test]
fn glob_matches_star() {
    assert!(glob_matches("thumbcache_256.db", "thumbcache_*.db"));
    assert!(glob_matches("iconcache_128.db", "iconcache_*.db"));
    assert!(!glob_matches("foo.txt", "thumbcache_*.db"));
}

#[test]
fn glob_matches_exact() {
    assert!(glob_matches("anything", "*"));
    assert!(glob_matches("abc.txt", "abc.txt"));
}

#[test]
fn glob_matches_prefix_suffix() {
    assert!(glob_matches("test_file_name.ext", "test_*.ext"));
    assert!(!glob_matches("test_file_name.ext", "test_*.txt"));
}

#[test]
fn path_prefix_component_boundary() {
    assert!(path_matches_prefix("c:\\windows\\temp", "c:\\windows"));
    assert!(!path_matches_prefix("c:\\windows.old", "c:\\windows"));
    assert!(path_matches_prefix("c:\\windows", "c:\\windows"));
    assert!(!path_matches_prefix("c:\\windows.old\\temp", "c:\\windows"));
}

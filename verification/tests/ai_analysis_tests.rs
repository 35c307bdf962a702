use cdrive_manager::ai_analysis::AiAnalysisPhase;
use cdrive_manager::ai_review::{analysis_prompt, audit_prompt, chat_endpoint, missing_api_key_error, AiReview, AiReviewAction};
use cdrive_manager::ai_analysis::{
    candidate_payloads, category_from_cleanup_rule, extract_json_object, fallback_findings, findings_from_analysis,
    findings_from_audit, normalized_enum, path_depth, provider_label, redact_path_like_text, truncate_error_body,
    AiAnalysisReport, AiAuditStatus, AiCleanupCategory, AiCleanupRisk, AiFindingSource, AiProviderConfig,
    AiRecommendation, AiReviewFinding, AnalysisVerdict, AuditVerdict, CandidateRecord,
};

fn temp_candidate(id: &str, path: &str, protected: bool) -> CandidateRecord {
    CandidateRecord {
        id: id.to_owned(),
        path: path.to_owned(),
        display_path: path.to_owned(),
        size: 1,
        source: AiFindingSource::CleanupPreview,
        category_hint: AiCleanupCategory::TempFile,
        risk_hint: AiCleanupRisk::Low,
        protected,
        reason: "位于 C:\\Users\\Alice\\Temp".to_owned(),
    }
}

#[test]
fn delete_list_candidate_requires_safe_audit_and_unprotected_path() {
    let mut finding = AiReviewFinding {
        path: "C:\\tmp\\a.tmp".to_owned(),
        display_path: "C:\\tmp\\a.tmp".to_owned(),
        size: 10,
        source: AiFindingSource::CleanupPreview,
        category: AiCleanupCategory::TempFile,
        risk: AiCleanupRisk::Low,
        protected: false,
        analysis_recommendation: AiRecommendation::CandidateForDeletion,
        analysis_reason: "临时文件".to_owned(),
        audit_status: AiAuditStatus::Approved,
        audit_reason: "通过".to_owned(),
        final_recommendation: AiRecommendation::CandidateForDeletion,
    };

    assert!(finding.is_delete_list_candidate());
    finding.protected = true;
    assert!(!finding.is_delete_list_candidate());
    finding.protected = false;
    finding.risk = AiCleanupRisk::Unknown;
    assert!(!finding.is_delete_list_candidate());
    finding.risk = AiCleanupRisk::Low;
    finding.audit_status = AiAuditStatus::NeedsHumanReview;
    assert!(!finding.is_delete_list_candidate());
}

#[test]
fn extracts_json_from_markdown_fence() {
    let value = extract_json_object("```json\n{\"findings\":[]}\n```").unwrap();
    assert_eq!(value, "{\"findings\":[]}");
}

#[test]
fn extracts_json_from_surrounding_prose_or_fails() {
    assert_eq!(extract_json_object("  {\"a\":1}  ").unwrap(), "{\"a\":1}");
    assert_eq!(extract_json_object("结果如下 {\"a\":1} 完毕").unwrap(), "{\"a\":1}");
    assert_eq!(extract_json_object("没有对象").unwrap_err(), "AI 返回内容不是 JSON 对象");
}

#[test]
fn redacted_payload_hides_full_path_and_reason_paths() {
    let config = AiProviderConfig::default();
    let candidate = temp_candidate("c1", "C:\\Users\\Alice\\secret.tmp", false);
    let payload = candidate_payloads(&config, &[candidate]);
    assert!(payload[0].path.starts_with("<redacted:c1"));
    assert!(!payload[0].reason.contains("Alice"));
}

#[test]
fn redacted_payload_describes_extension_and_depth() {
    let config = AiProviderConfig::default();
    let candidate = temp_candidate("c1", "C:\\Users\\Alice\\secret.tmp", false);
    let payload = candidate_payloads(&config, &[candidate]);
    assert_eq!(payload[0].path, "<redacted:c1:.tmp:depth5>");
    assert_eq!(payload[0].reason, "位于 <redacted>");
    assert_eq!(payload[0].path_depth, 5);
    assert_eq!(path_depth("a\\b"), 2);
    let full = AiProviderConfig { send_full_paths: true, ..AiProviderConfig::default() };
    let shown = candidate_payloads(&full, &[temp_candidate("c2", "C:\\x.log", true)]);
    assert_eq!(shown[0].path, "C:\\x.log");
    assert!(shown[0].protected);
}

#[test]
fn redaction_of_free_text() {
    assert_eq!(redact_path_like_text("see  D:/a and  b"), "see <redacted> and b");
    assert_eq!(redact_path_like_text(""), "");
}

#[test]
fn analysis_then_audit_never_lists_protected_files() {
    let candidates = vec![
        temp_candidate("c1", "C:\\tmp\\a.tmp", false),
        temp_candidate("c2", "C:\\Users\\Alice\\Documents\\b.tmp", true),
        temp_candidate("c3", "C:\\tmp\\c.tmp", false),
    ];
    let analyses = vec![
        AnalysisVerdict {
            id: "c1".to_owned(),
            category: "temp_file".to_owned(),
            risk: "low".to_owned(),
            recommendation: "candidate_for_deletion".to_owned(),
            reason: "临时文件".to_owned(),
        },
        AnalysisVerdict {
            id: "c2".to_owned(),
            category: "temp_file".to_owned(),
            risk: "low".to_owned(),
            recommendation: "candidate_for_deletion".to_owned(),
            reason: " ".to_owned(),
        },
    ];
    let first = findings_from_analysis(&candidates, &analyses);
    assert_eq!(first.len(), 3);
    assert_eq!(first[0].analysis_recommendation, AiRecommendation::CandidateForDeletion);
    assert_eq!(first[1].analysis_reason, "AI 未返回该候选的分析结果。");
    assert_eq!(first[2].analysis_recommendation, AiRecommendation::NeedsReview);

    let audits = vec![
        AuditVerdict {
            id: "c1".to_owned(),
            audit_status: "approved".to_owned(),
            final_recommendation: "candidate_for_deletion".to_owned(),
            category: "".to_owned(),
            risk: "".to_owned(),
            reason: "可以删除".to_owned(),
        },
        AuditVerdict {
            id: "c2".to_owned(),
            audit_status: "approved".to_owned(),
            final_recommendation: "candidate_for_deletion".to_owned(),
            category: "temp_file".to_owned(),
            risk: "low".to_owned(),
            reason: "可以删除".to_owned(),
        },
    ];
    let audited = findings_from_audit(&candidates, &analyses, &audits);
    assert!(audited[0].is_delete_list_candidate());
    assert_eq!(audited[1].final_recommendation, AiRecommendation::NeedsReview);
    assert_eq!(audited[1].audit_status, AiAuditStatus::Corrected);
    assert!(!audited[1].is_delete_list_candidate());
    assert_eq!(audited[2].audit_status, AiAuditStatus::NeedsHumanReview);

    let config = AiProviderConfig::default();
    let report = AiAnalysisReport::from_findings("C:\\".to_owned(), &config, audited, vec!["e".to_owned()]);
    assert_eq!(report.candidate_count, 3);
    assert_eq!(report.delete_candidate_count, 1);
    assert_eq!(report.protected_count, 1);
    assert_eq!(report.needs_review_count, 2);
    assert_eq!(report.error_count, 1);
    assert_eq!(report.provider_label, "api.openai.com/v1");
}

#[test]
fn fallback_findings_need_review() {
    let candidates = vec![temp_candidate("c1", "C:\\tmp\\a.tmp", false)];
    let findings = fallback_findings(&candidates, "网络错误");
    assert_eq!(findings.len(), 1);
    assert_eq!(findings[0].final_recommendation, AiRecommendation::NeedsReview);
    assert_eq!(findings[0].risk, AiCleanupRisk::Unknown);
    assert!(!findings[0].is_delete_list_candidate());
}

#[test]
fn enum_parsing_and_labels() {
    assert_eq!(normalized_enum(" Temp-File "), "temp_file");
    assert_eq!(AiCleanupCategory::parse("Temp File"), AiCleanupCategory::TempFile);
    assert_eq!(AiCleanupRisk::parse("HIGH"), AiCleanupRisk::High);
    assert_eq!(AiCleanupRisk::parse("whatever"), AiCleanupRisk::Unknown);
    assert_eq!(AiRecommendation::parse("keep"), AiRecommendation::Keep);
    assert_eq!(AiAuditStatus::parse("corrected"), AiAuditStatus::Corrected);
    assert_eq!(category_from_cleanup_rule("log_dump_extension"), AiCleanupCategory::LogOrDump);
    assert_eq!(category_from_cleanup_rule("other"), AiCleanupCategory::Unknown);
}

#[test]
fn error_bodies_are_cut() {
    let long: String = std::iter::repeat('x').take(401).collect();
    let cut = truncate_error_body(&long);
    assert_eq!(cut.chars().count(), 401);
    assert!(cut.ends_with('…'));
    assert_eq!(truncate_error_body("short"), "short");
}

#[test]
fn provider_label_is_the_host() {
    let config = AiProviderConfig { base_url: " http://localhost:11434/ ".to_owned(), ..AiProviderConfig::default() };
    assert_eq!(provider_label(&config), "localhost:11434");
}

#[test]
fn review_steps_follow_the_answers() {
    let config = AiProviderConfig::default();
    let (_, empty) = AiReview::start("C:\\".to_owned(), config.clone(), Vec::new());
    assert_eq!(empty.action, AiReviewAction::Finish);
    assert_eq!(empty.report.errors, vec!["没有可供 AI 分析的清理或重复文件候选。".to_owned()]);

    let candidates = vec![temp_candidate("c1", "C:\\tmp\\a.tmp", false), temp_candidate("c2", "C:\\tmp\\b.tmp", true)];
    let (mut review, first) = AiReview::start("C:\\".to_owned(), config.clone(), candidates);
    assert_eq!(first.action, AiReviewAction::RequestAnalysis);
    assert_eq!(first.phase, AiAnalysisPhase::Analyzing);
    assert_eq!(first.current_item.as_deref(), Some("已收集 2 个候选"));
    assert_eq!(first.report.findings[0].analysis_reason, "等待 AI 分析。");

    let analyses = vec![AnalysisVerdict {
        id: "c1".to_owned(),
        category: "temp_file".to_owned(),
        risk: "low".to_owned(),
        recommendation: "candidate_for_deletion".to_owned(),
        reason: "临时文件".to_owned(),
    }];
    let second = review.analysis_finished(Ok(analyses));
    assert_eq!(second.action, AiReviewAction::RequestAudit);
    assert_eq!(second.report.findings[0].analysis_recommendation, AiRecommendation::CandidateForDeletion);
    let third = review.audit_finished(Err("超时".to_owned()));
    assert_eq!(third.action, AiReviewAction::Finish);
    assert_eq!(third.report.errors, vec!["AI 审核失败：超时".to_owned()]);
    assert_eq!(third.report.findings[0].audit_reason, "AI 审核失败，已转入人工复核。");
    assert_eq!(third.report.delete_candidate_count, 0);

    let (mut failing, _) = AiReview::start("C:\\".to_owned(), config.clone(), vec![temp_candidate("c1", "C:\\x.tmp", false)]);
    let failed = failing.analysis_finished(Err("网络错误".to_owned()));
    assert!(failed.finished);
    assert_eq!(failed.report.errors, vec!["AI 分析失败：网络错误".to_owned()]);

    assert_eq!(chat_endpoint(&AiProviderConfig { base_url: "http://h/v1//".to_owned(), ..config.clone() }), "http://h/v1/chat/completions");
    assert!(missing_api_key_error(&config).starts_with("未找到环境变量 OPENAI_API_KEY。"));
    assert!(analysis_prompt("[]").ends_with("候选：\n[]"));
    assert!(audit_prompt("[1]", "[2]").ends_with("候选：\n[1]\n分析结果：\n[2]"));
}

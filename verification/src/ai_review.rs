//! The course of an AI review: after the candidates are collected the first model is asked,
//! then the auditing model; each answer (or failure) decides the report shown and what is
//! asked next. The requests themselves, and reading their JSON answers, are the caller's
//! part; so are cancellations, which end the review with the last report.
use vstd::prelude::*;
use crate::ai_analysis::{
    audited, audited_fallback, audited_fallback_findings, fallback_finding, fallback_findings, find_analysis, find_audit,
    findings_from_analysis, findings_from_audit, AiAnalysisPhase, AiAnalysisReport, AiProviderConfig, AnalysisVerdict,
    AuditVerdict, CandidateRecord,
};
use crate::text::{chars_of, decimal, decimal_chars, push_all, push_lit, string_from_chars};

verus! {

/// What the caller does next.
#[derive(Debug, Clone, Copy, PartialEq, Eq, Structural)]
pub enum AiReviewAction {
    /// Ask the first model about the candidates.
    RequestAnalysis,
    /// Ask the auditing model about the candidates and the first answers.
    RequestAudit,
    /// Report the review as finished.
    Finish,
}

/// The report to show after a step of the review, and what comes next.
pub struct AiReviewStep {
    pub report: AiAnalysisReport,
    pub phase: AiAnalysisPhase,
    pub current_item: Option<String>,
    pub finished: bool,
    pub action: AiReviewAction,
}

/// A review under way.
pub struct AiReview {
    pub root: String,
    pub config: AiProviderConfig,
    pub candidates: Vec<CandidateRecord>,
    pub analyses: Vec<AnalysisVerdict>,
    pub errors: Vec<String>,
}

/// The texts of the strings.
pub open spec fn texts(v: Seq<String>) -> Seq<Seq<char>> {
    v.map_values(|s: String| s@)
}

/// Reason given to every candidate while the first model has not answered.
pub open spec fn waiting_reason() -> Seq<char> {
    "等待 AI 分析。"@
}

/// Reason given when the first model failed.
pub open spec fn analysis_failed_reason() -> Seq<char> {
    "AI 分析失败，已转入人工复核。"@
}

/// Reason given when the audit failed.
pub open spec fn audit_failed_reason() -> Seq<char> {
    "AI 审核失败，已转入人工复核。"@
}

/// The error of a review without candidates.
pub open spec fn no_candidates_error() -> Seq<char> {
    "没有可供 AI 分析的清理或重复文件候选。"@
}

fn string_of(prefix: &str, detail: &str) -> (r: String)
    ensures
        r@ == prefix@ + detail@,
{
    let mut m: Vec<char> = Vec::new();
    push_lit(&mut m, prefix);
    let d = chars_of(detail);
    push_all(&mut m, d.as_slice());
    string_from_chars(m.as_slice())
}

impl AiReview {
    /// Starts a review of the collected candidates: with none, it is finished with an
    /// error; else every candidate waits for the first model, which is asked next.
    pub fn start(root: String, config: AiProviderConfig, candidates: Vec<CandidateRecord>) -> (r: (AiReview, AiReviewStep))
        ensures
            r.0.root == root,
            r.0.candidates@ == candidates@,
            r.0.analyses@.len() == 0,
            candidates@.len() == 0 ==> {
                &&& texts(r.0.errors@) == seq![no_candidates_error()]
                &&& r.1.action == AiReviewAction::Finish
                &&& r.1.finished
                &&& r.1.phase == AiAnalysisPhase::Finished
                &&& r.1.current_item is None
                &&& r.1.report.findings@.len() == 0
                &&& texts(r.1.report.errors@) == texts(r.0.errors@)
            },
            candidates@.len() > 0 ==> {
                &&& r.0.errors@.len() == 0
                &&& r.1.action == AiReviewAction::RequestAnalysis
                &&& !r.1.finished
                &&& r.1.phase == AiAnalysisPhase::Analyzing
                &&& r.1.current_item matches Some(t) && t@ == "已收集 "@ + decimal(candidates@.len()) + " 个候选"@
                &&& r.1.report.findings@.len() == candidates@.len()
                &&& forall|i: int| 0 <= i < candidates@.len() ==> fallback_finding(#[trigger] r.1.report.findings@[i], candidates@[i], waiting_reason())
                &&& r.1.report.errors@.len() == 0
            },
            r.1.report.root == root,
    {
        if candidates.len() == 0 {
            let errors = vec![String::from_str("没有可供 AI 分析的清理或重复文件候选。")];
            proof {
                reveal_strlit("没有可供 AI 分析的清理或重复文件候选。");
            }
            assert(texts(errors@) =~= seq![no_candidates_error()]);
            let report = AiAnalysisReport::from_findings(root.clone(), &config, Vec::new(), crate::text::copy_strings(&errors));
            let review = AiReview { root, config, candidates, analyses: Vec::new(), errors };
            let step = AiReviewStep {
                report,
                phase: AiAnalysisPhase::Finished,
                current_item: None,
                finished: true,
                action: AiReviewAction::Finish,
            };
            return (review, step);
        }
        let findings = fallback_findings(candidates.as_slice(), "等待 AI 分析。");
        let report = AiAnalysisReport::from_findings(root.clone(), &config, findings, Vec::new());
        let mut m: Vec<char> = Vec::new();
        push_lit(&mut m, "已收集 ");
        let n = decimal_chars(candidates.len() as u64);
        push_all(&mut m, n.as_slice());
        push_lit(&mut m, " 个候选");
        let step = AiReviewStep {
            report,
            phase: AiAnalysisPhase::Analyzing,
            current_item: Some(string_from_chars(m.as_slice())),
            finished: false,
            action: AiReviewAction::RequestAnalysis,
        };
        (AiReview { root, config, candidates, analyses: Vec::new(), errors: Vec::new() }, step)
    }

    /// The first model answered (or failed, with the reason): on failure the review is
    /// finished with every candidate sent to review; else the audit is asked next.
    pub fn analysis_finished(&mut self, result: Result<Vec<AnalysisVerdict>, String>) -> (step: AiReviewStep)
        ensures
            final(self).root == old(self).root,
            final(self).candidates@ == old(self).candidates@,
            step.report.root == old(self).root,
            step.report.findings@.len() == old(self).candidates@.len(),
            match result {
                Err(e) => {
                    &&& texts(final(self).errors@) == texts(old(self).errors@).push("AI 分析失败："@ + e@)
                    &&& final(self).analyses@ == old(self).analyses@
                    &&& step.action == AiReviewAction::Finish
                    &&& step.finished
                    &&& step.phase == AiAnalysisPhase::Finished
                    &&& forall|i: int| 0 <= i < old(self).candidates@.len() ==> fallback_finding(
                        #[trigger] step.report.findings@[i],
                        old(self).candidates@[i],
                        analysis_failed_reason(),
                    )
                },
                Ok(a) => {
                    &&& final(self).errors@ == old(self).errors@
                    &&& final(self).analyses@ == a@
                    &&& step.action == AiReviewAction::RequestAudit
                    &&& !step.finished
                    &&& step.phase == AiAnalysisPhase::Auditing
                    &&& step.current_item matches Some(t) && t@ == "分析完成，正在进行审核 AI 复核"@
                    &&& forall|i: int| 0 <= i < old(self).candidates@.len() ==> audited_fallback(
                        #[trigger] step.report.findings@[i],
                        old(self).candidates@[i],
                        find_analysis(a@, old(self).candidates@[i].id@),
                        "等待审核 AI 复核。"@,
                    )
                },
            },
            texts(step.report.errors@) == texts(final(self).errors@),
    {
        match result {
            Err(e) => {
                self.errors.push(string_of("AI 分析失败：", e.as_str()));
                proof {
                    reveal_strlit("AI 分析失败，已转入人工复核。");
                }
                let findings = fallback_findings(self.candidates.as_slice(), "AI 分析失败，已转入人工复核。");
                let errors = crate::text::copy_strings(&self.errors);
                assert(texts(self.errors@) =~= texts(old(self).errors@).push("AI 分析失败："@ + e@));
                let report = AiAnalysisReport::from_findings(self.root.clone(), &self.config, findings, errors);
                assert(texts(report.errors@) =~= texts(self.errors@));
                AiReviewStep {
                    report,
                    phase: AiAnalysisPhase::Finished,
                    current_item: None,
                    finished: true,
                    action: AiReviewAction::Finish,
                }
            },
            Ok(a) => {
                let findings = findings_from_analysis(self.candidates.as_slice(), a.as_slice());
                let errors = crate::text::copy_strings(&self.errors);
                let report = AiAnalysisReport::from_findings(self.root.clone(), &self.config, findings, errors);
                assert(texts(report.errors@) =~= texts(self.errors@));
                self.analyses = a;
                AiReviewStep {
                    report,
                    phase: AiAnalysisPhase::Auditing,
                    current_item: Some(String::from_str("分析完成，正在进行审核 AI 复核")),
                    finished: false,
                    action: AiReviewAction::RequestAudit,
                }
            },
        }
    }

    /// The auditing model answered (or failed, with the reason): the review is finished,
    /// with the audited findings, or with every candidate sent to review on failure.
    pub fn audit_finished(&mut self, result: Result<Vec<AuditVerdict>, String>) -> (step: AiReviewStep)
        ensures
            final(self).root == old(self).root,
            final(self).candidates@ == old(self).candidates@,
            final(self).analyses@ == old(self).analyses@,
            step.report.root == old(self).root,
            step.action == AiReviewAction::Finish,
            step.finished,
            step.phase == AiAnalysisPhase::Finished,
            step.current_item is None,
            step.report.findings@.len() == old(self).candidates@.len(),
            match result {
                Err(e) => {
                    &&& texts(final(self).errors@) == texts(old(self).errors@).push("AI 审核失败："@ + e@)
                    &&& forall|i: int| 0 <= i < old(self).candidates@.len() ==> audited_fallback(
                        #[trigger] step.report.findings@[i],
                        old(self).candidates@[i],
                        find_analysis(old(self).analyses@, old(self).candidates@[i].id@),
                        audit_failed_reason(),
                    )
                },
                Ok(u) => {
                    &&& final(self).errors@ == old(self).errors@
                    &&& forall|i: int| 0 <= i < old(self).candidates@.len() ==> audited(
                        #[trigger] step.report.findings@[i],
                        old(self).candidates@[i],
                        find_analysis(old(self).analyses@, old(self).candidates@[i].id@),
                        find_audit(u@, old(self).candidates@[i].id@),
                    )
                },
            },
            texts(step.report.errors@) == texts(final(self).errors@),
    {
        let findings = match result {
            Err(e) => {
                self.errors.push(string_of("AI 审核失败：", e.as_str()));
                assert(texts(self.errors@) =~= texts(old(self).errors@).push("AI 审核失败："@ + e@));
                proof {
                    reveal_strlit("AI 审核失败，已转入人工复核。");
                }
                audited_fallback_findings(self.candidates.as_slice(), self.analyses.as_slice(), "AI 审核失败，已转入人工复核。")
            },
            Ok(u) => findings_from_audit(self.candidates.as_slice(), self.analyses.as_slice(), u.as_slice()),
        };
        let errors = crate::text::copy_strings(&self.errors);
        let report = AiAnalysisReport::from_findings(self.root.clone(), &self.config, findings, errors);
        assert(texts(report.errors@) =~= texts(self.errors@));
        AiReviewStep {
            report,
            phase: AiAnalysisPhase::Finished,
            current_item: None,
            finished: true,
            action: AiReviewAction::Finish,
        }
    }
}

// ---------------------------------------------------------------------------------------
// Requests

/// The address of the chat completion service of a base URL.
pub open spec fn spec_chat_endpoint(base_url: Seq<char>) -> Seq<char> {
    crate::ai_analysis::trim_trailing(base_url, '/') + "/chat/completions"@
}

/// The address of the chat completion service.
pub fn chat_endpoint(config: &AiProviderConfig) -> (r: String)
    ensures
        r@ == spec_chat_endpoint(config.base_url@),
{
    let v = chars_of(config.base_url.as_str());
    let mut out = crate::ai_analysis::trim_trailing_chars(v.as_slice(), '/');
    push_lit(&mut out, "/chat/completions");
    string_from_chars(out.as_slice())
}

/// The error when the API key is not in the environment.
pub fn missing_api_key_error(config: &AiProviderConfig) -> (r: String)
    ensures
        r@ == "未找到环境变量 "@ + config.api_key_env@ + "。请设置 OpenAI 兼容 API Key；程序不会保存或导出该密钥。"@,
{
    let mut m: Vec<char> = Vec::new();
    push_lit(&mut m, "未找到环境变量 ");
    let k = chars_of(config.api_key_env.as_str());
    push_all(&mut m, k.as_slice());
    push_lit(&mut m, "。请设置 OpenAI 兼容 API Key；程序不会保存或导出该密钥。");
    string_from_chars(m.as_slice())
}

/// The instructions to the first model, before the candidates (as JSON).
pub open spec fn analysis_prompt_head() -> Seq<char> {
    "请作为磁盘清理分析 AI，对候选文件逐项分类。只输出 JSON，不要 Markdown。\n输出 schema: {\"findings\":[{\"id\":\"c1\",\"category\":\"temp_file|cache_file|log_or_dump|backup_or_old|duplicate|installer_or_download|build_artifact|unknown|keep\",\"risk\":\"safe|low|medium|high|unknown\",\"confidence\":0.0,\"recommendation\":\"candidate_for_deletion|keep|needs_review\",\"reason\":\"简短中文理由\"}]}。\n规则：遇到 protected=true、系统/程序/用户资料、语义不明或风险不确定时必须 recommendation=needs_review 或 keep；不要因为文件大就建议删除；不要编造未给出的路径信息。path 可能已脱敏。候选：\n"@
}

/// The request to the first model, with the candidates as JSON.
pub fn analysis_prompt(payloads_json: &str) -> (r: String)
    ensures
        r@ == analysis_prompt_head() + payloads_json@,
{
    string_of(
        "请作为磁盘清理分析 AI，对候选文件逐项分类。只输出 JSON，不要 Markdown。\n输出 schema: {\"findings\":[{\"id\":\"c1\",\"category\":\"temp_file|cache_file|log_or_dump|backup_or_old|duplicate|installer_or_download|build_artifact|unknown|keep\",\"risk\":\"safe|low|medium|high|unknown\",\"confidence\":0.0,\"recommendation\":\"candidate_for_deletion|keep|needs_review\",\"reason\":\"简短中文理由\"}]}。\n规则：遇到 protected=true、系统/程序/用户资料、语义不明或风险不确定时必须 recommendation=needs_review 或 keep；不要因为文件大就建议删除；不要编造未给出的路径信息。path 可能已脱敏。候选：\n",
        payloads_json,
    )
}

/// The instructions to the auditing model, before the candidates (as JSON).
pub open spec fn audit_prompt_head() -> Seq<char> {
    "请作为更保守的审核 AI，复核另一个 AI 的磁盘清理判断并纠错，目标是避免误删。只输出 JSON，不要 Markdown。\n输出 schema: {\"findings\":[{\"id\":\"c1\",\"audit_status\":\"approved|corrected|rejected|needs_human_review\",\"final_recommendation\":\"candidate_for_deletion|keep|needs_review\",\"category\":\"temp_file|cache_file|log_or_dump|backup_or_old|duplicate|installer_or_download|build_artifact|unknown|keep\",\"risk\":\"safe|low|medium|high|unknown\",\"confidence\":0.0,\"reason\":\"简短中文审核理由\"}]}。\n硬性规则：protected=true 不能进入 candidate_for_deletion；高风险/未知风险必须 needs_review 或 keep；只在规则和证据都充分时批准 candidate_for_deletion；可纠正错误分类。候选：\n"@
}

/// The request to the auditing model, with the candidates and the first answers as JSON.
pub fn audit_prompt(payloads_json: &str, analyses_json: &str) -> (r: String)
    ensures
        r@ == audit_prompt_head() + payloads_json@ + "\n分析结果：\n"@ + analyses_json@,
{
    let head = string_of(
        "请作为更保守的审核 AI，复核另一个 AI 的磁盘清理判断并纠错，目标是避免误删。只输出 JSON，不要 Markdown。\n输出 schema: {\"findings\":[{\"id\":\"c1\",\"audit_status\":\"approved|corrected|rejected|needs_human_review\",\"final_recommendation\":\"candidate_for_deletion|keep|needs_review\",\"category\":\"temp_file|cache_file|log_or_dump|backup_or_old|duplicate|installer_or_download|build_artifact|unknown|keep\",\"risk\":\"safe|low|medium|high|unknown\",\"confidence\":0.0,\"reason\":\"简短中文审核理由\"}]}。\n硬性规则：protected=true 不能进入 candidate_for_deletion；高风险/未知风险必须 needs_review 或 keep；只在规则和证据都充分时批准 candidate_for_deletion；可纠正错误分类。候选：\n",
        payloads_json,
    );
    let mid = string_of(head.as_str(), "\n分析结果：\n");
    string_of(mid.as_str(), analyses_json)
}

} // verus!

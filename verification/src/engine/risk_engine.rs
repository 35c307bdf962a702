//! Unified risk decisions: static rules first, then dynamic adjustments, and the
//! assisted analysis for paths no rule recognises.
use vstd::prelude::*;
use crate::engine::ai_assist::{lemma_heuristic_signs, unknown_analysis, AiAssistEngine};
use crate::text::{contains, lower_seq};
use crate::winpath::{extension, file_name};
use crate::engine::classification::{FileCategory, FileClassification, FileImportance};
use crate::engine::dynamic_perception::{adjustment_for_snapshot, DynamicPerceptionEngine, DynamicSnapshot};
use crate::engine::risk_assessment::{clamp, level_of, DecisionSource, Recommendation, RiskAssessment};
use crate::engine::static_rules::{first_rule, rule_table, rule_views, spec_is_protected, StaticRuleEngine};

verus! {

/// The analysis of one file.
#[derive(Debug, Clone)]
pub struct AnalysisResult {
    pub classification: FileClassification,
    pub risk: RiskAssessment,
    /// Human-readable impact of deleting it.
    pub impact_description: String,
    pub dynamic_snapshot: Option<DynamicSnapshot>,
}

/// The verdict on deleting a file.
#[derive(Debug, Clone, PartialEq, Eq)]
pub enum SafetyVerdict {
    /// Safe to delete.
    Safe,
    /// Not safe, with the reason.
    Unsafe(String),
    /// Not decided.
    Unknown,
}

impl SafetyVerdict {
    pub fn is_safe(&self) -> (b: bool)
        ensures
            b == (*self is Safe),
    {
        match self {
            SafetyVerdict::Safe => true,
            _ => false,
        }
    }

    pub fn is_unsafe(&self) -> (b: bool)
        ensures
            b == (*self is Unsafe),
    {
        match self {
            SafetyVerdict::Unsafe(_) => true,
            _ => false,
        }
    }

    pub fn is_unknown(&self) -> (b: bool)
        ensures
            b == (*self is Unknown),
    {
        match self {
            SafetyVerdict::Unknown => true,
            _ => false,
        }
    }
}

/// Recommendation for a classified file with a given final score.
pub open spec fn spec_recommendation(importance: FileImportance, final_score: int) -> Recommendation {
    if importance == FileImportance::Critical || importance == FileImportance::Essential {
        Recommendation::Keep
    } else if final_score > 60 {
        Recommendation::Review
    } else if importance == FileImportance::Disposable {
        Recommendation::Delete
    } else if final_score <= 30 {
        Recommendation::Delete
    } else {
        Recommendation::Review
    }
}

/// The impact of deleting a file of this category and importance.
pub open spec fn spec_impact(category: FileCategory, importance: FileImportance) -> Seq<char> {
    match category {
        FileCategory::SystemBinary | FileCategory::SystemDriver | FileCategory::ComponentStore => "删除会导致系统崩溃或无法启动"@,
        FileCategory::InstallerCache => "删除会导致已安装应用无法卸载或修复"@,
        FileCategory::SystemTemp | FileCategory::WindowsUpdateCache | FileCategory::DeliveryOptimization => "可安全删除，下次需要时自动重建"@,
        FileCategory::PrefetchData => "删除后应用启动可能略慢，系统会自动重建"@,
        FileCategory::BrowserCache | FileCategory::AppCache => "删除后应用会自动重建缓存，无数据丢失"@,
        FileCategory::BuildArtifact => "删除后需重新构建，源码不受影响"@,
        FileCategory::PackageManagerCache => "删除后下次安装需重新下载依赖"@,
        FileCategory::ErrorReport => "删除后丢失历史崩溃报告，无功能影响"@,
        FileCategory::MemoryDump => "删除后丢失诊断转储，无功能影响"@,
        FileCategory::GenericLog | FileCategory::SystemLog | FileCategory::AppLog => "删除后丢失日志历史，无功能影响"@,
        _ => match importance {
            FileImportance::Critical => "删除会导致系统崩溃或无法启动"@,
            FileImportance::Essential => "删除会导致应用无法运行或数据丢失"@,
            FileImportance::Performance => "删除后性能可能下降，但功能正常"@,
            FileImportance::Optional => "删除后自动重建，无持久影响"@,
            FileImportance::Disposable => "可安全删除，无任何影响"@,
        },
    }
}

/// The unified decision engine (without a persistent cache).
#[derive(Debug, Clone)]
pub struct RiskEngine {
    pub static_engine: StaticRuleEngine,
    pub dynamic_engine: DynamicPerceptionEngine,
    pub ai_engine: AiAssistEngine,
}

/// The score adjustment of what was observed at runtime: none when nothing was.
pub open spec fn observed_adjustment(observed: Option<DynamicSnapshot>) -> int {
    match observed {
        Some(s) => s.spec_adjustment(),
        None => 0,
    }
}

/// The analysis of a path that a static rule recognises, given what was observed of the
/// file at runtime.
pub open spec fn static_analysis_observed(
    engine: RiskEngine,
    path: Seq<char>,
    observed: Option<DynamicSnapshot>,
    r: AnalysisResult,
) -> bool {
    let rule = engine.static_engine.rules@[first_rule(engine.static_engine.rules@, path)];
    let adjustment = observed_adjustment(observed);
    let score = clamp(rule.importance.spec_base_score() as int + adjustment, 0, 100);
    &&& r.classification.path@ == path
    &&& r.classification.category == rule.category
    &&& r.classification.layer == rule.category.spec_layer()
    &&& r.classification.importance == rule.importance
    &&& r.classification.owner matches Some(o) && o@ == rule.owner_hint@
    &&& r.risk.base_score == rule.importance.spec_base_score()
    &&& r.risk.dynamic_adjustment == adjustment
    &&& r.risk.age_adjustment == 0
    &&& r.risk.dependency_adjustment == 0
    &&& r.risk.final_score == score
    &&& r.risk.level == level_of(score)
    &&& r.risk.decision_source == (if adjustment != 0 {
        DecisionSource::DynamicPerception
    } else {
        DecisionSource::StaticRule
    })
    &&& r.risk.recommendation == spec_recommendation(rule.importance, score)
    &&& r.impact_description@ == spec_impact(rule.category, rule.importance)
    &&& r.risk.impact_description@ == r.impact_description@
    &&& r.dynamic_snapshot == observed
}

/// The analysis of a path that a static rule recognises, with nothing observed at runtime.
pub open spec fn static_analysis(engine: RiskEngine, path: Seq<char>, r: AnalysisResult) -> bool {
    static_analysis_observed(engine, path, None, r)
}

impl RiskEngine {
    pub fn new() -> (r: Self)
        ensures
            rule_views(r.static_engine.rules@) == rule_table(),
    {
        RiskEngine {
            static_engine: StaticRuleEngine::new(),
            dynamic_engine: DynamicPerceptionEngine::new(),
            ai_engine: AiAssistEngine::new(),
        }
    }

    /// Full analysis of a file: the first static rule that recognises it gives the
    /// classification and base score; what was observed of the file at runtime adjusts the
    /// score and is kept with the result; the recommendation and impact follow from
    /// category, importance and score. A path that no rule recognises gets the assisted
    /// analysis.
    pub fn analyze_observed(&self, path: &str, observed: Option<DynamicSnapshot>) -> (r: Option<AnalysisResult>)
        ensures
            r is Some,
            r matches Some(res) ==> if first_rule(self.static_engine.rules@, path@) >= 0 {
                static_analysis_observed(*self, path@, observed, res)
            } else {
                unknown_analysis(path@, res)
            },
    {
        match self.static_engine.classify(path) {
            Some(static_result) => {
                let classification = static_result.classification;
                let base_score = classification.importance.base_score();
                let mut risk = RiskAssessment::from_base(base_score).with_source(DecisionSource::StaticRule);
                let dynamic_adjustment = match &observed {
                    Some(snapshot) => adjustment_for_snapshot(snapshot),
                    None => 0,
                };
                if dynamic_adjustment != 0 {
                    risk = risk.with_dynamic(dynamic_adjustment);
                    risk = risk.with_source(DecisionSource::DynamicPerception);
                }
                let recommendation = Self::compute_recommendation(&classification, &risk);
                risk = risk.with_recommendation(recommendation);
                let impact_description = Self::describe_impact(&classification, &risk);
                risk = risk.with_impact(impact_description.as_str());
                Some(AnalysisResult { classification, risk, impact_description, dynamic_snapshot: observed })
            },
            None => self.ai_engine.analyze_unknown_file(path),
        }
    }

    /// Full analysis of a file where nothing can be observed at runtime (without the
    /// Windows API): the static rule decides alone.
    pub fn analyze(&self, path: &str) -> (r: Option<AnalysisResult>)
        ensures
            r is Some,
            first_rule(self.static_engine.rules@, path@) < 0 && (match file_name(path@) {
            Some(n) => !contains(lower_seq(n), "temp"@) && !contains(lower_seq(n), "tmp"@) && !contains(lower_seq(n), "cache"@) && !contains(lower_seq(n), "log"@) && !contains(lower_seq(n), "backup"@) && !contains(lower_seq(n), ".bak"@) && !contains(lower_seq(n), "crash"@) && !contains(lower_seq(n), "dump"@),
            None => true,
        }) && !contains(lower_seq(path@), "\\temp\\"@) && !contains(lower_seq(path@), "\\tmp\\"@) && !contains(lower_seq(path@), "\\cache\\"@) && !contains(lower_seq(path@), "\\caches\\"@) && !contains(lower_seq(path@), "\\logs\\"@) && !contains(lower_seq(path@), "\\log\\"@) && !contains(lower_seq(path@), "\\backup\\"@) && !contains(lower_seq(path@), "\\backups\\"@) && !contains(lower_seq(path@), "\\download\\"@) && !contains(lower_seq(path@), "\\downloads\\"@) && (match extension(path@) {
            Some(e) => lower_seq(e) != "tmp"@ && lower_seq(e) != "temp"@ && lower_seq(e) != "pid"@ && lower_seq(e) != "log"@ && lower_seq(e) != "bak"@ && lower_seq(e) != "dmp"@ && lower_seq(e) != "etl"@,
            None => true,
        }) ==> (r matches Some(res)
                && res.classification.category == FileCategory::Unknown && res.classification.importance
                == FileImportance::Essential && res.risk.final_score == 70),
            r matches Some(res) ==> if first_rule(self.static_engine.rules@, path@) >= 0 {
                static_analysis(*self, path@, res)
            } else {
                unknown_analysis(path@, res)
            },
    {
        proof {
            lemma_heuristic_signs(path@);
        }
        self.analyze_observed(path, None)
    }

    /// Whether a file can be deleted safely: its final score is at most 30.
    pub fn can_delete(&self, path: &str) -> (r: SafetyVerdict)
        ensures
            forall|res: AnalysisResult| (first_rule(self.static_engine.rules@, path@) >= 0 && static_analysis(*self, path@, res))
                ==> (r is Safe <==> res.risk.final_score <= 30),
            r is Unknown ==> false,
            first_rule(self.static_engine.rules@, path@) < 0 && (match file_name(path@) {
            Some(n) => !contains(lower_seq(n), "temp"@) && !contains(lower_seq(n), "tmp"@) && !contains(lower_seq(n), "cache"@) && !contains(lower_seq(n), "log"@) && !contains(lower_seq(n), "backup"@) && !contains(lower_seq(n), ".bak"@) && !contains(lower_seq(n), "crash"@) && !contains(lower_seq(n), "dump"@),
            None => true,
        }) && !contains(lower_seq(path@), "\\temp\\"@) && !contains(lower_seq(path@), "\\tmp\\"@) && !contains(lower_seq(path@), "\\cache\\"@) && !contains(lower_seq(path@), "\\caches\\"@) && !contains(lower_seq(path@), "\\logs\\"@) && !contains(lower_seq(path@), "\\log\\"@) && !contains(lower_seq(path@), "\\backup\\"@) && !contains(lower_seq(path@), "\\backups\\"@) && !contains(lower_seq(path@), "\\download\\"@) && !contains(lower_seq(path@), "\\downloads\\"@) && (match extension(path@) {
            Some(e) => lower_seq(e) != "tmp"@ && lower_seq(e) != "temp"@ && lower_seq(e) != "pid"@ && lower_seq(e) != "log"@ && lower_seq(e) != "bak"@ && lower_seq(e) != "dmp"@ && lower_seq(e) != "etl"@,
            None => true,
        }) ==> r is Unsafe,
    {
        match self.analyze(path) {
            Some(result) => {
                if result.risk.is_safe_to_delete() {
                    SafetyVerdict::Safe
                } else {
                    SafetyVerdict::Unsafe(result.impact_description)
                }
            },
            None => {
                if self.static_engine.is_protected_path(path) {
                    SafetyVerdict::Unsafe(String::from_str("路径位于系统保护区域"))
                } else {
                    SafetyVerdict::Unknown
                }
            },
        }
    }

    /// The impact of deleting a classified file.
    pub fn describe_impact(classification: &FileClassification, risk: &RiskAssessment) -> (r: String)
        ensures
            r@ == spec_impact(classification.category, classification.importance),
    {
        let text = match classification.category {
            FileCategory::SystemBinary | FileCategory::SystemDriver | FileCategory::ComponentStore => "删除会导致系统崩溃或无法启动",
            FileCategory::InstallerCache => "删除会导致已安装应用无法卸载或修复",
            FileCategory::SystemTemp | FileCategory::WindowsUpdateCache | FileCategory::DeliveryOptimization => "可安全删除，下次需要时自动重建",
            FileCategory::PrefetchData => "删除后应用启动可能略慢，系统会自动重建",
            FileCategory::BrowserCache | FileCategory::AppCache => "删除后应用会自动重建缓存，无数据丢失",
            FileCategory::BuildArtifact => "删除后需重新构建，源码不受影响",
            FileCategory::PackageManagerCache => "删除后下次安装需重新下载依赖",
            FileCategory::ErrorReport => "删除后丢失历史崩溃报告，无功能影响",
            FileCategory::MemoryDump => "删除后丢失诊断转储，无功能影响",
            FileCategory::GenericLog | FileCategory::SystemLog | FileCategory::AppLog => "删除后丢失日志历史，无功能影响",
            _ => match classification.importance {
                FileImportance::Critical => "删除会导致系统崩溃或无法启动",
                FileImportance::Essential => "删除会导致应用无法运行或数据丢失",
                FileImportance::Performance => "删除后性能可能下降，但功能正常",
                FileImportance::Optional => "删除后自动重建，无持久影响",
                FileImportance::Disposable => "可安全删除，无任何影响",
            },
        };
        String::from_str(text)
    }

    /// The recommendation for a classified file with an assessed risk.
    pub fn compute_recommendation(classification: &FileClassification, risk: &RiskAssessment) -> (r: Recommendation)
        ensures
            r == spec_recommendation(classification.importance, risk.final_score as int),
    {
        match classification.importance {
            FileImportance::Critical | FileImportance::Essential => {
                return Recommendation::Keep;
            },
            _ => {},
        }
        if risk.final_score > 60 {
            return Recommendation::Review;
        }
        match classification.importance {
            FileImportance::Disposable => {
                return Recommendation::Delete;
            },
            _ => {},
        }
        if risk.final_score <= 30 {
            Recommendation::Delete
        } else if risk.final_score <= 60 {
            Recommendation::Review
        } else {
            Recommendation::Keep
        }
    }
}

impl Default for RiskEngine {
    fn default() -> (r: Self)
        ensures
            rule_views(r.static_engine.rules@) == rule_table(),
    {
        Self::new()
    }
}

/// A statically recognised file is recommended for deletion only when its importance is
/// neither critical nor essential and its score is at most 30, or it is disposable
/// with a score of at most 60.
pub proof fn lemma_delete_recommendation(importance: FileImportance, score: int)
    ensures
        spec_recommendation(importance, score) == Recommendation::Delete <==> (
        importance != FileImportance::Critical && importance != FileImportance::Essential && (
        score <= 30 || (importance == FileImportance::Disposable && score <= 60))),
{
}

} // verus!

//! Assisted analysis of files that no static rule recognises: name and path heuristics,
//! falling back to a conservative "unknown" verdict.
use vstd::prelude::*;
use crate::engine::classification::{FileCategory, FileClassification, FileImportance};
use crate::engine::risk_assessment::{clamp, level_of, DecisionSource, RiskAssessment};
use crate::engine::risk_engine::AnalysisResult;
use crate::text::{chars_of, contains, contains_chars, lower_seq, push_all, push_lit, str_eq, string_from_chars, to_lower};
use crate::winpath::{extension, extension_chars, file_name, file_name_chars, runs, component, parent, parent_chars, component_ranges};

verus! {

/// Assisted analysis engine for files that no static rule recognises.
#[derive(Debug, Clone)]
pub struct AiAssistEngine {}

pub open spec fn has(s: Seq<char>, lit: &str) -> bool {
    contains(s, lit@)
}

/// Heuristic category of a file from its name, its path and its extension.
pub open spec fn spec_heuristic(path: Seq<char>) -> Option<(FileCategory, FileImportance)> {
    match file_name(path) {
        None => None,
        Some(n) => {
            let name = lower_seq(n);
            let p = lower_seq(path);
            let ext = match extension(path) {
                Some(e) => lower_seq(e),
                None => seq!['\u{0}'],
            };
            if has(name, "temp") || has(name, "tmp") || has(name, "cache") {
                Some((FileCategory::GenericTemp, FileImportance::Disposable))
            } else if has(name, "log") {
                Some((FileCategory::GenericLog, FileImportance::Optional))
            } else if has(name, "backup") || has(name, ".bak") {
                Some((FileCategory::GenericBackup, FileImportance::Optional))
            } else if has(name, "crash") || has(name, "dump") {
                Some((FileCategory::CrashDump, FileImportance::Disposable))
            } else if has(p, "\\temp\\") || has(p, "\\tmp\\") {
                Some((FileCategory::GenericTemp, FileImportance::Disposable))
            } else if has(p, "\\cache\\") || has(p, "\\caches\\") {
                Some((FileCategory::GenericCache, FileImportance::Optional))
            } else if has(p, "\\logs\\") || has(p, "\\log\\") {
                Some((FileCategory::GenericLog, FileImportance::Optional))
            } else if has(p, "\\backup\\") || has(p, "\\backups\\") {
                Some((FileCategory::GenericBackup, FileImportance::Optional))
            } else if has(p, "\\download\\") || has(p, "\\downloads\\") {
                Some((FileCategory::UserDownload, FileImportance::Optional))
            } else if extension(path) is Some && (ext == "tmp"@ || ext == "temp"@ || ext == "pid"@) {
                Some((FileCategory::GenericTemp, FileImportance::Disposable))
            } else if extension(path) is Some && ext == "log"@ {
                Some((FileCategory::GenericLog, FileImportance::Optional))
            } else if extension(path) is Some && ext == "bak"@ {
                Some((FileCategory::GenericBackup, FileImportance::Optional))
            } else if extension(path) is Some && ext == "dmp"@ {
                Some((FileCategory::CrashDump, FileImportance::Disposable))
            } else if extension(path) is Some && ext == "etl"@ {
                Some((FileCategory::EventTrace, FileImportance::Optional))
            } else {
                None
            }
        },
    }
}

/// The heuristic reads only certain signs: a keyword in the file name (`temp`, `tmp`,
/// `cache`, `log`, `backup`, `.bak`, `crash`, `dump`), a telling directory in the path, or a
/// telling extension. A file with none of them gets no heuristic verdict, whatever else its
/// path holds (a `temp` inside a directory name such as `Templates` is no sign). The signs
/// are read in order, name keywords first, then directories, then the extension, and the
/// first that shows decides the category and importance.
pub proof fn lemma_heuristic_signs(path: Seq<char>)
    ensures
        (match file_name(path) {
            Some(n) => !contains(lower_seq(n), "temp"@) && !contains(lower_seq(n), "tmp"@) && !contains(lower_seq(n), "cache"@) && !contains(lower_seq(n), "log"@) && !contains(lower_seq(n), "backup"@) && !contains(lower_seq(n), ".bak"@) && !contains(lower_seq(n), "crash"@) && !contains(lower_seq(n), "dump"@),
            None => true,
        }) && !contains(lower_seq(path), "\\temp\\"@) && !contains(lower_seq(path), "\\tmp\\"@) && !contains(lower_seq(path), "\\cache\\"@) && !contains(lower_seq(path), "\\caches\\"@) && !contains(lower_seq(path), "\\logs\\"@) && !contains(lower_seq(path), "\\log\\"@) && !contains(lower_seq(path), "\\backup\\"@) && !contains(lower_seq(path), "\\backups\\"@) && !contains(lower_seq(path), "\\download\\"@) && !contains(lower_seq(path), "\\downloads\\"@) && (match extension(path) {
            Some(e) => lower_seq(e) != "tmp"@ && lower_seq(e) != "temp"@ && lower_seq(e) != "pid"@ && lower_seq(e) != "log"@ && lower_seq(e) != "bak"@ && lower_seq(e) != "dmp"@ && lower_seq(e) != "etl"@,
            None => true,
        }) ==> spec_heuristic(path) is None,
        (file_name(path) matches Some(n) && (contains(lower_seq(n), "temp"@) || contains(lower_seq(n), "tmp"@) || contains(lower_seq(n), "cache"@))) ==> spec_heuristic(path) == Some(
            (FileCategory::GenericTemp, FileImportance::Disposable),
        ),
        (file_name(path) matches Some(n) && !(contains(lower_seq(n), "temp"@) || contains(lower_seq(n), "tmp"@) || contains(lower_seq(n), "cache"@)) && (contains(lower_seq(n), "log"@))) ==> spec_heuristic(path) == Some(
            (FileCategory::GenericLog, FileImportance::Optional),
        ),
        (file_name(path) matches Some(n) && !(contains(lower_seq(n), "temp"@) || contains(lower_seq(n), "tmp"@) || contains(lower_seq(n), "cache"@)) && !(contains(lower_seq(n), "log"@)) && (contains(lower_seq(n), "backup"@) || contains(lower_seq(n), ".bak"@))) ==> spec_heuristic(path) == Some(
            (FileCategory::GenericBackup, FileImportance::Optional),
        ),
        (file_name(path) matches Some(n) && !(contains(lower_seq(n), "temp"@) || contains(lower_seq(n), "tmp"@) || contains(lower_seq(n), "cache"@)) && !(contains(lower_seq(n), "log"@)) && !(contains(lower_seq(n), "backup"@) || contains(lower_seq(n), ".bak"@)) && (contains(lower_seq(n), "crash"@) || contains(lower_seq(n), "dump"@))) ==> spec_heuristic(path) == Some(
            (FileCategory::CrashDump, FileImportance::Disposable),
        ),
        (file_name(path) matches Some(n) && !(contains(lower_seq(n), "temp"@) || contains(lower_seq(n), "tmp"@) || contains(lower_seq(n), "cache"@)) && !(contains(lower_seq(n), "log"@)) && !(contains(lower_seq(n), "backup"@) || contains(lower_seq(n), ".bak"@)) && !(contains(lower_seq(n), "crash"@) || contains(lower_seq(n), "dump"@)) && (contains(lower_seq(path), "\\temp\\"@) || contains(lower_seq(path), "\\tmp\\"@))) ==> spec_heuristic(path) == Some(
            (FileCategory::GenericTemp, FileImportance::Disposable),
        ),
        (file_name(path) matches Some(n) && !(contains(lower_seq(n), "temp"@) || contains(lower_seq(n), "tmp"@) || contains(lower_seq(n), "cache"@)) && !(contains(lower_seq(n), "log"@)) && !(contains(lower_seq(n), "backup"@) || contains(lower_seq(n), ".bak"@)) && !(contains(lower_seq(n), "crash"@) || contains(lower_seq(n), "dump"@)) && !(contains(lower_seq(path), "\\temp\\"@) || contains(lower_seq(path), "\\tmp\\"@)) && (contains(lower_seq(path), "\\cache\\"@) || contains(lower_seq(path), "\\caches\\"@))) ==> spec_heuristic(path) == Some(
            (FileCategory::GenericCache, FileImportance::Optional),
        ),
        (file_name(path) matches Some(n) && !(contains(lower_seq(n), "temp"@) || contains(lower_seq(n), "tmp"@) || contains(lower_seq(n), "cache"@)) && !(contains(lower_seq(n), "log"@)) && !(contains(lower_seq(n), "backup"@) || contains(lower_seq(n), ".bak"@)) && !(contains(lower_seq(n), "crash"@) || contains(lower_seq(n), "dump"@)) && !(contains(lower_seq(path), "\\temp\\"@) || contains(lower_seq(path), "\\tmp\\"@)) && !(contains(lower_seq(path), "\\cache\\"@) || contains(lower_seq(path), "\\caches\\"@)) && (contains(lower_seq(path), "\\logs\\"@) || contains(lower_seq(path), "\\log\\"@))) ==> spec_heuristic(path) == Some(
            (FileCategory::GenericLog, FileImportance::Optional),
        ),
        (file_name(path) matches Some(n) && !(contains(lower_seq(n), "temp"@) || contains(lower_seq(n), "tmp"@) || contains(lower_seq(n), "cache"@)) && !(contains(lower_seq(n), "log"@)) && !(contains(lower_seq(n), "backup"@) || contains(lower_seq(n), ".bak"@)) && !(contains(lower_seq(n), "crash"@) || contains(lower_seq(n), "dump"@)) && !(contains(lower_seq(path), "\\temp\\"@) || contains(lower_seq(path), "\\tmp\\"@)) && !(contains(lower_seq(path), "\\cache\\"@) || contains(lower_seq(path), "\\caches\\"@)) && !(contains(lower_seq(path), "\\logs\\"@) || contains(lower_seq(path), "\\log\\"@)) && (contains(lower_seq(path), "\\backup\\"@) || contains(lower_seq(path), "\\backups\\"@))) ==> spec_heuristic(path) == Some(
            (FileCategory::GenericBackup, FileImportance::Optional),
        ),
        (file_name(path) matches Some(n) && !(contains(lower_seq(n), "temp"@) || contains(lower_seq(n), "tmp"@) || contains(lower_seq(n), "cache"@)) && !(contains(lower_seq(n), "log"@)) && !(contains(lower_seq(n), "backup"@) || contains(lower_seq(n), ".bak"@)) && !(contains(lower_seq(n), "crash"@) || contains(lower_seq(n), "dump"@)) && !(contains(lower_seq(path), "\\temp\\"@) || contains(lower_seq(path), "\\tmp\\"@)) && !(contains(lower_seq(path), "\\cache\\"@) || contains(lower_seq(path), "\\caches\\"@)) && !(contains(lower_seq(path), "\\logs\\"@) || contains(lower_seq(path), "\\log\\"@)) && !(contains(lower_seq(path), "\\backup\\"@) || contains(lower_seq(path), "\\backups\\"@)) && (contains(lower_seq(path), "\\download\\"@) || contains(lower_seq(path), "\\downloads\\"@))) ==> spec_heuristic(path) == Some(
            (FileCategory::UserDownload, FileImportance::Optional),
        ),
        (file_name(path) matches Some(n) && !(contains(lower_seq(n), "temp"@) || contains(lower_seq(n), "tmp"@) || contains(lower_seq(n), "cache"@)) && !(contains(lower_seq(n), "log"@)) && !(contains(lower_seq(n), "backup"@) || contains(lower_seq(n), ".bak"@)) && !(contains(lower_seq(n), "crash"@) || contains(lower_seq(n), "dump"@)) && !(contains(lower_seq(path), "\\temp\\"@) || contains(lower_seq(path), "\\tmp\\"@)) && !(contains(lower_seq(path), "\\cache\\"@) || contains(lower_seq(path), "\\caches\\"@)) && !(contains(lower_seq(path), "\\logs\\"@) || contains(lower_seq(path), "\\log\\"@)) && !(contains(lower_seq(path), "\\backup\\"@) || contains(lower_seq(path), "\\backups\\"@)) && !(contains(lower_seq(path), "\\download\\"@) || contains(lower_seq(path), "\\downloads\\"@)) && (extension(path) matches Some(e) && (lower_seq(e) == "tmp"@ || lower_seq(e) == "temp"@ || lower_seq(e) == "pid"@))) ==> spec_heuristic(path) == Some(
            (FileCategory::GenericTemp, FileImportance::Disposable),
        ),
        (file_name(path) matches Some(n) && !(contains(lower_seq(n), "temp"@) || contains(lower_seq(n), "tmp"@) || contains(lower_seq(n), "cache"@)) && !(contains(lower_seq(n), "log"@)) && !(contains(lower_seq(n), "backup"@) || contains(lower_seq(n), ".bak"@)) && !(contains(lower_seq(n), "crash"@) || contains(lower_seq(n), "dump"@)) && !(contains(lower_seq(path), "\\temp\\"@) || contains(lower_seq(path), "\\tmp\\"@)) && !(contains(lower_seq(path), "\\cache\\"@) || contains(lower_seq(path), "\\caches\\"@)) && !(contains(lower_seq(path), "\\logs\\"@) || contains(lower_seq(path), "\\log\\"@)) && !(contains(lower_seq(path), "\\backup\\"@) || contains(lower_seq(path), "\\backups\\"@)) && !(contains(lower_seq(path), "\\download\\"@) || contains(lower_seq(path), "\\downloads\\"@)) && !(extension(path) matches Some(e) && (lower_seq(e) == "tmp"@ || lower_seq(e) == "temp"@ || lower_seq(e) == "pid"@)) && (extension(path) matches Some(e) && (lower_seq(e) == "log"@))) ==> spec_heuristic(path) == Some(
            (FileCategory::GenericLog, FileImportance::Optional),
        ),
        (file_name(path) matches Some(n) && !(contains(lower_seq(n), "temp"@) || contains(lower_seq(n), "tmp"@) || contains(lower_seq(n), "cache"@)) && !(contains(lower_seq(n), "log"@)) && !(contains(lower_seq(n), "backup"@) || contains(lower_seq(n), ".bak"@)) && !(contains(lower_seq(n), "crash"@) || contains(lower_seq(n), "dump"@)) && !(contains(lower_seq(path), "\\temp\\"@) || contains(lower_seq(path), "\\tmp\\"@)) && !(contains(lower_seq(path), "\\cache\\"@) || contains(lower_seq(path), "\\caches\\"@)) && !(contains(lower_seq(path), "\\logs\\"@) || contains(lower_seq(path), "\\log\\"@)) && !(contains(lower_seq(path), "\\backup\\"@) || contains(lower_seq(path), "\\backups\\"@)) && !(contains(lower_seq(path), "\\download\\"@) || contains(lower_seq(path), "\\downloads\\"@)) && !(extension(path) matches Some(e) && (lower_seq(e) == "tmp"@ || lower_seq(e) == "temp"@ || lower_seq(e) == "pid"@)) && !(extension(path) matches Some(e) && (lower_seq(e) == "log"@)) && (extension(path) matches Some(e) && (lower_seq(e) == "bak"@))) ==> spec_heuristic(path) == Some(
            (FileCategory::GenericBackup, FileImportance::Optional),
        ),
        (file_name(path) matches Some(n) && !(contains(lower_seq(n), "temp"@) || contains(lower_seq(n), "tmp"@) || contains(lower_seq(n), "cache"@)) && !(contains(lower_seq(n), "log"@)) && !(contains(lower_seq(n), "backup"@) || contains(lower_seq(n), ".bak"@)) && !(contains(lower_seq(n), "crash"@) || contains(lower_seq(n), "dump"@)) && !(contains(lower_seq(path), "\\temp\\"@) || contains(lower_seq(path), "\\tmp\\"@)) && !(contains(lower_seq(path), "\\cache\\"@) || contains(lower_seq(path), "\\caches\\"@)) && !(contains(lower_seq(path), "\\logs\\"@) || contains(lower_seq(path), "\\log\\"@)) && !(contains(lower_seq(path), "\\backup\\"@) || contains(lower_seq(path), "\\backups\\"@)) && !(contains(lower_seq(path), "\\download\\"@) || contains(lower_seq(path), "\\downloads\\"@)) && !(extension(path) matches Some(e) && (lower_seq(e) == "tmp"@ || lower_seq(e) == "temp"@ || lower_seq(e) == "pid"@)) && !(extension(path) matches Some(e) && (lower_seq(e) == "log"@)) && !(extension(path) matches Some(e) && (lower_seq(e) == "bak"@)) && (extension(path) matches Some(e) && (lower_seq(e) == "dmp"@))) ==> spec_heuristic(path) == Some(
            (FileCategory::CrashDump, FileImportance::Disposable),
        ),
        (file_name(path) matches Some(n) && !(contains(lower_seq(n), "temp"@) || contains(lower_seq(n), "tmp"@) || contains(lower_seq(n), "cache"@)) && !(contains(lower_seq(n), "log"@)) && !(contains(lower_seq(n), "backup"@) || contains(lower_seq(n), ".bak"@)) && !(contains(lower_seq(n), "crash"@) || contains(lower_seq(n), "dump"@)) && !(contains(lower_seq(path), "\\temp\\"@) || contains(lower_seq(path), "\\tmp\\"@)) && !(contains(lower_seq(path), "\\cache\\"@) || contains(lower_seq(path), "\\caches\\"@)) && !(contains(lower_seq(path), "\\logs\\"@) || contains(lower_seq(path), "\\log\\"@)) && !(contains(lower_seq(path), "\\backup\\"@) || contains(lower_seq(path), "\\backups\\"@)) && !(contains(lower_seq(path), "\\download\\"@) || contains(lower_seq(path), "\\downloads\\"@)) && !(extension(path) matches Some(e) && (lower_seq(e) == "tmp"@ || lower_seq(e) == "temp"@ || lower_seq(e) == "pid"@)) && !(extension(path) matches Some(e) && (lower_seq(e) == "log"@)) && !(extension(path) matches Some(e) && (lower_seq(e) == "bak"@)) && !(extension(path) matches Some(e) && (lower_seq(e) == "dmp"@)) && (extension(path) matches Some(e) && (lower_seq(e) == "etl"@))) ==> spec_heuristic(path) == Some(
            (FileCategory::EventTrace, FileImportance::Optional),
        ),
        file_name(path) is None ==> spec_heuristic(path) is None,
{
}

/// An assisted-analysis result of the given category and importance: base score from
/// the importance, no adjustments, decided by the assisted layer.
pub open spec fn assisted_result(
    r: AnalysisResult,
    path: Seq<char>,
    category: FileCategory,
    importance: FileImportance,
) -> bool {
    &&& r.classification.path@ == path
    &&& r.classification.category == category
    &&& r.classification.layer == category.spec_layer()
    &&& r.classification.importance == importance
    &&& r.classification.owner is None
    &&& r.classification.role_in_app is None
    &&& r.risk.base_score == importance.spec_base_score()
    &&& r.risk.dynamic_adjustment == 0
    &&& r.risk.age_adjustment == 0
    &&& r.risk.dependency_adjustment == 0
    &&& r.risk.final_score == clamp(importance.spec_base_score() as int, 0, 100)
    &&& r.risk.level == level_of(r.risk.final_score as int)
    &&& r.risk.decision_source == DecisionSource::AiAssist
    &&& r.dynamic_snapshot is None
}

/// The analysis of a file that no static rule recognises: the heuristic verdict where one
/// applies, otherwise "unknown, essential".
pub open spec fn unknown_analysis(path: Seq<char>, res: AnalysisResult) -> bool {
    match spec_heuristic(path) {
        Some((c, i)) => assisted_result(res, path, c, i) && res.impact_description@ == "AI 辅助识别："@
            + c.spec_label() && res.risk.impact_description@ == Seq::<char>::empty(),
        None => assisted_result(res, path, FileCategory::Unknown, FileImportance::Essential)
            && res.impact_description@ == "AI 无法识别此文件，保守策略建议保留"@,
    }
}

fn has_lit(v: &[char], lit: &str) -> (b: bool)
    ensures
        b == contains(v@, lit@),
{
    let l = chars_of(lit);
    contains_chars(v, l.as_slice())
}

impl AiAssistEngine {
    pub fn new() -> (r: Self) {
        AiAssistEngine {}
    }

    /// Analysis of a file no static rule recognises: the heuristic verdict when one
    /// applies, otherwise the conservative "unknown, essential" verdict (score 70).
    pub fn analyze_unknown_file(&self, path: &str) -> (r: Option<AnalysisResult>)
        ensures
            r matches Some(res) && unknown_analysis(path@, res),
            (match file_name(path@) {
            Some(n) => !contains(lower_seq(n), "temp"@) && !contains(lower_seq(n), "tmp"@) && !contains(lower_seq(n), "cache"@) && !contains(lower_seq(n), "log"@) && !contains(lower_seq(n), "backup"@) && !contains(lower_seq(n), ".bak"@) && !contains(lower_seq(n), "crash"@) && !contains(lower_seq(n), "dump"@),
            None => true,
        }) && !contains(lower_seq(path@), "\\temp\\"@) && !contains(lower_seq(path@), "\\tmp\\"@) && !contains(lower_seq(path@), "\\cache\\"@) && !contains(lower_seq(path@), "\\caches\\"@) && !contains(lower_seq(path@), "\\logs\\"@) && !contains(lower_seq(path@), "\\log\\"@) && !contains(lower_seq(path@), "\\backup\\"@) && !contains(lower_seq(path@), "\\backups\\"@) && !contains(lower_seq(path@), "\\download\\"@) && !contains(lower_seq(path@), "\\downloads\\"@) && (match extension(path@) {
            Some(e) => lower_seq(e) != "tmp"@ && lower_seq(e) != "temp"@ && lower_seq(e) != "pid"@ && lower_seq(e) != "log"@ && lower_seq(e) != "bak"@ && lower_seq(e) != "dmp"@ && lower_seq(e) != "etl"@,
            None => true,
        }) ==> (r matches Some(res) && res.classification.category == FileCategory::Unknown
                && res.classification.importance == FileImportance::Essential && res.risk.final_score == 70),
    {
        proof {
            lemma_heuristic_signs(path@);
        }
        let context = build_analysis_context(path);
        match self.heuristic_classify(path, &context) {
            Some(result) => Some(result),
            None => Some(create_unknown_analysis(path, &context)),
        }
    }

    /// Heuristic classification by file name keywords, path keywords and extension.
    pub fn heuristic_classify(&self, path: &str, _context: &AnalysisContext) -> (r: Option<AnalysisResult>)
        ensures
            r is Some <==> spec_heuristic(path@) is Some,
            (match file_name(path@) {
            Some(n) => !contains(lower_seq(n), "temp"@) && !contains(lower_seq(n), "tmp"@) && !contains(lower_seq(n), "cache"@) && !contains(lower_seq(n), "log"@) && !contains(lower_seq(n), "backup"@) && !contains(lower_seq(n), ".bak"@) && !contains(lower_seq(n), "crash"@) && !contains(lower_seq(n), "dump"@),
            None => true,
        }) && !contains(lower_seq(path@), "\\temp\\"@) && !contains(lower_seq(path@), "\\tmp\\"@) && !contains(lower_seq(path@), "\\cache\\"@) && !contains(lower_seq(path@), "\\caches\\"@) && !contains(lower_seq(path@), "\\logs\\"@) && !contains(lower_seq(path@), "\\log\\"@) && !contains(lower_seq(path@), "\\backup\\"@) && !contains(lower_seq(path@), "\\backups\\"@) && !contains(lower_seq(path@), "\\download\\"@) && !contains(lower_seq(path@), "\\downloads\\"@) && (match extension(path@) {
            Some(e) => lower_seq(e) != "tmp"@ && lower_seq(e) != "temp"@ && lower_seq(e) != "pid"@ && lower_seq(e) != "log"@ && lower_seq(e) != "bak"@ && lower_seq(e) != "dmp"@ && lower_seq(e) != "etl"@,
            None => true,
        }) ==> r is None,
            r matches Some(res) ==> match spec_heuristic(path@) {
                Some((c, i)) => assisted_result(res, path@, c, i) && res.impact_description@ == "AI 辅助识别："@ + c.spec_label()
                    && res.risk.impact_description@ == Seq::<char>::empty(),
                None => false,
            },
    {
        proof {
            lemma_heuristic_signs(path@);
        }
        let v = chars_of(path);
        let p = to_lower(v.as_slice());
        let n = match file_name_chars(v.as_slice()) {
            Some(n) => n,
            None => return None,
        };
        let name = to_lower(n.as_slice());
        let name = name.as_slice();
        let p = p.as_slice();
        if has_lit(name, "temp") || has_lit(name, "tmp") || has_lit(name, "cache") {
            return Some(create_analysis_result(path, FileCategory::GenericTemp, FileImportance::Disposable));
        }
        if has_lit(name, "log") {
            return Some(create_analysis_result(path, FileCategory::GenericLog, FileImportance::Optional));
        }
        if has_lit(name, "backup") || has_lit(name, ".bak") {
            return Some(create_analysis_result(path, FileCategory::GenericBackup, FileImportance::Optional));
        }
        if has_lit(name, "crash") || has_lit(name, "dump") {
            return Some(create_analysis_result(path, FileCategory::CrashDump, FileImportance::Disposable));
        }
        if has_lit(p, "\\temp\\") || has_lit(p, "\\tmp\\") {
            return Some(create_analysis_result(path, FileCategory::GenericTemp, FileImportance::Disposable));
        }
        if has_lit(p, "\\cache\\") || has_lit(p, "\\caches\\") {
            return Some(create_analysis_result(path, FileCategory::GenericCache, FileImportance::Optional));
        }
        if has_lit(p, "\\logs\\") || has_lit(p, "\\log\\") {
            return Some(create_analysis_result(path, FileCategory::GenericLog, FileImportance::Optional));
        }
        if has_lit(p, "\\backup\\") || has_lit(p, "\\backups\\") {
            return Some(create_analysis_result(path, FileCategory::GenericBackup, FileImportance::Optional));
        }
        if has_lit(p, "\\download\\") || has_lit(p, "\\downloads\\") {
            return Some(create_analysis_result(path, FileCategory::UserDownload, FileImportance::Optional));
        }
        match extension_chars(v.as_slice()) {
            Some(e) => {
                let ext = to_lower(e.as_slice());
                let ext = ext.as_slice();
                if str_eq(ext, "tmp") || str_eq(ext, "temp") || str_eq(ext, "pid") {
                    return Some(create_analysis_result(path, FileCategory::GenericTemp, FileImportance::Disposable));
                }
                if str_eq(ext, "log") {
                    return Some(create_analysis_result(path, FileCategory::GenericLog, FileImportance::Optional));
                }
                if str_eq(ext, "bak") {
                    return Some(create_analysis_result(path, FileCategory::GenericBackup, FileImportance::Optional));
                }
                if str_eq(ext, "dmp") {
                    return Some(create_analysis_result(path, FileCategory::CrashDump, FileImportance::Disposable));
                }
                if str_eq(ext, "etl") {
                    return Some(create_analysis_result(path, FileCategory::EventTrace, FileImportance::Optional));
                }
                None
            },
            None => None,
        }
    }
}

/// Context of a file for assisted analysis.
#[derive(Debug, Clone)]
pub struct AnalysisContext {
    pub extension: Option<String>,
    pub file_name: String,
    /// Up to three parent components after the drive.
    pub parent_components: Vec<String>,
    pub size_hint: Option<u64>,
}

/// The context of a path: its extension, file name and the first three parent
/// components after the drive.
pub fn build_analysis_context(path: &str) -> (r: AnalysisContext)
    ensures
        r.extension matches Some(e) ==> extension(path@) == Some(e@),
        r.extension is None ==> extension(path@) is None,
        file_name(path@) matches Some(n) ==> r.file_name@ == n,
        file_name(path@) is None ==> r.file_name@ == Seq::<char>::empty(),
        r.size_hint is None,
{
    let v = chars_of(path);
    let extension = match extension_chars(v.as_slice()) {
        Some(e) => Some(string_from_chars(e.as_slice())),
        None => None,
    };
    let file_name = match file_name_chars(v.as_slice()) {
        Some(n) => string_from_chars(n.as_slice()),
        None => String::new(),
    };
    let mut parent_components: Vec<String> = Vec::new();
    match parent_chars(v.as_slice()) {
        Some(parent) => {
            let ranges = component_ranges(parent.as_slice());
            let mut k: usize = 1;
            while k < ranges.len() && k < 4
                decreases ranges.len() - k,
            {
                let (a, b) = ranges[k];
                if a <= b && b <= parent.len() {
                    let piece = crate::text::slice_copy(parent.as_slice(), a, b);
                    parent_components.push(string_from_chars(piece.as_slice()));
                }
                k = k + 1;
            }
        },
        None => {},
    }
    AnalysisContext { extension, file_name, parent_components, size_hint: None }
}

/// A result of the assisted layer with the given category and importance.
fn create_analysis_result(path: &str, category: FileCategory, importance: FileImportance) -> (r: AnalysisResult)
    ensures
        assisted_result(r, path@, category, importance),
        r.impact_description@ == "AI 辅助识别："@ + category.spec_label(),
        r.risk.impact_description@ == Seq::<char>::empty(),
{
    let classification = FileClassification::new(path, category, importance);
    let risk = RiskAssessment::from_base(importance.base_score()).with_source(DecisionSource::AiAssist);
    let mut text: Vec<char> = Vec::new();
    push_lit(&mut text, "AI 辅助识别：");
    push_lit(&mut text, category.label());
    AnalysisResult {
        classification,
        risk,
        impact_description: string_from_chars(text.as_slice()),
        dynamic_snapshot: None,
    }
}

/// The conservative verdict for an unrecognised file: unknown, essential, score 70.
fn create_unknown_analysis(path: &str, _context: &AnalysisContext) -> (r: AnalysisResult)
    ensures
        assisted_result(r, path@, FileCategory::Unknown, FileImportance::Essential),
        r.impact_description@ == "AI 无法识别此文件，保守策略建议保留"@,
{
    let classification = FileClassification::new(path, FileCategory::Unknown, FileImportance::Essential);
    let risk = RiskAssessment::from_base(70).with_source(DecisionSource::AiAssist);
    AnalysisResult {
        classification,
        risk,
        impact_description: String::from_str("AI 无法识别此文件，保守策略建议保留"),
        dynamic_snapshot: None,
    }
}

} // verus!

//! AI review of cleanup and duplicate candidates: which candidates are sent, how paths are
//! hidden from the model, how the model's answers are read, and how a second, more careful
//! review is applied so that nothing protected or risky ends up on the delete list.
use std::sync::Arc;
use vstd::prelude::*;
use crate::cleanup::{CleanupCandidate, CleanupPreview, CleanupRisk};
use crate::duplicates::{DuplicateFile, DuplicateGroup, DuplicatePreview};
use crate::model::{file_extension_label, spec_extension_label};
use crate::cleanup::truncated;
use crate::order::{key_lt, lemma_key_order};
use crate::sorted::{is_sorted, merge_sort, strict_weak};
use crate::winpath::{
    comps, component_ranges, components_of, extension, extension_chars, is_drive_run, is_sep,
    lemma_runs_bounds, path_order_chars, path_order_text, runs,
};
use crate::text::{
    chars_of, decimal, decimal_chars, ends_with, ends_with_chars, has_char, is_whitespace, is_ws, lower_seq, push_all,
    push_lit, slice_copy, starts_with, starts_with_chars, str_eq, string_from_chars, to_lower, trim,
    trim_chars, trim_end, trim_start,
};

verus! {

/// Where and how the model is reached.
#[derive(Debug, Clone)]
pub struct AiProviderConfig {
    pub base_url: String,
    pub model: String,
    /// The environment variable that holds the API key.
    pub api_key_env: String,
    /// Send full paths and reasons instead of redacted ones.
    pub send_full_paths: bool,
    pub timeout_secs: u64,
    pub max_candidates: usize,
}

impl Default for AiProviderConfig {
    fn default() -> (r: Self)
        ensures
            r.base_url@ == "https://api.openai.com/v1"@,
            r.model@ == "gpt-4o-mini"@,
            r.api_key_env@ == "OPENAI_API_KEY"@,
            !r.send_full_paths,
            r.timeout_secs == 60,
            r.max_candidates == 200,
    {
        AiProviderConfig {
            base_url: String::from_str("https://api.openai.com/v1"),
            model: String::from_str("gpt-4o-mini"),
            api_key_env: String::from_str("OPENAI_API_KEY"),
            send_full_paths: false,
            timeout_secs: 60,
            max_candidates: 200,
        }
    }
}

/// What an AI review looks at.
#[derive(Debug, Clone)]
pub struct AiAnalysisOptions {
    pub root: String,
    pub cleanup_preview: Option<Arc<CleanupPreview>>,
    pub duplicate_preview: Option<Arc<DuplicatePreview>>,
    pub provider_config: AiProviderConfig,
}

/// The stage an AI review is in.
#[derive(Debug, Clone, Copy, PartialEq, Eq, Structural)]
pub enum AiAnalysisPhase {
    CollectingCandidates,
    Analyzing,
    Auditing,
    Finished,
}

impl AiAnalysisPhase {
    /// The name shown for the value.
    pub open spec fn spec_label(self) -> Seq<char> {
        match self {
            AiAnalysisPhase::CollectingCandidates => "收集候选"@,
            AiAnalysisPhase::Analyzing => "AI 分析"@,
            AiAnalysisPhase::Auditing => "AI 审核"@,
            AiAnalysisPhase::Finished => "完成"@,
        }
    }

    pub fn label(self) -> (r: &'static str)
        ensures
            r@ == self.spec_label(),
    {
        match self {
            AiAnalysisPhase::CollectingCandidates => "收集候选",
            AiAnalysisPhase::Analyzing => "AI 分析",
            AiAnalysisPhase::Auditing => "AI 审核",
            AiAnalysisPhase::Finished => "完成",
        }
    }
}

/// `-` and space read as `_`.
pub open spec fn underscore(c: char) -> char {
    if c == '-' || c == ' ' {
        '_'
    } else {
        c
    }
}

/// A model's enum value as compared: trimmed, lowercase, `-` and spaces as `_`.
pub open spec fn spec_normalized_enum(value: Seq<char>) -> Seq<char> {
    lower_seq(trim(value)).map_values(|c: char| underscore(c))
}

/// A name of lowercase ASCII letters and underscores is its own normalized form.
proof fn lemma_plain_name_normalized(s: Seq<char>)
    requires
        s.len() > 0,
        forall|i: int| 0 <= i < s.len() ==> ('a' <= #[trigger] s[i] <= 'z' || s[i] == '_'),
    ensures
        spec_normalized_enum(s) == s,
{
    assert(trim_start(s) == s);
    assert(trim_end(s) == s);
    assert(lower_seq(s) =~= s);
    assert(s.map_values(|c: char| underscore(c)) =~= s);
}

/// A model's enum value as compared.
pub fn normalized_enum(value: &str) -> (r: String)
    ensures
        r@ == spec_normalized_enum(value@),
{
    let v = chars_of(value);
    let t = trim_chars(v.as_slice());
    let l = to_lower(t.as_slice());
    let mut out: Vec<char> = Vec::new();
    let mut i: usize = 0;
    while i < l.len()
        invariant
            i <= l@.len(),
            out@ == l@.take(i as int).map_values(|c: char| underscore(c)),
        decreases l.len() - i,
    {
        let c = l[i];
        out.push(if c == '-' || c == ' ' { '_' } else { c });
        i = i + 1;
        assert(out@ =~= l@.take(i as int).map_values(|c: char| underscore(c)));
    }
    assert(l@.take(l@.len() as int) =~= l@);
    string_from_chars(out.as_slice())
}

/// Where a candidate came from.
#[derive(Debug, Clone, Copy, PartialEq, Eq, Structural)]
pub enum AiFindingSource {
    CleanupPreview,
    DuplicateFile,
}

impl AiFindingSource {
    /// The name shown for the value.
    pub open spec fn spec_label(self) -> Seq<char> {
        match self {
            AiFindingSource::CleanupPreview => "清理预览"@,
            AiFindingSource::DuplicateFile => "重复文件"@,
        }
    }

    pub fn label(self) -> (r: &'static str)
        ensures
            r@ == self.spec_label(),
    {
        match self {
            AiFindingSource::CleanupPreview => "清理预览",
            AiFindingSource::DuplicateFile => "重复文件",
        }
    }

    pub open spec fn spec_as_str(self) -> Seq<char> {
        match self {
            AiFindingSource::CleanupPreview => "cleanup_preview"@,
            AiFindingSource::DuplicateFile => "duplicate_file"@,
        }
    }

    pub fn as_str(self) -> (r: &'static str)
        ensures
            r@ == self.spec_as_str(),
    {
        match self {
            AiFindingSource::CleanupPreview => "cleanup_preview",
            AiFindingSource::DuplicateFile => "duplicate_file",
        }
    }
}

/// What kind of file a candidate is.
#[derive(Debug, Clone, Copy, PartialEq, Eq, Structural)]
pub enum AiCleanupCategory {
    TempFile,
    CacheFile,
    LogOrDump,
    BackupOrOld,
    Duplicate,
    InstallerOrDownload,
    BuildArtifact,
    Unknown,
    Keep,
}

impl AiCleanupCategory {
    /// The name shown for the value.
    pub open spec fn spec_label(self) -> Seq<char> {
        match self {
            AiCleanupCategory::TempFile => "临时文件"@,
            AiCleanupCategory::CacheFile => "缓存文件"@,
            AiCleanupCategory::LogOrDump => "日志/转储"@,
            AiCleanupCategory::BackupOrOld => "备份/旧文件"@,
            AiCleanupCategory::Duplicate => "重复文件"@,
            AiCleanupCategory::InstallerOrDownload => "安装包/下载"@,
            AiCleanupCategory::BuildArtifact => "构建产物"@,
            AiCleanupCategory::Unknown => "未知"@,
            AiCleanupCategory::Keep => "保留"@,
        }
    }

    pub fn label(self) -> (r: &'static str)
        ensures
            r@ == self.spec_label(),
    {
        match self {
            AiCleanupCategory::TempFile => "临时文件",
            AiCleanupCategory::CacheFile => "缓存文件",
            AiCleanupCategory::LogOrDump => "日志/转储",
            AiCleanupCategory::BackupOrOld => "备份/旧文件",
            AiCleanupCategory::Duplicate => "重复文件",
            AiCleanupCategory::InstallerOrDownload => "安装包/下载",
            AiCleanupCategory::BuildArtifact => "构建产物",
            AiCleanupCategory::Unknown => "未知",
            AiCleanupCategory::Keep => "保留",
        }
    }

    pub open spec fn spec_as_str(self) -> Seq<char> {
        match self {
            AiCleanupCategory::TempFile => "temp_file"@,
            AiCleanupCategory::CacheFile => "cache_file"@,
            AiCleanupCategory::LogOrDump => "log_or_dump"@,
            AiCleanupCategory::BackupOrOld => "backup_or_old"@,
            AiCleanupCategory::Duplicate => "duplicate"@,
            AiCleanupCategory::InstallerOrDownload => "installer_or_download"@,
            AiCleanupCategory::BuildArtifact => "build_artifact"@,
            AiCleanupCategory::Unknown => "unknown"@,
            AiCleanupCategory::Keep => "keep"@,
        }
    }

    pub fn as_str(self) -> (r: &'static str)
        ensures
            r@ == self.spec_as_str(),
    {
        match self {
            AiCleanupCategory::TempFile => "temp_file",
            AiCleanupCategory::CacheFile => "cache_file",
            AiCleanupCategory::LogOrDump => "log_or_dump",
            AiCleanupCategory::BackupOrOld => "backup_or_old",
            AiCleanupCategory::Duplicate => "duplicate",
            AiCleanupCategory::InstallerOrDownload => "installer_or_download",
            AiCleanupCategory::BuildArtifact => "build_artifact",
            AiCleanupCategory::Unknown => "unknown",
            AiCleanupCategory::Keep => "keep",
        }
    }

    pub open spec fn spec_rank(self) -> u8 {
        match self {
            AiCleanupCategory::TempFile => 0,
            AiCleanupCategory::CacheFile => 1,
            AiCleanupCategory::LogOrDump => 2,
            AiCleanupCategory::BackupOrOld => 3,
            AiCleanupCategory::Duplicate => 4,
            AiCleanupCategory::InstallerOrDownload => 5,
            AiCleanupCategory::BuildArtifact => 6,
            AiCleanupCategory::Unknown => 7,
            AiCleanupCategory::Keep => 8,
        }
    }

    pub fn rank(self) -> (r: u8)
        ensures
            r == self.spec_rank(),
    {
        match self {
            AiCleanupCategory::TempFile => 0,
            AiCleanupCategory::CacheFile => 1,
            AiCleanupCategory::LogOrDump => 2,
            AiCleanupCategory::BackupOrOld => 3,
            AiCleanupCategory::Duplicate => 4,
            AiCleanupCategory::InstallerOrDownload => 5,
            AiCleanupCategory::BuildArtifact => 6,
            AiCleanupCategory::Unknown => 7,
            AiCleanupCategory::Keep => 8,
        }
    }

    /// The value a model's answer names, after `normalized_enum`; anything else is the
    /// cautious default.
    pub open spec fn spec_parse_normalized(n: Seq<char>) -> Self {
        if n == "temp_file"@ || n == "temp"@ {
            AiCleanupCategory::TempFile
        } else if n == "cache_file"@ || n == "cache"@ {
            AiCleanupCategory::CacheFile
        } else if n == "log_or_dump"@ || n == "log"@ || n == "dump"@ {
            AiCleanupCategory::LogOrDump
        } else if n == "backup_or_old"@ || n == "backup"@ || n == "old"@ {
            AiCleanupCategory::BackupOrOld
        } else if n == "duplicate"@ || n == "duplicate_file"@ {
            AiCleanupCategory::Duplicate
        } else if n == "installer_or_download"@ || n == "installer"@ || n == "download"@ {
            AiCleanupCategory::InstallerOrDownload
        } else if n == "build_artifact"@ || n == "build"@ {
            AiCleanupCategory::BuildArtifact
        } else if n == "keep"@ {
            AiCleanupCategory::Keep
        } else {
            AiCleanupCategory::Unknown
        }
    }

    pub fn parse(value: &str) -> (r: Self)
        ensures
            r == Self::spec_parse_normalized(spec_normalized_enum(value@)),
    {
        let s = normalized_enum(value);
        let n = chars_of(s.as_str());
        if str_eq(n.as_slice(), "temp_file") || str_eq(n.as_slice(), "temp") {
            AiCleanupCategory::TempFile
        } else if str_eq(n.as_slice(), "cache_file") || str_eq(n.as_slice(), "cache") {
            AiCleanupCategory::CacheFile
        } else if str_eq(n.as_slice(), "log_or_dump") || str_eq(n.as_slice(), "log") || str_eq(n.as_slice(), "dump") {
            AiCleanupCategory::LogOrDump
        } else if str_eq(n.as_slice(), "backup_or_old") || str_eq(n.as_slice(), "backup") || str_eq(n.as_slice(), "old") {
            AiCleanupCategory::BackupOrOld
        } else if str_eq(n.as_slice(), "duplicate") || str_eq(n.as_slice(), "duplicate_file") {
            AiCleanupCategory::Duplicate
        } else if str_eq(n.as_slice(), "installer_or_download") || str_eq(n.as_slice(), "installer") || str_eq(n.as_slice(), "download") {
            AiCleanupCategory::InstallerOrDownload
        } else if str_eq(n.as_slice(), "build_artifact") || str_eq(n.as_slice(), "build") {
            AiCleanupCategory::BuildArtifact
        } else if str_eq(n.as_slice(), "keep") {
            AiCleanupCategory::Keep
        } else {
            AiCleanupCategory::Unknown
        }
    }
}

/// How risky deleting a candidate is.
#[derive(Debug, Clone, Copy, PartialEq, Eq, Structural)]
pub enum AiCleanupRisk {
    Safe,
    Low,
    Medium,
    High,
    Unknown,
}


impl AiCleanupCategory {
    /// Reading back the name a value is written as gives the value.
    pub proof fn lemma_parse_as_str(self)
        ensures
            Self::spec_parse_normalized(spec_normalized_enum(self.spec_as_str())) == self,
    {
        reveal_strlit("temp_file");
        reveal_strlit("cache_file");
        reveal_strlit("log_or_dump");
        reveal_strlit("backup_or_old");
        reveal_strlit("duplicate");
        reveal_strlit("installer_or_download");
        reveal_strlit("build_artifact");
        reveal_strlit("unknown");
        reveal_strlit("keep");
        reveal_strlit("temp");
        reveal_strlit("cache");
        reveal_strlit("log");
        reveal_strlit("dump");
        reveal_strlit("backup");
        reveal_strlit("old");
        reveal_strlit("duplicate_file");
        reveal_strlit("installer");
        reveal_strlit("download");
        reveal_strlit("build");
        lemma_plain_name_normalized(self.spec_as_str());
    }
}
impl AiCleanupRisk {
    /// The name shown for the value.
    pub open spec fn spec_label(self) -> Seq<char> {
        match self {
            AiCleanupRisk::Safe => "安全"@,
            AiCleanupRisk::Low => "低"@,
            AiCleanupRisk::Medium => "中"@,
            AiCleanupRisk::High => "高"@,
            AiCleanupRisk::Unknown => "未知"@,
        }
    }

    pub fn label(self) -> (r: &'static str)
        ensures
            r@ == self.spec_label(),
    {
        match self {
            AiCleanupRisk::Safe => "安全",
            AiCleanupRisk::Low => "低",
            AiCleanupRisk::Medium => "中",
            AiCleanupRisk::High => "高",
            AiCleanupRisk::Unknown => "未知",
        }
    }

    pub open spec fn spec_as_str(self) -> Seq<char> {
        match self {
            AiCleanupRisk::Safe => "safe"@,
            AiCleanupRisk::Low => "low"@,
            AiCleanupRisk::Medium => "medium"@,
            AiCleanupRisk::High => "high"@,
            AiCleanupRisk::Unknown => "unknown"@,
        }
    }

    pub fn as_str(self) -> (r: &'static str)
        ensures
            r@ == self.spec_as_str(),
    {
        match self {
            AiCleanupRisk::Safe => "safe",
            AiCleanupRisk::Low => "low",
            AiCleanupRisk::Medium => "medium",
            AiCleanupRisk::High => "high",
            AiCleanupRisk::Unknown => "unknown",
        }
    }

    pub open spec fn spec_rank(self) -> u8 {
        match self {
            AiCleanupRisk::Safe => 0,
            AiCleanupRisk::Low => 1,
            AiCleanupRisk::Medium => 2,
            AiCleanupRisk::High => 3,
            AiCleanupRisk::Unknown => 4,
        }
    }

    pub fn rank(self) -> (r: u8)
        ensures
            r == self.spec_rank(),
    {
        match self {
            AiCleanupRisk::Safe => 0,
            AiCleanupRisk::Low => 1,
            AiCleanupRisk::Medium => 2,
            AiCleanupRisk::High => 3,
            AiCleanupRisk::Unknown => 4,
        }
    }

    /// The value a model's answer names, after `normalized_enum`; anything else is the
    /// cautious default.
    pub open spec fn spec_parse_normalized(n: Seq<char>) -> Self {
        if n == "safe"@ {
            AiCleanupRisk::Safe
        } else if n == "low"@ {
            AiCleanupRisk::Low
        } else if n == "medium"@ || n == "mid"@ {
            AiCleanupRisk::Medium
        } else if n == "high"@ {
            AiCleanupRisk::High
        } else {
            AiCleanupRisk::Unknown
        }
    }

    pub fn parse(value: &str) -> (r: Self)
        ensures
            r == Self::spec_parse_normalized(spec_normalized_enum(value@)),
    {
        let s = normalized_enum(value);
        let n = chars_of(s.as_str());
        if str_eq(n.as_slice(), "safe") {
            AiCleanupRisk::Safe
        } else if str_eq(n.as_slice(), "low") {
            AiCleanupRisk::Low
        } else if str_eq(n.as_slice(), "medium") || str_eq(n.as_slice(), "mid") {
            AiCleanupRisk::Medium
        } else if str_eq(n.as_slice(), "high") {
            AiCleanupRisk::High
        } else {
            AiCleanupRisk::Unknown
        }
    }
}

/// What to do with a candidate.
#[derive(Debug, Clone, Copy, PartialEq, Eq, Structural)]
pub enum AiRecommendation {
    CandidateForDeletion,
    Keep,
    NeedsReview,
}


impl AiCleanupRisk {
    /// Reading back the name a value is written as gives the value.
    pub proof fn lemma_parse_as_str(self)
        ensures
            Self::spec_parse_normalized(spec_normalized_enum(self.spec_as_str())) == self,
    {
        reveal_strlit("safe");
        reveal_strlit("low");
        reveal_strlit("medium");
        reveal_strlit("high");
        reveal_strlit("unknown");
        reveal_strlit("mid");
        lemma_plain_name_normalized(self.spec_as_str());
    }
}
impl AiRecommendation {
    /// The name shown for the value.
    pub open spec fn spec_label(self) -> Seq<char> {
        match self {
            AiRecommendation::CandidateForDeletion => "可作为待删候选"@,
            AiRecommendation::Keep => "保留"@,
            AiRecommendation::NeedsReview => "需人工复核"@,
        }
    }

    pub fn label(self) -> (r: &'static str)
        ensures
            r@ == self.spec_label(),
    {
        match self {
            AiRecommendation::CandidateForDeletion => "可作为待删候选",
            AiRecommendation::Keep => "保留",
            AiRecommendation::NeedsReview => "需人工复核",
        }
    }

    pub open spec fn spec_as_str(self) -> Seq<char> {
        match self {
            AiRecommendation::CandidateForDeletion => "candidate_for_deletion"@,
            AiRecommendation::Keep => "keep"@,
            AiRecommendation::NeedsReview => "needs_review"@,
        }
    }

    pub fn as_str(self) -> (r: &'static str)
        ensures
            r@ == self.spec_as_str(),
    {
        match self {
            AiRecommendation::CandidateForDeletion => "candidate_for_deletion",
            AiRecommendation::Keep => "keep",
            AiRecommendation::NeedsReview => "needs_review",
        }
    }

    pub open spec fn spec_rank(self) -> u8 {
        match self {
            AiRecommendation::CandidateForDeletion => 0,
            AiRecommendation::Keep => 2,
            AiRecommendation::NeedsReview => 1,
        }
    }

    pub fn rank(self) -> (r: u8)
        ensures
            r == self.spec_rank(),
    {
        match self {
            AiRecommendation::CandidateForDeletion => 0,
            AiRecommendation::Keep => 2,
            AiRecommendation::NeedsReview => 1,
        }
    }

    /// The value a model's answer names, after `normalized_enum`; anything else is the
    /// cautious default.
    pub open spec fn spec_parse_normalized(n: Seq<char>) -> Self {
        if n == "candidate_for_deletion"@ || n == "delete"@ || n == "deletion_candidate"@ {
            AiRecommendation::CandidateForDeletion
        } else if n == "keep"@ || n == "reject"@ {
            AiRecommendation::Keep
        } else {
            AiRecommendation::NeedsReview
        }
    }

    pub fn parse(value: &str) -> (r: Self)
        ensures
            r == Self::spec_parse_normalized(spec_normalized_enum(value@)),
    {
        let s = normalized_enum(value);
        let n = chars_of(s.as_str());
        if str_eq(n.as_slice(), "candidate_for_deletion") || str_eq(n.as_slice(), "delete") || str_eq(n.as_slice(), "deletion_candidate") {
            AiRecommendation::CandidateForDeletion
        } else if str_eq(n.as_slice(), "keep") || str_eq(n.as_slice(), "reject") {
            AiRecommendation::Keep
        } else {
            AiRecommendation::NeedsReview
        }
    }
}

/// The verdict of the second, more careful review.
#[derive(Debug, Clone, Copy, PartialEq, Eq, Structural)]
pub enum AiAuditStatus {
    Approved,
    Corrected,
    Rejected,
    NeedsHumanReview,
}


impl AiRecommendation {
    /// Reading back the name a value is written as gives the value.
    pub proof fn lemma_parse_as_str(self)
        ensures
            Self::spec_parse_normalized(spec_normalized_enum(self.spec_as_str())) == self,
    {
        reveal_strlit("candidate_for_deletion");
        reveal_strlit("keep");
        reveal_strlit("needs_review");
        reveal_strlit("delete");
        reveal_strlit("deletion_candidate");
        reveal_strlit("reject");
        lemma_plain_name_normalized(self.spec_as_str());
    }
}
impl AiAuditStatus {
    /// The name shown for the value.
    pub open spec fn spec_label(self) -> Seq<char> {
        match self {
            AiAuditStatus::Approved => "已通过"@,
            AiAuditStatus::Corrected => "已纠正"@,
            AiAuditStatus::Rejected => "已拒绝"@,
            AiAuditStatus::NeedsHumanReview => "需人工复核"@,
        }
    }

    pub fn label(self) -> (r: &'static str)
        ensures
            r@ == self.spec_label(),
    {
        match self {
            AiAuditStatus::Approved => "已通过",
            AiAuditStatus::Corrected => "已纠正",
            AiAuditStatus::Rejected => "已拒绝",
            AiAuditStatus::NeedsHumanReview => "需人工复核",
        }
    }

    pub open spec fn spec_as_str(self) -> Seq<char> {
        match self {
            AiAuditStatus::Approved => "approved"@,
            AiAuditStatus::Corrected => "corrected"@,
            AiAuditStatus::Rejected => "rejected"@,
            AiAuditStatus::NeedsHumanReview => "needs_human_review"@,
        }
    }

    pub fn as_str(self) -> (r: &'static str)
        ensures
            r@ == self.spec_as_str(),
    {
        match self {
            AiAuditStatus::Approved => "approved",
            AiAuditStatus::Corrected => "corrected",
            AiAuditStatus::Rejected => "rejected",
            AiAuditStatus::NeedsHumanReview => "needs_human_review",
        }
    }

    pub open spec fn spec_rank(self) -> u8 {
        match self {
            AiAuditStatus::Approved => 0,
            AiAuditStatus::Corrected => 1,
            AiAuditStatus::Rejected => 3,
            AiAuditStatus::NeedsHumanReview => 2,
        }
    }

    pub fn rank(self) -> (r: u8)
        ensures
            r == self.spec_rank(),
    {
        match self {
            AiAuditStatus::Approved => 0,
            AiAuditStatus::Corrected => 1,
            AiAuditStatus::Rejected => 3,
            AiAuditStatus::NeedsHumanReview => 2,
        }
    }

    /// The value a model's answer names, after `normalized_enum`; anything else is the
    /// cautious default.
    pub open spec fn spec_parse_normalized(n: Seq<char>) -> Self {
        if n == "approved"@ || n == "approve"@ {
            AiAuditStatus::Approved
        } else if n == "corrected"@ || n == "correct"@ {
            AiAuditStatus::Corrected
        } else if n == "rejected"@ || n == "reject"@ {
            AiAuditStatus::Rejected
        } else {
            AiAuditStatus::NeedsHumanReview
        }
    }

    pub fn parse(value: &str) -> (r: Self)
        ensures
            r == Self::spec_parse_normalized(spec_normalized_enum(value@)),
    {
        let s = normalized_enum(value);
        let n = chars_of(s.as_str());
        if str_eq(n.as_slice(), "approved") || str_eq(n.as_slice(), "approve") {
            AiAuditStatus::Approved
        } else if str_eq(n.as_slice(), "corrected") || str_eq(n.as_slice(), "correct") {
            AiAuditStatus::Corrected
        } else if str_eq(n.as_slice(), "rejected") || str_eq(n.as_slice(), "reject") {
            AiAuditStatus::Rejected
        } else {
            AiAuditStatus::NeedsHumanReview
        }
    }
}

// ---------------------------------------------------------------------------------------
// Candidates and findings

/// One reviewed candidate.
#[derive(Debug, Clone)]
pub struct AiReviewFinding {
    pub path: String,
    pub display_path: String,
    pub size: u64,
    pub source: AiFindingSource,
    pub category: AiCleanupCategory,
    pub risk: AiCleanupRisk,
    pub protected: bool,
    pub analysis_recommendation: AiRecommendation,
    pub analysis_reason: String,
    pub audit_status: AiAuditStatus,
    pub audit_reason: String,
    pub final_recommendation: AiRecommendation,
}


impl AiAuditStatus {
    /// Reading back the name a value is written as gives the value.
    pub proof fn lemma_parse_as_str(self)
        ensures
            Self::spec_parse_normalized(spec_normalized_enum(self.spec_as_str())) == self,
    {
        reveal_strlit("approved");
        reveal_strlit("corrected");
        reveal_strlit("rejected");
        reveal_strlit("needs_human_review");
        reveal_strlit("approve");
        reveal_strlit("correct");
        reveal_strlit("reject");
        lemma_plain_name_normalized(self.spec_as_str());
    }
}
impl AiReviewFinding {
    /// Approved (or corrected) for deletion by the audit, not protected, and of known,
    /// not high, risk.
    pub open spec fn spec_is_delete_list_candidate(self) -> bool {
        &&& (self.audit_status == AiAuditStatus::Approved || self.audit_status == AiAuditStatus::Corrected)
        &&& self.final_recommendation == AiRecommendation::CandidateForDeletion
        &&& !self.protected
        &&& !(self.risk == AiCleanupRisk::High || self.risk == AiCleanupRisk::Unknown)
    }

    /// Whether the finding belongs on the delete list.
    pub fn is_delete_list_candidate(&self) -> (r: bool)
        ensures
            r == self.spec_is_delete_list_candidate(),
    {
        (self.audit_status == AiAuditStatus::Approved || self.audit_status == AiAuditStatus::Corrected)
            && self.final_recommendation == AiRecommendation::CandidateForDeletion && !self.protected
            && !(self.risk == AiCleanupRisk::High || self.risk == AiCleanupRisk::Unknown)
    }
}

/// A candidate as the review sees it.
#[derive(Debug, Clone)]
pub struct CandidateRecord {
    pub id: String,
    pub path: String,
    pub display_path: String,
    pub size: u64,
    pub source: AiFindingSource,
    pub category_hint: AiCleanupCategory,
    pub risk_hint: AiCleanupRisk,
    pub protected: bool,
    pub reason: String,
}

impl CandidateRecord {
    /// A copy of the record.
    pub fn copy(&self) -> (r: CandidateRecord)
        ensures
            r == *self,
    {
        CandidateRecord {
            id: self.id.clone(),
            path: self.path.clone(),
            display_path: self.display_path.clone(),
            size: self.size,
            source: self.source,
            category_hint: self.category_hint,
            risk_hint: self.risk_hint,
            protected: self.protected,
            reason: self.reason.clone(),
        }
    }
}

/// What the first model said of a candidate (its confidence is read by the caller).
#[derive(Debug, Clone)]
pub struct AnalysisVerdict {
    pub id: String,
    pub category: String,
    pub risk: String,
    pub recommendation: String,
    pub reason: String,
}

/// What the auditing model said of a candidate (its confidence is read by the caller).
#[derive(Debug, Clone)]
pub struct AuditVerdict {
    pub id: String,
    pub audit_status: String,
    pub final_recommendation: String,
    pub category: String,
    pub risk: String,
    pub reason: String,
}

/// The verdict for `id`: the last one given for it.
pub open spec fn find_analysis(vs: Seq<AnalysisVerdict>, id: Seq<char>) -> Option<AnalysisVerdict>
    decreases vs.len(),
{
    if vs.len() == 0 {
        None
    } else if vs.last().id@ == id {
        Some(vs.last())
    } else {
        find_analysis(vs.drop_last(), id)
    }
}

/// The audit verdict for `id`: the last one given for it.
pub open spec fn find_audit(vs: Seq<AuditVerdict>, id: Seq<char>) -> Option<AuditVerdict>
    decreases vs.len(),
{
    if vs.len() == 0 {
        None
    } else if vs.last().id@ == id {
        Some(vs.last())
    } else {
        find_audit(vs.drop_last(), id)
    }
}

fn find_analysis_exec<'a>(vs: &'a [AnalysisVerdict], id: &String) -> (r: Option<&'a AnalysisVerdict>)
    ensures
        r matches Some(v) ==> find_analysis(vs@, id@) == Some(*v),
        r is None ==> find_analysis(vs@, id@) is None,
{
    let idv = chars_of(id.as_str());
    let mut i: usize = vs.len();
    assert(vs@.take(i as int) =~= vs@);
    while i > 0
        invariant
            i <= vs@.len(),
            idv@ == id@,
            find_analysis(vs@, id@) == find_analysis(vs@.take(i as int), id@),
        decreases i,
    {
        let v = chars_of(vs[i - 1].id.as_str());
        assert(vs@.take(i as int).drop_last() =~= vs@.take(i - 1));
        if crate::text::chars_eq(v.as_slice(), idv.as_slice()) {
            return Some(&vs[i - 1]);
        }
        i = i - 1;
    }
    None
}

fn find_audit_exec<'a>(vs: &'a [AuditVerdict], id: &String) -> (r: Option<&'a AuditVerdict>)
    ensures
        r matches Some(v) ==> find_audit(vs@, id@) == Some(*v),
        r is None ==> find_audit(vs@, id@) is None,
{
    let idv = chars_of(id.as_str());
    let mut i: usize = vs.len();
    assert(vs@.take(i as int) =~= vs@);
    while i > 0
        invariant
            i <= vs@.len(),
            idv@ == id@,
            find_audit(vs@, id@) == find_audit(vs@.take(i as int), id@),
        decreases i,
    {
        let v = chars_of(vs[i - 1].id.as_str());
        assert(vs@.take(i as int).drop_last() =~= vs@.take(i - 1));
        if crate::text::chars_eq(v.as_slice(), idv.as_slice()) {
            return Some(&vs[i - 1]);
        }
        i = i - 1;
    }
    None
}

/// A model's category, unless it is unknown.
pub open spec fn category_or(text: Seq<char>, fallback: AiCleanupCategory) -> AiCleanupCategory {
    let c = AiCleanupCategory::spec_parse_normalized(spec_normalized_enum(text));
    if c != AiCleanupCategory::Unknown {
        c
    } else {
        fallback
    }
}

/// A model's risk, unless it is unknown.
pub open spec fn risk_or(text: Seq<char>, fallback: AiCleanupRisk) -> AiCleanupRisk {
    let r = AiCleanupRisk::spec_parse_normalized(spec_normalized_enum(text));
    if r != AiCleanupRisk::Unknown {
        r
    } else {
        fallback
    }
}

/// A model's reason, unless it is blank.
pub open spec fn reason_or(text: Seq<char>, fallback: Seq<char>) -> Seq<char> {
    if trim(text).len() > 0 {
        text
    } else {
        fallback
    }
}

pub open spec fn analysis_category(c: CandidateRecord, a: Option<AnalysisVerdict>) -> AiCleanupCategory {
    match a {
        Some(v) => category_or(v.category@, c.category_hint),
        None => c.category_hint,
    }
}

pub open spec fn analysis_risk(c: CandidateRecord, a: Option<AnalysisVerdict>) -> AiCleanupRisk {
    match a {
        Some(v) => risk_or(v.risk@, c.risk_hint),
        None => c.risk_hint,
    }
}

pub open spec fn analysis_recommendation(a: Option<AnalysisVerdict>) -> AiRecommendation {
    match a {
        Some(v) => AiRecommendation::spec_parse_normalized(spec_normalized_enum(v.recommendation@)),
        None => AiRecommendation::NeedsReview,
    }
}

pub open spec fn analysis_reason(a: Option<AnalysisVerdict>) -> Seq<char> {
    match a {
        Some(v) => reason_or(v.reason@, "AI 未返回该候选的分析结果。"@),
        None => "AI 未返回该候选的分析结果。"@,
    }
}

/// `f` describes candidate `c` as the first model saw it (verdict `a`).
pub open spec fn analysed(f: AiReviewFinding, c: CandidateRecord, a: Option<AnalysisVerdict>) -> bool {
    &&& f.path@ == c.path@
    &&& f.display_path@ == c.display_path@
    &&& f.size == c.size
    &&& f.source == c.source
    &&& f.protected == c.protected
    &&& f.category == analysis_category(c, a)
    &&& f.risk == analysis_risk(c, a)
    &&& f.analysis_recommendation == analysis_recommendation(a)
    &&& f.analysis_reason@ == analysis_reason(a)
}

fn text_or(text: &String, fallback: &str) -> (r: String)
    ensures
        r@ == reason_or(text@, fallback@),
{
    let v = chars_of(text.as_str());
    let t = trim_chars(v.as_slice());
    if t.len() > 0 {
        text.clone()
    } else {
        String::from_str(fallback)
    }
}

/// The finding for a candidate after the first model.
fn analysis_finding(c: &CandidateRecord, a: Option<&AnalysisVerdict>) -> (f: AiReviewFinding)
    ensures
        analysed(f, *c, match a { Some(v) => Some(*v), None => None }),
        f.audit_status == AiAuditStatus::NeedsHumanReview,
        f.audit_reason@ == "等待审核 AI 复核。"@,
        f.final_recommendation == AiRecommendation::NeedsReview,
{
    let (category, risk, recommendation, reason) = match a {
        Some(v) => {
            let cat = AiCleanupCategory::parse(v.category.as_str());
            let risk = AiCleanupRisk::parse(v.risk.as_str());
            (
                if cat != AiCleanupCategory::Unknown { cat } else { c.category_hint },
                if risk != AiCleanupRisk::Unknown { risk } else { c.risk_hint },
                AiRecommendation::parse(v.recommendation.as_str()),
                text_or(&v.reason, "AI 未返回该候选的分析结果。"),
            )
        },
        None => (c.category_hint, c.risk_hint, AiRecommendation::NeedsReview, String::from_str("AI 未返回该候选的分析结果。")),
    };
    AiReviewFinding {
        path: c.path.clone(),
        display_path: c.display_path.clone(),
        size: c.size,
        source: c.source,
        category,
        risk,
        protected: c.protected,
        analysis_recommendation: recommendation,
        analysis_reason: reason,
        audit_status: AiAuditStatus::NeedsHumanReview,
        audit_reason: String::from_str("等待审核 AI 复核。"),
        final_recommendation: AiRecommendation::NeedsReview,
    }
}

/// The findings after the first model: its category and risk unless unknown (else the
/// hints), its recommendation (needs review when it said nothing), all awaiting the audit.
pub fn findings_from_analysis(candidates: &[CandidateRecord], analyses: &[AnalysisVerdict]) -> (r: Vec<AiReviewFinding>)
    ensures
        r@.len() == candidates@.len(),
        forall|i: int| 0 <= i < r@.len() ==> analysed(#[trigger] r@[i], candidates@[i], find_analysis(analyses@, candidates@[i].id@))
            && r@[i].audit_status == AiAuditStatus::NeedsHumanReview
            && r@[i].audit_reason@ == "等待审核 AI 复核。"@
            && r@[i].final_recommendation == AiRecommendation::NeedsReview,
{
    let mut r: Vec<AiReviewFinding> = Vec::new();
    let mut i: usize = 0;
    while i < candidates.len()
        invariant
            i <= candidates@.len(),
            r@.len() == i,
            forall|k: int| 0 <= k < i ==> analysed(#[trigger] r@[k], candidates@[k], find_analysis(analyses@, candidates@[k].id@))
                && r@[k].audit_status == AiAuditStatus::NeedsHumanReview
                && r@[k].audit_reason@ == "等待审核 AI 复核。"@
                && r@[k].final_recommendation == AiRecommendation::NeedsReview,
        decreases candidates.len() - i,
    {
        let a = find_analysis_exec(analyses, &candidates[i].id);
        r.push(analysis_finding(&candidates[i], a));
        i = i + 1;
    }
    r
}

/// The final recommendation and audit status: an audit that puts a protected or a high
/// or unknown risk candidate up for deletion is corrected to needing review.
pub open spec fn guarded_verdict(
    protected: bool,
    risk: AiCleanupRisk,
    recommendation: AiRecommendation,
    status: AiAuditStatus,
) -> (AiRecommendation, AiAuditStatus) {
    if (protected || risk == AiCleanupRisk::High || risk == AiCleanupRisk::Unknown)
        && recommendation == AiRecommendation::CandidateForDeletion {
        (AiRecommendation::NeedsReview, AiAuditStatus::Corrected)
    } else {
        (recommendation, status)
    }
}

pub open spec fn audit_category(c: CandidateRecord, a: Option<AnalysisVerdict>, u: Option<AuditVerdict>) -> AiCleanupCategory {
    match u {
        Some(v) => category_or(v.category@, analysis_category(c, a)),
        None => analysis_category(c, a),
    }
}

pub open spec fn audit_risk(c: CandidateRecord, a: Option<AnalysisVerdict>, u: Option<AuditVerdict>) -> AiCleanupRisk {
    match u {
        Some(v) => risk_or(v.risk@, analysis_risk(c, a)),
        None => analysis_risk(c, a),
    }
}

pub open spec fn audit_recommendation(u: Option<AuditVerdict>) -> AiRecommendation {
    match u {
        Some(v) => AiRecommendation::spec_parse_normalized(spec_normalized_enum(v.final_recommendation@)),
        None => AiRecommendation::NeedsReview,
    }
}

pub open spec fn audit_status(u: Option<AuditVerdict>) -> AiAuditStatus {
    match u {
        Some(v) => AiAuditStatus::spec_parse_normalized(spec_normalized_enum(v.audit_status@)),
        None => AiAuditStatus::NeedsHumanReview,
    }
}

pub open spec fn audit_reason(u: Option<AuditVerdict>) -> Seq<char> {
    match u {
        Some(v) => reason_or(v.reason@, "审核 AI 未返回该候选结果，已转入人工复核。"@),
        None => "审核 AI 未返回该候选结果，已转入人工复核。"@,
    }
}

/// `f` describes candidate `c` after the first model (verdict `a`) and the audit (`u`).
pub open spec fn audited(f: AiReviewFinding, c: CandidateRecord, a: Option<AnalysisVerdict>, u: Option<AuditVerdict>) -> bool {
    let risk = audit_risk(c, a, u);
    let verdict = guarded_verdict(c.protected, risk, audit_recommendation(u), audit_status(u));
    &&& f.path@ == c.path@
    &&& f.display_path@ == c.display_path@
    &&& f.size == c.size
    &&& f.source == c.source
    &&& f.protected == c.protected
    &&& f.category == audit_category(c, a, u)
    &&& f.risk == risk
    &&& f.analysis_recommendation == analysis_recommendation(a)
    &&& f.analysis_reason@ == analysis_reason(a)
    &&& f.final_recommendation == verdict.0
    &&& f.audit_status == verdict.1
    &&& f.audit_reason@ == audit_reason(u)
}

/// After the audit a finding carries the risk the auditor names whenever it reads as a
/// known level (only an unknown audit risk falls back to the first model's), and a
/// finding of high or unknown risk, or a protected one, is never left up for deletion: an
/// audit that rates a candidate high keeps it off the delete list. The category is the
/// auditor's when it reads as known; otherwise the auditor's verdict stands as given; a
/// candidate the auditor did not answer for goes to human review.
pub proof fn lemma_audit_risk_decides(
    f: AiReviewFinding,
    c: CandidateRecord,
    a: Option<AnalysisVerdict>,
    u: Option<AuditVerdict>,
)
    requires
        audited(f, c, a, u),
    ensures
        u matches Some(v) ==> (AiCleanupRisk::spec_parse_normalized(spec_normalized_enum(v.risk@)) != AiCleanupRisk::Unknown ==> f.risk == AiCleanupRisk::spec_parse_normalized(spec_normalized_enum(v.risk@))),
        (f.risk == AiCleanupRisk::High || f.risk == AiCleanupRisk::Unknown || f.protected)
            ==> f.final_recommendation != AiRecommendation::CandidateForDeletion && !f.spec_is_delete_list_candidate(),
        u matches Some(v) ==> (AiCleanupRisk::spec_parse_normalized(spec_normalized_enum(v.risk@)) == AiCleanupRisk::High ==> !f.spec_is_delete_list_candidate()),
        u matches Some(v) ==> (AiCleanupCategory::spec_parse_normalized(spec_normalized_enum(v.category@))
            != AiCleanupCategory::Unknown ==> f.category == AiCleanupCategory::spec_parse_normalized(
            spec_normalized_enum(v.category@),
        )),
        u matches Some(v) ==> (!f.protected && f.risk != AiCleanupRisk::High && f.risk != AiCleanupRisk::Unknown
            ==> f.final_recommendation == AiRecommendation::spec_parse_normalized(
            spec_normalized_enum(v.final_recommendation@),
        ) && f.audit_status == AiAuditStatus::spec_parse_normalized(spec_normalized_enum(v.audit_status@))),
        u is None ==> f.final_recommendation == AiRecommendation::NeedsReview && f.audit_status
            == AiAuditStatus::NeedsHumanReview && !f.spec_is_delete_list_candidate(),
        f.path@ == c.path@ && f.size == c.size && f.protected == c.protected,
{
}

fn audit_finding(c: &CandidateRecord, a: Option<&AnalysisVerdict>, u: Option<&AuditVerdict>) -> (f: AiReviewFinding)
    ensures
        audited(
            f,
            *c,
            match a { Some(v) => Some(*v), None => None },
            match u { Some(v) => Some(*v), None => None },
        ),
{
    let first = analysis_finding(c, a);
    let (category, risk, mut recommendation, mut status, reason) = match u {
        Some(v) => {
            let cat = AiCleanupCategory::parse(v.category.as_str());
            let risk = AiCleanupRisk::parse(v.risk.as_str());
            (
                if cat != AiCleanupCategory::Unknown { cat } else { first.category },
                if risk != AiCleanupRisk::Unknown { risk } else { first.risk },
                AiRecommendation::parse(v.final_recommendation.as_str()),
                AiAuditStatus::parse(v.audit_status.as_str()),
                text_or(&v.reason, "审核 AI 未返回该候选结果，已转入人工复核。"),
            )
        },
        None => (
            first.category,
            first.risk,
            AiRecommendation::NeedsReview,
            AiAuditStatus::NeedsHumanReview,
            String::from_str("审核 AI 未返回该候选结果，已转入人工复核。"),
        ),
    };
    if c.protected || risk == AiCleanupRisk::High || risk == AiCleanupRisk::Unknown {
        if recommendation == AiRecommendation::CandidateForDeletion {
            recommendation = AiRecommendation::NeedsReview;
            status = AiAuditStatus::Corrected;
        }
    }
    AiReviewFinding {
        path: first.path,
        display_path: first.display_path,
        size: first.size,
        source: first.source,
        category,
        risk,
        protected: first.protected,
        analysis_recommendation: first.analysis_recommendation,
        analysis_reason: first.analysis_reason,
        audit_status: status,
        audit_reason: reason,
        final_recommendation: recommendation,
    }
}

/// The findings after the audit: the audit's category and risk unless unknown (else the
/// first model's), its verdict, guarded so that nothing protected or of high or unknown
/// risk stays up for deletion.
pub fn findings_from_audit(
    candidates: &[CandidateRecord],
    analyses: &[AnalysisVerdict],
    audits: &[AuditVerdict],
) -> (r: Vec<AiReviewFinding>)
    ensures
        r@.len() == candidates@.len(),
        forall|i: int| 0 <= i < r@.len() ==> audited(
            #[trigger] r@[i],
            candidates@[i],
            find_analysis(analyses@, candidates@[i].id@),
            find_audit(audits@, candidates@[i].id@),
        ),
        forall|i: int|
            0 <= i < r@.len() ==> (find_audit(audits@, candidates@[i].id@) matches Some(v) ==> (AiCleanupRisk::spec_parse_normalized(spec_normalized_enum(v.risk@))
                != AiCleanupRisk::Unknown ==> (#[trigger] r@[i]).risk == AiCleanupRisk::spec_parse_normalized(spec_normalized_enum(v.risk@)))),
        forall|i: int|
            0 <= i < r@.len() ==> (find_audit(audits@, candidates@[i].id@) matches Some(v) ==> (AiCleanupRisk::spec_parse_normalized(spec_normalized_enum(v.risk@))
                == AiCleanupRisk::High ==> !(#[trigger] r@[i]).spec_is_delete_list_candidate())),
{
    let mut r: Vec<AiReviewFinding> = Vec::new();
    let mut i: usize = 0;
    while i < candidates.len()
        invariant
            i <= candidates@.len(),
            r@.len() == i,
            forall|k: int| 0 <= k < i ==> audited(
                #[trigger] r@[k],
                candidates@[k],
                find_analysis(analyses@, candidates@[k].id@),
                find_audit(audits@, candidates@[k].id@),
            ),
        decreases candidates.len() - i,
    {
        let a = find_analysis_exec(analyses, &candidates[i].id);
        let u = find_audit_exec(audits, &candidates[i].id);
        r.push(audit_finding(&candidates[i], a, u));
        i = i + 1;
    }
    proof {
        assert forall|i: int| 0 <= i < r@.len() implies (find_audit(audits@, candidates@[i].id@) matches Some(v)
            ==> (AiCleanupRisk::spec_parse_normalized(spec_normalized_enum(v.risk@)) != AiCleanupRisk::Unknown ==> (#[trigger] r@[i]).risk == AiCleanupRisk::spec_parse_normalized(spec_normalized_enum(v.risk@)) && (AiCleanupRisk::spec_parse_normalized(spec_normalized_enum(v.risk@))
            == AiCleanupRisk::High ==> !r@[i].spec_is_delete_list_candidate()))) by {
            lemma_audit_risk_decides(
                r@[i],
                candidates@[i],
                find_analysis(analyses@, candidates@[i].id@),
                find_audit(audits@, candidates@[i].id@),
            );
        }
    }
    r
}

/// Law: after the audit, no protected candidate and no candidate of high or unknown risk
/// is on the delete list, whatever the models answered.
pub proof fn lemma_audit_never_lists_risky(f: AiReviewFinding, c: CandidateRecord, a: Option<AnalysisVerdict>, u: Option<AuditVerdict>)
    requires
        audited(f, c, a, u),
        c.protected || f.risk == AiCleanupRisk::High || f.risk == AiCleanupRisk::Unknown,
    ensures
        f.final_recommendation != AiRecommendation::CandidateForDeletion,
        !f.spec_is_delete_list_candidate(),
{
}

/// `f` is candidate `c` when no model answer can be used: it needs review, with `reason`
/// as both reasons and unknown risk.
pub open spec fn fallback_finding(f: AiReviewFinding, c: CandidateRecord, reason: Seq<char>) -> bool {
    &&& f.path@ == c.path@
    &&& f.display_path@ == c.display_path@
    &&& f.size == c.size
    &&& f.source == c.source
    &&& f.category == c.category_hint
    &&& f.risk == AiCleanupRisk::Unknown
    &&& f.protected == c.protected
    &&& f.analysis_recommendation == AiRecommendation::NeedsReview
    &&& f.analysis_reason@ == reason
    &&& f.audit_status == AiAuditStatus::NeedsHumanReview
    &&& f.audit_reason@ == reason
    &&& f.final_recommendation == AiRecommendation::NeedsReview
}

/// The findings when no model answer can be used: every candidate needs review, with
/// `reason` as both reasons and unknown risk.
pub fn fallback_findings(candidates: &[CandidateRecord], reason: &str) -> (r: Vec<AiReviewFinding>)
    ensures
        r@.len() == candidates@.len(),
        forall|i: int| 0 <= i < r@.len() ==> fallback_finding(#[trigger] r@[i], candidates@[i], reason@),
{
    let mut r: Vec<AiReviewFinding> = Vec::new();
    let mut i: usize = 0;
    while i < candidates.len()
        invariant
            i <= candidates@.len(),
            r@.len() == i,
            forall|k: int| 0 <= k < i ==> fallback_finding(#[trigger] r@[k], candidates@[k], reason@),
        decreases candidates.len() - i,
    {
        let c = &candidates[i];
        r.push(AiReviewFinding {
            path: c.path.clone(),
            display_path: c.display_path.clone(),
            size: c.size,
            source: c.source,
            category: c.category_hint,
            risk: AiCleanupRisk::Unknown,
            protected: c.protected,
            analysis_recommendation: AiRecommendation::NeedsReview,
            analysis_reason: String::from_str(reason),
            audit_status: AiAuditStatus::NeedsHumanReview,
            audit_reason: String::from_str(reason),
            final_recommendation: AiRecommendation::NeedsReview,
        });
        i = i + 1;
    }
    r
}

/// `f` is candidate `c` as the first model saw it (verdict `a`), sent to human review
/// because the audit failed (`reason`).
pub open spec fn audited_fallback(f: AiReviewFinding, c: CandidateRecord, a: Option<AnalysisVerdict>, reason: Seq<char>) -> bool {
    &&& analysed(f, c, a)
    &&& f.audit_status == AiAuditStatus::NeedsHumanReview
    &&& f.audit_reason@ == reason
    &&& f.final_recommendation == AiRecommendation::NeedsReview
}

/// The findings after the first model when the audit failed: all need review, with
/// `reason` as the audit reason.
pub fn audited_fallback_findings(
    candidates: &[CandidateRecord],
    analyses: &[AnalysisVerdict],
    reason: &str,
) -> (r: Vec<AiReviewFinding>)
    ensures
        r@.len() == candidates@.len(),
        forall|i: int| 0 <= i < r@.len() ==> audited_fallback(#[trigger] r@[i], candidates@[i], find_analysis(analyses@, candidates@[i].id@), reason@),
{
    let first = findings_from_analysis(candidates, analyses);
    let mut r: Vec<AiReviewFinding> = Vec::new();
    let mut i: usize = 0;
    while i < first.len()
        invariant
            i <= first@.len(),
            first@.len() == candidates@.len(),
            forall|k: int| 0 <= k < first@.len() ==> analysed(#[trigger] first@[k], candidates@[k], find_analysis(analyses@, candidates@[k].id@)),
            r@.len() == i,
            forall|k: int| 0 <= k < i ==> audited_fallback(#[trigger] r@[k], candidates@[k], find_analysis(analyses@, candidates@[k].id@), reason@),
        decreases first.len() - i,
    {
        let f = &first[i];
        r.push(AiReviewFinding {
            path: f.path.clone(),
            display_path: f.display_path.clone(),
            size: f.size,
            source: f.source,
            category: f.category,
            risk: f.risk,
            protected: f.protected,
            analysis_recommendation: f.analysis_recommendation,
            analysis_reason: f.analysis_reason.clone(),
            audit_status: AiAuditStatus::NeedsHumanReview,
            audit_reason: String::from_str(reason),
            final_recommendation: AiRecommendation::NeedsReview,
        });
        i = i + 1;
    }
    r
}

// ---------------------------------------------------------------------------------------
// Reports

/// The outcome of an AI review.
#[derive(Debug, Clone)]
pub struct AiAnalysisReport {
    pub root: String,
    pub provider_label: String,
    pub model: String,
    pub candidate_count: u64,
    pub delete_candidate_count: u64,
    pub needs_review_count: u64,
    pub rejected_count: u64,
    pub protected_count: u64,
    pub error_count: u64,
    pub findings: Vec<AiReviewFinding>,
    pub errors: Vec<String>,
}

/// Progress or completion of an AI review.
#[derive(Debug, Clone)]
pub enum AiAnalysisEvent {
    Progress(AiAnalysisProgress),
    Finished(AiAnalysisFinished),
}

#[derive(Debug, Clone)]
pub struct AiAnalysisProgress {
    pub report: Arc<AiAnalysisReport>,
    pub phase: AiAnalysisPhase,
    pub current_item: Option<String>,
    pub finished: bool,
    pub cancelled: bool,
}

#[derive(Debug, Clone)]
pub struct AiAnalysisFinished {
    pub report: Arc<AiAnalysisReport>,
    pub cancelled: bool,
}

/// Number of the findings that `pick` selects.
pub open spec fn count_findings(findings: Seq<AiReviewFinding>, pick: spec_fn(AiReviewFinding) -> bool) -> int
    decreases findings.len(),
{
    if findings.len() == 0 {
        0
    } else {
        count_findings(findings.drop_last(), pick) + if pick(findings.last()) {
            1int
        } else {
            0
        }
    }
}

pub open spec fn on_delete_list() -> spec_fn(AiReviewFinding) -> bool {
    |f: AiReviewFinding| f.spec_is_delete_list_candidate()
}

pub open spec fn needing_review() -> spec_fn(AiReviewFinding) -> bool {
    |f: AiReviewFinding| f.audit_status == AiAuditStatus::NeedsHumanReview || f.final_recommendation == AiRecommendation::NeedsReview
}

pub open spec fn rejected() -> spec_fn(AiReviewFinding) -> bool {
    |f: AiReviewFinding| f.audit_status == AiAuditStatus::Rejected || f.final_recommendation == AiRecommendation::Keep
}

pub open spec fn protected_finding() -> spec_fn(AiReviewFinding) -> bool {
    |f: AiReviewFinding| f.protected
}

proof fn lemma_count_bound(findings: Seq<AiReviewFinding>, pick: spec_fn(AiReviewFinding) -> bool)
    ensures
        0 <= count_findings(findings, pick) <= findings.len(),
    decreases findings.len(),
{
    if findings.len() > 0 {
        lemma_count_bound(findings.drop_last(), pick);
    }
}

/// The host part of the provider's base URL: trimmed, without `https://` or `http://`,
/// without trailing `/`.
pub open spec fn spec_provider_label(base_url: Seq<char>) -> Seq<char> {
    let t = trim(base_url);
    let host = if starts_with(t, "https://"@) {
        t.skip(8)
    } else if starts_with(t, "http://"@) {
        t.skip(7)
    } else {
        t
    };
    trim_trailing(host, '/')
}

/// The text without trailing copies of `c`.
pub open spec fn trim_trailing(s: Seq<char>, c: char) -> Seq<char>
    decreases s.len(),
{
    if s.len() > 0 && s.last() == c {
        trim_trailing(s.drop_last(), c)
    } else {
        s
    }
}

pub(crate) fn trim_trailing_chars(v: &[char], c: char) -> (r: Vec<char>)
    ensures
        r@ == trim_trailing(v@, c),
{
    let mut end: usize = v.len();
    assert(v@.subrange(0, end as int) =~= v@);
    while end > 0 && v[end - 1] == c
        invariant
            end <= v@.len(),
            trim_trailing(v@, c) == trim_trailing(v@.subrange(0, end as int), c),
        decreases end,
    {
        assert(v@.subrange(0, end as int).drop_last() =~= v@.subrange(0, end as int - 1));
        end = end - 1;
    }
    slice_copy(v, 0, end)
}

/// The provider's name as shown: the host part of its base URL.
pub fn provider_label(config: &AiProviderConfig) -> (r: String)
    ensures
        r@ == spec_provider_label(config.base_url@),
{
    let v = chars_of(config.base_url.as_str());
    let t = trim_chars(v.as_slice());
    let https = chars_of("https://");
    let http = chars_of("http://");
    proof {
        reveal_strlit("https://");
        reveal_strlit("http://");
    }
    let host = if starts_with_chars(t.as_slice(), https.as_slice()) {
        slice_copy(t.as_slice(), 8, t.len())
    } else if starts_with_chars(t.as_slice(), http.as_slice()) {
        slice_copy(t.as_slice(), 7, t.len())
    } else {
        slice_copy(t.as_slice(), 0, t.len())
    };
    assert(t@.subrange(0, t@.len() as int) =~= t@);
    assert(t@.subrange(8, t@.len() as int) =~= t@.skip(8));
    assert(t@.subrange(7, t@.len() as int) =~= t@.skip(7));
    let out = trim_trailing_chars(host.as_slice(), '/');
    string_from_chars(out.as_slice())
}

impl AiAnalysisReport {
    /// A report with no findings yet.
    pub fn empty(root: String, config: &AiProviderConfig) -> (r: Self)
        ensures
            r.root == root,
            r.provider_label@ == spec_provider_label(config.base_url@),
            r.model@ == config.model@,
            r.candidate_count == 0,
            r.delete_candidate_count == 0,
            r.needs_review_count == 0,
            r.rejected_count == 0,
            r.protected_count == 0,
            r.error_count == 0,
            r.findings@.len() == 0,
            r.errors@.len() == 0,
    {
        AiAnalysisReport {
            root,
            provider_label: provider_label(config),
            model: config.model.clone(),
            candidate_count: 0,
            delete_candidate_count: 0,
            needs_review_count: 0,
            rejected_count: 0,
            protected_count: 0,
            error_count: 0,
            findings: Vec::new(),
            errors: Vec::new(),
        }
    }

    /// A report of `findings` and `errors`, with their counts.
    pub fn from_findings(root: String, config: &AiProviderConfig, findings: Vec<AiReviewFinding>, errors: Vec<String>) -> (r: Self)
        ensures
            r.root == root,
            r.provider_label@ == spec_provider_label(config.base_url@),
            r.model@ == config.model@,
            r.candidate_count == findings@.len(),
            r.delete_candidate_count == count_findings(findings@, on_delete_list()),
            r.needs_review_count == count_findings(findings@, needing_review()),
            r.rejected_count == count_findings(findings@, rejected()),
            r.protected_count == count_findings(findings@, protected_finding()),
            r.error_count == errors@.len(),
            r.findings@ == findings@,
            r.errors@ == errors@,
    {
        let mut delete_candidate_count: u64 = 0;
        let mut needs_review_count: u64 = 0;
        let mut rejected_count: u64 = 0;
        let mut protected_count: u64 = 0;
        let mut i: usize = 0;
        while i < findings.len()
            invariant
                i <= findings@.len(),
                delete_candidate_count == count_findings(findings@.take(i as int), on_delete_list()),
                needs_review_count == count_findings(findings@.take(i as int), needing_review()),
                rejected_count == count_findings(findings@.take(i as int), rejected()),
                protected_count == count_findings(findings@.take(i as int), protected_finding()),
            decreases findings.len() - i,
        {
            proof {
                let t = findings@.take(i as int);
                lemma_count_bound(t, on_delete_list());
                lemma_count_bound(t, needing_review());
                lemma_count_bound(t, rejected());
                lemma_count_bound(t, protected_finding());
                assert(findings@.take(i as int + 1).drop_last() =~= t);
            }
            let f = &findings[i];
            if f.is_delete_list_candidate() {
                delete_candidate_count = delete_candidate_count + 1;
            }
            if f.audit_status == AiAuditStatus::NeedsHumanReview || f.final_recommendation == AiRecommendation::NeedsReview {
                needs_review_count = needs_review_count + 1;
            }
            if f.audit_status == AiAuditStatus::Rejected || f.final_recommendation == AiRecommendation::Keep {
                rejected_count = rejected_count + 1;
            }
            if f.protected {
                protected_count = protected_count + 1;
            }
            i = i + 1;
        }
        assert(findings@.take(i as int) =~= findings@);
        AiAnalysisReport {
            root,
            provider_label: provider_label(config),
            model: config.model.clone(),
            candidate_count: findings.len() as u64,
            delete_candidate_count,
            needs_review_count,
            rejected_count,
            protected_count,
            error_count: errors.len() as u64,
            findings,
            errors,
        }
    }
}

// ---------------------------------------------------------------------------------------
// Collecting candidates

/// The category a cleanup rule stands for.
pub fn category_from_cleanup_rule(rule_id: &str) -> (r: AiCleanupCategory)
    ensures
        r == (if rule_id@ == "temp_extension"@ {
            AiCleanupCategory::TempFile
        } else if rule_id@ == "log_dump_extension"@ {
            AiCleanupCategory::LogOrDump
        } else if rule_id@ == "backup_extension"@ {
            AiCleanupCategory::BackupOrOld
        } else if rule_id@ == "temp_cache_directory"@ {
            AiCleanupCategory::CacheFile
        } else {
            AiCleanupCategory::Unknown
        }),
{
    let v = chars_of(rule_id);
    if str_eq(v.as_slice(), "temp_extension") {
        AiCleanupCategory::TempFile
    } else if str_eq(v.as_slice(), "log_dump_extension") {
        AiCleanupCategory::LogOrDump
    } else if str_eq(v.as_slice(), "backup_extension") {
        AiCleanupCategory::BackupOrOld
    } else if str_eq(v.as_slice(), "temp_cache_directory") {
        AiCleanupCategory::CacheFile
    } else {
        AiCleanupCategory::Unknown
    }
}

/// The review risk of a cleanup risk.
pub fn risk_from_cleanup_risk(risk: CleanupRisk) -> (r: AiCleanupRisk)
    ensures
        r == (match risk {
            CleanupRisk::Low => AiCleanupRisk::Low,
            CleanupRisk::Medium => AiCleanupRisk::Medium,
        }),
{
    match risk {
        CleanupRisk::Low => AiCleanupRisk::Low,
        CleanupRisk::Medium => AiCleanupRisk::Medium,
    }
}

/// The system prompt of the first model.
pub fn analysis_system_prompt() -> (r: &'static str)
    ensures
        r@ == "你是谨慎的 Windows/Rust 磁盘空间管理助手。你只能做 dry-run 分析，不能要求删除文件。所有不确定项都应转人工复核。"@,
{
    "你是谨慎的 Windows/Rust 磁盘空间管理助手。你只能做 dry-run 分析，不能要求删除文件。所有不确定项都应转人工复核。"
}

/// The system prompt of the auditing model.
pub fn audit_system_prompt() -> (r: &'static str)
    ensures
        r@ == "你是更保守的安全审核 AI，负责纠正磁盘清理分析中的误判，首要目标是避免误删系统、程序、用户资料或证据不足的文件。"@,
{
    "你是更保守的安全审核 AI，负责纠正磁盘清理分析中的误判，首要目标是避免误删系统、程序、用户资料或证据不足的文件。"
}

/// How many characters of an error body are kept.
pub const ERROR_BODY_LIMIT: usize = 400;

/// An error body cut to 400 characters, with `…` when it was longer.
pub fn truncate_error_body(body: &str) -> (r: String)
    ensures
        body@.len() <= ERROR_BODY_LIMIT ==> r@ == body@,
        body@.len() > ERROR_BODY_LIMIT ==> r@ == body@.take(ERROR_BODY_LIMIT as int) + "…"@,
{
    let v = chars_of(body);
    if v.len() <= ERROR_BODY_LIMIT {
        return String::from_str(body);
    }
    let mut out = slice_copy(v.as_slice(), 0, ERROR_BODY_LIMIT);
    push_lit(&mut out, "…");
    assert(v@.subrange(0, ERROR_BODY_LIMIT as int) =~= v@.take(ERROR_BODY_LIMIT as int));
    string_from_chars(out.as_slice())
}

// ---------------------------------------------------------------------------------------
// Reading a model's answer

/// The text starts with `{` and ends with `}`.
pub open spec fn braced(t: Seq<char>) -> bool {
    t.len() > 0 && t[0] == '{' && t.last() == '}'
}

/// Position of the first `c` in `s`, or -1.
pub open spec fn first_index(s: Seq<char>, c: char) -> int
    decreases s.len(),
{
    if s.len() == 0 {
        -1
    } else if s[0] == c {
        0
    } else {
        let k = first_index(s.drop_first(), c);
        if k < 0 {
            -1
        } else {
            k + 1
        }
    }
}

/// Position of the last `c` in `s`, or -1.
pub open spec fn last_index(s: Seq<char>, c: char) -> int
    decreases s.len(),
{
    if s.len() == 0 {
        -1
    } else if s.last() == c {
        s.len() - 1
    } else {
        last_index(s.drop_last(), c)
    }
}

/// The JSON object in a model's answer: the whole trimmed answer if it is braced; else
/// the inside of a ```` ```json ```` (or ```` ``` ````) fence if that is braced; else the
/// text from the first `{` to the last `}`; none when there is no such pair.
pub open spec fn spec_extract_json(content: Seq<char>) -> Option<Seq<char>> {
    let t = trim(content);
    if braced(t) {
        Some(t)
    } else {
        let stripped = if starts_with(t, "```json"@) {
            Some(t.skip(7))
        } else if starts_with(t, "```"@) {
            Some(t.skip(3))
        } else {
            None
        };
        let inner = match stripped {
            Some(x) => if ends_with(x, "```"@) {
                Some(trim(x.take(x.len() - 3)))
            } else {
                None
            },
            None => None,
        };
        if inner matches Some(v) && braced(v) {
            inner
        } else {
            let a = first_index(t, '{');
            let b = last_index(t, '}');
            if 0 <= a && 0 <= b && a < b {
                Some(t.subrange(a, b + 1))
            } else {
                None
            }
        }
    }
}

fn braced_exec(t: &[char]) -> (r: bool)
    ensures
        r == braced(t@),
{
    t.len() > 0 && t[0] == '{' && t[t.len() - 1] == '}'
}

fn first_index_exec(s: &[char], c: char) -> (r: Option<usize>)
    ensures
        r matches Some(k) ==> first_index(s@, c) == k as int,
        r is None ==> first_index(s@, c) == -1,
{
    let mut i: usize = 0;
    while i < s.len()
        invariant
            i <= s@.len(),
            forall|k: int| 0 <= k < i ==> s@[k] != c,
        decreases s.len() - i,
    {
        if s[i] == c {
            proof {
                lemma_first_index(s@, c, i as int);
            }
            return Some(i);
        }
        i = i + 1;
    }
    proof {
        lemma_first_index(s@, c, s@.len() as int);
    }
    None
}

proof fn lemma_first_index(s: Seq<char>, c: char, i: int)
    requires
        0 <= i <= s.len(),
        forall|k: int| 0 <= k < i ==> s[k] != c,
        i < s.len() ==> s[i] == c,
    ensures
        first_index(s, c) == if i < s.len() { i } else { -1 },
    decreases s.len(),
{
    if s.len() > 0 && i > 0 {
        let t = s.drop_first();
        assert forall|k: int| 0 <= k < i - 1 implies t[k] != c by {
            assert(t[k] == s[k + 1]);
        }
        if i < s.len() {
            assert(t[i - 1] == s[i]);
        }
        lemma_first_index(t, c, i - 1);
    }
}

fn last_index_exec(s: &[char], c: char) -> (r: Option<usize>)
    ensures
        r matches Some(k) ==> last_index(s@, c) == k as int && k < s@.len(),
        r is None ==> last_index(s@, c) == -1,
{
    let mut i: usize = s.len();
    assert(s@.take(i as int) =~= s@);
    while i > 0
        invariant
            i <= s@.len(),
            last_index(s@, c) == last_index(s@.take(i as int), c),
        decreases i,
    {
        assert(s@.take(i as int).drop_last() =~= s@.take(i - 1));
        if s[i - 1] == c {
            return Some(i - 1);
        }
        i = i - 1;
    }
    None
}

/// The JSON object in a model's answer, or an error message when there is none.
pub fn extract_json_object(content: &str) -> (r: Result<String, String>)
    ensures
        r is Ok == spec_extract_json(content@) is Some,
        r matches Ok(v) ==> Some(v@) == spec_extract_json(content@),
        r matches Err(e) ==> e@ == "AI 返回内容不是 JSON 对象"@,
{
    let v = chars_of(content);
    let t = trim_chars(v.as_slice());
    if braced_exec(t.as_slice()) {
        return Ok(string_from_chars(t.as_slice()));
    }
    let fence_json = chars_of("```json");
    let fence = chars_of("```");
    proof {
        reveal_strlit("```json");
        reveal_strlit("```");
    }
    let stripped: Option<Vec<char>> = if starts_with_chars(t.as_slice(), fence_json.as_slice()) {
        Some(slice_copy(t.as_slice(), 7, t.len()))
    } else if starts_with_chars(t.as_slice(), fence.as_slice()) {
        Some(slice_copy(t.as_slice(), 3, t.len()))
    } else {
        None
    };
    assert(t@.subrange(7, t@.len() as int) =~= t@.skip(7));
    assert(t@.subrange(3, t@.len() as int) =~= t@.skip(3));
    let inner: Option<Vec<char>> = match stripped {
        Some(x) => {
            if ends_with_chars(x.as_slice(), fence.as_slice()) {
                let body = slice_copy(x.as_slice(), 0, x.len() - 3);
                assert(x@.subrange(0, x@.len() - 3) =~= x@.take(x@.len() - 3));
                Some(trim_chars(body.as_slice()))
            } else {
                None
            }
        },
        None => None,
    };
    match inner {
        Some(w) => {
            if braced_exec(w.as_slice()) {
                return Ok(string_from_chars(w.as_slice()));
            }
        },
        None => {},
    }
    let a = first_index_exec(t.as_slice(), '{');
    let b = last_index_exec(t.as_slice(), '}');
    let tl = t.len();
    match (a, b) {
        (Some(a), Some(b)) => {
            if a < b {
                assert(b < tl);
                let obj = slice_copy(t.as_slice(), a, b + 1);
                return Ok(string_from_chars(obj.as_slice()));
            }
        },
        _ => {},
    }
    Err(String::from_str("AI 返回内容不是 JSON 对象"))
}

/// The run of non-white-space characters at the start of `s`.
pub open spec fn leading_word(s: Seq<char>) -> Seq<char>
    decreases s.len(),
{
    if s.len() == 0 || is_ws(s[0]) {
        Seq::empty()
    } else {
        seq![s[0]] + leading_word(s.drop_first())
    }
}

pub proof fn lemma_leading_word_len(s: Seq<char>)
    ensures
        leading_word(s).len() <= s.len(),
        s.len() > 0 && !is_ws(s[0]) ==> leading_word(s).len() >= 1,
    decreases s.len(),
{
    if s.len() > 0 && !is_ws(s[0]) {
        lemma_leading_word_len(s.drop_first());
    }
}

/// The white-space separated words of `s`.
pub open spec fn words(s: Seq<char>) -> Seq<Seq<char>>
    decreases s.len(),
{
    if s.len() == 0 {
        Seq::empty()
    } else if is_ws(s[0]) {
        words(s.drop_first())
    } else {
        let w = leading_word(s);
        proof {
            lemma_leading_word_len(s);
        }
        seq![w] + words(s.skip(w.len() as int))
    }
}

/// Words joined by single spaces.
pub open spec fn spaced(ws: Seq<Seq<char>>) -> Seq<char>
    decreases ws.len(),
{
    if ws.len() == 0 {
        Seq::empty()
    } else if ws.len() == 1 {
        ws[0]
    } else {
        spaced(ws.drop_last()) + seq![' '] + ws.last()
    }
}

/// A word that looks like a path (holds `:`, `\` or `/`) is replaced.
pub open spec fn redact_word(w: Seq<char>) -> Seq<char> {
    if has_char(w, ':') || has_char(w, '\\') || has_char(w, '/') {
        "<redacted>"@
    } else {
        w
    }
}

/// The text with every path-like word replaced by `<redacted>`, words separated by
/// single spaces.
pub open spec fn spec_redact_text(s: Seq<char>) -> Seq<char> {
    spaced(words(s).map_values(|w: Seq<char>| redact_word(w)))
}

proof fn lemma_leading_word_is(s: Seq<char>, i: int, j: int)
    requires
        0 <= i <= j <= s.len(),
        forall|k: int| i <= k < j ==> !is_ws(s[k]),
        j == s.len() || is_ws(s[j]),
    ensures
        leading_word(s.skip(i)) == s.subrange(i, j),
    decreases j - i,
{
    let t = s.skip(i);
    if i == j {
        assert(t.len() == 0 || t[0] == s[j]);
        assert(s.subrange(i, j) =~= Seq::<char>::empty());
    } else {
        assert(t[0] == s[i]);
        assert(t.drop_first() =~= s.skip(i + 1));
        lemma_leading_word_is(s, i + 1, j);
        assert(s.subrange(i, j) =~= seq![s[i]] + s.subrange(i + 1, j));
    }
}

/// The text with path-like words hidden.
pub fn redact_path_like_text(value: &str) -> (r: String)
    ensures
        r@ == spec_redact_text(value@),
{
    let s = chars_of(value);
    let n = s.len();
    let mut out: Vec<char> = Vec::new();
    let ghost mut done: Seq<Seq<char>> = Seq::empty();
    let mut any_word = false;
    let mut i: usize = 0;
    assert(s@.skip(0) =~= s@);
    while i < n
        invariant
            n == s@.len(),
            i <= n,
            any_word == (done.len() > 0),
            words(s@) == done + words(s@.skip(i as int)),
            out@ == spaced(done.map_values(|w: Seq<char>| redact_word(w))),
        decreases n - i,
    {
        if is_whitespace(s[i]) {
            assert(s@.skip(i as int).drop_first() =~= s@.skip(i + 1));
            i = i + 1;
        } else {
            let start = i;
            let mut j = i;
            let mut path_like = false;
            while j < n && !is_whitespace(s[j])
                invariant
                    n == s@.len(),
                    start <= j <= n,
                    forall|k: int| start <= k < j ==> !is_ws(s@[k]),
                    path_like == (has_char(s@.subrange(start as int, j as int), ':') || has_char(s@.subrange(start as int, j as int), '\\')
                        || has_char(s@.subrange(start as int, j as int), '/')),
                decreases n - j,
            {
                let c = s[j];
                proof {
                    let a = s@.subrange(start as int, j as int);
                    let b = s@.subrange(start as int, j + 1);
                    assert(b =~= a.push(c));
                    assert forall|x: char| has_char(b, x) == (has_char(a, x) || c == x) by {
                        if has_char(b, x) {
                            let k = choose|k: int| 0 <= k < b.len() && b[k] == x;
                            if k < a.len() {
                                assert(a[k] == x);
                            }
                        }
                        if has_char(a, x) {
                            let k = choose|k: int| 0 <= k < a.len() && a[k] == x;
                            assert(b[k] == x);
                        }
                        if c == x {
                            assert(b[a.len() as int] == x);
                        }
                    }
                }
                if c == ':' || c == '\\' || c == '/' {
                    path_like = true;
                }
                j = j + 1;
            }
            let ghost w = s@.subrange(start as int, j as int);
            proof {
                lemma_leading_word_is(s@, start as int, j as int);
                let t = s@.skip(start as int);
                assert(t[0] == s@[start as int]);
                assert(t.skip(w.len() as int) =~= s@.skip(j as int));
                assert(words(t) == seq![w] + words(s@.skip(j as int)));
            }
            let ghost before = done;
            if any_word {
                out.push(' ');
            }
            any_word = true;
            if path_like {
                push_lit(&mut out, "<redacted>");
            } else {
                let word = slice_copy(s.as_slice(), start, j);
                push_all(&mut out, word.as_slice());
            }
            proof {
                done = done.push(w);
                let m = done.map_values(|x: Seq<char>| redact_word(x));
                assert(m.drop_last() =~= before.map_values(|x: Seq<char>| redact_word(x)));
                assert(m.last() == redact_word(w));
                assert(done + words(s@.skip(j as int)) =~= before + (seq![w] + words(s@.skip(j as int))));
                assert(out@ =~= spaced(m));
            }
            i = j;
        }
    }
    proof {
        assert(s@.skip(n as int) =~= Seq::<char>::empty());
        assert(done + Seq::<Seq<char>>::empty() =~= done);
    }
    string_from_chars(out.as_slice())
}

// ---------------------------------------------------------------------------------------
// What is sent to the model

/// A candidate as sent to the model.
#[derive(Debug, Clone)]
pub struct CandidatePayload {
    pub id: String,
    pub source: String,
    pub path: String,
    pub size_bytes: u64,
    pub protected: bool,
    pub category_hint: String,
    pub risk_hint: String,
    pub reason: String,
    pub extension: String,
    pub path_depth: usize,
}

/// The path has a root separator (after its drive prefix, if any).
pub open spec fn has_root(s: Seq<char>) -> bool {
    if runs(s).len() > 0 && is_drive_run(s, 0) {
        s.len() > 2 && is_sep(s[2])
    } else {
        s.len() > 0 && is_sep(s[0])
    }
}

/// Number of the components that are not `.`.
pub open spec fn named_count(cs: Seq<Seq<char>>) -> int
    decreases cs.len(),
{
    if cs.len() == 0 {
        0
    } else {
        named_count(cs.drop_last()) + if cs.last() == seq!['.'] {
            0int
        } else {
            1
        }
    }
}

/// The number of components a Windows path has: its prefix and named components, its root
/// separator, and a leading `.` of a relative path.
pub open spec fn component_count(s: Seq<char>) -> int {
    named_count(comps(s)) + (if has_root(s) { 1int } else { 0 }) + (if !has_root(s) && comps(s).len() > 0
        && comps(s)[0] == seq!['.'] {
        1int
    } else {
        0
    })
}

/// Components are at least one character long and separated, so there are at most half as
/// many (rounded up) as characters.
proof fn lemma_runs_count(s: Seq<char>)
    ensures
        2 * runs(s).len() <= s.len() + 1,
{
    lemma_runs_bounds(s);
    let r = runs(s);
    assert forall|k: int| 0 <= k < r.len() implies #[trigger] r[k].1 >= 2 * k + 1 by {
        lemma_run_end_grows(r, k);
    }
    if r.len() > 0 {
        assert(r[r.len() - 1].1 >= 2 * (r.len() - 1) + 1);
    }
}

proof fn lemma_run_end_grows(r: Seq<(int, int)>, k: int)
    requires
        0 <= k < r.len(),
        forall|j: int| 0 <= j < r.len() ==> 0 <= (#[trigger] r[j]).0 < r[j].1,
        forall|j: int, l: int| 0 <= j < l < r.len() ==> r[j].1 <= r[l].0,
        forall|j: int, l: int| 0 <= j < l < r.len() && r[j].1 == r[l].0 ==> j == 0 && l == 1 && r[0] == (0int, 2int),
    ensures
        r[k].1 >= 2 * k + 1,
    decreases k,
{
    if k > 0 {
        lemma_run_end_grows(r, k - 1);
        assert(r[k - 1].1 <= r[k].0);
    }
}

/// The number of components of a path.
pub fn path_depth(path: &str) -> (r: usize)
    ensures
        r == component_count(path@),
{
    let v = chars_of(path);
    let cs = components_of(v.as_slice());
    let ranges = component_ranges(v.as_slice());
    let vlen = v.len();
    proof {
        lemma_runs_bounds(v@);
        lemma_runs_count(v@);
    }
    let mut named: usize = 0;
    let mut k: usize = 0;
    while k < cs.len()
        invariant
            k <= cs@.len(),
            cs@.len() == comps(v@).len(),
            forall|j: int| 0 <= j < cs@.len() ==> (#[trigger] cs@[j])@ == comps(v@)[j],
            named == named_count(comps(v@).take(k as int)),
            named <= k,
        decreases cs.len() - k,
    {
        assert(comps(v@).take(k as int + 1).drop_last() =~= comps(v@).take(k as int));
        let is_dot = cs[k].len() == 1 && cs[k][0] == '.';
        assert(is_dot == (cs@[k as int]@ == seq!['.'])) by {
            if cs@[k as int]@ == seq!['.'] {
                assert(cs@[k as int]@.len() == 1);
            }
            if is_dot {
                assert(cs@[k as int]@ =~= seq!['.']);
            }
        }
        if !is_dot {
            named = named + 1;
        }
        k = k + 1;
    }
    assert(comps(v@).take(k as int) =~= comps(v@));
    if ranges.len() > 0 {
        assert(runs(v@)[0].0 == ranges@[0].0 && runs(v@)[0].1 == ranges@[0].1);
    }
    let drive = ranges.len() > 0 && ranges[0].0 == 0 && ranges[0].1 == 2 && v[1] == ':';
    let rooted = if drive {
        v.len() > 2 && crate::winpath::is_separator(v[2])
    } else {
        v.len() > 0 && crate::winpath::is_separator(v[0])
    };
    let mut count = named;
    if rooted {
        count = count + 1;
    } else if cs.len() > 0 && cs[0].len() == 1 && cs[0][0] == '.' {
        assert(cs@[0]@ =~= seq!['.']);
        count = count + 1;
    }
    proof {
        if !rooted && cs@.len() > 0 && comps(v@)[0] == seq!['.'] {
            assert(cs@[0]@.len() == 1);
        }
    }
    count
}

/// The extension label sent to the model: `.` and the lowercase extension, or `[none]`.
pub open spec fn payload_extension(path: Seq<char>) -> Seq<char> {
    match extension(path) {
        Some(e) => seq!['.'] + lower_seq(e),
        None => "[none]"@,
    }
}

fn payload_extension_exec(path: &str) -> (r: Vec<char>)
    ensures
        r@ == payload_extension(path@),
{
    let v = chars_of(path);
    match extension_chars(v.as_slice()) {
        Some(e) => {
            let l = to_lower(e.as_slice());
            let mut out: Vec<char> = Vec::new();
            out.push('.');
            push_all(&mut out, l.as_slice());
            assert(out@ =~= seq!['.'] + lower_seq(e@));
            out
        },
        None => chars_of("[none]"),
    }
}

/// A path hidden from the model: `<redacted:id:extension:depthN>`.
pub open spec fn spec_redacted_path(id: Seq<char>, path: Seq<char>) -> Seq<char> {
    "<redacted:"@ + id + seq![':'] + payload_extension(path) + ":depth"@ + decimal(component_count(path) as nat) + seq!['>']
}

/// The candidate's path as hidden from the model.
pub fn redacted_path(candidate: &CandidateRecord) -> (r: String)
    ensures
        r@ == spec_redacted_path(candidate.id@, candidate.path@),
{
    let mut out: Vec<char> = Vec::new();
    push_lit(&mut out, "<redacted:");
    let id = chars_of(candidate.id.as_str());
    push_all(&mut out, id.as_slice());
    out.push(':');
    let ext = payload_extension_exec(candidate.path.as_str());
    push_all(&mut out, ext.as_slice());
    push_lit(&mut out, ":depth");
    let depth = path_depth(candidate.path.as_str());
    let d = decimal_chars(depth as u64);
    push_all(&mut out, d.as_slice());
    out.push('>');
    assert(out@ =~= spec_redacted_path(candidate.id@, candidate.path@));
    string_from_chars(out.as_slice())
}

/// `p` is candidate `c` as sent to the model; paths and reasons are hidden unless the
/// configuration sends full paths.
pub open spec fn payload_of(p: CandidatePayload, c: CandidateRecord, full: bool) -> bool {
    &&& p.id@ == c.id@
    &&& p.source@ == c.source.spec_as_str()
    &&& p.path@ == if full { c.display_path@ } else { spec_redacted_path(c.id@, c.path@) }
    &&& p.size_bytes == c.size
    &&& p.protected == c.protected
    &&& p.category_hint@ == c.category_hint.spec_as_str()
    &&& p.risk_hint@ == c.risk_hint.spec_as_str()
    &&& p.reason@ == if full { c.reason@ } else { spec_redact_text(c.reason@) }
    &&& p.extension@ == payload_extension(c.path@)
    &&& p.path_depth == component_count(c.path@)
}

/// The candidates as sent to the model.
pub fn candidate_payloads(config: &AiProviderConfig, candidates: &[CandidateRecord]) -> (r: Vec<CandidatePayload>)
    ensures
        r@.len() == candidates@.len(),
        forall|i: int| 0 <= i < r@.len() ==> payload_of(#[trigger] r@[i], candidates@[i], config.send_full_paths),
{
    let mut r: Vec<CandidatePayload> = Vec::new();
    let mut i: usize = 0;
    while i < candidates.len()
        invariant
            i <= candidates@.len(),
            r@.len() == i,
            forall|k: int| 0 <= k < i ==> payload_of(#[trigger] r@[k], candidates@[k], config.send_full_paths),
        decreases candidates.len() - i,
    {
        let c = &candidates[i];
        let path = if config.send_full_paths {
            c.display_path.clone()
        } else {
            redacted_path(c)
        };
        let reason = if config.send_full_paths {
            c.reason.clone()
        } else {
            redact_path_like_text(c.reason.as_str())
        };
        let ext = payload_extension_exec(c.path.as_str());
        r.push(CandidatePayload {
            id: c.id.clone(),
            source: String::from_str(c.source.as_str()),
            path,
            size_bytes: c.size,
            protected: c.protected,
            category_hint: String::from_str(c.category_hint.as_str()),
            risk_hint: String::from_str(c.risk_hint.as_str()),
            reason,
            extension: string_from_chars(ext.as_slice()),
            path_depth: path_depth(c.path.as_str()),
        });
        i = i + 1;
    }
    r
}

// ---------------------------------------------------------------------------------------
// Gathering candidates

/// The id of the `n`-th candidate.
pub open spec fn candidate_id(n: nat) -> Seq<char> {
    seq!['c'] + decimal(n)
}

pub open spec fn category_of_rule(rule_id: Seq<char>) -> AiCleanupCategory {
    if rule_id == "temp_extension"@ {
        AiCleanupCategory::TempFile
    } else if rule_id == "log_dump_extension"@ {
        AiCleanupCategory::LogOrDump
    } else if rule_id == "backup_extension"@ {
        AiCleanupCategory::BackupOrOld
    } else if rule_id == "temp_cache_directory"@ {
        AiCleanupCategory::CacheFile
    } else {
        AiCleanupCategory::Unknown
    }
}

/// `r` is the record of cleanup candidate `c`, numbered `n`.
pub open spec fn from_cleanup(r: CandidateRecord, c: CleanupCandidate, n: nat) -> bool {
    &&& r.id@ == candidate_id(n)
    &&& r.path@ == c.path@
    &&& r.display_path@ == c.path@
    &&& r.size == c.size
    &&& r.source == AiFindingSource::CleanupPreview
    &&& r.category_hint == category_of_rule(c.rule_id@)
    &&& r.risk_hint == (match c.risk {
        CleanupRisk::Low => AiCleanupRisk::Low,
        CleanupRisk::Medium => AiCleanupRisk::Medium,
    })
    &&& r.protected == c.protected
    &&& r.reason@ == c.reason@
}

/// The copies that are not kept, each with the path of the copy that is.
pub open spec fn extra_copies(files: Seq<DuplicateFile>, keep: Seq<char>) -> Seq<(DuplicateFile, Seq<char>)>
    decreases files.len(),
{
    if files.len() == 0 {
        Seq::empty()
    } else {
        extra_copies(files.drop_last(), keep) + if files.last().keep {
            Seq::empty()
        } else {
            seq![(files.last(), keep)]
        }
    }
}

/// The copies that are not kept, group by group.
pub open spec fn duplicates_of(groups: Seq<DuplicateGroup>) -> Seq<(DuplicateFile, Seq<char>)>
    decreases groups.len(),
{
    if groups.len() == 0 {
        Seq::empty()
    } else {
        duplicates_of(groups.drop_last()) + extra_copies(groups.last().files@, groups.last().keep_path@)
    }
}

/// The reason given for a duplicate copy.
pub open spec fn duplicate_reason(keep: Seq<char>) -> Seq<char> {
    "重复文件 dry-run：与保留文件 "@ + keep + " 哈希相同，当前文件是重复副本。"@
}

/// `r` is the record of the duplicate copy `f` of the kept file `keep`, numbered `n`.
pub open spec fn from_duplicate(r: CandidateRecord, f: DuplicateFile, keep: Seq<char>, n: nat) -> bool {
    &&& r.id@ == candidate_id(n)
    &&& r.path@ == f.path@
    &&& r.display_path@ == f.path@
    &&& r.size == f.size
    &&& r.source == AiFindingSource::DuplicateFile
    &&& r.category_hint == AiCleanupCategory::Duplicate
    &&& r.risk_hint == if f.protected { AiCleanupRisk::High } else { AiCleanupRisk::Low }
    &&& r.protected == f.protected
    &&& r.reason@ == duplicate_reason(keep)
}

/// The cleanup candidates an AI review looks at.
pub open spec fn cleanup_of(options: AiAnalysisOptions) -> Seq<CleanupCandidate> {
    match options.cleanup_preview {
        Some(p) => p.candidates@,
        None => Seq::empty(),
    }
}

/// The duplicate copies an AI review looks at.
pub open spec fn duplicate_copies_of(options: AiAnalysisOptions) -> Seq<(DuplicateFile, Seq<char>)> {
    match options.duplicate_preview {
        Some(p) => duplicates_of(p.groups@),
        None => Seq::empty(),
    }
}

/// `rs` are the records of the cleanup candidates and then of the duplicate copies,
/// numbered from 1 in that order.
pub open spec fn gathered(rs: Seq<CandidateRecord>, cleanup: Seq<CleanupCandidate>, dups: Seq<(DuplicateFile, Seq<char>)>) -> bool {
    &&& rs.len() == cleanup.len() + dups.len()
    &&& forall|i: int| 0 <= i < cleanup.len() ==> from_cleanup(#[trigger] rs[i], cleanup[i], (i + 1) as nat)
    &&& forall|j: int| 0 <= j < dups.len() ==> from_duplicate(
        #[trigger] rs[cleanup.len() + j],
        dups[j].0,
        dups[j].1,
        (cleanup.len() + j + 1) as nat,
    )
}

/// Larger candidates first, then by path.
pub open spec fn candidate_rank() -> spec_fn(CandidateRecord, CandidateRecord) -> bool {
    |a: CandidateRecord, b: CandidateRecord| key_lt(
        (-(a.size as int), 0, path_order_text(a.path@)),
        (-(b.size as int), 0, path_order_text(b.path@)),
    )
}

fn record_of_duplicate(f: &DuplicateFile, keep: &String, n: usize) -> (r: CandidateRecord)
    ensures
        from_duplicate(r, *f, keep@, n as nat),
{
    let mut id: Vec<char> = Vec::new();
    id.push('c');
    let d = decimal_chars(n as u64);
    push_all(&mut id, d.as_slice());
    assert(id@ =~= candidate_id(n as nat));
    let mut reason: Vec<char> = Vec::new();
    push_lit(&mut reason, "重复文件 dry-run：与保留文件 ");
    let k = chars_of(keep.as_str());
    push_all(&mut reason, k.as_slice());
    push_lit(&mut reason, " 哈希相同，当前文件是重复副本。");
    CandidateRecord {
        id: string_from_chars(id.as_slice()),
        path: f.path.clone(),
        display_path: f.path.clone(),
        size: f.size,
        source: AiFindingSource::DuplicateFile,
        category_hint: AiCleanupCategory::Duplicate,
        risk_hint: if f.protected { AiCleanupRisk::High } else { AiCleanupRisk::Low },
        protected: f.protected,
        reason: string_from_chars(reason.as_slice()),
    }
}

fn record_of_cleanup(c: &CleanupCandidate, n: usize) -> (r: CandidateRecord)
    ensures
        from_cleanup(r, *c, n as nat),
{
    let mut id: Vec<char> = Vec::new();
    id.push('c');
    let d = decimal_chars(n as u64);
    push_all(&mut id, d.as_slice());
    assert(id@ =~= candidate_id(n as nat));
    CandidateRecord {
        id: string_from_chars(id.as_slice()),
        path: c.path.clone(),
        display_path: c.path.clone(),
        size: c.size,
        source: AiFindingSource::CleanupPreview,
        category_hint: category_from_cleanup_rule(c.rule_id),
        risk_hint: risk_from_cleanup_risk(c.risk),
        protected: c.protected,
        reason: c.reason.clone(),
    }
}

/// The candidates of an AI review: the cleanup candidates and the duplicate copies that
/// are not kept, numbered in that order, then ranked larger first (then by path) and cut
/// to the configured number (at least one).
pub fn collect_candidates(options: &AiAnalysisOptions) -> (r: Vec<CandidateRecord>)
    requires
        cleanup_of(*options).len() + duplicate_copies_of(*options).len() < usize::MAX,
    ensures
        exists|rs: Seq<CandidateRecord>| #[trigger] gathered(rs, cleanup_of(*options), duplicate_copies_of(*options))
            && exists|s: Seq<CandidateRecord>| #[trigger] is_sorted(s, candidate_rank()) && s.to_multiset() == rs.to_multiset()
            && r@ == truncated(s, if options.provider_config.max_candidates > 1 { options.provider_config.max_candidates as int } else { 1 }),
{
    let limit = if options.provider_config.max_candidates > 1 { options.provider_config.max_candidates } else { 1 };
    let ghost cleanup = cleanup_of(*options);
    let ghost dups = duplicate_copies_of(*options);
    let mut records: Vec<CandidateRecord> = Vec::new();
    match &options.cleanup_preview {
        Some(preview) => {
            let cands = &preview.candidates;
            let mut i: usize = 0;
            while i < cands.len()
                invariant
                    cands@ == cleanup,
                    cleanup.len() + dups.len() < usize::MAX,
                    i <= cands@.len(),
                    records@.len() == i,
                    forall|k: int| 0 <= k < i ==> from_cleanup(#[trigger] records@[k], cleanup[k], (k + 1) as nat),
                decreases cands.len() - i,
            {
                records.push(record_of_cleanup(&cands[i], i + 1));
                i = i + 1;
            }
        },
        None => {},
    }
    let ghost base = records@;
    assert(base.len() == cleanup.len());
    match &options.duplicate_preview {
        Some(preview) => {
            let groups = &preview.groups;
            let mut g: usize = 0;
            while g < groups.len()
                invariant
                    dups == duplicates_of(groups@),
                    cleanup.len() + dups.len() < usize::MAX,
                    base.len() == cleanup.len(),
                    g <= groups@.len(),
                    records@.len() == cleanup.len() + duplicates_of(groups@.take(g as int)).len(),
                    records@.take(cleanup.len() as int) == base,
                    forall|j: int| 0 <= j < duplicates_of(groups@.take(g as int)).len() ==> from_duplicate(
                        #[trigger] records@[cleanup.len() + j],
                        duplicates_of(groups@.take(g as int))[j].0,
                        duplicates_of(groups@.take(g as int))[j].1,
                        (cleanup.len() + j + 1) as nat,
                    ),
                decreases groups.len() - g,
            {
                let ghost done = duplicates_of(groups@.take(g as int));
                let group = &groups[g];
                let files = &group.files;
                let mut f: usize = 0;
                proof {
                    lemma_duplicates_prefix(groups@, g as int);
                }
                while f < files.len()
                    invariant
                        dups == duplicates_of(groups@),
                        cleanup.len() + dups.len() < usize::MAX,
                        g < groups@.len(),
                        done == duplicates_of(groups@.take(g as int)),
                        done.len() + extra_copies(files@, group.keep_path@).len() <= dups.len(),
                        f <= files@.len(),
                        base.len() == cleanup.len(),
                        records@.len() == cleanup.len() + done.len() + extra_copies(files@.take(f as int), group.keep_path@).len(),
                        records@.take(cleanup.len() as int) == base,
                        forall|j: int| 0 <= j < done.len() + extra_copies(files@.take(f as int), group.keep_path@).len() ==> from_duplicate(
                            #[trigger] records@[cleanup.len() + j],
                            (done + extra_copies(files@.take(f as int), group.keep_path@))[j].0,
                            (done + extra_copies(files@.take(f as int), group.keep_path@))[j].1,
                            (cleanup.len() + j + 1) as nat,
                        ),
                    decreases files.len() - f,
                {
                    let ghost prev = extra_copies(files@.take(f as int), group.keep_path@);
                    assert(files@.take(f as int + 1).drop_last() =~= files@.take(f as int));
                    proof {
                        lemma_extra_copies_prefix(files@, group.keep_path@, f as int + 1);
                    }
                    if !files[f].keep {
                        let n = records.len() + 1;
                        let ghost before = records@;
                        records.push(record_of_duplicate(&files[f], &group.keep_path, n));
                        proof {
                            let now = extra_copies(files@.take(f as int + 1), group.keep_path@);
                            assert(now =~= prev.push((files@[f as int], group.keep_path@)));
                            assert(records@.take(cleanup.len() as int) =~= before.take(cleanup.len() as int));
                            assert forall|j: int| 0 <= j < done.len() + now.len() implies from_duplicate(
                                #[trigger] records@[cleanup.len() + j],
                                (done + now)[j].0,
                                (done + now)[j].1,
                                (cleanup.len() + j + 1) as nat,
                            ) by {
                                if j < done.len() + prev.len() {
                                    assert((done + now)[j] == (done + prev)[j]);
                                    assert(records@[cleanup.len() + j] == before[cleanup.len() + j]);
                                }
                            }
                        }
                    } else {
                        proof {
                            let now = extra_copies(files@.take(f as int + 1), group.keep_path@);
                            assert(now =~= prev);
                        }
                    }
                    f = f + 1;
                }
                proof {
                    assert(files@.take(f as int) =~= files@);
                    assert(groups@.take(g as int + 1).drop_last() =~= groups@.take(g as int));
                    assert(duplicates_of(groups@.take(g as int + 1)) == done + extra_copies(files@, group.keep_path@));
                }
                g = g + 1;
            }
            assert(groups@.take(g as int) =~= groups@);
        },
        None => {},
    }
    let ghost rs = records@;
    proof {
        assert forall|i: int| 0 <= i < cleanup.len() implies from_cleanup(#[trigger] rs[i], cleanup[i], (i + 1) as nat) by {
            assert(rs.take(cleanup.len() as int)[i] == rs[i]);
        }
        assert(gathered(rs, cleanup, dups));
    }
    let less = |a: &CandidateRecord, b: &CandidateRecord| -> (r: bool)
        ensures
            r == candidate_rank()(*a, *b),
        {
            if a.size != b.size {
                a.size > b.size
            } else {
                let pa = chars_of(a.path.as_str());
                let pb = chars_of(b.path.as_str());
                let ka = path_order_chars(pa.as_slice());
                let kb = path_order_chars(pb.as_slice());
                crate::order::compare_text_chars(ka.as_slice(), kb.as_slice()) < 0
            }
        };
    proof {
        lemma_key_order(candidate_rank(), |c: CandidateRecord| (-(c.size as int), 0int, path_order_text(c.path@)));
    }
    let mut sorted = merge_sort(records, &less, Ghost(candidate_rank()));
    let ghost s = sorted@;
    if sorted.len() > limit {
        sorted.truncate(limit);
    }
    assert(is_sorted(s, candidate_rank()));
    sorted
}

proof fn lemma_extra_copies_prefix(files: Seq<DuplicateFile>, keep: Seq<char>, f: int)
    requires
        0 < f <= files.len(),
    ensures
        extra_copies(files.take(f), keep) == extra_copies(files.take(f - 1), keep) + if files[f - 1].keep {
            Seq::empty()
        } else {
            seq![(files[f - 1], keep)]
        },
        extra_copies(files.take(f), keep).len() <= extra_copies(files, keep).len(),
    decreases files.len() - f,
{
    assert(files.take(f).drop_last() =~= files.take(f - 1));
    if f < files.len() {
        lemma_extra_copies_prefix(files, keep, f + 1);
    } else {
        assert(files.take(f) =~= files);
    }
}

proof fn lemma_duplicates_prefix(groups: Seq<DuplicateGroup>, g: int)
    requires
        0 <= g < groups.len(),
    ensures
        duplicates_of(groups.take(g)).len() + extra_copies(groups[g].files@, groups[g].keep_path@).len()
            <= duplicates_of(groups).len(),
    decreases groups.len() - g,
{
    assert(groups.take(g + 1).drop_last() =~= groups.take(g));
    if g + 1 < groups.len() {
        lemma_duplicates_prefix(groups, g + 1);
        assert(groups.take(g + 2).drop_last() =~= groups.take(g + 1));
    } else {
        assert(groups.take(g + 1) =~= groups);
    }
}

} // verus!

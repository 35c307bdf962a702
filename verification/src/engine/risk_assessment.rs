//! Risk model: a 0-100 score built from a base score and dynamic, age and dependency adjustments.
use vstd::prelude::*;

verus! {

/// Risk level derived from the final score (0-100).
#[derive(Debug, Clone, Copy, PartialEq, Eq, Hash, Structural)]
pub enum RiskLevel {
    /// 0-10: safe to delete.
    Safe,
    /// 11-30: probably safe.
    Low,
    /// 31-60: be careful.
    Medium,
    /// 61-90: high risk.
    High,
    /// 91-100: never delete.
    Critical,
}

/// The level that a score falls into.
pub open spec fn level_of(score: int) -> RiskLevel {
    if score <= 10 {
        RiskLevel::Safe
    } else if score <= 30 {
        RiskLevel::Low
    } else if score <= 60 {
        RiskLevel::Medium
    } else if score <= 90 {
        RiskLevel::High
    } else {
        RiskLevel::Critical
    }
}

impl RiskLevel {
    pub open spec fn spec_label(self) -> Seq<char> {
        match self {
            RiskLevel::Safe => "安全"@,
            RiskLevel::Low => "低"@,
            RiskLevel::Medium => "中"@,
            RiskLevel::High => "高"@,
            RiskLevel::Critical => "关键"@,
        }
    }

    pub open spec fn spec_as_str(self) -> Seq<char> {
        match self {
            RiskLevel::Safe => "safe"@,
            RiskLevel::Low => "low"@,
            RiskLevel::Medium => "medium"@,
            RiskLevel::High => "high"@,
            RiskLevel::Critical => "critical"@,
        }
    }

    pub open spec fn spec_color_index(self) -> usize {
        match self {
            RiskLevel::Safe => 0,
            RiskLevel::Low => 1,
            RiskLevel::Medium => 2,
            RiskLevel::High => 3,
            RiskLevel::Critical => 4,
        }
    }

    /// The level of a score: 0-10 safe, 11-30 low, 31-60 medium, 61-90 high, above critical.
    pub fn from_score(score: u8) -> (r: Self)
        ensures
            r == level_of(score as int),
    {
        if score <= 10 {
            RiskLevel::Safe
        } else if score <= 30 {
            RiskLevel::Low
        } else if score <= 60 {
            RiskLevel::Medium
        } else if score <= 90 {
            RiskLevel::High
        } else {
            RiskLevel::Critical
        }
    }

    /// Chinese label.
    pub fn label(self) -> (r: &'static str)
        ensures
            r@ == self.spec_label(),
    {
        match self {
            RiskLevel::Safe => "安全",
            RiskLevel::Low => "低",
            RiskLevel::Medium => "中",
            RiskLevel::High => "高",
            RiskLevel::Critical => "关键",
        }
    }

    /// Machine-readable name.
    pub fn as_str(self) -> (r: &'static str)
        ensures
            r@ == self.spec_as_str(),
    {
        match self {
            RiskLevel::Safe => "safe",
            RiskLevel::Low => "low",
            RiskLevel::Medium => "medium",
            RiskLevel::High => "high",
            RiskLevel::Critical => "critical",
        }
    }

    /// Index of the display color.
    pub fn color_index(self) -> (r: usize)
        ensures
            r == self.spec_color_index(),
    {
        match self {
            RiskLevel::Safe => 0,
            RiskLevel::Low => 1,
            RiskLevel::Medium => 2,
            RiskLevel::High => 3,
            RiskLevel::Critical => 4,
        }
    }
}

/// The levels are ordered like the scores: a higher score never gives a lower color index.
pub proof fn lemma_level_monotone(a: int, b: int)
    requires
        a <= b,
    ensures
        level_of(a).spec_color_index() <= level_of(b).spec_color_index(),
{
}

/// Suggested action for a file.
#[derive(Debug, Clone, Copy, PartialEq, Eq, Hash, Structural)]
pub enum Recommendation {
    /// Safe to delete.
    Delete,
    /// Keep it.
    Keep,
    /// Needs confirmation.
    Review,
    /// Not decided.
    Unknown,
}

impl Recommendation {
    pub open spec fn spec_label(self) -> Seq<char> {
        match self {
            Recommendation::Delete => "删除"@,
            Recommendation::Keep => "保留"@,
            Recommendation::Review => "需确认"@,
            Recommendation::Unknown => "未知"@,
        }
    }

    /// Chinese label.
    pub fn label(self) -> (r: &'static str)
        ensures
            r@ == self.spec_label(),
    {
        match self {
            Recommendation::Delete => "删除",
            Recommendation::Keep => "保留",
            Recommendation::Review => "需确认",
            Recommendation::Unknown => "未知",
        }
    }
}

/// Which layer a decision came from.
#[derive(Debug, Clone, Copy, PartialEq, Eq, Hash, Structural)]
pub enum DecisionSource {
    StaticRule,
    DynamicPerception,
    AiAssist,
    UserConfirmed,
    Unknown,
}

impl DecisionSource {
    pub open spec fn spec_label(self) -> Seq<char> {
        match self {
            DecisionSource::StaticRule => "静态规则"@,
            DecisionSource::DynamicPerception => "动态感知"@,
            DecisionSource::AiAssist => "AI 辅助"@,
            DecisionSource::UserConfirmed => "用户确认"@,
            DecisionSource::Unknown => "未知"@,
        }
    }

    /// Chinese label.
    pub fn label(self) -> (r: &'static str)
        ensures
            r@ == self.spec_label(),
    {
        match self {
            DecisionSource::StaticRule => "静态规则",
            DecisionSource::DynamicPerception => "动态感知",
            DecisionSource::AiAssist => "AI 辅助",
            DecisionSource::UserConfirmed => "用户确认",
            DecisionSource::Unknown => "未知",
        }
    }
}

/// The complete risk assessment of one file.
#[derive(Debug, Clone)]
pub struct RiskAssessment {
    /// Base score (from the file's importance).
    pub base_score: u8,
    /// Adjustment for the runtime state.
    pub dynamic_adjustment: i8,
    /// Adjustment for the file's age.
    pub age_adjustment: i8,
    /// Adjustment for dependencies on the file.
    pub dependency_adjustment: i8,
    /// Final score (0-100).
    pub final_score: u8,
    /// Level of the final score.
    pub level: RiskLevel,
    /// Human-readable impact of a deletion.
    pub impact_description: String,
    pub recommendation: Recommendation,
    pub decision_source: DecisionSource,
}

/// `x` clamped into `lo..=hi`.
pub open spec fn clamp(x: int, lo: int, hi: int) -> int {
    if x < lo {
        lo
    } else if x > hi {
        hi
    } else {
        x
    }
}

impl RiskAssessment {
    /// The sum of the base score and the three adjustments.
    pub open spec fn raw_score(self) -> int {
        self.base_score + self.dynamic_adjustment + self.age_adjustment
            + self.dependency_adjustment
    }

    /// Final score and level agree with the base score and the adjustments.
    pub open spec fn consistent(self) -> bool {
        &&& self.final_score == clamp(self.raw_score(), 0, 100)
        &&& self.level == level_of(self.final_score as int)
    }

    /// An assessment with the given base score and no adjustments.
    pub fn from_base(base_score: u8) -> (r: Self)
        ensures
            r.base_score == base_score,
            r.dynamic_adjustment == 0,
            r.age_adjustment == 0,
            r.dependency_adjustment == 0,
            r.final_score == clamp(base_score as int, 0, 100),
            r.level == level_of(r.final_score as int),
            r.impact_description@ == Seq::<char>::empty(),
            r.recommendation == Recommendation::Unknown,
            r.decision_source == DecisionSource::Unknown,
    {
        let final_score = if base_score < 100 {
            base_score
        } else {
            100
        };
        RiskAssessment {
            base_score,
            dynamic_adjustment: 0,
            age_adjustment: 0,
            dependency_adjustment: 0,
            final_score,
            level: RiskLevel::from_score(final_score),
            impact_description: String::new(),
            recommendation: Recommendation::Unknown,
            decision_source: DecisionSource::Unknown,
        }
    }

    /// Recomputes the final score and level from the base score and adjustments.
    fn recalculate(&mut self)
        ensures
            final(self).consistent(),
            final(self).base_score == old(self).base_score,
            final(self).dynamic_adjustment == old(self).dynamic_adjustment,
            final(self).age_adjustment == old(self).age_adjustment,
            final(self).dependency_adjustment == old(self).dependency_adjustment,
            final(self).impact_description == old(self).impact_description,
            final(self).recommendation == old(self).recommendation,
            final(self).decision_source == old(self).decision_source,
    {
        let raw: i16 = self.base_score as i16 + self.dynamic_adjustment as i16
            + self.age_adjustment as i16 + self.dependency_adjustment as i16;
        let clamped: u8 = if raw < 0 {
            0
        } else if raw > 100 {
            100
        } else {
            raw as u8
        };
        self.final_score = clamped;
        self.level = RiskLevel::from_score(clamped);
    }

    /// Sets the dynamic adjustment and recomputes the score.
    pub fn with_dynamic(self, adjustment: i8) -> (r: Self)
        ensures
            r.consistent(),
            r == (RiskAssessment {
                dynamic_adjustment: adjustment,
                final_score: r.final_score,
                level: r.level,
                ..self
            }),
    {
        let mut r = self;
        r.dynamic_adjustment = adjustment;
        r.recalculate();
        r
    }

    /// Sets the age adjustment and recomputes the score.
    pub fn with_age(self, adjustment: i8) -> (r: Self)
        ensures
            r.consistent(),
            r == (RiskAssessment {
                age_adjustment: adjustment,
                final_score: r.final_score,
                level: r.level,
                ..self
            }),
    {
        let mut r = self;
        r.age_adjustment = adjustment;
        r.recalculate();
        r
    }

    /// Sets the dependency adjustment and recomputes the score.
    pub fn with_dependency(self, adjustment: i8) -> (r: Self)
        ensures
            r.consistent(),
            r == (RiskAssessment {
                dependency_adjustment: adjustment,
                final_score: r.final_score,
                level: r.level,
                ..self
            }),
    {
        let mut r = self;
        r.dependency_adjustment = adjustment;
        r.recalculate();
        r
    }

    /// Sets the impact description.
    pub fn with_impact(self, desc: &str) -> (r: Self)
        ensures
            r.impact_description@ == desc@,
            r == (RiskAssessment { impact_description: r.impact_description, ..self }),
    {
        RiskAssessment { impact_description: String::from_str(desc), ..self }
    }

    /// Sets the recommendation.
    pub fn with_recommendation(self, rec: Recommendation) -> (r: Self)
        ensures
            r == (RiskAssessment { recommendation: rec, ..self }),
    {
        RiskAssessment { recommendation: rec, ..self }
    }

    /// Sets the decision source.
    pub fn with_source(self, source: DecisionSource) -> (r: Self)
        ensures
            r == (RiskAssessment { decision_source: source, ..self }),
    {
        RiskAssessment { decision_source: source, ..self }
    }

    /// Safe to delete when the final score is at most 30.
    pub fn is_safe_to_delete(&self) -> (r: bool)
        ensures
            r == (self.final_score <= 30),
    {
        self.final_score <= 30
    }
}

/// Every adjusted assessment is safe to delete exactly when its level is `Safe` or `Low`.
pub proof fn lemma_safe_iff_low_level(a: RiskAssessment)
    requires
        a.consistent(),
    ensures
        (a.final_score <= 30) <==> (a.level == RiskLevel::Safe || a.level == RiskLevel::Low),
{
}

/// Adjustments for the runtime state of a file.
pub const ADJ_FILE_IN_USE: i8 = 15;
pub const ADJ_SERVICE_DEPENDENCY: i8 = 20;
pub const ADJ_REGISTRY_CRITICAL: i8 = 25;
pub const ADJ_HARDLINK: i8 = 10;
pub const ADJ_RECENTLY_MODIFIED: i8 = 10;
pub const ADJ_STALE_FILE: i8 = -10;
pub const ADJ_UNINSTALLED_APP: i8 = -20;

/// The age adjustment of a file modified at `modified` (seconds since the epoch) seen at `now`.
pub open spec fn spec_age_adjustment(modified: Option<u64>, now: u64) -> i8 {
    match modified {
        None => 0,
        Some(m) => if m > now {
            0
        } else if now - m < 24 * 3600 {
            ADJ_RECENTLY_MODIFIED
        } else if now - m > 30 * 24 * 3600 {
            ADJ_STALE_FILE
        } else {
            0
        },
    }
}

/// Age adjustment: +10 for a file modified within the last 24 hours, -10 for one
/// older than 30 days, 0 otherwise or when the time is unknown or in the future.
pub fn compute_age_adjustment(modified: Option<u64>, now: u64) -> (r: i8)
    ensures
        r == spec_age_adjustment(modified, now),
{
    match modified {
        None => 0,
        Some(m) => {
            if m > now {
                0
            } else {
                let age = now - m;
                if age < 24 * 3600 {
                    ADJ_RECENTLY_MODIFIED
                } else if age > 30 * 24 * 3600 {
                    ADJ_STALE_FILE
                } else {
                    0
                }
            }
        },
    }
}

} // verus!

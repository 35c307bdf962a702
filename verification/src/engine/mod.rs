//! File-awareness engine: static rules, dynamic adjustments and heuristics,
//! unified by the risk engine.
pub mod classification;
pub mod risk_assessment;
pub mod static_rules;
pub mod dynamic_perception;
pub mod probes;
pub mod ai_assist;
pub mod risk_engine;
pub mod knowledge_base;

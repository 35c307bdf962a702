//! Verified core of the C: drive space manager.
pub mod ai_analysis;
pub mod ai_review;
pub mod cleanup;
pub mod color_palette;
pub mod comparison;
pub mod duplicates;
pub mod engine;
pub mod format;
pub mod glob;
pub mod grouping;
pub mod mft;
pub mod model;
pub mod order;
pub mod organizer;
pub mod report;
pub mod scan_cache;
pub mod scanner;
pub mod session;
pub mod search;
pub mod settings;
pub mod sorted;
pub mod table_order;
pub mod tables;
pub mod text;
pub mod treemap;
pub mod winpath;

//! Static code-quality analysis over syntax trees: complexity metrics,
//! lint rules, scoring and baseline comparison.
pub mod text;
pub mod syntax;
pub mod language;
pub mod grammar;
pub mod defaults;
pub mod types;
pub mod config;
pub mod config_search;
pub mod classify;
pub mod names;
pub mod complexity;
pub mod coverage;
pub mod lint;
pub mod lint_laws;
pub mod rules;
pub mod threshold;
pub mod scoring;
pub mod analysis;
pub mod version;
pub mod paths;
pub mod hotspot;
pub mod history;
pub mod baseline;
pub mod files;
pub mod report;

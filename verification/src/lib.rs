pub mod ast;
pub mod cache;
pub mod config;
pub mod engine;
pub mod estree;
pub mod frontend;
pub mod laws;
pub mod lint;
pub mod pipeline;
pub mod policy_ir;
pub mod project;
pub mod results_tui;
pub mod rule_catalog;
pub mod rules_tui;
pub mod rules;
pub mod text;
pub mod tui_common;


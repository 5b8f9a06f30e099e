//! Verified core of the RustUse command-line tool.

pub mod text;
pub mod catalog;
pub mod toml_tree;
pub mod codes;
pub mod facade_issue;
pub mod category_slugs;
pub mod manifest_model;
pub mod manifest_package;
pub mod manifest_workspace;
pub mod keyed;
pub mod github_issue;
pub mod github_model;
pub mod github_policy;
pub mod config;
pub mod project;
pub mod fix_model;
pub mod commands;
pub mod adoption;
pub mod manifest_facade;
pub mod manifest_analysis;
pub mod fix_plan;
pub mod facade_surface;
pub mod facade_model;
pub mod facade_diagnostics;
pub mod catalog_discover;
pub mod toml_edit;
pub mod fix_manifest;
pub mod fix_render;
pub mod fix_build;
pub mod markdown;
pub mod facade_report;
pub mod report_action;
pub mod report_manifest;
pub mod report_build;
pub mod fleet_model;
pub mod fleet_report;
pub mod fleet_health;

//! Finds, lists and migrates the asset usages of a Flutter project.

pub mod asset_metadata;
pub mod asset_usage;
pub mod case_conversion;
pub mod configuration;
pub mod dart_project_relocator;
pub mod filter_ignored_assets;
pub mod find_unused_assets;
pub mod flutter;
pub mod list_unused;
pub mod logger_format;
pub mod migrate;
pub mod outside_types;
pub mod paths;
pub mod regex_engine;
pub mod seq_facts;

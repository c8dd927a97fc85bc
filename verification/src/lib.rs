//! Verified core of a local usage tracker for Codex rollout files.
pub mod adapter;
pub mod analytics;
pub mod config;
pub mod diagnostics;
pub mod domain;
pub mod domain_laws;
pub mod encoding;
pub mod fact_laws;
pub mod global_state;
pub mod home_laws;
pub mod identifiers;
pub mod ingestion;
pub mod json;
pub mod metadata;
pub mod name_laws;
pub mod normalization;
pub mod order;
pub mod owner_laws;
pub mod path_laws;
pub mod paths;
pub mod platform;
pub mod query_laws;
pub mod quota;
pub mod quota_laws;
pub mod record_laws;
pub mod rollout;
pub mod rollout_laws;
pub mod rollout_parser;
pub mod session_index;
pub mod shared;
pub mod state_index;
pub mod text;
pub mod text_laws;
pub mod token_usage;
pub mod usage;

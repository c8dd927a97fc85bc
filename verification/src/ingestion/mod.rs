//! Reading rollout files: what is read, when, and what is committed of it.
pub mod chunk_laws;
pub mod chunks;
pub mod commit_laws;
pub mod commit_types;
pub mod counting_laws;
pub mod group_laws;
pub mod metadata_reading;
pub mod pipeline_laws;
pub mod plan_laws;
pub mod report;
pub mod report_laws;
pub mod round_laws;
pub mod scan_laws;
pub mod scan_run;
pub mod source_batch;
pub mod source_laws;
pub mod thread_group;
pub mod usage_commit;
pub mod usage_laws;
pub mod usage_pipeline;
pub mod usage_plan;
pub mod usage_processor;
pub mod usage_round;
pub mod usage_window;
pub mod window_laws;

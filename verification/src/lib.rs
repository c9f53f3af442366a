//! Build orchestration for small compiled-language projects: configuration
//! resolution, source discovery, compile scheduling and the build pipeline.

pub mod text;
pub mod toml_doc;
pub mod config;
pub mod catalog;
pub mod plan;
pub mod jobs;
pub mod commands;
pub mod outcome;
pub mod pipeline;
pub mod scheduler;

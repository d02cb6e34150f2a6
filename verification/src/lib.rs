//! Verified core of a local kanban board and coding-agent log pipeline.
pub mod text;
pub mod json;
pub mod kimi;
pub mod kimi_log;
pub mod skills;
pub mod kanban;
pub mod kanban_api;
pub mod file_ranker;
pub mod config;
pub mod workspace;

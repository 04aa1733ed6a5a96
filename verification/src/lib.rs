//! Verified core of the Cline X-Ray inspector: the parsing and selection
//! logic behind its views of Cline's task logs and shadow-git checkpoints.

pub mod text;
pub mod changesignore;
pub mod util;
pub mod gemini;
pub mod models;
pub mod shadow_git;
pub mod subtasks;
pub mod history;
pub mod messages;
pub mod agent;
pub mod logs;
pub mod chat;
pub mod latest;
pub mod keyed;
pub mod changes;
pub mod detail;
pub mod timeline;
pub mod agents;
pub mod config;
pub mod jira;
pub mod session;
pub mod tools;
pub mod gemini_api;
pub mod agent_loop;
pub mod stats;
pub mod task_groups;
pub mod diff_run;
pub mod executor;
pub mod summary;
pub mod task_index;

//! State and rules of the Casparian terminal UI.
//!
//! Screens and tabs (`tabs`, `navigation`, `shell`, `shell_keys`, `keymap`,
//! `action_bar`, `layout`, `list_view`, `parser_bench`), the jobs list
//! (`jobs`, `jobs_state`, `jobs_merge`, `job_updates`), approvals,
//! sessions, queries and the command palette, the Discover screen
//! (`discover`, `discover_state`, `discover_ops`, `source_edits`,
//! `tag_requests`, `write_queue`, `files_query`, `file_filters`,
//! `folder_listing`, `background`, `scan_progress`), rules and extraction
//! (`rule_builder`, `rule_search`, `glob_explorer`, `extraction`, `glob_pattern`,
//! `selection`), flows (`flow`, `flow_laws`, `flow_assert`,
//! `flow_steps`, `flow_record`), and shared text, order, time and id
//! helpers (`text`, `text_order`, `clock`, `uuid_text`), with the backend
//! routing of writes (`backend`) and the database health check
//! (`db_health`).
use vstd::prelude::*;

pub mod text;
pub mod text_order;
pub mod clock;
pub mod uuid_text;
pub mod tabs;
pub mod extraction;
pub mod glob_pattern;
pub mod rule_builder;
pub mod selection;
pub mod jobs;
pub mod jobs_state;
pub mod jobs_merge;
pub mod job_updates;
pub mod approvals;
pub mod command_palette;
pub mod query;
pub mod discover;
pub mod discover_state;
pub mod discover_ops;
pub mod file_filters;
pub mod sessions;
pub mod shell;
pub mod parser_bench;
pub mod navigation;
pub mod source_edits;
pub mod folder_listing;
pub mod tag_requests;
pub mod db_health;
pub mod write_queue;
pub mod files_query;
pub mod rule_search;
pub mod glob_explorer;
pub mod flow;
pub mod flow_laws;
pub mod flow_assert;
pub mod flow_steps;
pub mod flow_record;
pub mod layout;
pub mod backend;
pub mod action_bar;
pub mod keymap;
pub mod shell_keys;
pub mod list_view;
pub mod scan_progress;
pub mod background;

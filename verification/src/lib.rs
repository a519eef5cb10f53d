//! Qcker: container-engine logic with machine-checked contracts.

pub mod text;
pub mod error;
pub mod types;
pub mod protocol;
pub mod vsock;
pub mod paths;
pub mod digest;
pub mod id;
pub mod config;
pub mod kernel;
pub mod rootfs;
pub mod fs_share;
pub mod vmm;
pub mod tar_path;
pub mod native;
pub mod selector;
pub mod port_forward;
pub mod run_plan;
pub mod tui_app;
pub mod tui_keys;
pub mod tui_event;
pub mod file_list;
pub mod microvm;
pub mod migrate;
pub mod cli;
pub mod tui_text;
pub mod tui_rows;
pub mod benchmark;
pub mod host_stats;

pub mod text;
pub mod path;
pub mod peer;
pub mod canonical;
pub mod pair;
pub mod dataset;
pub mod manifest;
pub mod session;
pub mod status;
pub mod sync;
pub mod error;
pub mod engine;
pub mod bundle;
pub mod config;
pub mod commands;
pub mod cert;
pub mod user_service;
pub mod systemd;
pub mod launch_agent;
pub mod windows_task_scheduler;
pub mod output;
pub mod reports;
pub mod tui;
pub mod context;

//! Provisioning engine: typed argument values, validation rules, the command
//! registry, the platform gate, the task execution engine, run orchestration
//! and the history ledger.

pub mod arguments;
pub mod base_config;
pub mod cli;
pub mod command;
pub mod commands;
pub mod config_value;
pub mod directory;
pub mod history;
pub mod os;
pub mod shell;
pub mod task;
pub mod task_config;
pub mod task_runner;
pub mod temp_storage;
pub mod threads;
pub mod validation;

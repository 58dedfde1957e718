//! The rules of a game launcher: what a profile needs before the game can
//! be started, and how the game's files are downloaded, brought up to date
//! and installed.
//!
//! The library touches neither files nor the network nor other programs.
//! Each pipeline is a state machine that takes what happened outside and
//! answers with the actions to perform; what holds of every run of a
//! machine is proved beside it.

pub mod ashita;
pub mod check_game;
pub mod commands;
pub mod config;
pub mod download_order;
pub mod download_run;
pub mod file_download;
pub mod launch_check;
pub mod path;
pub mod progress;
pub mod report_pace;
pub mod state;
pub mod task_registry;
pub mod tasks;
pub mod text;
pub mod update_cache;
pub mod windower;

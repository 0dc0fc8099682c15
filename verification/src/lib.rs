//! Backup archival, transfer verification and retention for a service's
//! data directories, with the small helpers of the surrounding tool.

pub mod archive;
pub mod backup;
pub mod banner;
pub mod clap_utils;
pub mod command;
pub mod compile_controllers;
pub mod date;
pub mod digest;
pub mod download_controllers;
pub mod ensurer;
pub mod file_utils;
pub mod followup;
pub mod format;
pub mod github_utils;
pub mod hash_utils;
pub mod jenkins_utils;
pub mod log_search;
pub mod naming;
pub mod number_utils;
pub mod objects;
pub mod orchestrator;
pub mod order;
pub mod pattern;
pub mod pufferfish;
pub mod retention;
pub mod retention_laws;
pub mod server_jars_com;
pub mod text;
pub mod transfer;
pub mod transfer_laws;
pub mod viaversion;

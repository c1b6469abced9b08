//! Synchronisation core for editor configuration: structural merge of
//! configuration trees, timestamped backups with retention, and the
//! orchestration of the settings, keybindings and extensions phases.

pub mod backup;
pub mod backup_laws;
pub mod effects;
pub mod extensions;
pub mod history;
pub mod ide;
pub mod json;
pub mod jsonc;
pub mod listing;
pub mod merge;
pub mod merge_laws;
pub mod models;
pub mod paths;
pub mod sync;
pub mod sync_laws;
pub mod text;

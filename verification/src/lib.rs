//! Core engine of a Minecraft mod manager: compatibility resolution of
//! platform file lists against a target game version and mod loader,
//! normalization into downloadable artifacts, cached-download planning with
//! progress accounting, and modpack archive entry planning.

pub mod check;
pub mod config;
pub mod modpack;
pub mod upgrade;

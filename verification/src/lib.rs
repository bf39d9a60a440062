//! Command-line front end and startup orchestrator for Redpile, a voxel
//! logic simulator: recognition of the process arguments, validation of
//! the startup configuration, and the ordered resource steps from
//! launch to exit. The native simulation core — scripting engine, world
//! storage, the run modes — stays behind the orchestration's actions.

pub mod config;
pub mod digits;
pub mod options;
pub mod startup;

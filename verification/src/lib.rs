//! Decision logic of a Windows tuning tool, kept apart from the system calls:
//! the scripts and registry values it writes, how it judges their outcome,
//! what it backs up and how it restores it, which processes it trims, how it
//! classifies the machine and orders its telemetry.
pub mod apply;
pub mod backup;
pub mod cli;
pub mod dashboard;
pub mod encoding;
pub mod error;
pub mod gpu_priority;
pub mod keys;
pub mod powershell;
pub mod profile;
pub mod protect;
pub mod scripts;
pub mod telemetry;
pub mod text;
pub mod trim;

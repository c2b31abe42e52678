//! Core of a disk-space reclamation utility: sizing directory trees,
//! judging whether a directory may be relocated, driving the relocation
//! through its phases, and recovering from failures.
//!
//! All filesystem access is left to the caller. The library works on plain
//! descriptions of what the caller observed and answers with results and
//! decisions whose contracts are machine-checked.

pub mod appdata_analyzer;
pub mod clock;
pub mod commands;
pub mod directory_cache;
pub mod disk_analyzer;
pub mod error_recovery;
pub mod file_operations;
pub mod identifiers;
pub mod logger;
pub mod migration_pipeline;
pub mod migration_service;
pub mod operation_logger;
pub mod path_safety;
pub mod performance_optimizer;
pub mod recovery_session;
pub mod ratio;
pub mod scan_laws;
pub mod scan_model;
pub mod scan_progress;
pub mod size_format;
pub mod smart_batch;
pub mod sorting;
pub mod text;
pub mod types;


//! In-memory scaffolding around the core: submission storage, analysis
//! results, job bookkeeping, and the public query surface.

pub mod shared_models;
pub mod models;
pub mod ids;
pub mod code_storage;
pub mod data_manager;
pub mod archive_system;
pub mod result_processor;
pub mod execution_engine;
pub mod analysis;

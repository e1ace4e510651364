//! Compilation jobs for uploaded Pd patches: the job records and their status
//! machine, the shared job store, the stages of the build pipeline, and the
//! decisions that turn an upload form into a new job.
pub mod boards;
pub mod text;
pub mod patches;
pub mod upload;
pub mod store;
pub mod env_config;
pub mod compilation_worker;

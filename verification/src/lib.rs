//! Verified core of the LizzieYzy Next desktop workspace.
pub mod analysis_job;
pub mod analysis_task;
pub mod catalog;
pub mod engine;
pub mod katago;
pub mod model;
pub mod move_rank;
pub mod preferences;
pub mod recovery;
pub mod save_as;
pub mod text;

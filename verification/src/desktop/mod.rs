//! The native desktop program: job tracker, coach chat and recorder.
pub mod app;
pub mod backend_client;
pub mod calendar;
pub mod cli;
pub mod credentials;
pub mod jobs_store;
pub mod laws;
pub mod markdown;
pub mod recorder;
pub mod samples;
pub mod sidecar;
pub mod storage;
pub mod types;

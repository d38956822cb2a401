//! The Tauri shell of the web front end: its command layer's decisions, the
//! backend bridge, the event stream and the voice loop.
pub mod bridge;
pub mod commands;
pub mod credentials;
pub mod laws;
pub mod replies;
pub mod sidecar;
pub mod stores;
pub mod stream;
pub mod types;
pub mod voice;

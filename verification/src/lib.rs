//! InterPrep core library: job-pipeline state, streaming-protocol decoding,
//! resume and report storage rules, credentials, and the text utilities they
//! rest on — each stated and proved with Verus.
pub mod desktop;
pub mod keychain;
pub mod shell;
pub mod sse;
pub mod text;

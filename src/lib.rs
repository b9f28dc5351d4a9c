//! Orchestration core of a service that renders a repository's history as a
//! video: job registry and lifecycle, the pacing heuristic, command
//! construction for the external tools, token decryption and retention.

pub mod pacing;
pub mod text;
pub mod error;
pub mod token;
pub mod repo_url;
pub mod history;
pub mod render;
pub mod registry;
pub mod orchestrator;
pub mod retention;
pub mod logging;

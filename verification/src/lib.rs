//! Orchestration core of a desktop media-acquisition and stem-separation tool.
//!
//! The library holds the verified logic: input classification, settings
//! projection, external-tool command construction, process-supervision
//! decisions, artifact discovery and history indexing. All interaction with
//! the operating system (processes, files, network, dialogs) stays outside,
//! in thin callers that exchange plain values with these functions.

pub mod artifacts;
pub mod commands;
pub mod errors;
pub mod gpu;
pub mod history;
pub mod input;
pub mod json;
pub mod models;
pub mod paths;
pub mod progress;
pub mod resolver;
pub mod settings;
pub mod strutil;
pub mod supervisor;
pub mod video;

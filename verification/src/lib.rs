//! Build orchestration for small C++ projects: locating the project root,
//! reading `chp.toml`, discovering sources, assembling compiler and program
//! invocations, and planning a fresh project skeleton.
//!
//! Nothing here touches the disk or spawns a process. Callers hand in what
//! they observed (directory listings, file contents, process output) and
//! receive what to do next.

pub mod error;
pub mod text;
pub mod root;
pub mod document;
pub mod config;
pub mod discover;
pub mod pipeline;
pub mod scaffold;

//! A checkpointed environment-provisioning runner: ordered setup steps, each an
//! ordered list of tools, executed so that an interrupted run resumes exactly
//! where it stopped.

pub mod laws;
pub mod progress;
pub mod projects;
pub mod shell;
pub mod text;
pub mod tools;
pub mod tui;

//! Staged migration of a configuration bundle into a live configuration
//! directory: path resolution, tree copy planning, selective cleanup, backup
//! decisions, line-level config patching and the stage orchestrator.
//!
//! The stages decide; they do not touch the disk. Each takes what the
//! caller observed (whether a path exists, what a directory lists, the
//! lines of a file, a typed answer) and returns the file-system steps to
//! take, as `action::FsAction` values, which the caller carries out in
//! order, stopping at the first failure.

pub mod text;
pub mod input;
pub mod action;
pub mod paths;
pub mod layouts;
pub mod pattern;
pub mod patch;
pub mod settings;
pub mod cleanup;
pub mod tree;
pub mod backup;
pub mod stages;
pub mod pipeline;

//! Decision logic of a scaffolding and build-orchestration tool for C++
//! projects: dependency lists, the transient package-manager manifest, the
//! marker-delimited section of a build file, and the command pipelines.

pub mod doctor;
pub mod error;
pub mod host;
pub mod install;
pub mod manifest;
pub mod patcher;
pub mod pipeline;
pub mod platform;
pub mod requirements;
pub mod scaffold;
pub mod text;

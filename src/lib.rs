//! Core logic of a NockApp developer toolchain manager: channel and target
//! selection, release-manifest resolution, artifact integrity and signature
//! checks, archive entry selection, cache synchronisation and the per-artifact
//! install sequence, plus the project and library helpers around them.

pub mod text;
pub mod target;
pub mod validation;
pub mod manifest;
pub mod integrity;
pub mod signature;
pub mod fetch;
pub mod extract;
pub mod sync;
pub mod install;
pub mod library;
pub mod project;
pub mod config;
pub mod version;
pub mod cli;
pub mod shell;

//! Module resolution and package acquisition for an embedded JavaScript
//! engine: specifiers, the npm and JSR package caches, the download policy,
//! the CommonJS analysis and the module loader.
//!
//! The library decides and performs no I/O. Outside work is handed to it as
//! values, or asked of the caller step by step.

pub mod cjs_analyzer;
pub mod cjs_cache;
pub mod cjs_tracker;
pub mod download;
pub mod entries;
pub mod error;
pub mod inner_loader;
pub mod jsr;
pub mod jsr_versions;
pub mod loader;
pub mod media;
pub mod memo;
pub mod npm;
pub mod npm_install;
pub mod npm_registry;
pub mod package_exports;
pub mod paths;
pub mod semver;
pub mod specifier;
pub mod text;
pub mod urls;

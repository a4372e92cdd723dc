//! Core logic of a small Python package installer: package-spec parsing,
//! release selection, cache freshness and sweeping, download retry
//! orchestration, and batch reporting, with the surrounding I/O kept at the
//! edges.

pub mod cache;
pub mod cli;
pub mod config;
pub mod downloader;
pub mod invoker;
pub mod lockfile;
pub mod orchestrator;
pub mod pkgspec;
pub mod requirements;
pub mod resolver;
pub mod utils;

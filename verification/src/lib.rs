//! Verified core of `codex-ws`: workspace manifests, runtime setup validation,
//! Docker launch arguments, user configuration and saved-workspace handling.

pub mod text;
pub mod runtime;
pub mod manifest;
pub mod outside;
pub mod docker;
pub mod workspace;
pub mod config;
pub mod provider;
pub mod cli;
pub mod app;

//! Handle bookkeeping, registries and project scaffolding for RNL
//! (React Native Libre), with their contracts.
pub mod strings;
pub mod names;
pub mod registry;
pub mod bridge;
pub mod callbacks;
pub mod headless;
pub mod runtime;
pub mod elements;
pub mod cli;
pub mod config;
pub mod templates;
pub mod commands;
pub mod laws;

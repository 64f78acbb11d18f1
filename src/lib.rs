//! A manager for a directory of projects: the project index, name rules,
//! name resolution and template provisioning.
pub mod autocomplete;
pub mod backup;
pub mod commands;
pub mod config;
pub mod index;
pub mod library;
pub mod naming;
pub mod program;
pub mod template;
pub mod text;

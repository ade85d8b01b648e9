//! Manages the global identity of the Git version-control tool (name,
//! email and signing key) and a store of named identity profiles.

pub mod cli;
pub mod config;
pub mod domain;
pub mod error;
pub mod gitconfig;
pub mod handler;
pub mod laws;
pub mod order;
pub mod platform;

//! Structural validation and classification of uploaded mod archives.
//!
//! The heart of the crate is [`validate`]: a registry of loader-specific
//! validators, a dispatch engine that picks the applicable validator from the
//! declared project type, loaders and game-version range, and the per-validator
//! structural checks over an archive's entry listing.

pub mod database;
pub mod file_hosting;
pub mod models;
pub mod routes;
pub mod validate;

//! The API-facing data model.

pub mod projects;

//! The data model of the persistence layer.

pub mod models;

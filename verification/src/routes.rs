//! The data model of the HTTP surface that surrounds the library: the query
//! and body shapes that its routes accept.  The transport itself — routing,
//! serialization, persistence — is the embedding application's business.

pub mod moderation;
pub mod projects;
pub mod reports;

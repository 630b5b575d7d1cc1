//! Projects as the API reports them.
//!
//! Timestamps are unix seconds; status and side tags are carried as the
//! strings they are serialized to.

use vstd::prelude::*;

verus! {

/// The identifier of a project on the API surface.
#[derive(Debug, Clone, Copy, PartialEq, Eq, Structural)]
pub struct ProjectId(pub u64);

/// The identifier of a team on the API surface.
#[derive(Debug, Clone, Copy, PartialEq, Eq, Structural)]
pub struct TeamId(pub u64);

/// The identifier of a project version on the API surface.
#[derive(Debug, Clone, Copy, PartialEq, Eq, Structural)]
pub struct VersionId(pub u64);

/// A message a moderator attached to a project.
#[derive(Debug, Clone, PartialEq, Eq)]
pub struct ModeratorMessage {
    pub message: String,
    pub body: Option<String>,
}

/// The license of a project.
#[derive(Debug, Clone, PartialEq, Eq)]
pub struct License {
    pub id: String,
    pub name: String,
    pub url: Option<String>,
}

/// A donation link of a project.
#[derive(Debug, Clone, PartialEq, Eq)]
pub struct DonationLink {
    pub id: String,
    pub platform: String,
    pub url: String,
}

/// A gallery image of a project.
#[derive(Debug, Clone, PartialEq, Eq)]
pub struct GalleryItem {
    pub url: String,
    pub featured: bool,
    pub title: Option<String>,
    pub description: Option<String>,
    pub created: i64,
}

/// A project returned from the API.
#[derive(Debug, Clone, PartialEq, Eq)]
pub struct Project {
    pub id: ProjectId,
    pub slug: Option<String>,
    pub project_type: String,
    pub team: TeamId,
    pub title: String,
    pub description: String,
    pub body: String,
    pub body_url: Option<String>,
    pub published: i64,
    pub updated: i64,
    pub status: String,
    pub moderator_message: Option<ModeratorMessage>,
    pub license: License,
    pub client_side: String,
    pub server_side: String,
    pub downloads: u32,
    pub followers: u32,
    pub categories: Vec<String>,
    pub versions: Vec<VersionId>,
    pub icon_url: Option<String>,
    pub issues_url: Option<String>,
    pub source_url: Option<String>,
    pub wiki_url: Option<String>,
    pub discord_url: Option<String>,
    pub donation_urls: Option<Vec<DonationLink>>,
    pub gallery: Vec<GalleryItem>,
}

} // verus!

//! Rows of the persistence layer, as its queries hand them back.
//!
//! Identifiers are the signed integers the database stores; timestamps are
//! unix seconds; status and side tags are carried as strings.

use vstd::prelude::*;

verus! {

/// The identifier of a project row.
#[derive(Debug, Clone, Copy, PartialEq, Eq, Structural)]
pub struct ProjectId(pub i64);

/// The identifier of a team row.
#[derive(Debug, Clone, Copy, PartialEq, Eq, Structural)]
pub struct TeamId(pub i64);

/// The identifier of a project version row.
#[derive(Debug, Clone, Copy, PartialEq, Eq, Structural)]
pub struct VersionId(pub i64);

/// The project row itself.
#[derive(Debug, Clone, PartialEq, Eq)]
pub struct Project {
    pub id: ProjectId,
    pub team_id: TeamId,
    pub slug: Option<String>,
    pub title: String,
    pub description: String,
    pub body: String,
    pub body_url: Option<String>,
    pub published: i64,
    pub updated: i64,
    pub moderation_message: Option<String>,
    pub moderation_message_body: Option<String>,
    pub license_url: Option<String>,
    pub downloads: i32,
    pub follows: i32,
    pub icon_url: Option<String>,
    pub issues_url: Option<String>,
    pub source_url: Option<String>,
    pub wiki_url: Option<String>,
    pub discord_url: Option<String>,
}

/// A donation link row of a project.
#[derive(Debug, Clone, PartialEq, Eq)]
pub struct DonationUrl {
    pub platform_short: String,
    pub platform_name: String,
    pub url: String,
}

/// A gallery item row of a project.
#[derive(Debug, Clone, PartialEq, Eq)]
pub struct GalleryItem {
    pub image_url: String,
    pub featured: bool,
    pub title: Option<String>,
    pub description: Option<String>,
    pub created: i64,
}

/// A project together with everything its query joins in.
#[derive(Debug, Clone, PartialEq, Eq)]
pub struct QueryProject {
    pub inner: Project,
    pub project_type: String,
    pub status: String,
    pub license_id: String,
    pub license_name: String,
    pub client_side: String,
    pub server_side: String,
    pub categories: Vec<String>,
    pub versions: Vec<VersionId>,
    pub donation_urls: Vec<DonationUrl>,
    pub gallery_items: Vec<GalleryItem>,
}

} // verus!

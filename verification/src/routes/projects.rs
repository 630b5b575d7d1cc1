//! Query shapes of the project routes, and the conversion from a project as
//! the persistence layer hands it back to a project as the API reports it.

use vstd::prelude::*;

use crate::database::models::QueryProject;
use crate::models::projects::DonationLink;
use crate::models::projects::GalleryItem;
use crate::models::projects::License;
use crate::models::projects::ModeratorMessage;
use crate::models::projects::Project;
use crate::models::projects::ProjectId;
use crate::models::projects::TeamId;
use crate::models::projects::VersionId;

verus! {

/// The serialized list of project identifiers a bulk lookup asks for.
#[derive(Debug, Clone, PartialEq, Eq)]
pub struct ProjectIds {
    pub ids: String,
}

/// The file extension declared for an icon upload.
#[derive(Debug, Clone, PartialEq, Eq)]
pub struct Extension {
    pub ext: String,
}

/// What a new gallery item declares.
#[derive(Debug, Clone, PartialEq, Eq)]
pub struct GalleryCreateQuery {
    pub featured: bool,
    pub title: Option<String>,
    pub description: Option<String>,
}

/// An edit of a gallery item: the item is addressed by its url; a field that
/// is absent is left untouched, and a doubly optional field may also be
/// cleared.
#[derive(Debug, Clone, PartialEq, Eq)]
pub struct GalleryEditQuery {
    /// The url of the gallery item to edit
    pub url: String,
    pub featured: Option<bool>,
    pub title: Option<Option<String>>,
    pub description: Option<Option<String>>,
}

/// The gallery item a deletion addresses, by its url.
#[derive(Debug, Clone, PartialEq, Eq)]
pub struct GalleryDeleteQuery {
    pub url: String,
}

/// An edit of a project.  A field that is absent is left untouched; a doubly
/// optional field may also be cleared.  Status and side tags are carried as
/// the strings they are serialized to.
#[derive(Debug, Clone, PartialEq, Eq)]
pub struct EditProject {
    pub title: Option<String>,
    pub description: Option<String>,
    pub body: Option<String>,
    pub categories: Option<Vec<String>>,
    pub issues_url: Option<Option<String>>,
    pub source_url: Option<Option<String>>,
    pub wiki_url: Option<Option<String>>,
    pub license_url: Option<Option<String>>,
    pub discord_url: Option<Option<String>>,
    pub donation_urls: Option<Vec<DonationLink>>,
    pub license_id: Option<String>,
    pub client_side: Option<String>,
    pub server_side: Option<String>,
    pub slug: Option<Option<String>>,
    pub status: Option<String>,
    pub moderation_message: Option<Option<String>>,
    pub moderation_message_body: Option<Option<String>>,
}

/// Turns a queried project row into the project the API reports: identifiers
/// are re-based to the unsigned API space, the moderation message and the
/// license are assembled from their columns, and the joined collections are
/// carried over item by item.
#[verifier::loop_isolation(false)]
pub fn convert_project(data: QueryProject) -> (r: Project)
    ensures
        r.id == ProjectId(data.inner.id.0 as u64),
        r.slug == data.inner.slug,
        r.project_type == data.project_type,
        r.team == TeamId(data.inner.team_id.0 as u64),
        r.title == data.inner.title,
        r.description == data.inner.description,
        r.body == data.inner.body,
        r.body_url == data.inner.body_url,
        r.published == data.inner.published,
        r.updated == data.inner.updated,
        r.status == data.status,
        r.moderator_message == (match data.inner.moderation_message {
            Some(message) => Some(
                ModeratorMessage { message, body: data.inner.moderation_message_body },
            ),
            None => None,
        }),
        r.license == (License {
            id: data.license_id,
            name: data.license_name,
            url: data.inner.license_url,
        }),
        r.client_side == data.client_side,
        r.server_side == data.server_side,
        r.downloads == data.inner.downloads as u32,
        r.followers == data.inner.follows as u32,
        r.categories == data.categories,
        r.versions@.len() == data.versions@.len(),
        forall|i: int|
            0 <= i < r.versions@.len() ==> #[trigger] r.versions@[i] == VersionId(
                data.versions@[i].0 as u64,
            ),
        r.icon_url == data.inner.icon_url,
        r.issues_url == data.inner.issues_url,
        r.source_url == data.inner.source_url,
        r.wiki_url == data.inner.wiki_url,
        r.discord_url == data.inner.discord_url,
        r.donation_urls matches Some(links) && links@.len() == data.donation_urls@.len()
            && forall|i: int|
            0 <= i < links@.len() ==> #[trigger] links@[i] == (DonationLink {
                id: data.donation_urls@[i].platform_short,
                platform: data.donation_urls@[i].platform_name,
                url: data.donation_urls@[i].url,
            }),
        r.gallery@.len() == data.gallery_items@.len(),
        forall|i: int|
            0 <= i < r.gallery@.len() ==> #[trigger] r.gallery@[i] == (GalleryItem {
                url: data.gallery_items@[i].image_url,
                featured: data.gallery_items@[i].featured,
                title: data.gallery_items@[i].title,
                description: data.gallery_items@[i].description,
                created: data.gallery_items@[i].created,
            }),
{
    let QueryProject {
        inner: m,
        project_type,
        status,
        license_id,
        license_name,
        client_side,
        server_side,
        categories,
        versions: mut version_rows,
        donation_urls: mut donation_rows,
        gallery_items: mut gallery_rows,
    } = data;

    let ghost version_rows0 = version_rows@;
    let mut versions: Vec<VersionId> = Vec::new();
    while version_rows.len() > 0
        invariant
            versions@.len() + version_rows@.len() == version_rows0.len(),
            version_rows@ =~= version_rows0.skip(versions@.len() as int),
            forall|i: int|
                0 <= i < versions@.len() ==> #[trigger] versions@[i] == VersionId(
                    version_rows0[i].0 as u64,
                ),
        decreases version_rows@.len(),
    {
        let v = version_rows.remove(0);
        #[verifier::truncate]
        let id = v.0 as u64;
        versions.push(VersionId(id));
        proof {
            assert(version_rows@ =~= version_rows0.skip(versions@.len() as int));
        }
    }

    let ghost donation_rows0 = donation_rows@;
    let mut donation_urls: Vec<DonationLink> = Vec::new();
    while donation_rows.len() > 0
        invariant
            donation_urls@.len() + donation_rows@.len() == donation_rows0.len(),
            donation_rows@ =~= donation_rows0.skip(donation_urls@.len() as int),
            forall|i: int|
                0 <= i < donation_urls@.len() ==> #[trigger] donation_urls@[i] == (DonationLink {
                    id: donation_rows0[i].platform_short,
                    platform: donation_rows0[i].platform_name,
                    url: donation_rows0[i].url,
                }),
        decreases donation_rows@.len(),
    {
        let d = donation_rows.remove(0);
        donation_urls.push(
            DonationLink { id: d.platform_short, platform: d.platform_name, url: d.url },
        );
        proof {
            assert(donation_rows@ =~= donation_rows0.skip(donation_urls@.len() as int));
        }
    }

    let ghost gallery_rows0 = gallery_rows@;
    let mut gallery: Vec<GalleryItem> = Vec::new();
    while gallery_rows.len() > 0
        invariant
            gallery@.len() + gallery_rows@.len() == gallery_rows0.len(),
            gallery_rows@ =~= gallery_rows0.skip(gallery@.len() as int),
            forall|i: int|
                0 <= i < gallery@.len() ==> #[trigger] gallery@[i] == (GalleryItem {
                    url: gallery_rows0[i].image_url,
                    featured: gallery_rows0[i].featured,
                    title: gallery_rows0[i].title,
                    description: gallery_rows0[i].description,
                    created: gallery_rows0[i].created,
                }),
        decreases gallery_rows@.len(),
    {
        let x = gallery_rows.remove(0);
        gallery.push(
            GalleryItem {
                url: x.image_url,
                featured: x.featured,
                title: x.title,
                description: x.description,
                created: x.created,
            },
        );
        proof {
            assert(gallery_rows@ =~= gallery_rows0.skip(gallery@.len() as int));
        }
    }

    #[verifier::truncate]
    let id = m.id.0 as u64;
    #[verifier::truncate]
    let team = m.team_id.0 as u64;
    #[verifier::truncate]
    let downloads = m.downloads as u32;
    #[verifier::truncate]
    let followers = m.follows as u32;

    Project {
        id: ProjectId(id),
        slug: m.slug,
        project_type,
        team: TeamId(team),
        title: m.title,
        description: m.description,
        body: m.body,
        body_url: m.body_url,
        published: m.published,
        updated: m.updated,
        status,
        moderator_message: if let Some(message) = m.moderation_message {
            Some(ModeratorMessage { message, body: m.moderation_message_body })
        } else {
            None
        },
        license: License { id: license_id, name: license_name, url: m.license_url },
        client_side,
        server_side,
        downloads,
        followers,
        categories,
        versions,
        icon_url: m.icon_url,
        issues_url: m.issues_url,
        source_url: m.source_url,
        wiki_url: m.wiki_url,
        discord_url: m.discord_url,
        donation_urls: Some(donation_urls),
        gallery,
    }
}

} // verus!

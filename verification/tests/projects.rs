//! Tests of the row-to-API project conversion.

use labrinth::database::models;
use labrinth::models::projects;
use labrinth::routes::projects::convert_project;

fn sample_row() -> models::QueryProject {
    models::QueryProject {
        inner: models::Project {
            id: models::ProjectId(7),
            team_id: models::TeamId(3),
            slug: Some("sodium".to_string()),
            title: "Sodium".to_string(),
            description: "A rendering mod".to_string(),
            body: "long text".to_string(),
            body_url: None,
            published: 1600000000,
            updated: 1600000500,
            moderation_message: Some("please fix the licence".to_string()),
            moderation_message_body: Some("details".to_string()),
            license_url: Some("https://example.org/license".to_string()),
            downloads: 250,
            follows: 12,
            icon_url: None,
            issues_url: Some("https://example.org/issues".to_string()),
            source_url: None,
            wiki_url: None,
            discord_url: None,
        },
        project_type: "mod".to_string(),
        status: "approved".to_string(),
        license_id: "lgpl-3".to_string(),
        license_name: "GNU LGPL v3".to_string(),
        client_side: "required".to_string(),
        server_side: "unsupported".to_string(),
        categories: vec!["performance".to_string()],
        versions: vec![models::VersionId(41), models::VersionId(42)],
        donation_urls: vec![models::DonationUrl {
            platform_short: "ko-fi".to_string(),
            platform_name: "Ko-fi".to_string(),
            url: "https://example.org/kofi".to_string(),
        }],
        gallery_items: vec![models::GalleryItem {
            image_url: "https://example.org/shot.png".to_string(),
            featured: true,
            title: Some("In game".to_string()),
            description: None,
            created: 1600000600,
        }],
    }
}

#[test]
fn converted_project_carries_every_field() {
    let p = convert_project(sample_row());
    assert_eq!(p.id, projects::ProjectId(7));
    assert_eq!(p.team, projects::TeamId(3));
    assert_eq!(p.slug.as_deref(), Some("sodium"));
    assert_eq!(p.project_type, "mod");
    assert_eq!(p.title, "Sodium");
    assert_eq!(p.description, "A rendering mod");
    assert_eq!(p.body, "long text");
    assert_eq!(p.body_url, None);
    assert_eq!(p.published, 1600000000);
    assert_eq!(p.updated, 1600000500);
    assert_eq!(p.status, "approved");
    assert_eq!(
        p.moderator_message,
        Some(projects::ModeratorMessage {
            message: "please fix the licence".to_string(),
            body: Some("details".to_string()),
        })
    );
    assert_eq!(
        p.license,
        projects::License {
            id: "lgpl-3".to_string(),
            name: "GNU LGPL v3".to_string(),
            url: Some("https://example.org/license".to_string()),
        }
    );
    assert_eq!(p.client_side, "required");
    assert_eq!(p.server_side, "unsupported");
    assert_eq!(p.downloads, 250);
    assert_eq!(p.followers, 12);
    assert_eq!(p.categories, vec!["performance".to_string()]);
    assert_eq!(
        p.versions,
        vec![projects::VersionId(41), projects::VersionId(42)]
    );
    assert_eq!(
        p.donation_urls,
        Some(vec![projects::DonationLink {
            id: "ko-fi".to_string(),
            platform: "Ko-fi".to_string(),
            url: "https://example.org/kofi".to_string(),
        }])
    );
    assert_eq!(
        p.gallery,
        vec![projects::GalleryItem {
            url: "https://example.org/shot.png".to_string(),
            featured: true,
            title: Some("In game".to_string()),
            description: None,
            created: 1600000600,
        }]
    );
}

#[test]
fn missing_moderation_message_converts_to_none() {
    let mut row = sample_row();
    row.inner.moderation_message = None;
    let p = convert_project(row);
    assert_eq!(p.moderator_message, None);
}

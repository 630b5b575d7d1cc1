//! End-to-end tests of the dispatch engine.

use labrinth::validate::game_version_supported;
use labrinth::validate::validate_file;
use labrinth::validate::GameVersion;
use labrinth::validate::GameVersionRecord;
use labrinth::validate::Loader;
use labrinth::validate::SupportedGameVersions;
use labrinth::validate::ValidationError;
use labrinth::validate::ValidationResult;

fn build_zip(filenames: &[&str]) -> Vec<u8> {
    let mut zip = zip::ZipWriter::new(std::io::Cursor::new(Vec::new()));
    let options = zip::write::SimpleFileOptions::default();
    for &file in filenames {
        zip.start_file(file, options).unwrap();
    }
    zip.finish().unwrap().into_inner()
}

fn record(version: &str, date: i64) -> GameVersionRecord {
    GameVersionRecord {
        version: version.to_string(),
        date,
    }
}

/// A catalogue with one modern version (after both the Fabric and Quilt
/// epochs) and one legacy version (inside the legacy Forge date range).
fn catalogue() -> Vec<GameVersionRecord> {
    vec![record("1.19.2", 1700000000), record("1.7.10", 1400000000)]
}

fn declared(version: &str) -> Vec<GameVersion> {
    vec![GameVersion(version.to_string())]
}

fn loaders(tag: &str) -> Vec<Loader> {
    vec![Loader(tag.to_string())]
}

#[test]
fn fabric_source_only_warns() {
    let data = build_zip(&["fabric.mod.json"]);
    let result = validate_file(
        data,
        "jar".to_string(),
        "mod".to_string(),
        loaders("fabric"),
        declared("1.19.2"),
        catalogue(),
    )
    .unwrap();
    assert_eq!(
        result,
        ValidationResult::Warning("Fabric mod file is a source file!")
    );
    assert!(!result.is_passed());
}

#[test]
fn fabric_full_mod_passes() {
    let data = build_zip(&["fabric.mod.json", "Test.class", "example.refmap.json"]);
    let result = validate_file(
        data,
        "jar".to_string(),
        "mod".to_string(),
        loaders("fabric"),
        declared("1.19.2"),
        catalogue(),
    )
    .unwrap();
    assert_eq!(result, ValidationResult::Pass);
    assert!(result.is_passed());
}

#[test]
fn legacy_forge_dispatch_passes() {
    let data = build_zip(&["mcmod.info", "Test.class"]);
    let result = validate_file(
        data,
        "jar".to_string(),
        "mod".to_string(),
        loaders("forge"),
        declared("1.7.10"),
        catalogue(),
    )
    .unwrap();
    assert_eq!(result, ValidationResult::Pass);
}

#[test]
fn no_validator_applies_passes() {
    let data = build_zip(&["whatever.txt"]);
    let result = validate_file(
        data,
        "zip".to_string(),
        "resourcepack".to_string(),
        loaders("fabric"),
        declared("1.19.2"),
        catalogue(),
    )
    .unwrap();
    assert_eq!(result, ValidationResult::Pass);
}

#[test]
fn extension_mismatch_is_invalid_input() {
    let data = build_zip(&["litemod.json"]);
    let err = validate_file(
        data,
        "jar".to_string(),
        "mod".to_string(),
        loaders("liteloader"),
        declared("1.7.10"),
        catalogue(),
    )
    .unwrap_err();
    assert!(matches!(
        err,
        ValidationError::InvalidInput(message)
        if message == "File extension jar is invalid for input file"
    ));
}

/// Fabric and Quilt both accept the `fabric` loader tag and a modern game
/// version; only Fabric, the earlier registry entry, is ever consulted, so
/// the missing-manifest error is Fabric's, not Quilt's.
#[test]
fn dispatch_prefers_earlier_entry() {
    let data = build_zip(&["Test.class"]);
    let err = validate_file(
        data,
        "jar".to_string(),
        "mod".to_string(),
        loaders("fabric"),
        declared("1.19.2"),
        catalogue(),
    )
    .unwrap_err();
    assert!(matches!(
        err,
        ValidationError::InvalidInput(message)
        if message == "No fabric.mod.json present for Fabric file."
    ));
}

#[test]
fn corrupt_archive_is_zip_error() {
    let err = validate_file(
        b"this is not a zip archive".to_vec(),
        "jar".to_string(),
        "mod".to_string(),
        loaders("fabric"),
        declared("1.19.2"),
        catalogue(),
    )
    .unwrap_err();
    assert!(matches!(err, ValidationError::Zip(_)));
}

/// Two identical calls yield identical results.
#[test]
fn validation_is_deterministic() {
    let data = build_zip(&["fabric.mod.json", "Test.class"]);
    let run = || {
        validate_file(
            data.clone(),
            "jar".to_string(),
            "mod".to_string(),
            loaders("fabric"),
            declared("1.19.2"),
            catalogue(),
        )
        .unwrap()
    };
    assert_eq!(run(), run());
}

/// A version released exactly at a validator's epoch does not satisfy a
/// strictly-after window: the fabric entry does not apply, so nothing does.
#[test]
fn window_boundaries_are_strict() {
    let data = build_zip(&["fabric.mod.json"]);
    let result = validate_file(
        data,
        "jar".to_string(),
        "mod".to_string(),
        loaders("fabric"),
        declared("18w49a"),
        vec![record("18w49a", 1543969469)],
    )
    .unwrap();
    assert_eq!(result, ValidationResult::Pass);
}

/// The catalogue is scanned in order: the first record of an identifier
/// decides its release date.
#[test]
fn first_catalogue_record_wins() {
    let data = build_zip(&["fabric.mod.json", "Test.class"]);
    let result = validate_file(
        data,
        "jar".to_string(),
        "mod".to_string(),
        loaders("fabric"),
        declared("1.19.2"),
        vec![record("1.19.2", 1400000000), record("1.19.2", 1700000000)],
    )
    .unwrap();
    // The first record dates the version before the Fabric epoch, so no
    // validator applies and the archive passes by default.
    assert_eq!(result, ValidationResult::Pass);
}

/// A version the catalogue does not know satisfies no dated window.
#[test]
fn unknown_version_satisfies_no_window() {
    let data = build_zip(&["fabric.mod.json"]);
    let result = validate_file(
        data,
        "jar".to_string(),
        "mod".to_string(),
        loaders("fabric"),
        declared("unknown"),
        catalogue(),
    )
    .unwrap();
    assert_eq!(result, ValidationResult::Pass);
}

/// Any of the declared loaders may match a validator's accepted loaders.
#[test]
fn any_declared_loader_may_match() {
    let data = build_zip(&["fabric.mod.json", "Test.class"]);
    let result = validate_file(
        data,
        "jar".to_string(),
        "mod".to_string(),
        vec![
            Loader("liteloader".to_string()),
            Loader("fabric".to_string()),
        ],
        declared("1.19.2"),
        catalogue(),
    )
    .unwrap();
    assert_eq!(result, ValidationResult::Pass);
}

#[test]
fn error_messages_carry_their_prefix() {
    let err = ValidationError::InvalidInput("File extension jar is invalid for input file".to_string());
    assert_eq!(
        err.message(),
        "Invalid Input: File extension jar is invalid for input file"
    );
    assert_eq!(
        ValidationError::Blocking.message(),
        "Error while managing threads"
    );
}

/// The explicit-set window is satisfied exactly when a declared version is a
/// member; no catalogue lookup is involved.
#[test]
fn custom_window_is_membership() {
    let declared = declared("1.12.2");
    let empty_catalogue = Vec::new();
    assert!(game_version_supported(
        &declared,
        &empty_catalogue,
        SupportedGameVersions::Custom(vec![
            GameVersion("1.12".to_string()),
            GameVersion("1.12.2".to_string()),
        ])
    ));
    assert!(!game_version_supported(
        &declared,
        &empty_catalogue,
        SupportedGameVersions::Custom(vec![GameVersion("1.16".to_string())])
    ));
    assert!(game_version_supported(
        &declared,
        &empty_catalogue,
        SupportedGameVersions::All
    ));
}

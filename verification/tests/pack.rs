//! Tests of the modpack validator, dispatched end to end.

use std::io::Write;

use labrinth::validate::validate_file;
use labrinth::validate::GameVersion;
use labrinth::validate::GameVersionRecord;
use labrinth::validate::Loader;
use labrinth::validate::PackFormat;
use labrinth::validate::ValidationError;
use labrinth::validate::ValidationResult;

fn build_zip_with(files: &[(&str, &[u8])]) -> Vec<u8> {
    let mut zip = zip::ZipWriter::new(std::io::Cursor::new(Vec::new()));
    let options = zip::write::SimpleFileOptions::default();
    for &(name, content) in files {
        zip.start_file(name, options).unwrap();
        zip.write_all(content).unwrap();
    }
    zip.finish().unwrap().into_inner()
}

fn pack_call(data: Vec<u8>) -> Result<ValidationResult, ValidationError> {
    validate_file(
        data,
        "zip".to_string(),
        "modpack".to_string(),
        vec![Loader("forge".to_string())],
        vec![GameVersion("1.19.2".to_string())],
        vec![GameVersionRecord {
            version: "1.19.2".to_string(),
            date: 1700000000,
        }],
    )
}

#[test]
fn pack_with_valid_manifest_passes_with_data() {
    let manifest = br#"{"formatVersion": 1, "game": "minecraft", "files": []}"#;
    let data = build_zip_with(&[("index.json", manifest), ("overrides/config.txt", b"x")]);
    let result = pack_call(data).unwrap();
    assert_eq!(
        result,
        ValidationResult::PassWithPackData(PackFormat {
            data: manifest.to_vec()
        })
    );
    assert!(result.is_passed());
}

#[test]
fn pack_with_malformed_manifest_is_serde_error() {
    let data = build_zip_with(&[("index.json", b"{this is not json")]);
    let err = pack_call(data).unwrap_err();
    assert!(matches!(err, ValidationError::SerDe(_)));
}

#[test]
fn pack_missing_manifest_is_invalid_input() {
    let data = build_zip_with(&[("overrides/config.txt", b"x")]);
    let err = pack_call(data).unwrap_err();
    assert!(matches!(
        err,
        ValidationError::InvalidInput(message)
        if message == "Pack manifest is missing."
    ));
}

/// The pack entry accepts both pack loaders and stands first in the registry.
#[test]
fn pack_accepts_fabric_loader_too() {
    let manifest = br#"{"formatVersion": 1}"#;
    let data = build_zip_with(&[("index.json", manifest)]);
    let result = validate_file(
        data,
        "zip".to_string(),
        "modpack".to_string(),
        vec![Loader("fabric".to_string())],
        vec![],
        vec![],
    )
    .unwrap();
    assert_eq!(
        result,
        ValidationResult::PassWithPackData(PackFormat {
            data: manifest.to_vec()
        })
    );
}

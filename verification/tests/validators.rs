//! Tests of the individual validators over dummy archives.

use labrinth::validate::Archive;
use labrinth::validate::FabricValidator;
use labrinth::validate::ForgeValidator;
use labrinth::validate::LegacyForgeValidator;
use labrinth::validate::LiteLoaderValidator;
use labrinth::validate::QuiltValidator;
use labrinth::validate::ValidationError;
use labrinth::validate::ValidationResult;
use labrinth::validate::Validator;

/// Makes a dummy ZIP file with named blank files.
fn make_dummy_zip(filenames: &[&str]) -> Archive {
    let mut zip = zip::ZipWriter::new(std::io::Cursor::new(Vec::new()));
    let options = zip::write::SimpleFileOptions::default();
    for &file in filenames {
        zip.start_file(file, options).unwrap();
    }
    let data = zip.finish().unwrap().into_inner();
    Archive::open(data).unwrap()
}

#[test]
fn fabric_all_clear() {
    let zip = make_dummy_zip(&["fabric.mod.json", "Test.class", "example.refmap.json"]);

    assert_eq!(
        FabricValidator.validate(&zip).unwrap(),
        ValidationResult::Pass
    );
}

#[test]
fn fabric_weird_extensions() {
    let zip = make_dummy_zip(&["fabric.mod.json", "test.clASS", "EXAMPLE.ReFMaP.JSon"]);

    assert_eq!(
        FabricValidator.validate(&zip).unwrap(),
        ValidationResult::Pass
    );
}

#[test]
fn missing_fmj() {
    let zip = make_dummy_zip(&["Test.class", "example.refmap.json"]);

    assert!(matches!(
        FabricValidator.validate(&zip).unwrap_err(),
        ValidationError::InvalidInput(error)
        if error == "No fabric.mod.json present for Fabric file."
    ));
}

#[test]
fn fabric_missing_refmap_and_class_files() {
    let zip = make_dummy_zip(&["fabric.mod.json"]);

    assert_eq!(
        FabricValidator.validate(&zip).unwrap(),
        ValidationResult::Warning("Fabric mod file is a source file!")
    );
}

#[test]
fn forge_all_clear() {
    let zip = make_dummy_zip(&["META-INF/mods.toml", "Test.class"]);

    assert_eq!(
        ForgeValidator.validate(&zip).unwrap(),
        ValidationResult::Pass
    );
}

#[test]
fn forge_weird_extensions() {
    let zip = make_dummy_zip(&["META-INF/mods.toml", "TesT.CLaSS"]);

    assert_eq!(
        ForgeValidator.validate(&zip).unwrap(),
        ValidationResult::Pass
    );
}

#[test]
fn missing_mods_toml() {
    let zip = make_dummy_zip(&["Test.class"]);

    assert_eq!(
        ForgeValidator.validate(&zip).unwrap(),
        ValidationResult::Warning("No mods.toml present for Forge file.")
    );
}

#[test]
fn forge_missing_class_files() {
    let zip = make_dummy_zip(&["META-INF/mods.toml"]);

    assert_eq!(
        ForgeValidator.validate(&zip).unwrap(),
        ValidationResult::Warning("Forge mod file is a source file!")
    );
}

#[test]
fn legacy_forge_all_clear() {
    let zip = make_dummy_zip(&["mcmod.info", "Test.class"]);

    assert_eq!(
        LegacyForgeValidator.validate(&zip).unwrap(),
        ValidationResult::Pass
    );
}

#[test]
fn legacy_forge_weird_extensions() {
    let zip = make_dummy_zip(&["mcmod.info", "TesT.CLaSS"]);

    assert_eq!(
        LegacyForgeValidator.validate(&zip).unwrap(),
        ValidationResult::Pass
    );
}

#[test]
fn missing_mcmod_info() {
    let zip = make_dummy_zip(&["Test.class"]);

    assert_eq!(
        LegacyForgeValidator.validate(&zip).unwrap(),
        ValidationResult::Warning("Forge mod file does not contain mcmod.info!")
    );
}

#[test]
fn legacy_forge_missing_class_files() {
    let zip = make_dummy_zip(&["mcmod.info"]);

    assert_eq!(
        LegacyForgeValidator.validate(&zip).unwrap(),
        ValidationResult::Warning("Forge mod file is a source file!")
    );
}

#[test]
fn liteloader_all_clear() {
    let zip = make_dummy_zip(&["litemod.json"]);

    assert_eq!(
        LiteLoaderValidator.validate(&zip).unwrap(),
        ValidationResult::Pass
    );
}

#[test]
fn missing_litemod_json() {
    let zip = make_dummy_zip(&[]);

    assert!(matches!(
        LiteLoaderValidator.validate(&zip).unwrap_err(),
        ValidationError::InvalidInput(error)
        if error == "No litemod.json present for LiteLoader file."
    ));
}

#[test]
fn quilt_all_clear() {
    let zip = make_dummy_zip(&["quilt.mod.json", "Test.class", "example.refmap.json"]);

    assert_eq!(
        QuiltValidator.validate(&zip).unwrap(),
        ValidationResult::Pass
    );
}

#[test]
fn quilt_weird_extensions() {
    let zip = make_dummy_zip(&["quilt.mod.json", "TEST.CLASS", "EXAMPLE.ReFMaP.JSon"]);

    assert_eq!(
        QuiltValidator.validate(&zip).unwrap(),
        ValidationResult::Pass
    );
}

#[test]
fn missing_qmj() {
    let zip = make_dummy_zip(&["Test.class", "example.refmap.json"]);

    assert!(matches!(
        QuiltValidator.validate(&zip).unwrap_err(),
        ValidationError::InvalidInput(error)
        if error == "No quilt.mod.json present for Quilt file."
    ));
}

#[test]
fn quilt_missing_refmap_and_class_files() {
    let zip = make_dummy_zip(&["quilt.mod.json"]);

    assert_eq!(
        QuiltValidator.validate(&zip).unwrap(),
        ValidationResult::Warning("Quilt mod file is a source file!")
    );
}

#[test]
fn validation_results_report_passing() {
    assert!(ValidationResult::Pass.is_passed());
    assert!(!ValidationResult::Warning("Fabric mod file is a source file!").is_passed());
}

#[test]
fn archive_reports_entry_count() {
    assert_eq!(make_dummy_zip(&[]).len(), 0);
    assert_eq!(make_dummy_zip(&["a.txt", "b/c.txt"]).len(), 2);
}

//! The Forge mod validators: one for the modern TOML-manifest era, one for
//! the legacy `mcmod.info` era.

use vstd::prelude::*;

use super::archive::any_entry_matches;
use super::archive::Archive;
use super::archive::ArchiveView;
use super::str_views;
use super::Outcome;
use super::SupportedGameVersions;
use super::ValidationError;
use super::ValidationResult;
use super::Validator;

verus! {

/// Validates Forge mods from the TOML-manifest era.  Forge mods have
/// historically shipped without their manifest in some packaging pipelines,
/// so a missing `META-INF/mods.toml` is merely suspicious: a warning, not a
/// hard error.
pub struct ForgeValidator;

impl Validator for ForgeValidator {
    open spec fn spec_file_extensions(&self) -> Seq<Seq<char>> {
        seq!["jar"@, "zip"@]
    }

    open spec fn spec_project_types(&self) -> Seq<Seq<char>> {
        seq!["mod"@]
    }

    open spec fn spec_supported_loaders(&self) -> Seq<Seq<char>> {
        seq!["forge"@]
    }

    open spec fn spec_supported_game_versions(&self) -> SupportedGameVersions {
        SupportedGameVersions::PastDate(1540122067)
    }

    open spec fn spec_validate(&self, archive: ArchiveView) -> Outcome {
        if !archive.entries.contains("META-INF/mods.toml"@) {
            Outcome::Warning("No mods.toml present for Forge file."@)
        } else if !any_entry_matches(archive.entries, seq![".class"@]) {
            Outcome::Warning("Forge mod file is a source file!"@)
        } else {
            Outcome::Pass
        }
    }

    fn get_file_extensions(&self) -> (r: Vec<&'static str>) {
        let r = vec!["jar", "zip"];
        proof {
            assert(str_views(r@) =~= self.spec_file_extensions());
        }
        r
    }

    fn get_project_types(&self) -> (r: Vec<&'static str>) {
        let r = vec!["mod"];
        proof {
            assert(str_views(r@) =~= self.spec_project_types());
        }
        r
    }

    fn get_supported_loaders(&self) -> (r: Vec<&'static str>) {
        let r = vec!["forge"];
        proof {
            assert(str_views(r@) =~= self.spec_supported_loaders());
        }
        r
    }

    fn get_supported_game_versions(&self) -> (r: SupportedGameVersions) {
        // Time since release of 1.13, the first forge version which uses the new TOML system
        SupportedGameVersions::PastDate(1540122067)
    }

    fn validate(&self, archive: &Archive) -> (r: Result<ValidationResult, ValidationError>) {
        if !archive.contains_entry("META-INF/mods.toml") {
            return Ok(ValidationResult::Warning("No mods.toml present for Forge file."));
        }
        let exts = vec![".class"];
        if !archive.has_entry_matching(exts.as_slice()) {
            proof {
                assert(str_views(exts@) =~= seq![".class"@]);
            }
            return Ok(ValidationResult::Warning("Forge mod file is a source file!"));
        }
        proof {
            assert(str_views(exts@) =~= seq![".class"@]);
        }
        Ok(ValidationResult::Pass)
    }
}

/// Validates Forge mods from the legacy `mcmod.info` era.  As with the modern
/// Forge validator, a missing manifest is only a warning.
pub struct LegacyForgeValidator;

impl Validator for LegacyForgeValidator {
    open spec fn spec_file_extensions(&self) -> Seq<Seq<char>> {
        seq!["jar"@, "zip"@]
    }

    open spec fn spec_project_types(&self) -> Seq<Seq<char>> {
        seq!["mod"@]
    }

    open spec fn spec_supported_loaders(&self) -> Seq<Seq<char>> {
        seq!["forge"@]
    }

    open spec fn spec_supported_game_versions(&self) -> SupportedGameVersions {
        SupportedGameVersions::Range(1366818300, 1505810340)
    }

    open spec fn spec_validate(&self, archive: ArchiveView) -> Outcome {
        if !archive.entries.contains("mcmod.info"@) {
            Outcome::Warning("Forge mod file does not contain mcmod.info!"@)
        } else if !any_entry_matches(archive.entries, seq![".class"@]) {
            Outcome::Warning("Forge mod file is a source file!"@)
        } else {
            Outcome::Pass
        }
    }

    fn get_file_extensions(&self) -> (r: Vec<&'static str>) {
        let r = vec!["jar", "zip"];
        proof {
            assert(str_views(r@) =~= self.spec_file_extensions());
        }
        r
    }

    fn get_project_types(&self) -> (r: Vec<&'static str>) {
        let r = vec!["mod"];
        proof {
            assert(str_views(r@) =~= self.spec_project_types());
        }
        r
    }

    fn get_supported_loaders(&self) -> (r: Vec<&'static str>) {
        let r = vec!["forge"];
        proof {
            assert(str_views(r@) =~= self.spec_supported_loaders());
        }
        r
    }

    fn get_supported_game_versions(&self) -> (r: SupportedGameVersions) {
        // Times between versions 1.5.2 to 1.12.2, which all use the legacy way of defining mods
        SupportedGameVersions::Range(1366818300, 1505810340)
    }

    fn validate(&self, archive: &Archive) -> (r: Result<ValidationResult, ValidationError>) {
        if !archive.contains_entry("mcmod.info") {
            return Ok(ValidationResult::Warning("Forge mod file does not contain mcmod.info!"));
        }
        let exts = vec![".class"];
        if !archive.has_entry_matching(exts.as_slice()) {
            proof {
                assert(str_views(exts@) =~= seq![".class"@]);
            }
            return Ok(ValidationResult::Warning("Forge mod file is a source file!"));
        }
        proof {
            assert(str_views(exts@) =~= seq![".class"@]);
        }
        Ok(ValidationResult::Pass)
    }
}

} // verus!

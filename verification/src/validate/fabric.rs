//! The Fabric mod validator.

use vstd::prelude::*;

use super::archive::any_entry_matches;
use super::archive::Archive;
use super::archive::ArchiveView;
use super::str_views;
use super::Outcome;
use super::SupportedGameVersions;
use super::ValidationError;
use super::ValidationResult;
use super::Validator;

verus! {

/// Validates Fabric mods.  `fabric.mod.json` is the sole evidence of loader
/// identity, so its absence is a hard error; absence of compiled output
/// (`.refmap.json` or `.class` entries) only downgrades the result to a
/// warning.
pub struct FabricValidator;

impl Validator for FabricValidator {
    open spec fn spec_file_extensions(&self) -> Seq<Seq<char>> {
        seq!["jar"@, "zip"@]
    }

    open spec fn spec_project_types(&self) -> Seq<Seq<char>> {
        seq!["mod"@]
    }

    open spec fn spec_supported_loaders(&self) -> Seq<Seq<char>> {
        seq!["fabric"@]
    }

    open spec fn spec_supported_game_versions(&self) -> SupportedGameVersions {
        SupportedGameVersions::PastDate(1543969469)
    }

    open spec fn spec_validate(&self, archive: ArchiveView) -> Outcome {
        if !archive.entries.contains("fabric.mod.json"@) {
            Outcome::ErrInvalidInput("No fabric.mod.json present for Fabric file."@)
        } else if !any_entry_matches(archive.entries, seq![".refmap.json"@, ".class"@]) {
            Outcome::Warning("Fabric mod file is a source file!"@)
        } else {
            Outcome::Pass
        }
    }

    fn get_file_extensions(&self) -> (r: Vec<&'static str>) {
        let r = vec!["jar", "zip"];
        proof {
            assert(str_views(r@) =~= self.spec_file_extensions());
        }
        r
    }

    fn get_project_types(&self) -> (r: Vec<&'static str>) {
        let r = vec!["mod"];
        proof {
            assert(str_views(r@) =~= self.spec_project_types());
        }
        r
    }

    fn get_supported_loaders(&self) -> (r: Vec<&'static str>) {
        let r = vec!["fabric"];
        proof {
            assert(str_views(r@) =~= self.spec_supported_loaders());
        }
        r
    }

    fn get_supported_game_versions(&self) -> (r: SupportedGameVersions) {
        // Time since release of 18w49a, the first fabric version
        SupportedGameVersions::PastDate(1543969469)
    }

    fn validate(&self, archive: &Archive) -> (r: Result<ValidationResult, ValidationError>) {
        if !archive.contains_entry("fabric.mod.json") {
            return Err(ValidationError::InvalidInput(
                "No fabric.mod.json present for Fabric file.".to_owned(),
            ));
        }
        let exts = vec![".refmap.json", ".class"];
        if !archive.has_entry_matching(exts.as_slice()) {
            proof {
                assert(str_views(exts@) =~= seq![".refmap.json"@, ".class"@]);
            }
            return Ok(ValidationResult::Warning("Fabric mod file is a source file!"));
        }
        proof {
            assert(str_views(exts@) =~= seq![".refmap.json"@, ".class"@]);
        }
        Ok(ValidationResult::Pass)
    }
}

} // verus!

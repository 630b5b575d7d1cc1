//! The LiteLoader mod validator.

use vstd::prelude::*;

use super::archive::Archive;
use super::archive::ArchiveView;
use super::str_views;
use super::Outcome;
use super::SupportedGameVersions;
use super::ValidationError;
use super::ValidationResult;
use super::Validator;

verus! {

/// Validates LiteLoader mods.  `litemod.json` is the sole evidence of loader
/// identity, so its absence is a hard error; there is no secondary check.
pub struct LiteLoaderValidator;

impl Validator for LiteLoaderValidator {
    open spec fn spec_file_extensions(&self) -> Seq<Seq<char>> {
        seq!["litemod"@]
    }

    open spec fn spec_project_types(&self) -> Seq<Seq<char>> {
        seq!["mod"@]
    }

    open spec fn spec_supported_loaders(&self) -> Seq<Seq<char>> {
        seq!["liteloader"@]
    }

    open spec fn spec_supported_game_versions(&self) -> SupportedGameVersions {
        SupportedGameVersions::All
    }

    open spec fn spec_validate(&self, archive: ArchiveView) -> Outcome {
        if !archive.entries.contains("litemod.json"@) {
            Outcome::ErrInvalidInput("No litemod.json present for LiteLoader file."@)
        } else {
            Outcome::Pass
        }
    }

    fn get_file_extensions(&self) -> (r: Vec<&'static str>) {
        let r = vec!["litemod"];
        proof {
            assert(str_views(r@) =~= self.spec_file_extensions());
        }
        r
    }

    fn get_project_types(&self) -> (r: Vec<&'static str>) {
        let r = vec!["mod"];
        proof {
            assert(str_views(r@) =~= self.spec_project_types());
        }
        r
    }

    fn get_supported_loaders(&self) -> (r: Vec<&'static str>) {
        let r = vec!["liteloader"];
        proof {
            assert(str_views(r@) =~= self.spec_supported_loaders());
        }
        r
    }

    fn get_supported_game_versions(&self) -> (r: SupportedGameVersions) {
        SupportedGameVersions::All
    }

    fn validate(&self, archive: &Archive) -> (r: Result<ValidationResult, ValidationError>) {
        if !archive.contains_entry("litemod.json") {
            return Err(ValidationError::InvalidInput(
                "No litemod.json present for LiteLoader file.".to_owned(),
            ));
        }
        Ok(ValidationResult::Pass)
    }
}

} // verus!

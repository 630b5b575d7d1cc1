//! The modpack validator.

use vstd::prelude::*;

use super::archive::entry_bytes;
use super::archive::entry_read_error;
use super::archive::read_entry;
use super::archive::Archive;
use super::archive::ArchiveView;
use super::str_views;
use super::Outcome;
use super::SupportedGameVersions;
use super::ValidationError;
use super::ValidationResult;
use super::Validator;

verus! {

/// The pack manifest document carried on a successful pack classification:
/// the raw bytes of the archive's `index.json`, checked to be one well-formed
/// JSON document.  Interpreting the fields of the document is the caller's
/// business, not this crate's.
#[derive(Debug, Clone, PartialEq, Eq)]
pub struct PackFormat {
    pub data: Vec<u8>,
}

/// Whether the bytes form one well-formed JSON document, as `serde_json`
/// accepts it.  Determined by the bytes alone.
pub uninterp spec fn json_wellformed(bytes: Seq<u8>) -> bool;

/// The parse diagnostic produced for bytes that are not well-formed JSON.
/// Determined by the bytes alone.
pub uninterp spec fn json_parse_error(bytes: Seq<u8>) -> Seq<char>;

/// Relies on `serde_json::from_slice::<serde_json::Value>`: it succeeds
/// exactly when the bytes form one JSON document the crate accepts, parsing
/// is deterministic in the bytes, and so is the diagnostic it reports on
/// failure.
#[verifier::external_body]
fn check_json(bytes: &Vec<u8>) -> (r: Result<(), String>)
    ensures
        r is Ok <==> json_wellformed(bytes@),
        r matches Err(e) ==> e@ == json_parse_error(bytes@),
{
    match serde_json::from_slice::<serde_json::Value>(&bytes[..]) {
        Ok(_) => Ok(()),
        Err(e) => Err(e.to_string()),
    }
}

/// Validates modpacks: the mandatory pack manifest `index.json` must be
/// present and hold well-formed JSON, and its document is handed back with
/// the classification.  The manifest is the sole evidence of the pack format,
/// so its absence is a hard error.
pub struct PackValidator;

impl Validator for PackValidator {
    open spec fn spec_file_extensions(&self) -> Seq<Seq<char>> {
        seq!["zip"@]
    }

    open spec fn spec_project_types(&self) -> Seq<Seq<char>> {
        seq!["modpack"@]
    }

    open spec fn spec_supported_loaders(&self) -> Seq<Seq<char>> {
        seq!["forge"@, "fabric"@]
    }

    open spec fn spec_supported_game_versions(&self) -> SupportedGameVersions {
        SupportedGameVersions::All
    }

    open spec fn spec_validate(&self, archive: ArchiveView) -> Outcome {
        if !archive.entries.contains("index.json"@) {
            Outcome::ErrInvalidInput("Pack manifest is missing."@)
        } else {
            match entry_bytes(archive.bytes, "index.json"@) {
                None => Outcome::ErrSerDe(entry_read_error(archive.bytes, "index.json"@)),
                Some(manifest) => if json_wellformed(manifest) {
                    Outcome::PassWithData(manifest)
                } else {
                    Outcome::ErrSerDe(json_parse_error(manifest))
                },
            }
        }
    }

    fn get_file_extensions(&self) -> (r: Vec<&'static str>) {
        let r = vec!["zip"];
        proof {
            assert(str_views(r@) =~= self.spec_file_extensions());
        }
        r
    }

    fn get_project_types(&self) -> (r: Vec<&'static str>) {
        let r = vec!["modpack"];
        proof {
            assert(str_views(r@) =~= self.spec_project_types());
        }
        r
    }

    fn get_supported_loaders(&self) -> (r: Vec<&'static str>) {
        let r = vec!["forge", "fabric"];
        proof {
            assert(str_views(r@) =~= self.spec_supported_loaders());
        }
        r
    }

    fn get_supported_game_versions(&self) -> (r: SupportedGameVersions) {
        SupportedGameVersions::All
    }

    fn validate(&self, archive: &Archive) -> (r: Result<ValidationResult, ValidationError>) {
        if !archive.contains_entry("index.json") {
            return Err(ValidationError::InvalidInput("Pack manifest is missing.".to_owned()));
        }
        let manifest = match read_entry(archive, "index.json") {
            Ok(b) => b,
            Err(m) => {
                return Err(ValidationError::SerDe(m));
            },
        };
        match check_json(&manifest) {
            Ok(()) => Ok(ValidationResult::PassWithPackData(PackFormat { data: manifest })),
            Err(m) => Err(ValidationError::SerDe(m)),
        }
    }
}

} // verus!

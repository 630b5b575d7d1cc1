//! Laws of the validation engine, stated over the spec model and proved once
//! for all inputs.

use vstd::prelude::*;

use super::archive::any_entry_matches;
use super::archive::archive_listing;
use super::invalid_extension_message;
use super::outcome_of;
use super::spec_dispatch;
use super::spec_registry;
use super::spec_validate_file;
use super::validator_applies;
use super::ArchiveView;
use super::GameVersionRecordView;
use super::Outcome;
use super::ValidationError;
use super::ValidationResult;
use super::Validator;

verus! {

/// The name of the mandatory manifest entry of each registry entry, in
/// registry order.
pub open spec fn validator_manifest(i: int) -> Seq<char> {
    if i == 0 {
        "index.json"@
    } else if i == 1 {
        "fabric.mod.json"@
    } else if i == 2 {
        "META-INF/mods.toml"@
    } else if i == 3 {
        "mcmod.info"@
    } else if i == 4 {
        "quilt.mod.json"@
    } else {
        "litemod.json"@
    }
}

/// The compiled-output suffixes each mod validator looks for, in registry
/// order.
pub open spec fn validator_compiled_extensions(i: int) -> Seq<Seq<char>> {
    if i == 1 || i == 4 {
        seq![".refmap.json"@, ".class"@]
    } else {
        seq![".class"@]
    }
}

proof fn lemma_dispatch_from_characterises(
    lo: int,
    project_type: Seq<char>,
    loaders: Seq<Seq<char>>,
    game_versions: Seq<Seq<char>>,
    catalogue: Seq<GameVersionRecordView>,
)
    requires
        0 <= lo <= spec_registry().len(),
    ensures
        match super::spec_dispatch_from(lo, project_type, loaders, game_versions, catalogue) {
            Some(i) => lo <= i < spec_registry().len() && validator_applies(
                spec_registry()[i],
                project_type,
                loaders,
                game_versions,
                catalogue,
            ) && forall|k: int|
                lo <= k < i ==> !validator_applies(
                    #[trigger] spec_registry()[k],
                    project_type,
                    loaders,
                    game_versions,
                    catalogue,
                ),
            None => forall|k: int|
                lo <= k < spec_registry().len() ==> !validator_applies(
                    #[trigger] spec_registry()[k],
                    project_type,
                    loaders,
                    game_versions,
                    catalogue,
                ),
        },
    decreases spec_registry().len() - lo,
{
    if lo < spec_registry().len() {
        lemma_dispatch_from_characterises(
            lo + 1,
            project_type,
            loaders,
            game_versions,
            catalogue,
        );
    }
}

/// Dispatch correctness: the chosen entry, when there is one, satisfies all
/// three dispatch predicates and is the first entry of the registry to do so;
/// when there is none, no entry satisfies them.
pub proof fn lemma_dispatch_characterises(
    project_type: Seq<char>,
    loaders: Seq<Seq<char>>,
    game_versions: Seq<Seq<char>>,
    catalogue: Seq<GameVersionRecordView>,
)
    ensures
        match spec_dispatch(project_type, loaders, game_versions, catalogue) {
            Some(i) => 0 <= i < spec_registry().len() && validator_applies(
                spec_registry()[i],
                project_type,
                loaders,
                game_versions,
                catalogue,
            ) && forall|k: int|
                0 <= k < i ==> !validator_applies(
                    #[trigger] spec_registry()[k],
                    project_type,
                    loaders,
                    game_versions,
                    catalogue,
                ),
            None => forall|k: int|
                0 <= k < spec_registry().len() ==> !validator_applies(
                    #[trigger] spec_registry()[k],
                    project_type,
                    loaders,
                    game_versions,
                    catalogue,
                ),
        },
{
    lemma_dispatch_from_characterises(0, project_type, loaders, game_versions, catalogue);
}

/// For every archive and every dispatched validator: when the validator's
/// mandatory manifest entry is absent from the archive, the outcome is an
/// invalid-input error or a warning — never a pass.
pub proof fn lemma_missing_manifest_never_passes(
    data: Seq<u8>,
    file_extension: Seq<char>,
    project_type: Seq<char>,
    loaders: Seq<Seq<char>>,
    game_versions: Seq<Seq<char>>,
    catalogue: Seq<GameVersionRecordView>,
    i: int,
)
    requires
        archive_listing(data) is Some,
        spec_dispatch(project_type, loaders, game_versions, catalogue) == Some(i),
        !archive_listing(data)->Some_0.contains(validator_manifest(i)),
    ensures
        !(spec_validate_file(
            data,
            file_extension,
            project_type,
            loaders,
            game_versions,
            catalogue,
        ) matches Outcome::Pass),
        !(spec_validate_file(
            data,
            file_extension,
            project_type,
            loaders,
            game_versions,
            catalogue,
        ) matches Outcome::PassWithData(_)),
{
    lemma_dispatch_characterises(project_type, loaders, game_versions, catalogue);
    let entries = archive_listing(data)->Some_0;
    let av = ArchiveView { bytes: data, entries };
    assert(0 <= i < 6);
    if spec_registry()[i].spec_file_extensions().contains(file_extension) {
        if i == 0 {
            assert(!(spec_registry()[i].spec_validate(av) matches Outcome::Pass));
        } else if i == 1 {
            assert(!(spec_registry()[i].spec_validate(av) matches Outcome::Pass));
        } else if i == 2 {
            assert(!(spec_registry()[i].spec_validate(av) matches Outcome::Pass));
        } else if i == 3 {
            assert(!(spec_registry()[i].spec_validate(av) matches Outcome::Pass));
        } else if i == 4 {
            assert(!(spec_registry()[i].spec_validate(av) matches Outcome::Pass));
        } else {
            assert(!(spec_registry()[i].spec_validate(av) matches Outcome::Pass));
        }
    }
}

/// For every archive holding a mod validator's mandatory manifest together
/// with at least one entry whose name case-insensitively ends with one of the
/// validator's compiled-output suffixes, that validator passes the archive.
/// This covers the Fabric, Forge, legacy Forge and Quilt validators.
pub proof fn lemma_manifest_and_compiled_entries_pass(archive: ArchiveView, i: int)
    requires
        1 <= i <= 4,
        archive.entries.contains(validator_manifest(i)),
        any_entry_matches(archive.entries, validator_compiled_extensions(i)),
    ensures
        spec_registry()[i].spec_validate(archive) == Outcome::Pass,
{
}

/// For every archive holding `litemod.json`, the LiteLoader validator passes
/// the archive: it has no compiled-output check.
pub proof fn lemma_liteloader_manifest_passes(archive: ArchiveView)
    requires
        archive.entries.contains("litemod.json"@),
    ensures
        spec_registry()[5].spec_validate(archive) == Outcome::Pass,
{
}

/// Determinism: validation is a pure function of the archive bytes and the
/// declared metadata.  Any two results whose outcomes satisfy the contract of
/// [`super::validate_file`] for the same inputs are observably identical:
/// same variant, same payload content.
pub proof fn lemma_validate_file_deterministic(
    r1: Result<ValidationResult, ValidationError>,
    r2: Result<ValidationResult, ValidationError>,
    data: Seq<u8>,
    file_extension: Seq<char>,
    project_type: Seq<char>,
    loaders: Seq<Seq<char>>,
    game_versions: Seq<Seq<char>>,
    catalogue: Seq<GameVersionRecordView>,
)
    requires
        outcome_of(r1) == spec_validate_file(
            data,
            file_extension,
            project_type,
            loaders,
            game_versions,
            catalogue,
        ),
        outcome_of(r2) == spec_validate_file(
            data,
            file_extension,
            project_type,
            loaders,
            game_versions,
            catalogue,
        ),
    ensures
        outcome_of(r1) == outcome_of(r2),
{
}

/// Dispatch order sensitivity: when two registry entries both satisfy the
/// dispatch predicates, only the first is ever consulted.  If that first
/// entry rejects the declared file extension, the call fails with the
/// invalid-extension error — even though the later entry might have accepted
/// the extension.
pub proof fn lemma_first_match_shadows(
    data: Seq<u8>,
    file_extension: Seq<char>,
    project_type: Seq<char>,
    loaders: Seq<Seq<char>>,
    game_versions: Seq<Seq<char>>,
    catalogue: Seq<GameVersionRecordView>,
    i: int,
    j: int,
)
    requires
        archive_listing(data) is Some,
        0 <= i < j < spec_registry().len(),
        validator_applies(spec_registry()[i], project_type, loaders, game_versions, catalogue),
        validator_applies(spec_registry()[j], project_type, loaders, game_versions, catalogue),
        forall|k: int|
            0 <= k < i ==> !validator_applies(
                #[trigger] spec_registry()[k],
                project_type,
                loaders,
                game_versions,
                catalogue,
            ),
        !spec_registry()[i].spec_file_extensions().contains(file_extension),
    ensures
        spec_validate_file(data, file_extension, project_type, loaders, game_versions, catalogue)
            == Outcome::ErrInvalidInput(invalid_extension_message(file_extension)),
{
    lemma_dispatch_characterises(project_type, loaders, game_versions, catalogue);
    lemma_dispatch_from_characterises(0, project_type, loaders, game_versions, catalogue);
    assert(spec_dispatch(project_type, loaders, game_versions, catalogue) == Some(i)) by {
        match spec_dispatch(project_type, loaders, game_versions, catalogue) {
            Some(c) => {
                if c < i {
                    assert(!validator_applies(
                        spec_registry()[c],
                        project_type,
                        loaders,
                        game_versions,
                        catalogue,
                    ));
                } else if c > i {
                    assert(!validator_applies(
                        spec_registry()[i],
                        project_type,
                        loaders,
                        game_versions,
                        catalogue,
                    ));
                }
            },
            None => {
                assert(!validator_applies(
                    spec_registry()[i],
                    project_type,
                    loaders,
                    game_versions,
                    catalogue,
                ));
            },
        }
    }
}

} // verus!

//! Archive validation and classification.
//!
//! Given the raw bytes of an uploaded archive together with the metadata the
//! uploader declared (file extension, project type, loaders, game versions)
//! and a catalogue mapping game-version identifiers to release dates, the
//! dispatch engine scans a fixed registry of validators in order, selects at
//! most one, and runs its structural checks over the archive's entry listing.
//!
//! The whole pipeline is modelled by [`spec_validate_file`]: the outcome of
//! [`validate_file`] is exactly that function of its inputs, which makes the
//! engine deterministic by construction.

use vstd::prelude::*;
use vstd::string::StrSliceExecFns;

pub mod archive;
pub mod fabric;
pub mod forge;
pub mod laws;
pub mod liteloader;
pub mod pack;
pub mod quilt;

pub use archive::Archive;
pub use archive::ArchiveView;
pub use fabric::FabricValidator;
pub use forge::ForgeValidator;
pub use forge::LegacyForgeValidator;
pub use liteloader::LiteLoaderValidator;
pub use pack::PackFormat;
pub use pack::PackValidator;
pub use quilt::QuiltValidator;

verus! {

// ---------------------------------------------------------------------------
// Declared metadata
// ---------------------------------------------------------------------------

/// A loader tag declared for a release (e.g. `fabric`, `forge`).
#[derive(Debug, Clone, PartialEq, Eq)]
pub struct Loader(pub String);

impl View for Loader {
    type V = Seq<char>;

    open spec fn view(&self) -> Seq<char> {
        self.0@
    }
}

/// A game-version identifier declared for a release (e.g. `1.19.2`).
/// The identifier itself carries no ordering; time comes only from the
/// catalogue of [`GameVersionRecord`]s supplied with each call.
#[derive(Debug, Clone, PartialEq, Eq)]
pub struct GameVersion(pub String);

impl View for GameVersion {
    type V = Seq<char>;

    open spec fn view(&self) -> Seq<char> {
        self.0@
    }
}

/// One row of the game-version catalogue: an identifier together with the
/// release date of that version, as a unix timestamp in seconds.
#[derive(Debug, Clone, PartialEq, Eq)]
pub struct GameVersionRecord {
    pub version: String,
    pub date: i64,
}

/// The mathematical content of a [`GameVersionRecord`].
pub struct GameVersionRecordView {
    pub version: Seq<char>,
    pub date: int,
}

impl View for GameVersionRecord {
    type V = GameVersionRecordView;

    open spec fn view(&self) -> GameVersionRecordView {
        GameVersionRecordView { version: self.version@, date: self.date as int }
    }
}

pub open spec fn loader_views(loaders: Seq<Loader>) -> Seq<Seq<char>> {
    loaders.map_values(|l: Loader| l@)
}

pub open spec fn game_version_views(versions: Seq<GameVersion>) -> Seq<Seq<char>> {
    versions.map_values(|v: GameVersion| v@)
}

pub open spec fn record_views(records: Seq<GameVersionRecord>) -> Seq<GameVersionRecordView> {
    records.map_values(|r: GameVersionRecord| r@)
}

pub open spec fn str_views(items: Seq<&str>) -> Seq<Seq<char>> {
    items.map_values(|s: &str| s@)
}

pub open spec fn string_views(items: Seq<String>) -> Seq<Seq<char>> {
    items.map_values(|s: String| s@)
}

// ---------------------------------------------------------------------------
// Results and errors
// ---------------------------------------------------------------------------

/// Why an archive could not be evaluated at all.  Distinct from
/// [`ValidationResult::Warning`], which is a successful, non-fatal outcome.
#[derive(Debug)]
pub enum ValidationError {
    /// The container itself could not be read.
    Zip(String),
    /// An I/O fault outside the container.
    Io(String),
    /// A manifest the validator must parse held malformed JSON.
    SerDe(String),
    /// The input is wrong in a way the uploader can correct.
    InvalidInput(String),
    /// The worker pool rejected the task; the caller may retry.
    Blocking,
}

impl ValidationError {
    /// A human-readable rendering of the error.
    pub fn message(&self) -> (r: String)
        ensures
            r@ == self.spec_message(),
    {
        match self {
            ValidationError::Zip(s) => {
                let mut m = "Unable to read Zip Archive: ".to_owned();
                m.append(s.as_str());
                m
            },
            ValidationError::Io(s) => {
                let mut m = "IO Error: ".to_owned();
                m.append(s.as_str());
                m
            },
            ValidationError::SerDe(s) => {
                let mut m = "Error while validating JSON: ".to_owned();
                m.append(s.as_str());
                m
            },
            ValidationError::InvalidInput(s) => {
                let mut m = "Invalid Input: ".to_owned();
                m.append(s.as_str());
                m
            },
            ValidationError::Blocking => "Error while managing threads".to_owned(),
        }
    }

    pub open spec fn spec_message(&self) -> Seq<char> {
        match self {
            ValidationError::Zip(s) => "Unable to read Zip Archive: "@ + s@,
            ValidationError::Io(s) => "IO Error: "@ + s@,
            ValidationError::SerDe(s) => "Error while validating JSON: "@ + s@,
            ValidationError::InvalidInput(s) => "Invalid Input: "@ + s@,
            ValidationError::Blocking => "Error while managing threads"@,
        }
    }
}

/// The classification of a structurally readable archive.
#[derive(Debug, PartialEq, Eq)]
pub enum ValidationResult {
    /// File should be marked as primary with pack file data
    PassWithPackData(PackFormat),
    /// File should be marked as primary
    Pass,
    /// File should not be marked primary, the reason for which is inside the String
    Warning(&'static str),
}

impl ValidationResult {
    /// Whether the archive may become the release's primary file.
    pub fn is_passed(&self) -> (r: bool)
        ensures
            r == (self matches ValidationResult::PassWithPackData(_)
                || self matches ValidationResult::Pass),
    {
        match self {
            ValidationResult::PassWithPackData(_) | ValidationResult::Pass => true,
            ValidationResult::Warning(_) => false,
        }
    }
}

/// The observable content of a validation call's outcome: every variant and
/// every payload, taken up to the views of the strings and buffers involved.
pub enum Outcome {
    Pass,
    PassWithData(Seq<u8>),
    Warning(Seq<char>),
    ErrZip(Seq<char>),
    ErrIo(Seq<char>),
    ErrSerDe(Seq<char>),
    ErrInvalidInput(Seq<char>),
    ErrBlocking,
}

/// Maps a concrete result onto its observable [`Outcome`].
pub open spec fn outcome_of(r: Result<ValidationResult, ValidationError>) -> Outcome {
    match r {
        Ok(ValidationResult::Pass) => Outcome::Pass,
        Ok(ValidationResult::PassWithPackData(p)) => Outcome::PassWithData(p.data@),
        Ok(ValidationResult::Warning(w)) => Outcome::Warning(w@),
        Err(ValidationError::Zip(m)) => Outcome::ErrZip(m@),
        Err(ValidationError::Io(m)) => Outcome::ErrIo(m@),
        Err(ValidationError::SerDe(m)) => Outcome::ErrSerDe(m@),
        Err(ValidationError::InvalidInput(m)) => Outcome::ErrInvalidInput(m@),
        Err(ValidationError::Blocking) => Outcome::ErrBlocking,
    }
}

// ---------------------------------------------------------------------------
// String helpers
// ---------------------------------------------------------------------------

/// ASCII-lowered code point of a character: `A`..`Z` map to `a`..`z`, every
/// other character is untouched.
pub open spec fn ascii_lower(c: char) -> int {
    if 65 <= c as int && c as int <= 90 {
        c as int + 32
    } else {
        c as int
    }
}

/// Character equality up to ASCII case.
pub open spec fn chars_eq_ignore_case(a: char, b: char) -> bool {
    ascii_lower(a) == ascii_lower(b)
}

fn char_eq_ignore_case(a: char, b: char) -> (r: bool)
    ensures
        r == chars_eq_ignore_case(a, b),
{
    let au = a as u32;
    let bu = b as u32;
    let al: u32 = if 65 <= au && au <= 90 { au + 32 } else { au };
    let bl: u32 = if 65 <= bu && bu <= 90 { bu + 32 } else { bu };
    al == bl
}

fn str_eq(a: &str, b: &str) -> (r: bool)
    ensures
        r == (a@ == b@),
{
    let alen = a.unicode_len();
    let blen = b.unicode_len();
    if alen != blen {
        return false;
    }
    let mut i: usize = 0;
    while i < alen
        invariant
            0 <= i <= alen,
            alen == a@.len(),
            alen == b@.len(),
            forall|j: int| 0 <= j < i ==> a@[j] == b@[j],
        decreases alen - i,
    {
        if a.get_char(i) != b.get_char(i) {
            return false;
        }
        i += 1;
    }
    proof {
        assert(a@ =~= b@);
    }
    true
}

// ---------------------------------------------------------------------------
// Game-version support window
// ---------------------------------------------------------------------------

/// The game-version era during which a validator is applicable.  Dates are
/// unix timestamps in seconds, compared against the release dates that the
/// per-call catalogue declares.
pub enum SupportedGameVersions {
    /// No restriction.
    All,
    /// Satisfied if some declared game version was released strictly after
    /// this date.
    PastDate(i64),
    /// Satisfied if some declared game version was released strictly between
    /// these two dates.
    Range(i64, i64),
    /// Satisfied if some declared game version is a member of this set.
    Custom(Vec<GameVersion>),
}

/// The release date of `version` according to the catalogue: the date of the
/// first record carrying that identifier, or `None` when the catalogue has
/// none.
pub open spec fn first_date(catalogue: Seq<GameVersionRecordView>, version: Seq<char>) -> Option<
    int,
>
    decreases catalogue.len(),
{
    if catalogue.len() == 0 {
        None
    } else if catalogue[0].version == version {
        Some(catalogue[0].date)
    } else {
        first_date(catalogue.drop_first(), version)
    }
}

/// The support window `window` is satisfied by the declared game versions
/// `versions` under the catalogue `catalogue`.
pub open spec fn window_satisfied(
    window: SupportedGameVersions,
    versions: Seq<Seq<char>>,
    catalogue: Seq<GameVersionRecordView>,
) -> bool {
    match window {
        SupportedGameVersions::All => true,
        SupportedGameVersions::PastDate(date) => exists|i: int|
            0 <= i < versions.len() && (first_date(catalogue, #[trigger] versions[i])
                matches Some(t) && t > date),
        SupportedGameVersions::Range(before, after) => exists|i: int|
            0 <= i < versions.len() && (first_date(catalogue, #[trigger] versions[i])
                matches Some(t) && before < t && t < after),
        SupportedGameVersions::Custom(members) => exists|i: int|
            0 <= i < members@.len() && versions.contains(#[trigger] members@[i]@),
    }
}

fn find_version_date(catalogue: &Vec<GameVersionRecord>, version: &String) -> (r: Option<i64>)
    ensures
        match r {
            Some(t) => first_date(record_views(catalogue@), version@) == Some(t as int),
            None => first_date(record_views(catalogue@), version@) is None,
        },
{
    let ghost cat = record_views(catalogue@);
    proof {
        assert(cat.skip(0) =~= cat);
    }
    let mut i: usize = 0;
    while i < catalogue.len()
        invariant
            0 <= i <= catalogue@.len(),
            cat == record_views(catalogue@),
            first_date(cat, version@) == first_date(cat.skip(i as int), version@),
        decreases catalogue@.len() - i,
    {
        proof {
            assert(cat.skip(i as int)[0] == cat[i as int]);
            assert(cat[i as int] == catalogue@[i as int]@);
        }
        if catalogue[i].version == *version {
            return Some(catalogue[i].date);
        }
        proof {
            assert(cat.skip(i as int).drop_first() =~= cat.skip(i + 1));
        }
        i += 1;
    }
    proof {
        assert(cat.skip(i as int).len() == 0);
    }
    None
}

fn any_declared_member(members: &Vec<GameVersion>, game_versions: &Vec<GameVersion>) -> (r: bool)
    ensures
        r == (exists|i: int|
            0 <= i < members@.len() && game_version_views(game_versions@).contains(
                #[trigger] members@[i]@,
            )),
{
    let ghost versions = game_version_views(game_versions@);
    let mut i: usize = 0;
    while i < members.len()
        invariant
            0 <= i <= members@.len(),
            versions == game_version_views(game_versions@),
            forall|j: int| 0 <= j < i ==> !versions.contains(#[trigger] members@[j]@),
        decreases members@.len() - i,
    {
        let mut j: usize = 0;
        while j < game_versions.len()
            invariant
                0 <= i < members@.len(),
                0 <= j <= game_versions@.len(),
                versions == game_version_views(game_versions@),
                forall|k: int| 0 <= k < j ==> versions[k] != members@[i as int]@,
            decreases game_versions@.len() - j,
        {
            proof {
                assert(versions[j as int] == game_versions@[j as int]@);
            }
            if str_eq(game_versions[j].0.as_str(), members[i].0.as_str()) {
                proof {
                    assert(versions[j as int] == members@[i as int]@);
                    assert(versions.contains(members@[i as int]@));
                }
                return true;
            }
            j += 1;
        }
        proof {
            if versions.contains(members@[i as int]@) {
                let k = choose|k: int|
                    0 <= k < versions.len() && versions[k] == members@[i as int]@;
                assert(versions[k] != members@[i as int]@);
            }
        }
        i += 1;
    }
    false
}

/// Whether the support window is satisfied by the declared game versions,
/// looking each identifier up in the catalogue.
pub fn game_version_supported(
    game_versions: &Vec<GameVersion>,
    all_game_versions: &Vec<GameVersionRecord>,
    supported_game_versions: SupportedGameVersions,
) -> (r: bool)
    ensures
        r == window_satisfied(
            supported_game_versions,
            game_version_views(game_versions@),
            record_views(all_game_versions@),
        ),
{
    let ghost versions = game_version_views(game_versions@);
    let ghost cat = record_views(all_game_versions@);
    match &supported_game_versions {
        SupportedGameVersions::All => true,
        SupportedGameVersions::PastDate(date) => {
            let date: i64 = *date;
            let mut i: usize = 0;
            while i < game_versions.len()
                invariant
                    supported_game_versions == SupportedGameVersions::PastDate(date),
                    0 <= i <= game_versions@.len(),
                    versions == game_version_views(game_versions@),
                    cat == record_views(all_game_versions@),
                    forall|j: int|
                        0 <= j < i ==> !(first_date(cat, #[trigger] versions[j]) matches Some(t)
                            && t > date),
                decreases game_versions@.len() - i,
            {
                proof {
                    assert(versions[i as int] == game_versions@[i as int]@);
                }
                match find_version_date(all_game_versions, &game_versions[i].0) {
                    Some(t) => {
                        if t > date {
                            proof {
                                assert(first_date(cat, versions[i as int]) matches Some(d)
                                    && d > date);
                            }
                            return true;
                        }
                    },
                    None => {},
                }
                i += 1;
            }
            false
        },
        SupportedGameVersions::Range(before, after) => {
            let before: i64 = *before;
            let after: i64 = *after;
            let mut i: usize = 0;
            while i < game_versions.len()
                invariant
                    supported_game_versions == SupportedGameVersions::Range(before, after),
                    0 <= i <= game_versions@.len(),
                    versions == game_version_views(game_versions@),
                    cat == record_views(all_game_versions@),
                    forall|j: int|
                        0 <= j < i ==> !(first_date(cat, #[trigger] versions[j]) matches Some(t)
                            && before < t && t < after),
                decreases game_versions@.len() - i,
            {
                proof {
                    assert(versions[i as int] == game_versions@[i as int]@);
                }
                match find_version_date(all_game_versions, &game_versions[i].0) {
                    Some(t) => {
                        if before < t && t < after {
                            proof {
                                assert(first_date(cat, versions[i as int]) matches Some(d)
                                    && before < d && d < after);
                            }
                            return true;
                        }
                    },
                    None => {},
                }
                i += 1;
            }
            false
        },
        SupportedGameVersions::Custom(members) => {
            let r = any_declared_member(members, game_versions);
            proof {
                assert(r == window_satisfied(supported_game_versions, versions, cat));
            }
            r
        },
    }
}

// ---------------------------------------------------------------------------
// Extension matcher
// ---------------------------------------------------------------------------

/// `ext` is a suffix of `name`, compared character by character up to ASCII
/// case.  A name shorter than the candidate never matches.
pub open spec fn suffix_matches(name: Seq<char>, ext: Seq<char>) -> bool {
    &&& ext.len() <= name.len()
    &&& forall|i: int|
        0 <= i < ext.len() ==> chars_eq_ignore_case(
            name[name.len() - ext.len() + i],
            #[trigger] ext[i],
        )
}

/// Some candidate in `exts` is a case-insensitive suffix of `name`.
pub open spec fn name_matches_any(name: Seq<char>, exts: Seq<Seq<char>>) -> bool {
    exists|k: int| 0 <= k < exts.len() && suffix_matches(name, exts[k])
}

fn suffix_match(name: &str, ext: &str) -> (r: bool)
    ensures
        r == suffix_matches(name@, ext@),
{
    let nlen = name.unicode_len();
    let elen = ext.unicode_len();
    if elen > nlen {
        return false;
    }
    let mut i: usize = 0;
    while i < elen
        invariant
            0 <= i <= elen,
            elen <= nlen,
            nlen == name@.len(),
            elen == ext@.len(),
            forall|j: int|
                0 <= j < i ==> chars_eq_ignore_case(name@[nlen - elen + j], #[trigger] ext@[j]),
        decreases elen - i,
    {
        if !char_eq_ignore_case(name.get_char(nlen - elen + i), ext.get_char(i)) {
            return false;
        }
        i += 1;
    }
    true
}

/// Whether `name` ends, case-insensitively, with one of the candidate
/// suffixes.  Each candidate is a single atomic suffix: `.refmap.json` must be
/// matched as a whole, never as two separate extensions.
pub fn match_extension_ignore_case(name: &str, exts: &[&str]) -> (r: bool)
    ensures
        r == name_matches_any(name@, str_views(exts@)),
{
    let mut k: usize = 0;
    while k < exts.len()
        invariant
            0 <= k <= exts@.len(),
            forall|j: int| 0 <= j < k ==> !suffix_matches(name@, str_views(exts@)[j]),
        decreases exts@.len() - k,
    {
        if suffix_match(name, exts[k]) {
            proof {
                assert(str_views(exts@)[k as int] == exts@[k as int]@);
            }
            return true;
        }
        k += 1;
    }
    false
}

// ---------------------------------------------------------------------------
// Validators and the registry
// ---------------------------------------------------------------------------

/// A named validation capability: the file extensions, project types and
/// loaders it accepts, the game-version window during which it applies, and
/// the structural validation itself.
///
/// Each executable accessor is mirrored by a spec function, so that the
/// dispatch engine's contract can speak about the registry mathematically.
pub trait Validator {
    /// The file extensions the validator accepts, matched exactly against the
    /// declared extension.
    spec fn spec_file_extensions(&self) -> Seq<Seq<char>>;

    /// The project types the validator accepts.
    spec fn spec_project_types(&self) -> Seq<Seq<char>>;

    /// The loader tags the validator accepts.
    spec fn spec_supported_loaders(&self) -> Seq<Seq<char>>;

    /// The validator's support window.
    spec fn spec_supported_game_versions(&self) -> SupportedGameVersions;

    /// The validator's classification of an opened archive.
    spec fn spec_validate(&self, archive: ArchiveView) -> Outcome;

    fn get_file_extensions(&self) -> (r: Vec<&'static str>)
        ensures
            str_views(r@) == self.spec_file_extensions(),
    ;

    fn get_project_types(&self) -> (r: Vec<&'static str>)
        ensures
            str_views(r@) == self.spec_project_types(),
    ;

    fn get_supported_loaders(&self) -> (r: Vec<&'static str>)
        ensures
            str_views(r@) == self.spec_supported_loaders(),
    ;

    fn get_supported_game_versions(&self) -> (r: SupportedGameVersions)
        ensures
            r == self.spec_supported_game_versions(),
    ;

    fn validate(&self, archive: &Archive) -> (r: Result<ValidationResult, ValidationError>)
        ensures
            outcome_of(r) == self.spec_validate(archive@),
    ;
}

/// The closed set of registered validators.  The registry is a fixed,
/// compile-time list; dispatch depends only on the shared capability surface,
/// never on the concrete type.
pub enum AnyValidator {
    Pack(PackValidator),
    Fabric(FabricValidator),
    Forge(ForgeValidator),
    LegacyForge(LegacyForgeValidator),
    Quilt(QuiltValidator),
    LiteLoader(LiteLoaderValidator),
}

impl Validator for AnyValidator {
    open spec fn spec_file_extensions(&self) -> Seq<Seq<char>> {
        match self {
            AnyValidator::Pack(v) => v.spec_file_extensions(),
            AnyValidator::Fabric(v) => v.spec_file_extensions(),
            AnyValidator::Forge(v) => v.spec_file_extensions(),
            AnyValidator::LegacyForge(v) => v.spec_file_extensions(),
            AnyValidator::Quilt(v) => v.spec_file_extensions(),
            AnyValidator::LiteLoader(v) => v.spec_file_extensions(),
        }
    }

    open spec fn spec_project_types(&self) -> Seq<Seq<char>> {
        match self {
            AnyValidator::Pack(v) => v.spec_project_types(),
            AnyValidator::Fabric(v) => v.spec_project_types(),
            AnyValidator::Forge(v) => v.spec_project_types(),
            AnyValidator::LegacyForge(v) => v.spec_project_types(),
            AnyValidator::Quilt(v) => v.spec_project_types(),
            AnyValidator::LiteLoader(v) => v.spec_project_types(),
        }
    }

    open spec fn spec_supported_loaders(&self) -> Seq<Seq<char>> {
        match self {
            AnyValidator::Pack(v) => v.spec_supported_loaders(),
            AnyValidator::Fabric(v) => v.spec_supported_loaders(),
            AnyValidator::Forge(v) => v.spec_supported_loaders(),
            AnyValidator::LegacyForge(v) => v.spec_supported_loaders(),
            AnyValidator::Quilt(v) => v.spec_supported_loaders(),
            AnyValidator::LiteLoader(v) => v.spec_supported_loaders(),
        }
    }

    open spec fn spec_supported_game_versions(&self) -> SupportedGameVersions {
        match self {
            AnyValidator::Pack(v) => v.spec_supported_game_versions(),
            AnyValidator::Fabric(v) => v.spec_supported_game_versions(),
            AnyValidator::Forge(v) => v.spec_supported_game_versions(),
            AnyValidator::LegacyForge(v) => v.spec_supported_game_versions(),
            AnyValidator::Quilt(v) => v.spec_supported_game_versions(),
            AnyValidator::LiteLoader(v) => v.spec_supported_game_versions(),
        }
    }

    open spec fn spec_validate(&self, archive: ArchiveView) -> Outcome {
        match self {
            AnyValidator::Pack(v) => v.spec_validate(archive),
            AnyValidator::Fabric(v) => v.spec_validate(archive),
            AnyValidator::Forge(v) => v.spec_validate(archive),
            AnyValidator::LegacyForge(v) => v.spec_validate(archive),
            AnyValidator::Quilt(v) => v.spec_validate(archive),
            AnyValidator::LiteLoader(v) => v.spec_validate(archive),
        }
    }

    fn get_file_extensions(&self) -> (r: Vec<&'static str>) {
        match self {
            AnyValidator::Pack(v) => v.get_file_extensions(),
            AnyValidator::Fabric(v) => v.get_file_extensions(),
            AnyValidator::Forge(v) => v.get_file_extensions(),
            AnyValidator::LegacyForge(v) => v.get_file_extensions(),
            AnyValidator::Quilt(v) => v.get_file_extensions(),
            AnyValidator::LiteLoader(v) => v.get_file_extensions(),
        }
    }

    fn get_project_types(&self) -> (r: Vec<&'static str>) {
        match self {
            AnyValidator::Pack(v) => v.get_project_types(),
            AnyValidator::Fabric(v) => v.get_project_types(),
            AnyValidator::Forge(v) => v.get_project_types(),
            AnyValidator::LegacyForge(v) => v.get_project_types(),
            AnyValidator::Quilt(v) => v.get_project_types(),
            AnyValidator::LiteLoader(v) => v.get_project_types(),
        }
    }

    fn get_supported_loaders(&self) -> (r: Vec<&'static str>) {
        match self {
            AnyValidator::Pack(v) => v.get_supported_loaders(),
            AnyValidator::Fabric(v) => v.get_supported_loaders(),
            AnyValidator::Forge(v) => v.get_supported_loaders(),
            AnyValidator::LegacyForge(v) => v.get_supported_loaders(),
            AnyValidator::Quilt(v) => v.get_supported_loaders(),
            AnyValidator::LiteLoader(v) => v.get_supported_loaders(),
        }
    }

    fn get_supported_game_versions(&self) -> (r: SupportedGameVersions) {
        match self {
            AnyValidator::Pack(v) => v.get_supported_game_versions(),
            AnyValidator::Fabric(v) => v.get_supported_game_versions(),
            AnyValidator::Forge(v) => v.get_supported_game_versions(),
            AnyValidator::LegacyForge(v) => v.get_supported_game_versions(),
            AnyValidator::Quilt(v) => v.get_supported_game_versions(),
            AnyValidator::LiteLoader(v) => v.get_supported_game_versions(),
        }
    }

    fn validate(&self, archive: &Archive) -> (r: Result<ValidationResult, ValidationError>) {
        match self {
            AnyValidator::Pack(v) => v.validate(archive),
            AnyValidator::Fabric(v) => v.validate(archive),
            AnyValidator::Forge(v) => v.validate(archive),
            AnyValidator::LegacyForge(v) => v.validate(archive),
            AnyValidator::Quilt(v) => v.validate(archive),
            AnyValidator::LiteLoader(v) => v.validate(archive),
        }
    }
}

/// The registry in its fixed, deliberate dispatch order.
pub open spec fn spec_registry() -> Seq<AnyValidator> {
    seq![
        AnyValidator::Pack(PackValidator),
        AnyValidator::Fabric(FabricValidator),
        AnyValidator::Forge(ForgeValidator),
        AnyValidator::LegacyForge(LegacyForgeValidator),
        AnyValidator::Quilt(QuiltValidator),
        AnyValidator::LiteLoader(LiteLoaderValidator),
    ]
}

fn validators() -> (r: Vec<AnyValidator>)
    ensures
        r@ == spec_registry(),
{
    let mut r: Vec<AnyValidator> = Vec::new();
    r.push(AnyValidator::Pack(PackValidator));
    r.push(AnyValidator::Fabric(FabricValidator));
    r.push(AnyValidator::Forge(ForgeValidator));
    r.push(AnyValidator::LegacyForge(LegacyForgeValidator));
    r.push(AnyValidator::Quilt(QuiltValidator));
    r.push(AnyValidator::LiteLoader(LiteLoaderValidator));
    proof {
        assert(r@ =~= spec_registry());
    }
    r
}

// ---------------------------------------------------------------------------
// Dispatch engine
// ---------------------------------------------------------------------------

/// The three dispatch predicates of a registry entry: it accepts the declared
/// project type, at least one declared loader, and its support window is
/// satisfied by the declared game versions under the catalogue.
pub open spec fn validator_applies(
    v: AnyValidator,
    project_type: Seq<char>,
    loaders: Seq<Seq<char>>,
    game_versions: Seq<Seq<char>>,
    catalogue: Seq<GameVersionRecordView>,
) -> bool {
    &&& v.spec_project_types().contains(project_type)
    &&& exists|j: int|
        0 <= j < loaders.len() && v.spec_supported_loaders().contains(#[trigger] loaders[j])
    &&& window_satisfied(v.spec_supported_game_versions(), game_versions, catalogue)
}

/// The index of the first registry entry at or after `i` that satisfies all
/// three dispatch predicates, if any.  Scanning is strictly sequential: the
/// first satisfying entry is chosen whatever comes after it.
pub open spec fn spec_dispatch_from(
    i: int,
    project_type: Seq<char>,
    loaders: Seq<Seq<char>>,
    game_versions: Seq<Seq<char>>,
    catalogue: Seq<GameVersionRecordView>,
) -> Option<int>
    decreases spec_registry().len() - i,
{
    if i < 0 || i >= spec_registry().len() {
        None
    } else if validator_applies(
        spec_registry()[i],
        project_type,
        loaders,
        game_versions,
        catalogue,
    ) {
        Some(i)
    } else {
        spec_dispatch_from(i + 1, project_type, loaders, game_versions, catalogue)
    }
}

/// The registry entry chosen for a call, if any.
pub open spec fn spec_dispatch(
    project_type: Seq<char>,
    loaders: Seq<Seq<char>>,
    game_versions: Seq<Seq<char>>,
    catalogue: Seq<GameVersionRecordView>,
) -> Option<int> {
    spec_dispatch_from(0, project_type, loaders, game_versions, catalogue)
}

/// The message of the error raised when the chosen validator does not accept
/// the declared file extension.
pub open spec fn invalid_extension_message(file_extension: Seq<char>) -> Seq<char> {
    "File extension "@ + file_extension + " is invalid for input file"@
}

/// What a validation call observably returns, as a function of the archive
/// bytes and the declared metadata alone.
pub open spec fn spec_validate_file(
    data: Seq<u8>,
    file_extension: Seq<char>,
    project_type: Seq<char>,
    loaders: Seq<Seq<char>>,
    game_versions: Seq<Seq<char>>,
    catalogue: Seq<GameVersionRecordView>,
) -> Outcome {
    match archive::archive_listing(data) {
        None => Outcome::ErrZip(archive::archive_open_error(data)),
        Some(entries) => match spec_dispatch(project_type, loaders, game_versions, catalogue) {
            None => Outcome::Pass,
            Some(i) => if spec_registry()[i].spec_file_extensions().contains(file_extension) {
                spec_registry()[i].spec_validate(ArchiveView { bytes: data, entries })
            } else {
                Outcome::ErrInvalidInput(invalid_extension_message(file_extension))
            },
        },
    }
}

/// Skipping a prefix of entries that do not apply leaves the dispatch result
/// unchanged.
proof fn lemma_dispatch_prefix(
    hi: int,
    project_type: Seq<char>,
    loaders: Seq<Seq<char>>,
    game_versions: Seq<Seq<char>>,
    catalogue: Seq<GameVersionRecordView>,
)
    requires
        0 <= hi <= spec_registry().len(),
        forall|k: int|
            0 <= k < hi ==> !validator_applies(
                #[trigger] spec_registry()[k],
                project_type,
                loaders,
                game_versions,
                catalogue,
            ),
    ensures
        spec_dispatch(project_type, loaders, game_versions, catalogue) == spec_dispatch_from(
            hi,
            project_type,
            loaders,
            game_versions,
            catalogue,
        ),
    decreases hi,
{
    if hi > 0 {
        lemma_dispatch_prefix(hi - 1, project_type, loaders, game_versions, catalogue);
    }
}

fn contains_str(items: &Vec<&'static str>, target: &str) -> (r: bool)
    ensures
        r == str_views(items@).contains(target@),
{
    let mut i: usize = 0;
    while i < items.len()
        invariant
            0 <= i <= items@.len(),
            forall|j: int| 0 <= j < i ==> str_views(items@)[j] != target@,
        decreases items@.len() - i,
    {
        if str_eq(items[i], target) {
            proof {
                assert(str_views(items@)[i as int] == items@[i as int]@);
            }
            return true;
        }
        i += 1;
    }
    proof {
        if str_views(items@).contains(target@) {
            let j = choose|j: int|
                0 <= j < str_views(items@).len() && str_views(items@)[j] == target@;
            assert(str_views(items@)[j] != target@);
        }
    }
    false
}

fn any_loader_supported(loaders: &Vec<Loader>, supported: &Vec<&'static str>) -> (r: bool)
    ensures
        r == (exists|j: int|
            0 <= j < loader_views(loaders@).len() && str_views(supported@).contains(
                #[trigger] loader_views(loaders@)[j],
            )),
{
    let mut i: usize = 0;
    while i < loaders.len()
        invariant
            0 <= i <= loaders@.len(),
            forall|j: int|
                0 <= j < i ==> !str_views(supported@).contains(
                    #[trigger] loader_views(loaders@)[j],
                ),
        decreases loaders@.len() - i,
    {
        proof {
            assert(loader_views(loaders@)[i as int] == loaders@[i as int]@);
        }
        if contains_str(supported, loaders[i].0.as_str()) {
            return true;
        }
        i += 1;
    }
    false
}

/// The validation and classification engine.
///
/// Opens `data` as a zip archive, scans the registry in its fixed order for
/// the first validator accepting the declared project type, one of the
/// declared loaders and the declared game versions, and runs that validator
/// over the archive.  Scanning stops at the first such entry whatever the
/// outcome: a chosen validator that does not accept the declared file
/// extension is an invalid-input error, not a reason to try later entries.
/// When no entry applies at all the archive passes by default.
///
/// The outcome is exactly [`spec_validate_file`] of the inputs: validation is
/// a pure function of the archive bytes and the declared metadata.
#[verifier::loop_isolation(false)]
pub fn validate_file(
    data: Vec<u8>,
    file_extension: String,
    project_type: String,
    loaders: Vec<Loader>,
    game_versions: Vec<GameVersion>,
    all_game_versions: Vec<GameVersionRecord>,
) -> (r: Result<ValidationResult, ValidationError>)
    ensures
        outcome_of(r) == spec_validate_file(
            data@,
            file_extension@,
            project_type@,
            loader_views(loaders@),
            game_version_views(game_versions@),
            record_views(all_game_versions@),
        ),
{
    let ghost data_view = data@;
    let ghost ptype = project_type@;
    let ghost lds = loader_views(loaders@);
    let ghost gvs = game_version_views(game_versions@);
    let ghost cat = record_views(all_game_versions@);

    let archive = match Archive::open(data) {
        Ok(a) => a,
        Err(e) => {
            return Err(e);
        },
    };
    let ghost entries = archive@.entries;

    let validators = validators();
    let mut i: usize = 0;
    while i < validators.len()
        invariant
            validators@ == spec_registry(),
            0 <= i <= spec_registry().len(),
            ptype == project_type@,
            lds == loader_views(loaders@),
            gvs == game_version_views(game_versions@),
            cat == record_views(all_game_versions@),
            archive@.bytes == data_view,
            archive@.entries == entries,
            archive::archive_listing(data_view) == Some(entries),
            forall|k: int|
                0 <= k < i ==> !validator_applies(
                    #[trigger] spec_registry()[k],
                    ptype,
                    lds,
                    gvs,
                    cat,
                ),
        decreases spec_registry().len() - i,
    {
        let v = &validators[i];
        let project_types = v.get_project_types();
        let supported_loaders = v.get_supported_loaders();
        if contains_str(&project_types, project_type.as_str())
            && any_loader_supported(&loaders, &supported_loaders)
            && game_version_supported(
            &game_versions,
            &all_game_versions,
            v.get_supported_game_versions(),
        ) {
            proof {
                lemma_dispatch_prefix(i as int, ptype, lds, gvs, cat);
                assert(spec_dispatch(ptype, lds, gvs, cat) == Some(i as int));
            }
            let file_extensions = v.get_file_extensions();
            if contains_str(&file_extensions, file_extension.as_str()) {
                let r = v.validate(&archive);
                proof {
                    assert(archive@ =~= ArchiveView { bytes: data_view, entries });
                }
                return r;
            }
            let mut message = "File extension ".to_owned();
            message.append(file_extension.as_str());
            message.append(" is invalid for input file");
            return Err(ValidationError::InvalidInput(message));
        }
        i += 1;
    }
    proof {
        lemma_dispatch_prefix(spec_registry().len() as int, ptype, lds, gvs, cat);
    }
    Ok(ValidationResult::Pass)
}

} // verus!

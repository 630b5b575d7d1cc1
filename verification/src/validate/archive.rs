//! An opened archive: the raw container bytes together with the ordered
//! listing of entry names that the zip central directory holds.
//!
//! Opening the container and reading an entry's bytes are the only places the
//! crate touches the zip format itself; both stand behind trusted wrappers
//! whose results are named by uninterpreted functions of the input bytes, so
//! that everything downstream is a pure function of the archive's content.

use vstd::prelude::*;

use super::name_matches_any;
use super::str_views;
use super::string_views;
use super::ValidationError;

verus! {

/// The entry listing of the archive whose raw bytes are `data`, in central
/// directory order, or `None` when the bytes are not a readable zip container.
/// The listing is determined by the bytes alone.
pub uninterp spec fn archive_listing(data: Seq<u8>) -> Option<Seq<Seq<char>>>;

/// The diagnostic produced when `data` is not a readable zip container.
/// Determined by the bytes alone.
pub uninterp spec fn archive_open_error(data: Seq<u8>) -> Seq<char>;

/// The decompressed bytes stored under the entry named `name` inside the
/// container `data`, or `None` when there is no such entry or its data cannot
/// be decompressed.  Determined by `data` and `name` alone.
pub uninterp spec fn entry_bytes(data: Seq<u8>, name: Seq<char>) -> Option<Seq<u8>>;

/// The diagnostic produced when the entry named `name` cannot be read out of
/// the container `data`.  Determined by `data` and `name` alone.
pub uninterp spec fn entry_read_error(data: Seq<u8>, name: Seq<char>) -> Seq<char>;

/// The mathematical content of an [`Archive`]: its raw bytes and its entry
/// names, in archive order.
#[verifier::ext_equal]
pub struct ArchiveView {
    pub bytes: Seq<u8>,
    pub entries: Seq<Seq<char>>,
}

/// An opened random-access container over a byte buffer: the buffer itself
/// plus the ordered list of entry names found in its central directory.
/// Immutable for the duration of validation; created fresh per call by
/// [`Archive::open`] and discarded at its end.
pub struct Archive {
    pub(crate) data: Vec<u8>,
    pub(crate) names: Vec<String>,
}

impl View for Archive {
    type V = ArchiveView;

    closed spec fn view(&self) -> ArchiveView {
        ArchiveView { bytes: self.data@, entries: string_views(self.names@) }
    }
}

/// Relies on `zip::ZipArchive::new` and `zip::ZipArchive::file_names`: parsing
/// the central directory is deterministic in the bytes, `file_names` walks the
/// entries in central-directory order (the crate stores them in an insertion
/// ordered index map), and `new` fails exactly when the bytes are not a
/// readable zip container, with a diagnostic determined by the bytes.
#[verifier::external_body]
fn open_archive(data: Vec<u8>) -> (r: Result<Archive, String>)
    ensures
        match r {
            Ok(a) => archive_listing(data@) == Some(a@.entries) && a@.bytes == data@,
            Err(e) => archive_listing(data@) is None && e@ == archive_open_error(data@),
        },
{
    match zip::ZipArchive::new(std::io::Cursor::new(&data[..])) {
        Ok(archive) => {
            let names: Vec<String> = archive.file_names().map(|n| n.to_string()).collect();
            Ok(Archive { data, names })
        },
        Err(e) => Err(e.to_string()),
    }
}

/// Relies on `zip::ZipArchive::by_name` and `std::io::Read::read_to_end`:
/// looking an entry up by its exact name and inflating its data are
/// deterministic in the container bytes and the name, and fail exactly when
/// the entry is absent or its data cannot be decompressed.
#[verifier::external_body]
pub(crate) fn read_entry(archive: &Archive, name: &str) -> (r: Result<Vec<u8>, String>)
    ensures
        match r {
            Ok(b) => entry_bytes(archive@.bytes, name@) == Some(b@),
            Err(e) => entry_bytes(archive@.bytes, name@) is None && e@ == entry_read_error(
                archive@.bytes,
                name@,
            ),
        },
{
    let mut za = zip::ZipArchive::new(std::io::Cursor::new(&archive.data[..]))
        .map_err(|e| e.to_string())?;
    let mut file = za.by_name(name).map_err(|e| e.to_string())?;
    let mut out = Vec::new();
    std::io::Read::read_to_end(&mut file, &mut out).map_err(|e| e.to_string())?;
    Ok(out)
}

impl Archive {
    /// Opens a byte buffer as a zip archive.  Succeeds exactly when the bytes
    /// form a readable container; the listing of the result is the container's
    /// own, in central-directory order.
    pub fn open(data: Vec<u8>) -> (r: Result<Archive, ValidationError>)
        ensures
            match r {
                Ok(a) => archive_listing(data@) == Some(a@.entries) && a@.bytes == data@,
                Err(e) => archive_listing(data@) is None && (e matches ValidationError::Zip(m)
                    && m@ == archive_open_error(data@)),
            },
    {
        match open_archive(data) {
            Ok(a) => Ok(a),
            Err(m) => Err(ValidationError::Zip(m)),
        }
    }

    /// The number of entries in the archive.
    pub fn len(&self) -> (r: usize)
        ensures
            r == self@.entries.len(),
    {
        self.names.len()
    }

    /// Whether the listing holds an entry under exactly this name.
    pub fn contains_entry(&self, name: &str) -> (r: bool)
        ensures
            r == self@.entries.contains(name@),
    {
        let mut i: usize = 0;
        while i < self.names.len()
            invariant
                0 <= i <= self.names@.len(),
                forall|j: int| 0 <= j < i ==> string_views(self.names@)[j] != name@,
            decreases self.names@.len() - i,
        {
            if super::str_eq(self.names[i].as_str(), name) {
                proof {
                    assert(string_views(self.names@)[i as int] == self.names@[i as int]@);
                }
                return true;
            }
            i += 1;
        }
        proof {
            if self@.entries.contains(name@) {
                let j = choose|j: int|
                    0 <= j < self@.entries.len() && self@.entries[j] == name@;
                assert(string_views(self.names@)[j] != name@);
            }
        }
        false
    }

    /// Whether some entry name ends, case-insensitively, with one of the
    /// candidate suffixes.
    pub fn has_entry_matching(&self, exts: &[&str]) -> (r: bool)
        ensures
            r == any_entry_matches(self@.entries, str_views(exts@)),
    {
        let mut i: usize = 0;
        while i < self.names.len()
            invariant
                0 <= i <= self.names@.len(),
                forall|j: int|
                    0 <= j < i ==> !name_matches_any(
                        string_views(self.names@)[j],
                        str_views(exts@),
                    ),
            decreases self.names@.len() - i,
        {
            if super::match_extension_ignore_case(self.names[i].as_str(), exts) {
                proof {
                    assert(string_views(self.names@)[i as int] == self.names@[i as int]@);
                }
                return true;
            }
            i += 1;
        }
        proof {
            if any_entry_matches(self@.entries, str_views(exts@)) {
                let j = choose|j: int|
                    0 <= j < self@.entries.len() && name_matches_any(
                        self@.entries[j],
                        str_views(exts@),
                    );
                assert(!name_matches_any(string_views(self.names@)[j], str_views(exts@)));
            }
        }
        false
    }
}

/// Some entry of the listing ends, case-insensitively, with one of the
/// candidate suffixes.
pub open spec fn any_entry_matches(entries: Seq<Seq<char>>, exts: Seq<Seq<char>>) -> bool {
    exists|i: int| 0 <= i < entries.len() && name_matches_any(entries[i], exts)
}

} // verus!

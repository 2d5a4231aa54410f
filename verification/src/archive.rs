//! Reading one entry out of a zip archive held in memory.

use std::io::Read;
use vstd::prelude::*;
use crate::text::{ends_with, has_suffix};

verus! {

/// `zip::ZipArchive`, a reader of zip archives. Nothing inside it is visible
/// here.
#[verifier::external_type_specification]
#[verifier::external_body]
#[verifier::reject_recursive_types(R)]
pub struct ExZipArchive<R>(zip::ZipArchive<R>);

/// `std::io::Cursor`, which makes a reader of bytes in memory.
#[verifier::external_type_specification]
#[verifier::external_body]
#[verifier::reject_recursive_types(T)]
pub struct ExCursor<T>(std::io::Cursor<T>);

/// The names of the entries of an open archive as `file_names` yields them:
/// in the order of the central directory, a name that occurs more than once
/// at its first place only.
pub uninterp spec fn archive_names(archive: zip::ZipArchive<std::io::Cursor<Vec<u8>>>) -> Seq<
    Seq<char>,
>;

/// The bytes that an open archive was made from.
pub uninterp spec fn archive_source(archive: zip::ZipArchive<std::io::Cursor<Vec<u8>>>) -> Seq<u8>;

/// What `zip::ZipArchive::new` makes of `bytes`: the names of the entries
/// that it collects from the central directory, in their order, or the text
/// of its error.
pub uninterp spec fn zip_directory(bytes: Seq<u8>) -> Result<Seq<Seq<char>>, Seq<char>>;

/// What reading the entry at `index` of the archive `bytes` to its end gives:
/// the content of the entry, or the text of the error.
pub uninterp spec fn zip_entry(bytes: Seq<u8>, index: int) -> Result<Seq<u8>, Seq<char>>;

/// `zip::ZipArchive::new` on a cursor over `bytes`. The archive is read from
/// its central directory; what comes of that depends on the bytes alone and
/// is named [`zip_directory`]. An open archive holds the bytes it was made
/// from.
#[verifier::external_body]
fn open_archive(bytes: Vec<u8>) -> (opened: Result<
    zip::ZipArchive<std::io::Cursor<Vec<u8>>>,
    String,
>)
    ensures
        match opened {
            Ok(archive) => zip_directory(bytes@) == Ok::<Seq<Seq<char>>, Seq<char>>(
                archive_names(archive),
            ) && archive_source(archive) == bytes@,
            Err(text) => zip_directory(bytes@) == Err::<Seq<Seq<char>>, Seq<char>>(text@),
        },
{
    match zip::ZipArchive::new(std::io::Cursor::new(bytes)) {
        Ok(archive) => Ok(archive),
        Err(e) => Err(e.to_string()),
    }
}

/// `zip::ZipArchive::file_names`: the names of all entries, in the order in
/// which the archive holds them, which is the one that `by_index` counts in.
#[verifier::external_body]
fn entry_names(archive: &zip::ZipArchive<std::io::Cursor<Vec<u8>>>) -> (names: Vec<String>)
    ensures
        names.deep_view() == archive_names(*archive),
{
    archive.file_names().map(|name| name.to_string()).collect()
}

/// `zip::ZipArchive::by_index`, and `read_to_end` on the entry it gives.
/// What comes of that depends on the bytes of the archive and the index
/// alone and is named [`zip_entry`].
#[verifier::external_body]
fn read_entry(archive: &mut zip::ZipArchive<std::io::Cursor<Vec<u8>>>, index: usize) -> (read:
    Result<Vec<u8>, String>)
    ensures
        match read {
            Ok(data) => zip_entry(archive_source(*old(archive)), index as int) == Ok::<
                Seq<u8>,
                Seq<char>,
            >(data@),
            Err(text) => zip_entry(archive_source(*old(archive)), index as int) == Err::<
                Seq<u8>,
                Seq<char>,
            >(text@),
        },
{
    let mut data = Vec::new();
    match archive.by_index(index) {
        Ok(mut entry) => match entry.read_to_end(&mut data) {
            Ok(_) => Ok(data),
            Err(e) => Err(e.to_string()),
        },
        Err(e) => Err(e.to_string()),
    }
}

/// Why no entry came out of an archive.
#[derive(Debug, PartialEq, Eq)]
pub enum ExtractionError {
    /// The bytes are no zip archive that can be read; the reader's account.
    InvalidArchive(String),
    /// No entry has a name that ends as asked.
    EntryNotFound,
    /// The entry was found and could not be read; the reader's account.
    UnreadableEntry(String),
}

/// The mathematical content of an [`ExtractionError`].
pub enum ExtractionErrorModel {
    InvalidArchive(Seq<char>),
    EntryNotFound,
    UnreadableEntry(Seq<char>),
}

impl View for ExtractionError {
    type V = ExtractionErrorModel;

    open spec fn view(&self) -> ExtractionErrorModel {
        match self {
            ExtractionError::InvalidArchive(text) => ExtractionErrorModel::InvalidArchive(text@),
            ExtractionError::EntryNotFound => ExtractionErrorModel::EntryNotFound,
            ExtractionError::UnreadableEntry(text) => ExtractionErrorModel::UnreadableEntry(text@),
        }
    }
}

/// The index of the first of `names`, from `from` on, that ends with
/// `suffix`.
pub open spec fn first_match_from(names: Seq<Seq<char>>, suffix: Seq<char>, from: int) -> Option<
    int,
>
    decreases names.len() - from,
{
    if from < 0 || from >= names.len() {
        None
    } else if has_suffix(names[from], suffix) {
        Some(from)
    } else {
        first_match_from(names, suffix, from + 1)
    }
}

/// The index of the first of `names` that ends with `suffix`. The names are
/// taken in the order given; among several that match, the first wins.
pub open spec fn first_match(names: Seq<Seq<char>>, suffix: Seq<char>) -> Option<int> {
    first_match_from(names, suffix, 0)
}

/// What the first match is: an index of a name that ends with `suffix`,
/// before which no name does; and there is none exactly when no name ends
/// with `suffix`.
pub proof fn lemma_first_match(names: Seq<Seq<char>>, suffix: Seq<char>, from: int)
    requires
        0 <= from,
    ensures
        match first_match_from(names, suffix, from) {
            Some(i) => {
                &&& from <= i < names.len()
                &&& has_suffix(names[i], suffix)
                &&& forall|j: int| from <= j < i ==> !has_suffix(#[trigger] names[j], suffix)
            },
            None => forall|j: int|
                from <= j < names.len() ==> !has_suffix(#[trigger] names[j], suffix),
        },
    decreases names.len() - from,
{
    if from < names.len() && !has_suffix(names[from], suffix) {
        lemma_first_match(names, suffix, from + 1);
    }
}

/// What reading the first entry of the archive `bytes` whose name ends with
/// `suffix` gives.
pub open spec fn extracted(bytes: Seq<u8>, suffix: Seq<char>) -> Result<
    Seq<u8>,
    ExtractionErrorModel,
> {
    match zip_directory(bytes) {
        Err(text) => Err(ExtractionErrorModel::InvalidArchive(text)),
        Ok(names) => match first_match(names, suffix) {
            None => Err(ExtractionErrorModel::EntryNotFound),
            Some(index) => match zip_entry(bytes, index) {
                Ok(data) => Ok(data),
                Err(text) => Err(ExtractionErrorModel::UnreadableEntry(text)),
            },
        },
    }
}

/// The mathematical content of what [`extract_entry`] returns.
pub open spec fn result_model(result: Result<Vec<u8>, ExtractionError>) -> Result<
    Seq<u8>,
    ExtractionErrorModel,
> {
    match result {
        Ok(data) => Ok(data@),
        Err(e) => Err(e@),
    }
}

/// The index of the first of `names` that ends with `suffix`.
pub fn select_entry(names: &Vec<String>, suffix: &str) -> (found: Option<usize>)
    ensures
        match found {
            Some(i) => first_match(names.deep_view(), suffix@) == Some(i as int),
            None => first_match(names.deep_view(), suffix@) is None,
        },
{
    let mut i: usize = 0;
    while i < names.len()
        invariant
            i <= names.len(),
            first_match(names.deep_view(), suffix@) == first_match_from(
                names.deep_view(),
                suffix@,
                i as int,
            ),
        decreases names.len() - i,
    {
        assert(names.deep_view()[i as int] == names[i as int]@);
        if ends_with(names[i].as_str(), suffix) {
            return Some(i);
        }
        i += 1;
    }
    None
}

/// Reads, out of the zip archive `bytes`, the first entry whose name ends
/// with `suffix`.
pub fn extract_entry(bytes: Vec<u8>, suffix: &str) -> (result: Result<Vec<u8>, ExtractionError>)
    ensures
        result_model(result) == extracted(bytes@, suffix@),
{
    match open_archive(bytes) {
        Err(text) => Err(ExtractionError::InvalidArchive(text)),
        Ok(mut archive) => {
            let names = entry_names(&archive);
            match select_entry(&names, suffix) {
                None => Err(ExtractionError::EntryNotFound),
                Some(index) => match read_entry(&mut archive, index) {
                    Ok(data) => Ok(data),
                    Err(text) => Err(ExtractionError::UnreadableEntry(text)),
                },
            }
        },
    }
}

} // verus!

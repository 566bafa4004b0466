//! The loader's rules: what becomes of one file, and what of a directory
//! of them. Reading the files is the caller's part; it hands over what it
//! read.

use crate::codec::decode;
use crate::codec::decoded;
use crate::codec::outcome;
use crate::json::json_parse;
use crate::record::MetaError;
use crate::record::Record;
use crate::record::VideoMeta;
use vstd::prelude::*;

verus! {

/// One entry of a directory: its path, and its contents where it could be
/// read as a file.
#[derive(Debug, Clone, PartialEq, Eq)]
pub struct DirectoryEntry {
    pub path: String,
    pub contents: Option<String>,
}

/// An entry that gave no record, and why.
#[derive(Debug, Clone, PartialEq, Eq)]
pub struct Skipped {
    pub path: String,
    pub reason: MetaError,
}

/// What a directory gave: the records of the entries that hold a document,
/// and the entries that were passed over, both in the order of the listing.
#[derive(Debug, Clone, PartialEq, Eq)]
pub struct Loaded {
    pub records: Vec<VideoMeta>,
    pub skipped: Vec<Skipped>,
}

/// What a file gives: the record of its document, or the reason why there
/// is none. A file that could not be read is unavailable.
pub open spec fn file_outcome(contents: Option<Seq<char>>) -> Result<Record, MetaError> {
    match contents {
        None => Err(MetaError::FileUnavailable),
        Some(text) => decoded(json_parse(text)),
    }
}

/// What an entry of a directory gives.
pub open spec fn entry_outcome(entry: DirectoryEntry) -> Result<Record, MetaError> {
    match entry.contents {
        None => file_outcome(None),
        Some(text) => file_outcome(Some(text@)),
    }
}

/// The records of the entries that give one, in the order of the listing.
pub open spec fn loaded_records(entries: Seq<DirectoryEntry>) -> Seq<Record>
    decreases entries.len(),
{
    if entries.len() == 0 {
        Seq::empty()
    } else {
        match entry_outcome(entries.last()) {
            Ok(record) => loaded_records(entries.drop_last()).push(record),
            Err(_) => loaded_records(entries.drop_last()),
        }
    }
}

/// The entries that give no record, each with its path and the reason, in
/// the order of the listing.
pub open spec fn skipped_entries(entries: Seq<DirectoryEntry>) -> Seq<(Seq<char>, MetaError)>
    decreases entries.len(),
{
    if entries.len() == 0 {
        Seq::empty()
    } else {
        match entry_outcome(entries.last()) {
            Ok(_) => skipped_entries(entries.drop_last()),
            Err(reason) => skipped_entries(entries.drop_last()).push(
                (entries.last().path@, reason),
            ),
        }
    }
}

/// The models of a collection of records.
pub open spec fn records_of(collection: Seq<VideoMeta>) -> Seq<Record> {
    Seq::new(collection.len(), |i: int| collection[i]@)
}

/// The paths and reasons of a collection of skipped entries.
pub open spec fn skips_of(collection: Seq<Skipped>) -> Seq<(Seq<char>, MetaError)> {
    Seq::new(collection.len(), |i: int| (collection[i].path@, collection[i].reason))
}

/// Gives the record of one file from what was read of it: `None` where the
/// file could not be opened or read, else its whole contents. Fails with
/// `FileUnavailable` in the first case, and as decoding fails in the second.
pub fn load_metadata_json(contents: Option<&str>) -> (result: Result<VideoMeta, MetaError>)
    ensures
        outcome(result) == file_outcome(
            match contents {
                Some(text) => Some(text@),
                None => None,
            },
        ),
{
    match contents {
        None => Err(MetaError::FileUnavailable),
        Some(text) => decode(text),
    }
}

/// Gives the records of a directory from its listing: `None` where the
/// directory could not be listed, else its entries in the order in which
/// they were met. Fails with `DirectoryUnavailable` in the first case and
/// never else: an entry that gives no record is passed over and named among
/// the skipped, with the reason.
pub fn get_video_metadata(listing: Option<Vec<DirectoryEntry>>) -> (result: Result<
    Loaded,
    MetaError,
>)
    ensures
        match result {
            Ok(loaded) => listing is Some && records_of(loaded.records@) == loaded_records(
                listing->0@,
            ) && skips_of(loaded.skipped@) == skipped_entries(listing->0@),
            Err(reason) => listing is None && reason == MetaError::DirectoryUnavailable,
        },
{
    let entries = match listing {
        None => {
            return Err(MetaError::DirectoryUnavailable);
        },
        Some(entries) => entries,
    };
    let mut records: Vec<VideoMeta> = Vec::new();
    let mut skipped: Vec<Skipped> = Vec::new();
    let mut i: usize = 0;
    while i < entries.len()
        invariant
            i <= entries.len(),
            records_of(records@) == loaded_records(entries@.take(i as int)),
            skips_of(skipped@) == skipped_entries(entries@.take(i as int)),
        decreases entries.len() - i,
    {
        proof {
            assert(entries@.take(i + 1).drop_last() =~= entries@.take(i as int));
            assert(entries@.take(i + 1).last() == entries[i as int]);
        }
        let ghost records_before = records@;
        let ghost skipped_before = skipped@;
        let loaded = match &entries[i].contents {
            None => load_metadata_json(None),
            Some(text) => load_metadata_json(Some(text.as_str())),
        };
        match loaded {
            Ok(record) => {
                records.push(record);
                assert(records_of(records@) =~= records_of(records_before).push(record@));
            },
            Err(reason) => {
                skipped.push(Skipped { path: entries[i].path.clone(), reason });
                assert(skips_of(skipped@) =~= skips_of(skipped_before).push(
                    (entries[i as int].path@, reason),
                ));
            },
        }
        i += 1;
    }
    proof {
        assert(entries@.take(i as int) =~= entries@);
    }
    Ok(Loaded { records, skipped })
}

/// Every entry of a listing is either loaded or skipped.
pub proof fn lemma_loaded_or_skipped(entries: Seq<DirectoryEntry>)
    ensures
        loaded_records(entries).len() + skipped_entries(entries).len() == entries.len(),
    decreases entries.len(),
{
    if entries.len() > 0 {
        lemma_loaded_or_skipped(entries.drop_last());
    }
}

} // verus!

//! File records: what the relational store keeps of a file, and the rule that a record is
//! shown to readers only once it is complete.

use crate::file_driver::FileInfo;
use vstd::prelude::*;
use vstd::string::StringExecFns;

verus! {

/// `chrono::NaiveDateTime`, a moment without a time zone. It is carried as it is and never
/// looked into.
#[verifier::external_type_specification]
#[verifier::external_body]
pub struct ExNaiveDateTime(chrono::NaiveDateTime);

/// `chrono::NaiveDateTime` is a plain value that is copied bit for bit: a clone is the value
/// itself.
pub assume_specification[ <chrono::NaiveDateTime as Clone>::clone ](
    moment: &chrono::NaiveDateTime,
) -> (copy: chrono::NaiveDateTime)
    ensures
        copy == *moment,
;

/// A staging area as the relational store keeps it.
#[derive(Debug, Clone, Copy, PartialEq, Eq, Hash)]
pub struct Staging {
    pub uuid: u128,
    pub staged_at: chrono::NaiveDateTime,
}

/// The identity and display name of a file: what is known of it from the moment it is
/// prepared.
#[derive(Debug, Clone, PartialEq, Eq, Hash)]
pub struct FileHeader {
    pub uuid: u128,
    pub name: String,
}

/// A file as the relational store keeps it. The four derived fields are empty from the
/// moment the file is prepared until its upload completes, and are then set together.
#[derive(Debug, Clone, PartialEq, Eq, Hash)]
pub struct FileRecord {
    pub uuid: u128,
    pub name: String,
    pub mime: Option<String>,
    pub size: Option<i64>,
    pub hash: Option<i64>,
    pub uploaded_at: Option<chrono::NaiveDateTime>,
}

/// A file as a listing shows it.
#[derive(Debug, Clone, PartialEq, Eq, Hash)]
pub struct FileListResFile {
    pub uuid: u128,
    pub name: String,
    pub mime: String,
    pub size: u64,
    pub hash: i64,
    pub uploaded_at: chrono::NaiveDateTime,
}

/// A length as the size column keeps it: as a signed number of the same 64 bits.
pub open spec fn size_column(size: u64) -> i64 {
    size as i64
}

/// A checksum as the hash column keeps it.
pub open spec fn hash_column(hash: u32) -> i64 {
    hash as i64
}

impl FileRecord {
    /// All four derived fields are set.
    pub open spec fn is_complete(&self) -> bool {
        self.mime is Some && self.size is Some && self.hash is Some && self.uploaded_at is Some
    }

    /// None of the derived fields is set.
    pub open spec fn is_pending(&self) -> bool {
        self.mime is None && self.size is None && self.hash is None && self.uploaded_at is None
    }

    /// A record is either pending or complete, never in between.
    pub open spec fn wf(&self) -> bool {
        self.is_pending() || self.is_complete()
    }

    /// The record of a file that was prepared and has no bytes yet.
    pub fn prepared(header: FileHeader) -> (record: Self)
        ensures
            record.uuid == header.uuid,
            record.name == header.name,
            record.is_pending(),
            record.wf(),
    {
        FileRecord {
            uuid: header.uuid,
            name: header.name,
            mime: None,
            size: None,
            hash: None,
            uploaded_at: None,
        }
    }

    /// The record after its upload completed: the same file, with all four derived fields
    /// set at once from the outcome of the upload.
    pub fn completed(self, info: &FileInfo, size: u64, now: chrono::NaiveDateTime) -> (record:
        Self)
        ensures
            record.uuid == self.uuid,
            record.name == self.name,
            record.mime matches Some(mime) && mime@ == info.mime@,
            record.size == Some(size_column(size)),
            record.hash == Some(hash_column(info.hash)),
            record.uploaded_at == Some(now),
            record.is_complete(),
            record.wf(),
    {
        FileRecord {
            uuid: self.uuid,
            name: self.name,
            mime: Some(String::from_str(info.mime)),
            size: Some(size as i64),
            hash: Some(info.hash as i64),
            uploaded_at: Some(now),
        }
    }

    /// Whether the record may be shown in a listing or a search result.
    pub fn is_listable(&self) -> (listable: bool)
        ensures
            listable == self.is_complete(),
    {
        self.mime.is_some() && self.size.is_some() && self.hash.is_some()
            && self.uploaded_at.is_some()
    }

    /// How a complete record is shown.
    pub open spec fn shown(&self) -> FileListResFile
        recommends
            self.is_complete(),
    {
        FileListResFile {
            uuid: self.uuid,
            name: self.name,
            mime: self.mime->0,
            size: self.size->0 as u64,
            hash: self.hash->0,
            uploaded_at: self.uploaded_at->0,
        }
    }
}

/// What a listing shows of `records`: the complete ones, in their order, and no other.
pub open spec fn listing_of(records: Seq<FileRecord>) -> Seq<FileListResFile>
    decreases records.len(),
{
    if records.len() == 0 {
        Seq::empty()
    } else if records.last().is_complete() {
        listing_of(records.drop_last()).push(records.last().shown())
    } else {
        listing_of(records.drop_last())
    }
}

/// Builds the items of a listing from the records that a query returned. Records that are
/// not complete are left out, whatever their name says.
pub fn list_files(records: Vec<FileRecord>) -> (items: Vec<FileListResFile>)
    ensures
        items@ == listing_of(records@),
{
    let mut items: Vec<FileListResFile> = Vec::new();
    let ghost all = records@;
    for record in it: records
        invariant
            it.seq() == all,
            items@ == listing_of(all.take(it.index() as int)),
    {
        proof {
            let taken = it.index() as int;
            assert(all.take(taken + 1).drop_last() =~= all.take(taken));
            assert(all.take(taken + 1).last() == record);
        }
        match (record.mime, record.size, record.hash, record.uploaded_at) {
            (Some(mime), Some(size), Some(hash), Some(uploaded_at)) => {
                items.push(
                    FileListResFile {
                        uuid: record.uuid,
                        name: record.name,
                        mime,
                        size: #[verifier::truncate] (size as u64),
                        hash,
                        uploaded_at,
                    },
                );
            },
            _ => {},
        }
    }
    proof {
        assert(all.take(all.len() as int) =~= all);
    }
    items
}

/// Whether `item` is how some complete record of `records` is shown.
pub open spec fn shows_complete_record(records: Seq<FileRecord>, item: FileListResFile) -> bool {
    exists|i: int|
        0 <= i < records.len() && records[i].is_complete() && #[trigger] records[i].shown()
            == item
}

/// No record that lacks a derived field is ever shown: every item of a listing is a
/// complete record of the input, and every complete record of the input is shown.
pub proof fn lemma_listing_shows_only_complete(records: Seq<FileRecord>)
    ensures
        forall|k: int|
            0 <= k < listing_of(records).len() ==> shows_complete_record(
                records,
                #[trigger] listing_of(records)[k],
            ),
        forall|i: int|
            0 <= i < records.len() && (#[trigger] records[i]).is_complete() ==> listing_of(
                records,
            ).contains(records[i].shown()),
        listing_of(records).len() <= records.len(),
    decreases records.len(),
{
    if records.len() > 0 {
        let init = records.drop_last();
        let shown = listing_of(records);
        lemma_listing_shows_only_complete(init);
        assert forall|k: int| 0 <= k < shown.len() implies shows_complete_record(
            records,
            #[trigger] shown[k],
        ) by {
            if k < listing_of(init).len() {
                assert(shows_complete_record(init, listing_of(init)[k]));
                let i = choose|i: int|
                    0 <= i < init.len() && init[i].is_complete() && #[trigger] init[i].shown()
                        == listing_of(init)[k];
                assert(records[i] == init[i]);
            } else {
                assert(records[records.len() - 1].shown() == shown[k]);
            }
        }
        assert forall|i: int|
            0 <= i < records.len() && (#[trigger] records[i]).is_complete() implies shown.contains(
            records[i].shown(),
        ) by {
            if i < init.len() {
                assert(records[i] == init[i]);
                assert(listing_of(init).contains(init[i].shown()));
                let k = choose|k: int|
                    0 <= k < listing_of(init).len() && listing_of(init)[k] == init[i].shown();
                assert(shown[k] == listing_of(init)[k]);
            } else {
                assert(shown[shown.len() - 1] == records[i].shown());
            }
        }
    }
}

} // verus!

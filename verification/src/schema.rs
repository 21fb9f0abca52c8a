//! The shapes of requests and answers that are shared between endpoints.

use vstd::prelude::*;

verus! {

/// How many items a page holds where the request does not say.
pub open spec fn spec_default_page_size() -> u32 {
    25
}

/// How many items a page holds where the request does not say.
#[verifier::when_used_as_spec(spec_default_page_size)]
pub fn default_page_size() -> (size: u32)
    ensures
        size == spec_default_page_size(),
        size > 0,
{
    25
}

/// The direction in which a listing runs through the identifiers.
#[derive(Debug, Clone, Copy, PartialEq, Eq, Structural, Hash)]
pub enum PaginationOrderDto {
    Asc,
    Desc,
}

impl Default for PaginationOrderDto {
    /// A listing runs from the newest item down unless told otherwise.
    fn default() -> (order: Self)
        ensures
            order == PaginationOrderDto::Desc,
    {
        PaginationOrderDto::Desc
    }
}

/// The query of a listing of collections. Identifiers and the page size are never zero.
#[derive(Debug, Clone, PartialEq, Eq, Hash)]
pub struct FindCollectionsQueryDto {
    pub first_id: Option<u32>,
    pub last_id: Option<u32>,
    pub order: PaginationOrderDto,
    pub page_size: u32,
    pub filter_name: Option<String>,
}

impl FindCollectionsQueryDto {
    /// Identifiers and the page size are positive.
    pub open spec fn wf(&self) -> bool {
        &&& self.page_size > 0
        &&& self.first_id matches Some(id) ==> id > 0
        &&& self.last_id matches Some(id) ==> id > 0
    }
}

/// The collection that a request names by its identity.
#[derive(Debug, Clone, Copy, PartialEq, Eq, Hash)]
pub struct FindCollectionPathDto {
    pub identifier: u128,
}

/// What a new collection is to hold.
#[derive(Debug, Clone, PartialEq, Eq, Hash)]
pub struct CreateCollectionBodyDto {
    pub name: String,
    pub description: Option<String>,
}

/// The collection that a removal names by its identifier, which is never zero.
#[derive(Debug, Clone, Copy, PartialEq, Eq, Hash)]
pub struct RemoveCollectionPathDto {
    pub identifier: u32,
}

/// The collection that an update names by its identifier, which is never zero.
#[derive(Debug, Clone, Copy, PartialEq, Eq, Hash)]
pub struct UpdateCollectionPathDto {
    pub identifier: u32,
}

/// What an updated collection is to hold.
#[derive(Debug, Clone, PartialEq, Eq, Hash)]
pub struct UpdateCollectionBodyDto {
    pub name: String,
    pub description: Option<String>,
}

/// The bounds on the size of the files that a search is to return.
#[derive(Debug, Clone, Copy, PartialEq, Eq, Hash)]
pub struct FindFilesBodyFilterSizeDto {
    pub min: Option<u32>,
    pub max: Option<u32>,
}

/// What a search for files may filter on.
#[derive(Debug, Clone, PartialEq, Eq, Hash)]
pub struct FindFilesBodyFilterDto {
    pub uuids: Option<Vec<u128>>,
    pub name: Option<String>,
    pub mime: Option<String>,
    pub size: Option<FindFilesBodyFilterSizeDto>,
    pub hash: Option<i64>,
}

/// The body of a search for files. The page and the page size are never zero.
#[derive(Debug, Clone, PartialEq, Eq, Hash)]
pub struct FindFilesBodyDto {
    pub page: u32,
    pub page_size: u32,
    pub query: Option<String>,
    pub filter: Option<FindFilesBodyFilterDto>,
}

/// The value of a tag in the body of a request to prepare an upload.
#[derive(Debug, Clone, PartialEq, Eq, Hash)]
pub enum PrepareUploadBodyTagValueDto {
    String(String),
    Integer(i64),
    Boolean(bool),
}

/// A tag in the body of a request to prepare an upload.
#[derive(Debug, Clone, PartialEq, Eq, Hash)]
pub struct PrepareUploadBodyTagDto {
    pub uuid: u128,
    pub value: PrepareUploadBodyTagValueDto,
}

/// The body of a request to prepare an upload.
#[derive(Debug, Clone, PartialEq, Eq, Hash)]
pub struct PrepareUploadBodyDto {
    pub name: String,
    pub tags: Vec<PrepareUploadBodyTagDto>,
}

/// Whether a page has neighbours.
#[derive(Debug, Clone, Copy, PartialEq, Eq, Structural, Hash)]
pub struct PaginationMetadataDto {
    pub has_prev: bool,
    pub has_next: bool,
}

/// A collection as it is shown.
#[derive(Debug, Clone, PartialEq, Eq, Hash)]
pub struct CollectionDto {
    pub id: i32,
    pub uuid: u128,
    pub name: String,
    pub description: Option<String>,
    pub created_at: chrono::NaiveDateTime,
}

/// A page of collections.
#[derive(Debug, Clone, PartialEq, Eq, Hash)]
pub struct FindCollectionsResultDto {
    pub pagination: PaginationMetadataDto,
    pub items: Vec<CollectionDto>,
}

/// A file as a search shows it.
#[derive(Debug, Clone, PartialEq, Eq, Hash)]
pub struct FileDto {
    pub uuid: u128,
    pub name: String,
    pub mime: String,
    pub size: u64,
    pub hash: i64,
    pub uploaded_at: chrono::NaiveDateTime,
}

/// The identity of a file, as the search index returns it.
#[derive(Debug, Clone, Copy, PartialEq, Eq, Hash)]
pub struct FileUuidDto {
    pub uuid: u128,
}

/// A page of files.
#[derive(Debug, Clone, PartialEq, Eq, Hash)]
pub struct FindFilesResultDto {
    pub items: Vec<FileDto>,
    pub pagination: PaginationMetadataDto,
}

} // verus!

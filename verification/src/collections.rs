//! Collections: how a page of collections is asked of the relational store, and how the
//! answer is put together. Pages are cut by identifier: a page lies wholly above or wholly
//! below the identifiers that the request names.

use crate::response::{IntoStatus, Status};
use crate::schema::{
    CollectionDto, FindCollectionsQueryDto, FindCollectionsResultDto, PaginationMetadataDto,
    PaginationOrderDto,
};
use vstd::prelude::*;

verus! {

/// Why the relational store could not be used. `P` and `D` are the failures of the
/// connection pool and of the store itself.
#[derive(Debug)]
pub enum DBError<P, D> {
    PoolError(P),
    DieselError(D),
}

impl<P, D> IntoStatus for DBError<P, D> {
    open spec fn status(&self) -> Status {
        Status::InternalServerError
    }

    fn into_status(&self) -> (status: Status) {
        match self {
            DBError::PoolError(_) => Status::InternalServerError,
            DBError::DieselError(_) => Status::InternalServerError,
        }
    }
}

/// How many connections the pool may hold at most on a machine with `cpus` processors: one
/// for each processor, and never fewer than 32.
pub fn pool_max_size(cpus: usize) -> (size: usize)
    ensures
        size == if cpus >= 32 {
            cpus
        } else {
            32
        },
{
    if cpus >= 32 {
        cpus
    } else {
        32
    }
}

/// Why an operation on collections failed. `P` and `D` are the failures of the connection
/// pool and of the relational store.
#[derive(Debug)]
pub enum CollectionServiceError<P, D> {
    PoolError(P),
    DieselError(D),
}

/// Why a collection could not be created.
#[derive(Debug)]
pub enum CreateCollectionErrorRes<P, D> {
    PoolError(P),
    DieselError(D),
}

impl<P, D> IntoStatus for CollectionServiceError<P, D> {
    open spec fn status(&self) -> Status {
        Status::InternalServerError
    }

    fn into_status(&self) -> (status: Status) {
        match self {
            CollectionServiceError::PoolError(_) => Status::InternalServerError,
            CollectionServiceError::DieselError(_) => Status::InternalServerError,
        }
    }
}

impl<P, D> IntoStatus for CreateCollectionErrorRes<P, D> {
    open spec fn status(&self) -> Status {
        Status::InternalServerError
    }

    fn into_status(&self) -> (status: Status) {
        match self {
            CreateCollectionErrorRes::PoolError(_) => Status::InternalServerError,
            CreateCollectionErrorRes::DieselError(_) => Status::InternalServerError,
        }
    }
}

/// A collection as the relational store returns it.
#[derive(Debug, Clone, PartialEq, Eq, Hash)]
pub struct RawCollectionDto {
    pub id: i32,
    pub uuid: u128,
    pub name: String,
    pub description: Option<String>,
    pub created_at: chrono::NaiveDateTime,
}

impl RawCollectionDto {
    /// The collection as it is shown: the same fields, the time read as universal time.
    pub open spec fn shown(&self) -> CollectionDto {
        CollectionDto {
            id: self.id,
            uuid: self.uuid,
            name: self.name,
            description: self.description,
            created_at: self.created_at,
        }
    }

    /// The collection as it is shown.
    pub fn into_dto(self) -> (dto: CollectionDto)
        ensures
            dto == self.shown(),
    {
        CollectionDto {
            id: self.id,
            uuid: self.uuid,
            name: self.name,
            description: self.description,
            created_at: self.created_at,
        }
    }

    /// The collection as the store keeps it, from how it is shown.
    pub fn from_dto(item: CollectionDto) -> (raw: Self)
        ensures
            raw.shown() == item,
    {
        RawCollectionDto {
            id: item.id,
            uuid: item.uuid,
            name: item.name,
            description: item.description,
            created_at: item.created_at,
        }
    }
}

/// The query for one page of collections: at most `limit` collections whose identifier lies
/// strictly below `below` and strictly above `above`, where those are given, and whose name
/// is `name`, where one is given; in rising order of identifier, or in falling order.
#[derive(Debug, Clone, PartialEq, Eq, Hash)]
pub struct CollectionsPage {
    pub limit: i64,
    pub below: Option<u32>,
    pub above: Option<u32>,
    pub ascending: bool,
    pub name: Option<String>,
}

/// A probe for neighbours of a page: whether any collection with the name asked for has an
/// identifier on the given side of a bound. A probe without a bound finds nothing.
#[derive(Debug, Clone, PartialEq, Eq, Hash)]
pub enum NeighbourProbe {
    Nothing,
    Below { id: i32, name: Option<String> },
    Above { id: i32, name: Option<String> },
}

/// The identifier bound that a request sets from above: in rising order the page lies below
/// the first identifier that the client holds, in falling order below the last.
pub open spec fn bound_below(query: FindCollectionsQueryDto) -> Option<u32> {
    match query.order {
        PaginationOrderDto::Asc => query.first_id,
        PaginationOrderDto::Desc => query.last_id,
    }
}

/// The identifier bound that a request sets from below: in rising order the page lies above
/// the last identifier that the client holds, in falling order above the first.
pub open spec fn bound_above(query: FindCollectionsQueryDto) -> Option<u32> {
    match query.order {
        PaginationOrderDto::Asc => query.last_id,
        PaginationOrderDto::Desc => query.first_id,
    }
}

/// The query for the page that a request asks for.
pub fn plan_page(query: &FindCollectionsQueryDto) -> (page: CollectionsPage)
    ensures
        page.limit == query.page_size as i64,
        page.below == bound_below(*query),
        page.above == bound_above(*query),
        page.ascending == (query.order == PaginationOrderDto::Asc),
        page.name == query.filter_name,
{
    let name = match &query.filter_name {
        Some(name) => Some(name.clone()),
        None => None,
    };
    match query.order {
        PaginationOrderDto::Asc => CollectionsPage {
            limit: query.page_size as i64,
            below: query.first_id,
            above: query.last_id,
            ascending: true,
            name,
        },
        PaginationOrderDto::Desc => CollectionsPage {
            limit: query.page_size as i64,
            below: query.last_id,
            above: query.first_id,
            ascending: false,
            name,
        },
    }
}

/// The probe for a page before the one that was read. In rising order it looks below the
/// first collection of the page; in falling order it looks above the last. An empty page has
/// no neighbours.
pub open spec fn previous_probe(
    order: PaginationOrderDto,
    name: Option<String>,
    items: Seq<RawCollectionDto>,
) -> NeighbourProbe {
    if items.len() == 0 {
        NeighbourProbe::Nothing
    } else {
        match order {
            PaginationOrderDto::Asc => NeighbourProbe::Below { id: items.first().id, name },
            PaginationOrderDto::Desc => NeighbourProbe::Above { id: items.last().id, name },
        }
    }
}

/// The probe for a page after the one that was read. In rising order it looks above the
/// last collection of the page; in falling order it looks below the first.
pub open spec fn next_probe(
    order: PaginationOrderDto,
    name: Option<String>,
    items: Seq<RawCollectionDto>,
) -> NeighbourProbe {
    if items.len() == 0 {
        NeighbourProbe::Nothing
    } else {
        match order {
            PaginationOrderDto::Asc => NeighbourProbe::Above { id: items.last().id, name },
            PaginationOrderDto::Desc => NeighbourProbe::Below { id: items.first().id, name },
        }
    }
}

/// The two probes for the neighbours of the page that was read: first the one for a page
/// before it, then the one for a page after it.
pub fn plan_probes(query: &FindCollectionsQueryDto, items: &Vec<RawCollectionDto>) -> (probes: (
    NeighbourProbe,
    NeighbourProbe,
))
    ensures
        probes.0 == previous_probe(query.order, query.filter_name, items@),
        probes.1 == next_probe(query.order, query.filter_name, items@),
{
    if items.len() == 0 {
        return (NeighbourProbe::Nothing, NeighbourProbe::Nothing);
    }
    let first = items[0].id;
    let last = items[items.len() - 1].id;
    let name_for_previous = match &query.filter_name {
        Some(name) => Some(name.clone()),
        None => None,
    };
    let name_for_next = match &query.filter_name {
        Some(name) => Some(name.clone()),
        None => None,
    };
    match query.order {
        PaginationOrderDto::Asc => (
            NeighbourProbe::Below { id: first, name: name_for_previous },
            NeighbourProbe::Above { id: last, name: name_for_next },
        ),
        PaginationOrderDto::Desc => (
            NeighbourProbe::Above { id: last, name: name_for_previous },
            NeighbourProbe::Below { id: first, name: name_for_next },
        ),
    }
}

/// The collections of a page as they are shown, in the order in which they were read.
pub open spec fn shown_items(items: Seq<RawCollectionDto>) -> Seq<CollectionDto> {
    items.map_values(|item: RawCollectionDto| item.shown())
}

/// Puts the answer together from the page that was read and from what the two probes found.
pub fn find_collections(items: Vec<RawCollectionDto>, has_prev: bool, has_next: bool) -> (result:
    FindCollectionsResultDto)
    ensures
        result.pagination == (PaginationMetadataDto { has_prev, has_next }),
        result.items@ == shown_items(items@),
{
    let ghost all = items@;
    let mut shown: Vec<CollectionDto> = Vec::new();
    for item in it: items
        invariant
            it.seq() == all,
            shown@ == shown_items(all.take(it.index() as int)),
    {
        proof {
            let taken = it.index() as int;
            assert(shown_items(all.take(taken)).push(item.shown()) =~= shown_items(
                all.take(taken + 1),
            ));
        }
        shown.push(item.into_dto());
    }
    proof {
        assert(all.take(all.len() as int) =~= all);
    }
    FindCollectionsResultDto { pagination: PaginationMetadataDto { has_prev, has_next }, items: shown }
}

/// The answer to a request for one collection, from what the store returned for it.
pub fn find_collection(found: Option<RawCollectionDto>) -> (shown: Option<CollectionDto>)
    ensures
        shown == (match found {
            Some(item) => Some(item.shown()),
            None => None,
        }),
{
    match found {
        Some(item) => Some(item.into_dto()),
        None => None,
    }
}

/// The status of the answer to a request that names one collection: found, or not.
pub fn found_status(found: &Option<CollectionDto>) -> (status: Status)
    ensures
        status == (if found is Some {
            Status::Success
        } else {
            Status::NotFound
        }),
{
    match found {
        Some(_) => Status::Success,
        None => Status::NotFound,
    }
}

} // verus!

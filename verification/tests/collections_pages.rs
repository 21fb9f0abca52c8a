use chrono::NaiveDateTime;
use poly_tag::collections::{
    find_collection, find_collections, found_status, plan_page, plan_probes, pool_max_size,
    CollectionServiceError, CollectionsPage, CreateCollectionErrorRes, DBError, NeighbourProbe,
    RawCollectionDto,
};
use poly_tag::multipart::FileRouterError;
use poly_tag::tags::{list_templates, plan_template_page, TagTemplate, TemplatePage};
use poly_tag::response::{error_body, ErrorBody, IntoStatus, Status};
use poly_tag::schema::{
    default_page_size, CollectionDto, FindCollectionsQueryDto, PaginationMetadataDto,
    PaginationOrderDto,
};

fn moment() -> NaiveDateTime {
    chrono::DateTime::from_timestamp(1_700_000_000, 0).unwrap().naive_utc()
}

fn raw(id: i32) -> RawCollectionDto {
    RawCollectionDto {
        id,
        uuid: id as u128,
        name: "Movies".to_string(),
        description: None,
        created_at: moment(),
    }
}

fn query(order: PaginationOrderDto) -> FindCollectionsQueryDto {
    FindCollectionsQueryDto {
        first_id: Some(10),
        last_id: Some(20),
        order,
        page_size: 25,
        filter_name: Some("Movies".to_string()),
    }
}

#[test]
fn default_page_size_is_25() {
    assert_eq!(default_page_size(), 25);
}

#[test]
fn default_order_is_descending() {
    assert_eq!(PaginationOrderDto::default(), PaginationOrderDto::Desc);
}

#[test]
fn rising_page_lies_between_first_and_last() {
    assert_eq!(
        plan_page(&query(PaginationOrderDto::Asc)),
        CollectionsPage {
            limit: 25,
            below: Some(10),
            above: Some(20),
            ascending: true,
            name: Some("Movies".to_string()),
        }
    );
}

#[test]
fn falling_page_swaps_the_bounds() {
    assert_eq!(
        plan_page(&query(PaginationOrderDto::Desc)),
        CollectionsPage {
            limit: 25,
            below: Some(20),
            above: Some(10),
            ascending: false,
            name: Some("Movies".to_string()),
        }
    );
}

#[test]
fn page_without_bounds() {
    let open = FindCollectionsQueryDto {
        first_id: None,
        last_id: None,
        order: PaginationOrderDto::Desc,
        page_size: 100,
        filter_name: None,
    };
    assert_eq!(
        plan_page(&open),
        CollectionsPage { limit: 100, below: None, above: None, ascending: false, name: None }
    );
}

#[test]
fn empty_page_has_no_neighbours() {
    let probes = plan_probes(&query(PaginationOrderDto::Asc), &vec![]);
    assert_eq!(probes, (NeighbourProbe::Nothing, NeighbourProbe::Nothing));
}

#[test]
fn rising_page_probes_outside_its_ends() {
    let items = vec![raw(3), raw(5), raw(8)];
    let name = Some("Movies".to_string());
    assert_eq!(
        plan_probes(&query(PaginationOrderDto::Asc), &items),
        (
            NeighbourProbe::Below { id: 3, name: name.clone() },
            NeighbourProbe::Above { id: 8, name },
        )
    );
}

#[test]
fn falling_page_probes() {
    let items = vec![raw(8), raw(5), raw(3)];
    let name = Some("Movies".to_string());
    assert_eq!(
        plan_probes(&query(PaginationOrderDto::Desc), &items),
        (
            NeighbourProbe::Above { id: 3, name: name.clone() },
            NeighbourProbe::Below { id: 8, name },
        )
    );
}

#[test]
fn page_is_put_together_in_order() {
    let result = find_collections(vec![raw(8), raw(5)], true, false);
    assert_eq!(result.pagination, PaginationMetadataDto { has_prev: true, has_next: false });
    let ids: Vec<i32> = result.items.iter().map(|item| item.id).collect();
    assert_eq!(ids, vec![8, 5]);
    assert_eq!(
        result.items[0],
        CollectionDto {
            id: 8,
            uuid: 8,
            name: "Movies".to_string(),
            description: None,
            created_at: moment(),
        }
    );
    assert!(find_collections(vec![], false, false).items.is_empty());
}

#[test]
fn raw_and_shown_collections_convert_both_ways() {
    let shown = raw(4).into_dto();
    assert_eq!(RawCollectionDto::from_dto(shown), raw(4));
}

#[test]
fn one_collection_found_or_not() {
    assert_eq!(find_collection(None), None);
    let found = find_collection(Some(raw(4)));
    assert_eq!(found.as_ref().map(|item| item.id), Some(4));
    assert_eq!(found_status(&found), Status::Success);
    assert_eq!(found_status(&None), Status::NotFound);
}

#[test]
fn collection_errors_are_internal() {
    assert_eq!(
        CollectionServiceError::<(), ()>::PoolError(()).into_status(),
        Status::InternalServerError
    );
    assert_eq!(
        CollectionServiceError::<(), ()>::DieselError(()).into_status(),
        Status::InternalServerError
    );
    assert_eq!(
        CreateCollectionErrorRes::<(), ()>::DieselError(()).into_status(),
        Status::InternalServerError
    );
}

#[test]
fn status_codes() {
    let all = [
        (Status::Success, 200),
        (Status::Created, 201),
        (Status::BadRequest, 400),
        (Status::NotFound, 404),
        (Status::PayloadTooLarge, 413),
        (Status::UnprocessableEntity, 422),
        (Status::InternalServerError, 500),
    ];
    for (status, code) in all {
        assert_eq!(status.code(), code);
        assert_eq!(Status::from_code(code), Some(status));
        assert_eq!(status.into_status(), status);
    }
    assert_eq!(Status::from_code(0), None);
    assert_eq!(Status::from_code(418), None);
    assert_eq!(().into_status(), Status::Success);
}

#[test]
fn server_failures_are_hidden_in_production() {
    let hidden = error_body(Status::InternalServerError, "disk on fire".to_string(), false);
    assert_eq!(hidden, ErrorBody { error: "internal server error".to_string() });
    let exposed = error_body(Status::InternalServerError, "disk on fire".to_string(), true);
    assert_eq!(exposed.error, "disk on fire");
}

#[test]
fn client_mistakes_are_always_explained() {
    for expose in [false, true] {
        let body = error_body(Status::UnprocessableEntity, "invalid offset".to_string(), expose);
        assert_eq!(body.error, "invalid offset");
        let body = error_body(Status::NotFound, "no such file".to_string(), expose);
        assert_eq!(body, ErrorBody::new("no such file".to_string()));
    }
}

#[test]
fn pool_holds_at_least_32_connections() {
    assert_eq!(pool_max_size(0), 32);
    assert_eq!(pool_max_size(8), 32);
    assert_eq!(pool_max_size(32), 32);
    assert_eq!(pool_max_size(33), 33);
    assert_eq!(pool_max_size(128), 128);
}

#[test]
fn store_errors_are_internal() {
    assert_eq!(DBError::<(), ()>::PoolError(()).into_status(), Status::InternalServerError);
    assert_eq!(DBError::<(), ()>::DieselError(()).into_status(), Status::InternalServerError);
}

#[test]
fn router_errors() {
    type E = FileRouterError<(), Status>;
    assert_eq!(E::MultipartExtractorRejection(()).into_status(), Status::BadRequest);
    assert_eq!(E::MultipartError(Status::PayloadTooLarge).into_status(), Status::PayloadTooLarge);
    assert_eq!(
        E::IOError(std::io::Error::from(std::io::ErrorKind::Other)).into_status(),
        Status::InternalServerError
    );
}

#[test]
fn template_pages_are_40_rows_long() {
    assert_eq!(plan_template_page(None), TemplatePage { page: 0, offset: 0, limit: 40 });
    assert_eq!(plan_template_page(Some(0)), TemplatePage { page: 0, offset: 0, limit: 40 });
    assert_eq!(plan_template_page(Some(3)), TemplatePage { page: 3, offset: 120, limit: 40 });
    assert_eq!(
        plan_template_page(Some(u32::MAX)),
        TemplatePage { page: u32::MAX, offset: 171798691800, limit: 40 }
    );
}

#[test]
fn template_listing_keeps_page_and_items() {
    let template = TagTemplate {
        uuid: 7,
        name: "Author".to_string(),
        description: Some("Author of the file.".to_string()),
        value_type: None,
        created_at: moment(),
    };
    let answer = list_templates(plan_template_page(Some(2)), vec![template.clone()]);
    assert_eq!(answer.page, 2);
    assert_eq!(answer.items, vec![template]);
}

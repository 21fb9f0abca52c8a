use chrono::NaiveDateTime;
use poly_tag::file_driver::FileInfo;
use poly_tag::listing::{
    search_terms, validate_filters, BoundValue, ErrRes, FileListReqBody, FileListReqBodyTag,
    FileListReqBodyTagValue, FileListReqBodyTagValueParam,
};
use poly_tag::records::{list_files, FileHeader, FileListResFile, FileRecord};
use poly_tag::response::{IntoStatus, Status};
use poly_tag::tags::{TagTemplateCompact, TagValueTypeKind};

type E = ErrRes<(), (), ()>;

const T1: u128 = 0x11111111_1111_1111_1111_111111111111;
const T2: u128 = 0x22222222_2222_2222_2222_222222222222;
const T3: u128 = 0x33333333_3333_3333_3333_333333333333;

fn moment() -> NaiveDateTime {
    chrono::DateTime::from_timestamp(1_700_000_000, 0).unwrap().naive_utc()
}

fn no_comparisons() -> FileListReqBodyTagValue {
    FileListReqBodyTagValue {
        equal: None,
        not_equal: None,
        less_than: None,
        less_than_or_equal: None,
        greater_than: None,
        greater_than_or_equal: None,
        contains: None,
        one_of: None,
    }
}

fn whole(value: i64) -> FileListReqBodyTagValueParam {
    FileListReqBodyTagValueParam::Integer(value)
}

fn text(value: &str) -> FileListReqBodyTagValueParam {
    FileListReqBodyTagValueParam::String(value.to_string())
}

fn filter(template_uuid: u128, value: Option<FileListReqBodyTagValue>) -> FileListReqBodyTag {
    FileListReqBodyTag { template_uuid, value }
}

fn template(uuid: u128, value_type: Option<TagValueTypeKind>) -> TagTemplateCompact {
    TagTemplateCompact { uuid, value_type }
}

#[test]
fn param_kinds() {
    assert_eq!(text("a").type_kind(), TagValueTypeKind::String);
    assert_eq!(whole(1).type_kind(), TagValueTypeKind::Integer);
    assert_eq!(FileListReqBodyTagValueParam::Boolean(true).type_kind(), TagValueTypeKind::Boolean);
}

#[test]
fn param_of_another_kind_fails_with_its_own_kind() {
    assert_eq!(whole(1).check_value_type(TagValueTypeKind::Integer), Ok(()));
    assert_eq!(whole(1).check_value_type(TagValueTypeKind::String), Err(TagValueTypeKind::Integer));
    assert_eq!(text("x").check_value_type(TagValueTypeKind::Boolean), Err(TagValueTypeKind::String));
}

#[test]
fn params_bind_as_their_kind() {
    let mut binds = vec![BoundValue::Uuid(1)];
    text("x").attach_value(&mut binds);
    whole(-3).attach_value(&mut binds);
    FileListReqBodyTagValueParam::Boolean(true).attach_value(&mut binds);
    assert_eq!(
        binds,
        vec![
            BoundValue::Uuid(1),
            BoundValue::Text("x".to_string()),
            BoundValue::BigInt(-3),
            BoundValue::Bool(true),
        ]
    );
}

#[test]
fn filter_without_comparisons_passes_any_kind() {
    assert_eq!(no_comparisons().check_value_type(TagValueTypeKind::Boolean), Ok(()));
}

#[test]
fn first_stray_comparison_decides() {
    let value = FileListReqBodyTagValue {
        equal: Some(whole(1)),
        less_than: Some(text("x")),
        contains: Some(FileListReqBodyTagValueParam::Boolean(true)),
        ..no_comparisons()
    };
    assert_eq!(value.check_value_type(TagValueTypeKind::Integer), Err(TagValueTypeKind::String));
    assert_eq!(value.check_value_type(TagValueTypeKind::String), Err(TagValueTypeKind::Integer));
}

#[test]
fn members_of_the_set_are_held_against_the_kind() {
    let value = FileListReqBodyTagValue {
        greater_than_or_equal: Some(whole(0)),
        one_of: Some(vec![whole(1), whole(2), text("three"), FileListReqBodyTagValueParam::Boolean(true)]),
        ..no_comparisons()
    };
    assert_eq!(value.check_value_type(TagValueTypeKind::Integer), Err(TagValueTypeKind::String));
    let fine = FileListReqBodyTagValue { one_of: Some(vec![whole(1), whole(2)]), ..no_comparisons() };
    assert_eq!(fine.check_value_type(TagValueTypeKind::Integer), Ok(()));
    let empty = FileListReqBodyTagValue { one_of: Some(vec![]), ..no_comparisons() };
    assert_eq!(empty.check_value_type(TagValueTypeKind::Integer), Ok(()));
}

#[test]
fn single_comparisons_come_before_the_set() {
    let value = FileListReqBodyTagValue {
        contains: Some(text("x")),
        one_of: Some(vec![FileListReqBodyTagValueParam::Boolean(true)]),
        ..no_comparisons()
    };
    assert_eq!(value.check_value_type(TagValueTypeKind::Integer), Err(TagValueTypeKind::String));
}

#[test]
fn request_filters_are_sorted_and_unique() {
    let mut body = FileListReqBody {
        query: None,
        tags: Some(vec![filter(T2, None), filter(T1, None)]),
    };
    assert!(body.check::<(), (), ()>().is_ok());
    let order: Vec<u128> = body.tags.unwrap().iter().map(|t| t.template_uuid).collect();
    assert_eq!(order, vec![T1, T2]);

    let mut twice = FileListReqBody {
        query: None,
        tags: Some(vec![filter(T2, None), filter(T1, None), filter(T2, None)]),
    };
    assert!(matches!(twice.check::<(), (), ()>(), Err(ErrRes::DuplicatedTagTemplate(T2))));

    let mut none = FileListReqBody { query: Some("q".to_string()), tags: None };
    assert!(none.check::<(), (), ()>().is_ok());
    assert_eq!(none.tags, None);
}

#[test]
fn unknown_template_is_named_before_any_comparison() {
    let templates = vec![template(T1, None)];
    let filters = vec![
        filter(T1, Some(FileListReqBodyTagValue { equal: Some(whole(1)), ..no_comparisons() })),
        filter(T2, None),
    ];
    assert!(matches!(
        validate_filters::<(), (), ()>(&filters, &templates),
        Err(ErrRes::InvalidTagTemplate(T2))
    ));
}

#[test]
fn comparisons_on_untyped_template_are_extra() {
    let templates = vec![template(T1, None)];
    let filters =
        vec![filter(T1, Some(FileListReqBodyTagValue { equal: Some(whole(1)), ..no_comparisons() }))];
    assert!(matches!(
        validate_filters::<(), (), ()>(&filters, &templates),
        Err(ErrRes::ExtraTagValueFilter(T1))
    ));
}

#[test]
fn comparisons_of_another_kind_are_invalid() {
    let templates = vec![template(T1, Some(TagValueTypeKind::String)), template(T3, None)];
    let filters = vec![
        filter(T1, Some(FileListReqBodyTagValue { not_equal: Some(whole(1)), ..no_comparisons() })),
        filter(T3, Some(no_comparisons())),
    ];
    assert!(matches!(
        validate_filters::<(), (), ()>(&filters, &templates),
        Err(ErrRes::InvalidTagValueFilter(T1, TagValueTypeKind::String, TagValueTypeKind::Integer))
    ));
}

#[test]
fn filters_in_order_pass() {
    let templates = vec![
        template(T1, Some(TagValueTypeKind::Integer)),
        template(T2, None),
        template(T3, Some(TagValueTypeKind::String)),
    ];
    let filters = vec![
        filter(T1, Some(FileListReqBodyTagValue { less_than: Some(whole(9)), ..no_comparisons() })),
        filter(T2, None),
        filter(T3, None),
    ];
    assert!(validate_filters::<(), (), ()>(&filters, &templates).is_ok());
    assert!(validate_filters::<(), (), ()>(&vec![], &vec![]).is_ok());
}

#[test]
fn search_terms_are_trimmed() {
    assert_eq!(search_terms(&None), None);
    assert_eq!(search_terms(&Some(String::new())), None);
    assert_eq!(search_terms(&Some(" \t\n ".to_string())), None);
    assert_eq!(search_terms(&Some("  john wick \n".to_string())), Some("john wick"));
    assert_eq!(search_terms(&Some("x".to_string())), Some("x"));
}

#[test]
fn listing_error_statuses_and_messages() {
    assert_eq!(E::PoolError(()).into_status(), Status::InternalServerError);
    assert_eq!(E::DieselError(()).into_status(), Status::InternalServerError);
    assert_eq!(E::MeilisearchError(()).into_status(), Status::InternalServerError);
    assert_eq!(E::DuplicatedTagTemplate(1).into_status(), Status::UnprocessableEntity);
    assert_eq!(E::InvalidTagTemplate(1).into_status(), Status::UnprocessableEntity);
    assert_eq!(E::ExtraTagValueFilter(1).into_status(), Status::UnprocessableEntity);
    assert_eq!(
        E::InvalidTagValueFilter(1, TagValueTypeKind::String, TagValueTypeKind::Integer)
            .into_status(),
        Status::UnprocessableEntity
    );
    assert_eq!(E::MeilisearchError(()).message(), "internal server error");
    assert_eq!(
        E::ExtraTagValueFilter(T1).message(),
        "tag template `11111111-1111-1111-1111-111111111111` does not accept any values, but a value filter was supplied"
    );
    assert_eq!(
        E::InvalidTagValueFilter(T1, TagValueTypeKind::String, TagValueTypeKind::Boolean).message(),
        "tag template `11111111-1111-1111-1111-111111111111` expects a value of type `string`, but a value filter of type `boolean` was supplied"
    );
}

fn pending(uuid: u128, name: &str) -> FileRecord {
    FileRecord::prepared(FileHeader { uuid, name: name.to_string() })
}

#[test]
fn prepared_record_has_no_derived_fields() {
    let record = pending(1, "a.txt");
    assert_eq!(
        record,
        FileRecord {
            uuid: 1,
            name: "a.txt".to_string(),
            mime: None,
            size: None,
            hash: None,
            uploaded_at: None
        }
    );
    assert!(!record.is_listable());
}

#[test]
fn completed_record_has_all_derived_fields() {
    let info = FileInfo { mime: "text/plain", hash: 0x3610a686 };
    let record = pending(1, "a.txt").completed(&info, 5, moment());
    assert_eq!(
        record,
        FileRecord {
            uuid: 1,
            name: "a.txt".to_string(),
            mime: Some("text/plain".to_string()),
            size: Some(5),
            hash: Some(0x3610a686),
            uploaded_at: Some(moment()),
        }
    );
    assert!(record.is_listable());
}

#[test]
fn incomplete_records_are_never_listed() {
    let info = FileInfo { mime: "image/png", hash: 9 };
    let complete = pending(2, "b.png").completed(&info, 1024, moment());
    let mut no_mime = complete.clone();
    no_mime.uuid = 3;
    no_mime.mime = None;
    let mut no_size = complete.clone();
    no_size.uuid = 4;
    no_size.size = None;
    let mut no_hash = complete.clone();
    no_hash.uuid = 5;
    no_hash.hash = None;
    let mut no_time = complete.clone();
    no_time.uuid = 6;
    no_time.uploaded_at = None;
    let mut last = complete.clone();
    last.uuid = 7;
    let records =
        vec![pending(1, "named.txt"), complete, no_mime, no_size, no_hash, no_time, last];
    let shown = |uuid| FileListResFile {
        uuid,
        name: "b.png".to_string(),
        mime: "image/png".to_string(),
        size: 1024,
        hash: 9,
        uploaded_at: moment(),
    };
    assert_eq!(list_files(records), vec![shown(2), shown(7)]);
    assert_eq!(list_files(vec![]), vec![]);
    assert_eq!(list_files(vec![pending(1, "x")]), vec![]);
}

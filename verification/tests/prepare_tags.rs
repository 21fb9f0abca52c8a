use poly_tag::prepare::{
    check_tag, plan_rows, validate_tags, ErrRes, FilePrepareReqBody, FilePrepareReqBodyTag,
    FilePrepareReqBodyTagValue, TagRow,
};
use poly_tag::response::{IntoStatus, Status};
use poly_tag::tags::{find_template, order_by_template, TagTemplateCompact, TagValueTypeKind};

type E = ErrRes<(), ()>;

const T1: u128 = 0x11111111_1111_1111_1111_111111111111;
const T2: u128 = 0x22222222_2222_2222_2222_222222222222;
const T3: u128 = 0x33333333_3333_3333_3333_333333333333;

fn tag(template_uuid: u128, value: Option<FilePrepareReqBodyTagValue>) -> FilePrepareReqBodyTag {
    FilePrepareReqBodyTag { template_uuid, value }
}

fn text(value: &str) -> Option<FilePrepareReqBodyTagValue> {
    Some(FilePrepareReqBodyTagValue::String(value.to_string()))
}

fn template(uuid: u128, value_type: Option<TagValueTypeKind>) -> TagTemplateCompact {
    TagTemplateCompact { uuid, value_type }
}

#[test]
fn tag_type_mismatch_scenario() {
    let templates = vec![template(T1, Some(TagValueTypeKind::Integer))];
    let tags = vec![tag(T1, text("abc"))];
    match validate_tags::<(), ()>(&tags, &templates) {
        Err(ErrRes::InvalidTagValue(uuid, declared, supplied)) => {
            assert_eq!(uuid, T1);
            assert_eq!(declared, TagValueTypeKind::Integer);
            assert_eq!(supplied, TagValueTypeKind::String);
        }
        other => panic!("unexpected: {:?}", other),
    }
}

#[test]
fn empty_name_is_too_short() {
    let mut body = FilePrepareReqBody { name: String::new(), tags: vec![tag(T1, None)] };
    assert!(matches!(body.check::<(), ()>(), Err(ErrRes::FilenameTooShort(name)) if name.is_empty()));
}

#[test]
fn tags_are_sorted_by_template() {
    let mut body = FilePrepareReqBody {
        name: "a".to_string(),
        tags: vec![tag(T3, None), tag(T1, text("x")), tag(T2, None)],
    };
    assert!(body.check::<(), ()>().is_ok());
    let order: Vec<u128> = body.tags.iter().map(|t| t.template_uuid).collect();
    assert_eq!(order, vec![T1, T2, T3]);
    assert_eq!(body.tags[0].value, text("x"));
}

#[test]
fn duplicated_template_is_refused() {
    let mut body = FilePrepareReqBody {
        name: "a".to_string(),
        tags: vec![tag(T2, None), tag(T1, None), tag(T2, text("x"))],
    };
    assert!(matches!(body.check::<(), ()>(), Err(ErrRes::DuplicatedTagTemplate(T2))));
}

#[test]
fn smallest_duplicated_template_is_named() {
    let mut tags = vec![tag(T3, None), tag(T2, None), tag(T3, None), tag(T2, None), tag(T1, None)];
    assert_eq!(order_by_template(&mut tags), Some(T2));
}

#[test]
fn no_tags_pass() {
    let mut body = FilePrepareReqBody { name: "a".to_string(), tags: vec![] };
    assert!(body.check::<(), ()>().is_ok());
    assert!(validate_tags::<(), ()>(&body.tags, &vec![]).is_ok());
}

#[test]
fn unknown_template_is_invalid() {
    let templates = vec![template(T1, None)];
    let tags = vec![tag(T1, None), tag(T2, None)];
    assert!(matches!(
        validate_tags::<(), ()>(&tags, &templates),
        Err(ErrRes::InvalidTagTemplate(T2))
    ));
}

#[test]
fn missing_value_is_refused() {
    let templates = vec![template(T1, Some(TagValueTypeKind::Boolean))];
    assert!(matches!(
        check_tag::<(), ()>(&tag(T1, None), &templates),
        Err(ErrRes::MissingTagValue(T1, TagValueTypeKind::Boolean))
    ));
}

#[test]
fn extra_value_is_refused() {
    let templates = vec![template(T1, None)];
    assert!(matches!(
        check_tag::<(), ()>(&tag(T1, Some(FilePrepareReqBodyTagValue::Integer(3))), &templates),
        Err(ErrRes::ExtraTagValue(T1, TagValueTypeKind::Integer))
    ));
}

#[test]
fn matching_values_pass() {
    let templates = vec![
        template(T1, Some(TagValueTypeKind::String)),
        template(T2, Some(TagValueTypeKind::Integer)),
        template(T3, None),
    ];
    let tags = vec![
        tag(T1, text("x")),
        tag(T2, Some(FilePrepareReqBodyTagValue::Integer(-4))),
        tag(T3, None),
    ];
    assert!(validate_tags::<(), ()>(&tags, &templates).is_ok());
}

#[test]
fn first_problem_in_order_decides() {
    let templates = vec![template(T1, None), template(T3, Some(TagValueTypeKind::String))];
    let tags = vec![tag(T1, text("x")), tag(T2, None), tag(T3, None)];
    assert!(matches!(
        validate_tags::<(), ()>(&tags, &templates),
        Err(ErrRes::ExtraTagValue(T1, TagValueTypeKind::String))
    ));
}

#[test]
fn templates_are_found_in_any_order() {
    let templates = vec![template(T3, None), template(T1, Some(TagValueTypeKind::Integer))];
    assert_eq!(find_template(&templates, T1), Some(templates[1]));
    assert_eq!(find_template(&templates, T2), None);
}

#[test]
fn type_kind_of_values() {
    assert_eq!(text("x").unwrap().type_kind(), TagValueTypeKind::String);
    assert_eq!(FilePrepareReqBodyTagValue::Integer(1).type_kind(), TagValueTypeKind::Integer);
    assert_eq!(FilePrepareReqBodyTagValue::Boolean(true).type_kind(), TagValueTypeKind::Boolean);
}

#[test]
fn rows_fill_the_slot_of_the_kind() {
    let body = FilePrepareReqBody {
        name: "file.txt".to_string(),
        tags: vec![
            tag(T1, text("x")),
            tag(T2, Some(FilePrepareReqBodyTagValue::Integer(7))),
            tag(T3, Some(FilePrepareReqBodyTagValue::Boolean(false))),
            tag(T1 + 1, None),
        ],
    };
    let (header, rows) = plan_rows(99, &body);
    assert_eq!((header.uuid, header.name.as_str()), (99, "file.txt"));
    let blank = |template_uuid| TagRow {
        template_uuid,
        file_uuid: 99,
        value_string: None,
        value_integer: None,
        value_boolean: None,
    };
    assert_eq!(
        rows,
        vec![
            TagRow { value_string: Some("x".to_string()), ..blank(T1) },
            TagRow { value_integer: Some(7), ..blank(T2) },
            TagRow { value_boolean: Some(false), ..blank(T3) },
            blank(T1 + 1),
        ]
    );
}

#[test]
fn prepare_error_statuses() {
    assert_eq!(E::PoolError(()).into_status(), Status::InternalServerError);
    assert_eq!(E::DieselError(()).into_status(), Status::InternalServerError);
    assert_eq!(E::FilenameTooShort(String::new()).into_status(), Status::UnprocessableEntity);
    assert_eq!(E::DuplicatedTagTemplate(1).into_status(), Status::UnprocessableEntity);
    assert_eq!(E::InvalidTagTemplate(1).into_status(), Status::UnprocessableEntity);
    assert_eq!(
        E::ExtraTagValue(1, TagValueTypeKind::String).into_status(),
        Status::UnprocessableEntity
    );
    assert_eq!(
        E::MissingTagValue(1, TagValueTypeKind::String).into_status(),
        Status::UnprocessableEntity
    );
    assert_eq!(
        E::InvalidTagValue(1, TagValueTypeKind::String, TagValueTypeKind::Integer).into_status(),
        Status::UnprocessableEntity
    );
}

#[test]
fn prepare_error_messages() {
    assert_eq!(E::PoolError(()).message(), "internal server error");
    assert_eq!(E::FilenameTooShort(String::new()).message(), "filename `` is too short");
    assert_eq!(
        E::DuplicatedTagTemplate(T1).message(),
        "tag template `11111111-1111-1111-1111-111111111111` is duplicated"
    );
    assert_eq!(
        E::InvalidTagTemplate(T1).message(),
        "tag template `11111111-1111-1111-1111-111111111111` does not exist"
    );
    assert_eq!(
        E::ExtraTagValue(T1, TagValueTypeKind::Boolean).message(),
        "tag template `11111111-1111-1111-1111-111111111111` does not accept any values, but a value of type `boolean` was supplied"
    );
    assert_eq!(
        E::MissingTagValue(T1, TagValueTypeKind::Integer).message(),
        "tag template `11111111-1111-1111-1111-111111111111` requires a value of type `integer` but was not met"
    );
    assert_eq!(
        E::InvalidTagValue(T1, TagValueTypeKind::Integer, TagValueTypeKind::String).message(),
        "tag template `11111111-1111-1111-1111-111111111111` expects a value of type `integer`, but a value of type `string` was supplied"
    );
}

#[test]
fn kind_names() {
    assert_eq!(TagValueTypeKind::String.name(), "string");
    assert_eq!(TagValueTypeKind::Integer.name(), "integer");
    assert_eq!(TagValueTypeKind::Boolean.name(), "boolean");
    assert_eq!(TagValueTypeKind::String.into_column_name(), "value_string");
    assert_eq!(TagValueTypeKind::Integer.into_column_name(), "value_integer");
    assert_eq!(TagValueTypeKind::Boolean.into_column_name(), "value_boolean");
}

use poly_tag::listing::{
    BoundValue, FileListReqBodyTag, FileListReqBodyTagValue, FileListReqBodyTagValueParam,
};
use poly_tag::sql::{
    analyze_file_uuid_table_sql, create_file_uuid_table_sql, create_index_file_uuid_table_sql,
    filter_tag_value_sql, gather_file_uuids_sql, insert_file_uuid_table_sql,
    select_file_uuid_from_table_sql, select_source, SqlStatement, PAGE_SIZE,
};
use poly_tag::tags::{TagTemplateCompact, TagValueTypeKind};

const T1: u128 = 0x11111111_1111_1111_1111_111111111111;
const T2: u128 = 0x22222222_2222_2222_2222_222222222222;

fn no_comparisons() -> FileListReqBodyTagValue {
    FileListReqBodyTagValue {
        equal: None,
        not_equal: None,
        less_than: None,
        less_than_or_equal: None,
        greater_than: None,
        greater_than_or_equal: None,
        contains: None,
        one_of: None,
    }
}

fn whole(value: i64) -> FileListReqBodyTagValueParam {
    FileListReqBodyTagValueParam::Integer(value)
}

#[test]
fn create_table_statement() {
    let statement = create_file_uuid_table_sql("file_uuids");
    assert_eq!(
        statement.text,
        "CREATE TEMP TABLE file_uuids ( uuid UUID NOT NULL ) ON COMMIT DROP"
    );
    assert!(statement.binds.is_empty());
}

#[test]
fn create_index_statement() {
    assert_eq!(
        create_index_file_uuid_table_sql("file_uuids").text,
        "CREATE UNIQUE INDEX ON file_uuids ( uuid ASC )"
    );
}

#[test]
fn analyze_statement() {
    assert_eq!(analyze_file_uuid_table_sql("file_uuids").text, "ANALYZE file_uuids");
}

#[test]
fn statement_placeholders_are_numbered() {
    let mut statement = SqlStatement::new("SELECT ");
    statement.bind(BoundValue::BigInt(1));
    statement.sql(", ");
    statement.bind(BoundValue::Bool(true));
    assert_eq!(statement.text, "SELECT $1, $2");
    assert_eq!(statement.binds, vec![BoundValue::BigInt(1), BoundValue::Bool(true)]);
}

#[test]
fn every_comparison_has_its_operator() {
    let value = FileListReqBodyTagValue {
        equal: Some(whole(1)),
        not_equal: Some(whole(2)),
        less_than: Some(whole(3)),
        less_than_or_equal: Some(whole(4)),
        greater_than: Some(whole(5)),
        greater_than_or_equal: Some(whole(6)),
        contains: Some(whole(7)),
        one_of: Some(vec![whole(8), whole(9), whole(10)]),
    };
    let mut statement = SqlStatement::new("");
    filter_tag_value_sql(&mut statement, TagValueTypeKind::Integer, &value);
    assert_eq!(
        statement.text,
        " AND (value_integer = $1) AND (value_integer != $2) AND (value_integer < $3) \
         AND (value_integer <= $4) AND (value_integer > $5) AND (value_integer >= $6) \
         AND (value_integer LIKE $7) AND (value_integer IN ($8, $9, $10))"
    );
    assert_eq!(statement.binds, (1..=10).map(BoundValue::BigInt).collect::<Vec<_>>());
}

#[test]
fn absent_comparisons_add_nothing() {
    let mut statement = SqlStatement::new("x");
    filter_tag_value_sql(&mut statement, TagValueTypeKind::String, &no_comparisons());
    assert_eq!(statement.text, "x");
    let empty_set = FileListReqBodyTagValue { one_of: Some(vec![]), ..no_comparisons() };
    filter_tag_value_sql(&mut statement, TagValueTypeKind::String, &empty_set);
    assert_eq!(statement.text, "x");
    assert!(statement.binds.is_empty());
}

#[test]
fn columns_follow_the_kind() {
    let value = FileListReqBodyTagValue {
        contains: Some(FileListReqBodyTagValueParam::String("%cat%".to_string())),
        ..no_comparisons()
    };
    let mut statement = SqlStatement::new("");
    filter_tag_value_sql(&mut statement, TagValueTypeKind::String, &value);
    assert_eq!(statement.text, " AND (value_string LIKE $1)");
    assert_eq!(statement.binds, vec![BoundValue::Text("%cat%".to_string())]);

    let flag = FileListReqBodyTagValue {
        equal: Some(FileListReqBodyTagValueParam::Boolean(false)),
        ..no_comparisons()
    };
    let mut statement = SqlStatement::new("");
    filter_tag_value_sql(&mut statement, TagValueTypeKind::Boolean, &flag);
    assert_eq!(statement.text, " AND (value_boolean = $1)");
}

#[test]
fn insert_statement_counts_the_filters() {
    let templates = vec![
        TagTemplateCompact { uuid: T1, value_type: Some(TagValueTypeKind::Integer) },
        TagTemplateCompact { uuid: T2, value_type: None },
    ];
    let tags = vec![
        FileListReqBodyTag {
            template_uuid: T1,
            value: Some(FileListReqBodyTagValue {
                greater_than: Some(whole(3)),
                one_of: Some(vec![whole(4), whole(5)]),
                ..no_comparisons()
            }),
        },
        FileListReqBodyTag { template_uuid: T2, value: None },
    ];
    let statement = insert_file_uuid_table_sql("file_uuids", &templates, &tags);
    assert_eq!(
        statement.text,
        "INSERT INTO file_uuids SELECT file_uuid FROM tags WHERE FALSE \
         OR (template_uuid = $1 AND (value_integer > $2) AND (value_integer IN ($3, $4))) \
         OR (template_uuid = $5) \
         GROUP BY file_uuid HAVING COUNT(file_uuid) = $6"
    );
    assert_eq!(
        statement.binds,
        vec![
            BoundValue::Uuid(T1),
            BoundValue::BigInt(3),
            BoundValue::BigInt(4),
            BoundValue::BigInt(5),
            BoundValue::Uuid(T2),
            BoundValue::BigInt(2),
        ]
    );
}

#[test]
fn insert_statement_without_filters() {
    let statement = insert_file_uuid_table_sql("t", &vec![], &vec![]);
    assert_eq!(
        statement.text,
        "INSERT INTO t SELECT file_uuid FROM tags WHERE FALSE GROUP BY file_uuid HAVING COUNT(file_uuid) = $1"
    );
    assert_eq!(statement.binds, vec![BoundValue::BigInt(0)]);
}

#[test]
fn select_statement_without_search() {
    let statement = select_file_uuid_from_table_sql("files", 0, PAGE_SIZE, None);
    assert_eq!(statement.text, "SELECT uuid FROM files ORDER BY uuid ASC OFFSET 0 LIMIT 40");
    assert!(statement.binds.is_empty());
}

#[test]
fn select_statement_pages_by_offset() {
    let statement = select_file_uuid_from_table_sql("file_uuids", 3, 40, None);
    assert_eq!(statement.text, "SELECT uuid FROM file_uuids ORDER BY uuid ASC OFFSET 120 LIMIT 40");
    let far = select_file_uuid_from_table_sql("files", u32::MAX, u32::MAX, None);
    assert_eq!(
        far.text,
        "SELECT uuid FROM files ORDER BY uuid ASC OFFSET 18446744065119617025 LIMIT 4294967295"
    );
}

#[test]
fn select_statement_with_empty_search() {
    let none: Vec<u128> = vec![];
    let statement = select_file_uuid_from_table_sql("files", 1, 40, Some(&none));
    assert_eq!(
        statement.text,
        "SELECT uuid FROM files WHERE FALSE ORDER BY uuid ASC OFFSET 40 LIMIT 40"
    );
}

#[test]
fn select_statement_with_candidates() {
    let one = select_file_uuid_from_table_sql("files", 0, 40, Some(&vec![T1]));
    assert_eq!(
        one.text,
        "SELECT uuid FROM files WHERE uuid IN ('11111111-1111-1111-1111-111111111111') \
         ORDER BY uuid ASC OFFSET 0 LIMIT 40"
    );
    let two = select_file_uuid_from_table_sql("files", 0, 40, Some(&vec![T2, T1]));
    assert_eq!(
        two.text,
        "SELECT uuid FROM files WHERE uuid IN ('22222222-2222-2222-2222-222222222222', \
         '11111111-1111-1111-1111-111111111111') ORDER BY uuid ASC OFFSET 0 LIMIT 40"
    );
}

#[test]
fn filtered_listings_read_from_the_temporary_table() {
    assert_eq!(select_source(&None), "files");
    assert_eq!(select_source(&Some(vec![])), "files");
    let filters = vec![FileListReqBodyTag { template_uuid: T1, value: None }];
    assert_eq!(select_source(&Some(filters)), "file_uuids");
}

#[test]
fn gathering_runs_four_statements_in_order() {
    let templates = vec![TagTemplateCompact { uuid: T1, value_type: None }];
    let filters = vec![FileListReqBodyTag { template_uuid: T1, value: None }];
    let texts: Vec<String> = gather_file_uuids_sql(&templates, &filters)
        .into_iter()
        .map(|statement| statement.text)
        .collect();
    assert_eq!(
        texts,
        vec![
            "CREATE TEMP TABLE file_uuids ( uuid UUID NOT NULL ) ON COMMIT DROP",
            "INSERT INTO file_uuids SELECT file_uuid FROM tags WHERE FALSE OR (template_uuid = $1) \
             GROUP BY file_uuid HAVING COUNT(file_uuid) = $2",
            "CREATE UNIQUE INDEX ON file_uuids ( uuid ASC )",
            "ANALYZE file_uuids",
        ]
    );
}

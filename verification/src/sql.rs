//! The statements of a listing that filters on tags. The files that carry every required tag
//! are gathered in a temporary table, one row per file, by counting per file the tags that
//! pass a filter; a page of identities is then read from that table, or from the table of
//! files where nothing is filtered.

use crate::identity::{canonical_text, uuid_text};
use crate::listing::{
    BoundValue, FileListReqBodyTag, FileListReqBodyTagValue, FileListReqBodyTagValueParam,
};
use crate::tags::{find_template, template_of, TagTemplateCompact, TagValueTypeKind};
use crate::text::{decimal_text, push_decimal};
use vstd::prelude::*;
use vstd::string::StringExecFns;

verus! {

/// How many files a page of a listing holds.
pub const PAGE_SIZE: u32 = 40;

/// A statement: its text, and the values that its placeholders stand for. The placeholders
/// are numbered from one, in the order of the values.
#[derive(Debug, Clone, PartialEq, Eq, Hash)]
pub struct SqlStatement {
    pub text: String,
    pub binds: Vec<BoundValue>,
}

/// A statement as a pair: its text and its values.
pub type Sql = (Seq<char>, Seq<BoundValue>);

impl View for SqlStatement {
    type V = Sql;

    open spec fn view(&self) -> Sql {
        (self.text@, self.binds@)
    }
}

/// The statement with `piece` added to its text.
pub open spec fn with_text(sql: Sql, piece: Seq<char>) -> Sql {
    (sql.0 + piece, sql.1)
}

/// The statement with one more value, and the placeholder for it added to its text.
pub open spec fn with_bind(sql: Sql, value: BoundValue) -> Sql {
    (sql.0 + "$"@ + decimal_text(sql.1.len() + 1), sql.1.push(value))
}

/// The statement with one comparison of `column` added, where the comparison is present.
pub open spec fn with_comparison(
    sql: Sql,
    column: Seq<char>,
    operator: Seq<char>,
    param: Option<FileListReqBodyTagValueParam>,
) -> Sql {
    match param {
        Some(value) => with_text(
            with_bind(
                with_text(
                    with_text(with_text(with_text(with_text(sql, " AND ("@), column), " "@), operator),
                    " "@,
                ),
                value.bound(),
            ),
            ")"@,
        ),
        None => sql,
    }
}

/// The statement with placeholders for the first `upto` members of a set added, separated
/// by commas.
pub open spec fn with_members(sql: Sql, members: Seq<FileListReqBodyTagValueParam>, upto: int) -> Sql
    decreases upto,
{
    if upto <= 0 {
        sql
    } else if upto == 1 {
        with_bind(sql, members[0].bound())
    } else {
        with_bind(
            with_text(with_members(sql, members, upto - 1), ", "@),
            members[upto - 1].bound(),
        )
    }
}

/// The statement with the membership of `column` in a set added, where the set is present
/// and has members.
pub open spec fn with_one_of(
    sql: Sql,
    column: Seq<char>,
    one_of: Option<Vec<FileListReqBodyTagValueParam>>,
) -> Sql {
    match one_of {
        Some(members) => if members@.len() > 0 {
            with_text(
                with_members(
                    with_text(with_text(with_text(sql, " AND ("@), column), " IN ("@),
                    members@,
                    members@.len() as int,
                ),
                "))"@,
            )
        } else {
            sql
        },
        None => sql,
    }
}

/// The statement with all comparisons of a filter added, against the column that holds
/// values of kind `value_ty`.
pub open spec fn with_filter(
    sql: Sql,
    value_ty: TagValueTypeKind,
    value: FileListReqBodyTagValue,
) -> Sql {
    let column = value_ty.spec_column_name();
    let sql = with_comparison(sql, column, "="@, value.equal);
    let sql = with_comparison(sql, column, "!="@, value.not_equal);
    let sql = with_comparison(sql, column, "<"@, value.less_than);
    let sql = with_comparison(sql, column, "<="@, value.less_than_or_equal);
    let sql = with_comparison(sql, column, ">"@, value.greater_than);
    let sql = with_comparison(sql, column, ">="@, value.greater_than_or_equal);
    let sql = with_comparison(sql, column, "LIKE"@, value.contains);
    with_one_of(sql, column, value.one_of)
}

/// The statement with the clause for one filter added: the tag must follow the template of
/// the filter and, where that template declares a kind and the filter compares, its value
/// must pass the comparisons.
pub open spec fn with_tag(
    sql: Sql,
    templates: Seq<TagTemplateCompact>,
    tag: FileListReqBodyTag,
) -> Sql {
    let opened = with_bind(with_text(sql, " OR (template_uuid = "@), BoundValue::Uuid(tag.template_uuid));
    let filtered = match (template_of(templates, tag.template_uuid), tag.value) {
        (Some(template), Some(value)) => match template.value_type {
            Some(value_ty) => with_filter(opened, value_ty, value),
            None => opened,
        },
        _ => opened,
    };
    with_text(filtered, ")"@)
}

/// The statement with the clauses for the first `upto` filters added.
pub open spec fn with_tags(
    sql: Sql,
    templates: Seq<TagTemplateCompact>,
    tags: Seq<FileListReqBodyTag>,
    upto: int,
) -> Sql
    decreases upto,
{
    if upto <= 0 {
        sql
    } else {
        with_tag(with_tags(sql, templates, tags, upto - 1), templates, tags[upto - 1])
    }
}

/// The statement that fills the temporary table with the files that pass every filter: the
/// tags that pass some filter are grouped by file, and a file is kept where as many of its
/// tags pass as there are filters.
pub open spec fn insert_file_uuid_table(
    table_name: Seq<char>,
    templates: Seq<TagTemplateCompact>,
    tags: Seq<FileListReqBodyTag>,
) -> Sql {
    let start: Sql = (
        "INSERT INTO "@ + table_name + " SELECT file_uuid FROM tags WHERE FALSE"@,
        Seq::empty(),
    );
    with_bind(
        with_text(
            with_tags(start, templates, tags, tags.len() as int),
            " GROUP BY file_uuid HAVING COUNT(file_uuid) = "@,
        ),
        BoundValue::BigInt(tags.len() as i64),
    )
}

impl SqlStatement {
    /// The statement with this text and no values.
    pub fn new(text: &str) -> (statement: Self)
        ensures
            statement@ == (text@, Seq::<BoundValue>::empty()),
    {
        SqlStatement { text: String::from_str(text), binds: Vec::new() }
    }

    /// Adds `piece` to the text.
    pub fn sql(&mut self, piece: &str)
        ensures
            final(self)@ == with_text(old(self)@, piece@),
    {
        self.text.append(piece);
    }

    /// Adds a value, and the placeholder for it to the text.
    pub fn bind(&mut self, value: BoundValue)
        ensures
            final(self)@ == with_bind(old(self)@, value),
    {
        self.binds.push(value);
        self.text.append("$");
        push_decimal(&mut self.text, self.binds.len() as u64);
    }
}

/// Adds one comparison of `column` to the statement, where the comparison is present.
fn attach_comparison(
    statement: &mut SqlStatement,
    column: &str,
    operator: &str,
    param: &Option<FileListReqBodyTagValueParam>,
)
    ensures
        final(statement)@ == with_comparison(old(statement)@, column@, operator@, *param),
{
    match param {
        Some(value) => {
            statement.sql(" AND (");
            statement.sql(column);
            statement.sql(" ");
            statement.sql(operator);
            statement.sql(" ");
            statement.text.append("$");
            value.attach_value(&mut statement.binds);
            push_decimal(&mut statement.text, statement.binds.len() as u64);
            statement.sql(")");
        },
        None => {},
    }
}

/// Adds all comparisons of a filter to the statement, against the column that holds values
/// of kind `value_ty`.
pub fn filter_tag_value_sql(
    statement: &mut SqlStatement,
    value_ty: TagValueTypeKind,
    value: &FileListReqBodyTagValue,
)
    ensures
        final(statement)@ == with_filter(old(statement)@, value_ty, *value),
{
    let column = value_ty.into_column_name();
    attach_comparison(statement, column, "=", &value.equal);
    attach_comparison(statement, column, "!=", &value.not_equal);
    attach_comparison(statement, column, "<", &value.less_than);
    attach_comparison(statement, column, "<=", &value.less_than_or_equal);
    attach_comparison(statement, column, ">", &value.greater_than);
    attach_comparison(statement, column, ">=", &value.greater_than_or_equal);
    attach_comparison(statement, column, "LIKE", &value.contains);
    match &value.one_of {
        Some(members) => {
            if members.len() > 0 {
                statement.sql(" AND (");
                statement.sql(column);
                statement.sql(" IN (");
                let ghost start = statement@;
                let mut index: usize = 0;
                while index < members.len()
                    invariant
                        index <= members.len(),
                        statement@ == with_members(start, members@, index as int),
                    decreases members.len() - index,
                {
                    if index != 0 {
                        statement.sql(", ");
                    }
                    statement.text.append("$");
                    members[index].attach_value(&mut statement.binds);
                    push_decimal(&mut statement.text, statement.binds.len() as u64);
                    index = index + 1;
                }
                statement.sql("))");
            }
        },
        None => {},
    }
}

/// The statement that fills the temporary table `table_name` with the files that pass every
/// filter. A filter whose template is not among `templates`, or whose template declares no
/// kind, asks for the tag alone.
pub fn insert_file_uuid_table_sql(
    table_name: &str,
    templates: &Vec<TagTemplateCompact>,
    tags: &Vec<FileListReqBodyTag>,
) -> (statement: SqlStatement)
    ensures
        statement@ == insert_file_uuid_table(table_name@, templates@, tags@),
{
    let mut statement = SqlStatement::new("INSERT INTO ");
    statement.sql(table_name);
    statement.sql(" SELECT file_uuid FROM tags WHERE FALSE");
    let ghost start = statement@;
    let mut index: usize = 0;
    while index < tags.len()
        invariant
            index <= tags.len(),
            statement@ == with_tags(start, templates@, tags@, index as int),
        decreases tags.len() - index,
    {
        let tag = &tags[index];
        statement.sql(" OR (template_uuid = ");
        statement.bind(BoundValue::Uuid(tag.template_uuid));
        match find_template(templates, tag.template_uuid) {
            Some(template) => match (&template.value_type, &tag.value) {
                (Some(value_ty), Some(value)) => {
                    filter_tag_value_sql(&mut statement, *value_ty, value);
                },
                _ => {},
            },
            None => {},
        }
        statement.sql(")");
        index = index + 1;
    }
    statement.sql(" GROUP BY file_uuid HAVING COUNT(file_uuid) = ");
    statement.bind(BoundValue::BigInt(tags.len() as i64));
    statement
}

/// The text that creates the temporary table of file identities; the table lasts until the
/// transaction ends.
pub open spec fn create_file_uuid_table(table_name: Seq<char>) -> Seq<char> {
    "CREATE TEMP TABLE "@ + table_name + " ( uuid UUID NOT NULL ) ON COMMIT DROP"@
}

/// The statement that creates the temporary table of file identities.
pub fn create_file_uuid_table_sql(table_name: &str) -> (statement: SqlStatement)
    ensures
        statement@ == (create_file_uuid_table(table_name@), Seq::<BoundValue>::empty()),
{
    let mut statement = SqlStatement::new("CREATE TEMP TABLE ");
    statement.sql(table_name);
    statement.sql(" ( uuid UUID NOT NULL ) ON COMMIT DROP");
    statement
}

/// The text that puts a unique index on the temporary table.
pub open spec fn create_index_file_uuid_table(table_name: Seq<char>) -> Seq<char> {
    "CREATE UNIQUE INDEX ON "@ + table_name + " ( uuid ASC )"@
}

/// The statement that puts a unique index on the temporary table.
pub fn create_index_file_uuid_table_sql(table_name: &str) -> (statement: SqlStatement)
    ensures
        statement@ == (create_index_file_uuid_table(table_name@), Seq::<BoundValue>::empty()),
{
    let mut statement = SqlStatement::new("CREATE UNIQUE INDEX ON ");
    statement.sql(table_name);
    statement.sql(" ( uuid ASC )");
    statement
}

/// The statement that has the planner measure the temporary table.
pub fn analyze_file_uuid_table_sql(table_name: &str) -> (statement: SqlStatement)
    ensures
        statement@ == ("ANALYZE "@ + table_name@, Seq::<BoundValue>::empty()),
{
    let mut statement = SqlStatement::new("ANALYZE ");
    statement.sql(table_name);
    statement
}

/// The first `upto` identities of a list, each in single quotes, separated by commas.
pub open spec fn quoted_list(uuids: Seq<u128>, upto: int) -> Seq<char>
    decreases upto,
{
    if upto <= 0 {
        Seq::empty()
    } else if upto == 1 {
        "'"@ + canonical_text(uuids[0]) + "'"@
    } else {
        quoted_list(uuids, upto - 1) + ", "@ + "'"@ + canonical_text(uuids[upto - 1]) + "'"@
    }
}

/// The condition that keeps a listing within the candidates that a search returned: none
/// where there was no search, one that nothing passes where the search returned nothing, and
/// membership in the candidates otherwise.
pub open spec fn candidates_clause(uuids: Option<Seq<u128>>) -> Seq<char> {
    match uuids {
        None => Seq::empty(),
        Some(candidates) => if candidates.len() == 0 {
            " WHERE FALSE"@
        } else {
            " WHERE uuid IN ("@ + quoted_list(candidates, candidates.len() as int) + ")"@
        },
    }
}

/// The text that reads one page of file identities from a table, in rising order, so that
/// the same request always gives the same page.
pub open spec fn select_file_uuid_from_table(
    table_name: Seq<char>,
    page: u32,
    page_size: u32,
    uuids: Option<Seq<u128>>,
) -> Seq<char> {
    "SELECT uuid FROM "@ + table_name + candidates_clause(uuids) + " ORDER BY uuid ASC OFFSET "@
        + decimal_text((page * page_size) as nat) + " LIMIT "@ + decimal_text(page_size as nat)
}

/// The statement that reads page `page`, counted from zero, of `page_size` file identities
/// from `table_name`, within the candidates of a search where there was one.
pub fn select_file_uuid_from_table_sql(
    table_name: &str,
    page: u32,
    page_size: u32,
    uuids: Option<&Vec<u128>>,
) -> (statement: SqlStatement)
    ensures
        statement@ == (
            select_file_uuid_from_table(
                table_name@,
                page,
                page_size,
                match uuids {
                    Some(candidates) => Some(candidates@),
                    None => None,
                },
            ),
            Seq::<BoundValue>::empty(),
        ),
{
    let mut text = String::from_str("SELECT uuid FROM ");
    text.append(table_name);
    match uuids {
        Some(candidates) => {
            if candidates.len() == 0 {
                text.append(" WHERE FALSE");
            } else {
                text.append(" WHERE uuid IN (");
                let ghost start = text@;
                let mut index: usize = 0;
                while index < candidates.len()
                    invariant
                        index <= candidates.len(),
                        text@ == start + quoted_list(candidates@, index as int),
                    decreases candidates.len() - index,
                {
                    if index != 0 {
                        text.append(", ");
                    }
                    text.append("'");
                    let id = uuid_text(candidates[index]);
                    text.append(id.as_str());
                    text.append("'");
                    proof {
                        let so_far = quoted_list(candidates@, index as int);
                        let quoted = "'"@ + canonical_text(candidates@[index as int]) + "'"@;
                        if index == 0 {
                            assert(so_far =~= Seq::<char>::empty());
                            assert(text@ =~= start + quoted);
                        } else {
                            assert(text@ =~= start + (so_far + ", "@ + "'"@ + canonical_text(
                                candidates@[index as int],
                            ) + "'"@));
                        }
                    }
                    index = index + 1;
                }
                text.append(")");
                proof {
                    assert(text@ =~= "SELECT uuid FROM "@ + table_name@ + candidates_clause(
                        Some(candidates@),
                    ));
                }
            }
        },
        None => {
            proof {
                assert(text@ =~= "SELECT uuid FROM "@ + table_name@ + candidates_clause(None));
            }
        },
    }
    text.append(" ORDER BY uuid ASC OFFSET ");
    assert(page * page_size <= 0xffff_ffff * 0xffff_ffff) by (nonlinear_arith)
        requires
            0 <= page <= 0xffff_ffff,
            0 <= page_size <= 0xffff_ffff,
    ;
    push_decimal(&mut text, page as u64 * page_size as u64);
    text.append(" LIMIT ");
    push_decimal(&mut text, page_size as u64);
    SqlStatement { text, binds: Vec::new() }
}

/// The table that a page of a listing is read from: the temporary table of the files that
/// pass every filter where the request filters on tags, and the table of files where it does
/// not.
pub open spec fn source_table(filters: Option<Vec<FileListReqBodyTag>>) -> Seq<char> {
    match filters {
        Some(tags) => if tags@.len() > 0 {
            "file_uuids"@
        } else {
            "files"@
        },
        None => "files"@,
    }
}

/// The table that a page of a listing is read from.
pub fn select_source(filters: &Option<Vec<FileListReqBodyTag>>) -> (table_name: &'static str)
    ensures
        table_name@ == source_table(*filters),
{
    match filters {
        Some(tags) => if tags.len() > 0 {
            "file_uuids"
        } else {
            "files"
        },
        None => "files",
    }
}

/// The statements that gather the files that pass every filter, in the order in which they
/// are run: create the temporary table, fill it, index it, and have it measured.
pub fn gather_file_uuids_sql(
    templates: &Vec<TagTemplateCompact>,
    tags: &Vec<FileListReqBodyTag>,
) -> (statements: Vec<SqlStatement>)
    ensures
        statements@.len() == 4,
        statements@[0]@ == (create_file_uuid_table("file_uuids"@), Seq::<BoundValue>::empty()),
        statements@[1]@ == insert_file_uuid_table("file_uuids"@, templates@, tags@),
        statements@[2]@ == (
            create_index_file_uuid_table("file_uuids"@),
            Seq::<BoundValue>::empty(),
        ),
        statements@[3]@ == ("ANALYZE "@ + "file_uuids"@, Seq::<BoundValue>::empty()),
{
    let mut statements: Vec<SqlStatement> = Vec::new();
    statements.push(create_file_uuid_table_sql("file_uuids"));
    statements.push(insert_file_uuid_table_sql("file_uuids", templates, tags));
    statements.push(create_index_file_uuid_table_sql("file_uuids"));
    statements.push(analyze_file_uuid_table_sql("file_uuids"));
    statements
}

} // verus!

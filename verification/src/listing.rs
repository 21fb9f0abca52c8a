//! Listing files: the request may filter on tags, each filter naming a template and, where
//! the template declares a kind of value, comparisons against values of that kind. The
//! filters are held against the templates before any query is built.

use crate::prepare::{about_template, say_about_template};
use crate::records::FileListResFile;
use crate::response::{IntoStatus, Status};
use crate::tags::{
    find_template, is_rising, is_strictly_rising, occurs_twice, order_by_template, same_items,
    template_ids, template_of, TagTemplateCompact, TagValueTypeKind, Tagged,
};
use vstd::prelude::*;
use vstd::string::StringExecFns;

verus! {

/// How many candidates a search of the index returns at most.
pub const SEARCH_LIMIT: usize = 200;

/// A text without the white space at its start and at its end, as `str::trim` of the
/// standard library returns it.
pub uninterp spec fn trimmed(text: Seq<char>) -> Seq<char>;

/// Calls `str::trim`.
#[verifier::external_body]
fn trim(text: &str) -> (inner: &str)
    ensures
        inner@ == trimmed(text@),
{
    text.trim()
}

/// What to search the index for, given the free text of a request: the text without the
/// white space around it. A request without free text, or with nothing but white space,
/// searches for nothing, and the listing is then not narrowed by the index.
pub fn search_terms(query: &Option<String>) -> (terms: Option<&str>)
    ensures
        match terms {
            Some(text) => query matches Some(asked) && text@ == trimmed(asked@) && text@.len()
                > 0,
            None => query matches Some(asked) ==> trimmed(asked@).len() == 0,
        },
{
    match query {
        Some(asked) => {
            let text = trim(asked.as_str());
            if text.is_empty() {
                None
            } else {
                Some(text)
            }
        },
        None => None,
    }
}

/// A value that a filter compares against.
#[derive(Debug, Clone, PartialEq, Eq, Hash)]
pub enum FileListReqBodyTagValueParam {
    String(String),
    Integer(i64),
    Boolean(bool),
}

/// A value bound to a placeholder of a query.
#[derive(Debug, Clone, PartialEq, Eq, Hash)]
pub enum BoundValue {
    Uuid(u128),
    Text(String),
    BigInt(i64),
    Bool(bool),
}

impl FileListReqBodyTagValueParam {
    /// The kind of the value.
    pub open spec fn spec_type_kind(&self) -> TagValueTypeKind {
        match self {
            FileListReqBodyTagValueParam::String(_) => TagValueTypeKind::String,
            FileListReqBodyTagValueParam::Integer(_) => TagValueTypeKind::Integer,
            FileListReqBodyTagValueParam::Boolean(_) => TagValueTypeKind::Boolean,
        }
    }

    /// The kind of the value.
    #[verifier::when_used_as_spec(spec_type_kind)]
    pub fn type_kind(&self) -> (kind: TagValueTypeKind)
        ensures
            kind == self.spec_type_kind(),
    {
        match self {
            FileListReqBodyTagValueParam::String(_) => TagValueTypeKind::String,
            FileListReqBodyTagValueParam::Integer(_) => TagValueTypeKind::Integer,
            FileListReqBodyTagValueParam::Boolean(_) => TagValueTypeKind::Boolean,
        }
    }

    /// Holds the value against the kind that a template declares: a value of another kind
    /// fails with its own kind.
    pub fn check_value_type(&self, value_ty: TagValueTypeKind) -> (checked: Result<
        (),
        TagValueTypeKind,
    >)
        ensures
            checked == (if self.spec_type_kind() == value_ty {
                Ok(())
            } else {
                Err(self.spec_type_kind())
            }),
    {
        let own = self.type_kind();
        if own != value_ty {
            return Err(own);
        }
        Ok(())
    }

    /// The value as a query binds it.
    pub open spec fn bound(&self) -> BoundValue {
        match self {
            FileListReqBodyTagValueParam::String(text) => BoundValue::Text(*text),
            FileListReqBodyTagValueParam::Integer(number) => BoundValue::BigInt(*number),
            FileListReqBodyTagValueParam::Boolean(flag) => BoundValue::Bool(*flag),
        }
    }

    /// Adds the value to the values that a query binds, as the last.
    pub fn attach_value(&self, binds: &mut Vec<BoundValue>)
        ensures
            final(binds)@ == old(binds)@.push(self.bound()),
    {
        match self {
            FileListReqBodyTagValueParam::String(text) => binds.push(
                BoundValue::Text(text.clone()),
            ),
            FileListReqBodyTagValueParam::Integer(number) => binds.push(
                BoundValue::BigInt(*number),
            ),
            FileListReqBodyTagValueParam::Boolean(flag) => binds.push(BoundValue::Bool(*flag)),
        }
    }
}

/// The comparisons of one filter. Each that is present must hold for a tag to pass.
#[derive(Debug, Clone, PartialEq, Eq, Hash)]
pub struct FileListReqBodyTagValue {
    pub equal: Option<FileListReqBodyTagValueParam>,
    pub not_equal: Option<FileListReqBodyTagValueParam>,
    pub less_than: Option<FileListReqBodyTagValueParam>,
    pub less_than_or_equal: Option<FileListReqBodyTagValueParam>,
    pub greater_than: Option<FileListReqBodyTagValueParam>,
    pub greater_than_or_equal: Option<FileListReqBodyTagValueParam>,
    pub contains: Option<FileListReqBodyTagValueParam>,
    pub one_of: Option<Vec<FileListReqBodyTagValueParam>>,
}

/// The kind of the first of `params` that is not of kind `value_ty`, if there is one.
pub open spec fn first_stray(params: Seq<FileListReqBodyTagValueParam>, value_ty: TagValueTypeKind) -> Option<
    TagValueTypeKind,
>
    decreases params.len(),
{
    if params.len() == 0 {
        None
    } else if params[0].spec_type_kind() != value_ty {
        Some(params[0].spec_type_kind())
    } else {
        first_stray(params.skip(1), value_ty)
    }
}

/// The kind of the value of a comparison, where the comparison is present and its value is
/// not of kind `value_ty`.
pub open spec fn stray(param: Option<FileListReqBodyTagValueParam>, value_ty: TagValueTypeKind) -> Option<
    TagValueTypeKind,
> {
    match param {
        Some(value) => if value.spec_type_kind() != value_ty {
            Some(value.spec_type_kind())
        } else {
            None
        },
        None => None,
    }
}

impl FileListReqBodyTagValue {
    /// The kind of the first value of the filter that is not of kind `value_ty`, if there is
    /// one. The values are taken in the order of the fields, the members of the set last and
    /// in their own order.
    pub open spec fn first_stray_kind(&self, value_ty: TagValueTypeKind) -> Option<
        TagValueTypeKind,
    > {
        if stray(self.equal, value_ty) is Some {
            stray(self.equal, value_ty)
        } else if stray(self.not_equal, value_ty) is Some {
            stray(self.not_equal, value_ty)
        } else if stray(self.less_than, value_ty) is Some {
            stray(self.less_than, value_ty)
        } else if stray(self.less_than_or_equal, value_ty) is Some {
            stray(self.less_than_or_equal, value_ty)
        } else if stray(self.greater_than, value_ty) is Some {
            stray(self.greater_than, value_ty)
        } else if stray(self.greater_than_or_equal, value_ty) is Some {
            stray(self.greater_than_or_equal, value_ty)
        } else if stray(self.contains, value_ty) is Some {
            stray(self.contains, value_ty)
        } else {
            match self.one_of {
                Some(members) => first_stray(members@, value_ty),
                None => None,
            }
        }
    }

    /// Holds every value of the filter against the kind that the template declares. The
    /// first value of another kind fails the filter, with its own kind.
    #[verifier::loop_isolation(false)]
    pub fn check_value_type(&self, value_ty: TagValueTypeKind) -> (checked: Result<
        (),
        TagValueTypeKind,
    >)
        ensures
            checked == (match self.first_stray_kind(value_ty) {
                Some(kind) => Err(kind),
                None => Ok(()),
            }),
    {
        check_single(&self.equal, value_ty)?;
        check_single(&self.not_equal, value_ty)?;
        check_single(&self.less_than, value_ty)?;
        check_single(&self.less_than_or_equal, value_ty)?;
        check_single(&self.greater_than, value_ty)?;
        check_single(&self.greater_than_or_equal, value_ty)?;
        check_single(&self.contains, value_ty)?;
        match &self.one_of {
            Some(members) => {
                let mut index: usize = 0;
                assert(members@.skip(0) =~= members@);
                while index < members.len()
                    invariant
                        index <= members.len(),
                        first_stray(members@, value_ty) == first_stray(
                            members@.skip(index as int),
                            value_ty,
                        ),
                    decreases members.len() - index,
                {
                    proof {
                        assert(members@.skip(index as int)[0] == members@[index as int]);
                        assert(members@.skip(index as int).skip(1) =~= members@.skip(index + 1));
                    }
                    members[index].check_value_type(value_ty)?;
                    index = index + 1;
                }
                proof {
                    assert(members@.skip(index as int).len() == 0);
                }
            },
            None => {},
        }
        Ok(())
    }
}

/// Holds the value of one comparison, if it is present, against the kind of the template.
fn check_single(param: &Option<FileListReqBodyTagValueParam>, value_ty: TagValueTypeKind) -> (checked:
    Result<(), TagValueTypeKind>)
    ensures
        checked == (match stray(*param, value_ty) {
            Some(kind) => Err(kind),
            None => Ok(()),
        }),
{
    match param {
        Some(value) => value.check_value_type(value_ty),
        None => Ok(()),
    }
}

/// One filter of a request: the template that a file must be tagged with and, optionally,
/// comparisons that the value of the tag must pass.
#[derive(Debug, Clone, PartialEq, Eq, Hash)]
pub struct FileListReqBodyTag {
    pub template_uuid: u128,
    pub value: Option<FileListReqBodyTagValue>,
}

impl Tagged for FileListReqBodyTag {
    open spec fn template(&self) -> u128 {
        self.template_uuid
    }

    fn template_uuid(&self) -> (id: u128) {
        self.template_uuid
    }
}

/// The page that a request asks for.
#[derive(Debug, Clone, Copy, PartialEq, Eq, Hash)]
pub struct QueryParam {
    pub page: Option<u32>,
}

/// The body of a request for a listing.
#[derive(Debug, Clone, PartialEq, Eq, Hash)]
pub struct FileListReqBody {
    pub query: Option<String>,
    pub tags: Option<Vec<FileListReqBodyTag>>,
}

/// A page of a listing.
#[derive(Debug, Clone, PartialEq, Eq, Hash)]
pub struct FileListRes {
    pub page: u32,
    pub items: Vec<FileListResFile>,
}

/// Why a listing was turned down. `P`, `D` and `X` are the failures of the connection pool,
/// of the relational store and of the search index.
#[derive(Debug)]
pub enum ErrRes<P, D, X> {
    PoolError(P),
    DieselError(D),
    MeilisearchError(X),
    DuplicatedTagTemplate(u128),
    InvalidTagTemplate(u128),
    ExtraTagValueFilter(u128),
    InvalidTagValueFilter(u128, TagValueTypeKind, TagValueTypeKind),
}

impl<P, D, X> IntoStatus for ErrRes<P, D, X> {
    /// A failure of the pool, the store or the index is a failure of the service; every
    /// other variant is a request that cannot be processed.
    open spec fn status(&self) -> Status {
        match self {
            ErrRes::PoolError(_) => Status::InternalServerError,
            ErrRes::DieselError(_) => Status::InternalServerError,
            ErrRes::MeilisearchError(_) => Status::InternalServerError,
            _ => Status::UnprocessableEntity,
        }
    }

    fn into_status(&self) -> (status: Status) {
        match self {
            ErrRes::PoolError(_) => Status::InternalServerError,
            ErrRes::DieselError(_) => Status::InternalServerError,
            ErrRes::MeilisearchError(_) => Status::InternalServerError,
            ErrRes::DuplicatedTagTemplate(_) => Status::UnprocessableEntity,
            ErrRes::InvalidTagTemplate(_) => Status::UnprocessableEntity,
            ErrRes::ExtraTagValueFilter(_) => Status::UnprocessableEntity,
            ErrRes::InvalidTagValueFilter(_, _, _) => Status::UnprocessableEntity,
        }
    }
}

impl<P, D, X> ErrRes<P, D, X> {
    /// What the failure says of itself.
    pub open spec fn spec_message(&self) -> Seq<char> {
        match self {
            ErrRes::PoolError(_) => "internal server error"@,
            ErrRes::DieselError(_) => "internal server error"@,
            ErrRes::MeilisearchError(_) => "internal server error"@,
            ErrRes::DuplicatedTagTemplate(uuid) => about_template(
                "tag template "@,
                *uuid,
                " is duplicated"@,
            ),
            ErrRes::InvalidTagTemplate(uuid) => about_template(
                "tag template "@,
                *uuid,
                " does not exist"@,
            ),
            ErrRes::ExtraTagValueFilter(uuid) => about_template(
                "tag template "@,
                *uuid,
                " does not accept any values, but a value filter was supplied"@,
            ),
            ErrRes::InvalidTagValueFilter(uuid, declared, supplied) => about_template(
                "tag template "@,
                *uuid,
                " expects a value of type `"@,
            ) + declared.spec_name() + "`, but a value filter of type `"@ + supplied.spec_name()
                + "` was supplied"@,
        }
    }

    /// What the failure says of itself.
    pub fn message(&self) -> (text: String)
        ensures
            text@ == self.spec_message(),
    {
        match self {
            ErrRes::PoolError(_) => String::from_str("internal server error"),
            ErrRes::DieselError(_) => String::from_str("internal server error"),
            ErrRes::MeilisearchError(_) => String::from_str("internal server error"),
            ErrRes::DuplicatedTagTemplate(uuid) => say_about_template(
                "tag template ",
                *uuid,
                " is duplicated",
            ),
            ErrRes::InvalidTagTemplate(uuid) => say_about_template(
                "tag template ",
                *uuid,
                " does not exist",
            ),
            ErrRes::ExtraTagValueFilter(uuid) => say_about_template(
                "tag template ",
                *uuid,
                " does not accept any values, but a value filter was supplied",
            ),
            ErrRes::InvalidTagValueFilter(uuid, declared, supplied) => {
                let mut text = say_about_template(
                    "tag template ",
                    *uuid,
                    " expects a value of type `",
                );
                text.append(declared.name());
                text.append("`, but a value filter of type `");
                text.append(supplied.name());
                text.append("` was supplied");
                text
            },
        }
    }
}

/// What is wrong with the comparisons of a filter whose template is known; `None` where
/// they are in order. A template that declares no kind takes no comparisons; one that
/// declares a kind takes comparisons against values of that kind only. A filter without
/// comparisons is always in order: it asks for the tag, whatever its value.
pub open spec fn filter_problem<P, D, X>(
    filter: FileListReqBodyTag,
    templates: Seq<TagTemplateCompact>,
) -> Option<ErrRes<P, D, X>> {
    match (template_of(templates, filter.template_uuid), filter.value) {
        (Some(template), Some(value)) => match template.value_type {
            None => Some(ErrRes::ExtraTagValueFilter(template.uuid)),
            Some(declared) => match value.first_stray_kind(declared) {
                Some(kind) => Some(ErrRes::InvalidTagValueFilter(template.uuid, declared, kind)),
                None => None,
            },
        },
        _ => None,
    }
}

/// Whether the template of a filter is among the templates that were found.
pub open spec fn is_known(filter: FileListReqBodyTag, templates: Seq<TagTemplateCompact>) -> bool {
    template_of(templates, filter.template_uuid) is Some
}

/// Checks the filters of a request, in their order, against the templates that were found
/// for them.
///
/// A filter whose template was not found fails the request with `InvalidTagTemplate`; the
/// first such filter is named, and it is named before any comparison is looked at. With all
/// templates known, the first filter whose comparisons are not in order decides the failure.
pub fn validate_filters<P, D, X>(
    filters: &Vec<FileListReqBodyTag>,
    templates: &Vec<TagTemplateCompact>,
) -> (checked: Result<(), ErrRes<P, D, X>>)
    ensures
        match checked {
            Ok(_) => forall|k: int|
                0 <= k < filters@.len() ==> is_known(#[trigger] filters@[k], templates@)
                    && filter_problem::<P, D, X>(filters@[k], templates@) is None,
            Err(problem) => exists|k: int|
                {
                    &&& 0 <= k < filters@.len()
                    &&& if is_known(#[trigger] filters@[k], templates@) {
                        &&& forall|j: int|
                            0 <= j < filters@.len() ==> is_known(#[trigger] filters@[j], templates@)
                        &&& filter_problem::<P, D, X>(filters@[k], templates@) == Some(problem)
                        &&& forall|j: int|
                            0 <= j < k ==> filter_problem::<P, D, X>(
                                #[trigger] filters@[j],
                                templates@,
                            ) is None
                    } else {
                        &&& problem == ErrRes::<P, D, X>::InvalidTagTemplate(
                            filters@[k].template_uuid,
                        )
                        &&& forall|j: int|
                            0 <= j < k ==> is_known(#[trigger] filters@[j], templates@)
                    }
                },
        },
{
    let mut index: usize = 0;
    while index < filters.len()
        invariant
            index <= filters.len(),
            forall|j: int| 0 <= j < index ==> is_known(#[trigger] filters@[j], templates@),
        decreases filters.len() - index,
    {
        match find_template(templates, filters[index].template_uuid) {
            Some(_) => {},
            None => {
                assert(!is_known(filters@[index as int], templates@));
                return Err(ErrRes::InvalidTagTemplate(filters[index].template_uuid));
            },
        }
        index = index + 1;
    }
    let mut index: usize = 0;
    while index < filters.len()
        invariant
            index <= filters.len(),
            forall|j: int| 0 <= j < filters@.len() ==> is_known(#[trigger] filters@[j], templates@),
            forall|j: int|
                0 <= j < index ==> filter_problem::<P, D, X>(#[trigger] filters@[j], templates@)
                    is None,
        decreases filters.len() - index,
    {
        match check_filter::<P, D, X>(&filters[index], templates) {
            Ok(_) => {},
            Err(problem) => {
                assert(is_known(filters@[index as int], templates@));
                assert(filter_problem::<P, D, X>(filters@[index as int], templates@) == Some(
                    problem,
                ));
                return Err(problem);
            },
        }
        index = index + 1;
    }
    Ok(())
}

/// Checks the comparisons of one filter against its template.
fn check_filter<P, D, X>(filter: &FileListReqBodyTag, templates: &Vec<TagTemplateCompact>) -> (checked:
    Result<(), ErrRes<P, D, X>>)
    ensures
        match checked {
            Ok(_) => filter_problem::<P, D, X>(*filter, templates@) is None,
            Err(problem) => filter_problem::<P, D, X>(*filter, templates@) == Some(problem),
        },
{
    match find_template(templates, filter.template_uuid) {
        None => Ok(()),
        Some(template) => match &filter.value {
            None => Ok(()),
            Some(value) => match template.value_type {
                None => Err(ErrRes::ExtraTagValueFilter(template.uuid)),
                Some(declared) => match value.check_value_type(declared) {
                    Ok(_) => Ok(()),
                    Err(kind) => Err(ErrRes::InvalidTagValueFilter(template.uuid, declared, kind)),
                },
            },
        },
    }
}

impl FileListReqBody {
    /// Puts the filters of the request in the order of their template identities and makes
    /// sure that no template is filtered on twice. A request without filters passes as it
    /// is.
    pub fn check<P, D, X>(&mut self) -> (checked: Result<(), ErrRes<P, D, X>>)
        ensures
            final(self).query == old(self).query,
            old(self).tags is None ==> checked is Ok && final(self).tags is None,
            old(self).tags matches Some(before) ==> {
                &&& final(self).tags matches Some(after)
                &&& same_items(before@, after@)
                &&& is_rising(template_ids(after@))
                &&& match checked {
                    Ok(_) => {
                        &&& is_strictly_rising(template_ids(after@))
                        &&& forall|id: u128| !occurs_twice(template_ids(before@), id)
                    },
                    Err(ErrRes::DuplicatedTagTemplate(id)) => {
                        &&& occurs_twice(template_ids(before@), id)
                        &&& forall|other: u128|
                            occurs_twice(template_ids(before@), other) ==> id <= other
                    },
                    Err(_) => false,
                }
            },
    {
        match self.tags.take() {
            None => Ok(()),
            Some(filters) => {
                let mut filters = filters;
                let twice = order_by_template(&mut filters);
                self.tags = Some(filters);
                match twice {
                    Some(id) => Err(ErrRes::DuplicatedTagTemplate(id)),
                    None => Ok(()),
                }
            },
        }
    }
}

} // verus!

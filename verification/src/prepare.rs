//! Preparing a file: a name and a list of tags are checked before anything is stored. The
//! tags are put in the order of their template identities, no template may occur twice, and
//! each tag must carry what its template declares.

use crate::identity::{canonical_text, uuid_text};
use crate::records::FileHeader;
use crate::response::{IntoStatus, Status};
use crate::tags::{
    find_template, is_rising, is_strictly_rising, occurs_twice, order_by_template, same_items,
    template_ids, template_of, TagTemplateCompact, TagValueTypeKind, Tagged,
};
use vstd::prelude::*;
use vstd::string::StringExecFns;

verus! {

/// The value that a tag carries.
#[derive(Debug, Clone, PartialEq, Eq, Hash)]
pub enum FilePrepareReqBodyTagValue {
    String(String),
    Integer(i64),
    Boolean(bool),
}

impl FilePrepareReqBodyTagValue {
    /// The kind of the value.
    pub open spec fn spec_type_kind(&self) -> TagValueTypeKind {
        match self {
            FilePrepareReqBodyTagValue::String(_) => TagValueTypeKind::String,
            FilePrepareReqBodyTagValue::Integer(_) => TagValueTypeKind::Integer,
            FilePrepareReqBodyTagValue::Boolean(_) => TagValueTypeKind::Boolean,
        }
    }

    /// The kind of the value.
    #[verifier::when_used_as_spec(spec_type_kind)]
    pub fn type_kind(&self) -> (kind: TagValueTypeKind)
        ensures
            kind == self.spec_type_kind(),
    {
        match self {
            FilePrepareReqBodyTagValue::String(_) => TagValueTypeKind::String,
            FilePrepareReqBodyTagValue::Integer(_) => TagValueTypeKind::Integer,
            FilePrepareReqBodyTagValue::Boolean(_) => TagValueTypeKind::Boolean,
        }
    }
}

/// One tag of a request: the template it follows and the value it carries, if any.
#[derive(Debug, Clone, PartialEq, Eq, Hash)]
pub struct FilePrepareReqBodyTag {
    pub template_uuid: u128,
    pub value: Option<FilePrepareReqBodyTagValue>,
}

/// The request to prepare a file.
#[derive(Debug, Clone, PartialEq, Eq, Hash)]
pub struct FilePrepareReqBody {
    pub name: String,
    pub tags: Vec<FilePrepareReqBodyTag>,
}

/// The answer to a request that was accepted: the identity of the new file.
#[derive(Debug, Clone, Copy, PartialEq, Eq, Hash)]
pub struct FilePrepareRes {
    pub uuid: u128,
}

/// Why a request to prepare a file was turned down. `P` and `D` are the failures of the
/// connection pool and of the relational store.
#[derive(Debug)]
pub enum ErrRes<P, D> {
    PoolError(P),
    DieselError(D),
    FilenameTooShort(String),
    DuplicatedTagTemplate(u128),
    InvalidTagTemplate(u128),
    ExtraTagValue(u128, TagValueTypeKind),
    MissingTagValue(u128, TagValueTypeKind),
    InvalidTagValue(u128, TagValueTypeKind, TagValueTypeKind),
}

impl<P, D> IntoStatus for ErrRes<P, D> {
    /// A failure of the pool or the store is a failure of the service; every other variant
    /// is a request that cannot be processed.
    open spec fn status(&self) -> Status {
        match self {
            ErrRes::PoolError(_) => Status::InternalServerError,
            ErrRes::DieselError(_) => Status::InternalServerError,
            _ => Status::UnprocessableEntity,
        }
    }

    fn into_status(&self) -> (status: Status) {
        match self {
            ErrRes::PoolError(_) => Status::InternalServerError,
            ErrRes::DieselError(_) => Status::InternalServerError,
            ErrRes::FilenameTooShort(_) => Status::UnprocessableEntity,
            ErrRes::DuplicatedTagTemplate(_) => Status::UnprocessableEntity,
            ErrRes::InvalidTagTemplate(_) => Status::UnprocessableEntity,
            ErrRes::ExtraTagValue(_, _) => Status::UnprocessableEntity,
            ErrRes::MissingTagValue(_, _) => Status::UnprocessableEntity,
            ErrRes::InvalidTagValue(_, _, _) => Status::UnprocessableEntity,
        }
    }
}

/// A message about one tag template: the words before its identity, the identity in
/// backquotes, and the words after.
pub open spec fn about_template(before: Seq<char>, uuid: u128, after: Seq<char>) -> Seq<char> {
    before + "`"@ + canonical_text(uuid) + "`"@ + after
}

/// Starts a message about the tag template `uuid`.
pub(crate) fn say_about_template(before: &str, uuid: u128, after: &str) -> (text: String)
    ensures
        text@ == about_template(before@, uuid, after@),
{
    let mut text = String::from_str(before);
    text.append("`");
    let id = uuid_text(uuid);
    text.append(id.as_str());
    text.append("`");
    text.append(after);
    text
}

impl<P, D> ErrRes<P, D> {
    /// What the failure says of itself.
    pub open spec fn spec_message(&self) -> Seq<char> {
        match self {
            ErrRes::PoolError(_) => "internal server error"@,
            ErrRes::DieselError(_) => "internal server error"@,
            ErrRes::FilenameTooShort(name) => "filename `"@ + name@ + "` is too short"@,
            ErrRes::DuplicatedTagTemplate(uuid) => about_template(
                "tag template "@,
                *uuid,
                " is duplicated"@,
            ),
            ErrRes::InvalidTagTemplate(uuid) => about_template(
                "tag template "@,
                *uuid,
                " does not exist"@,
            ),
            ErrRes::ExtraTagValue(uuid, supplied) => about_template(
                "tag template "@,
                *uuid,
                " does not accept any values, but a value of type `"@,
            ) + supplied.spec_name() + "` was supplied"@,
            ErrRes::MissingTagValue(uuid, declared) => about_template(
                "tag template "@,
                *uuid,
                " requires a value of type `"@,
            ) + declared.spec_name() + "` but was not met"@,
            ErrRes::InvalidTagValue(uuid, declared, supplied) => about_template(
                "tag template "@,
                *uuid,
                " expects a value of type `"@,
            ) + declared.spec_name() + "`, but a value of type `"@ + supplied.spec_name()
                + "` was supplied"@,
        }
    }

    /// What the failure says of itself.
    pub fn message(&self) -> (text: String)
        ensures
            text@ == self.spec_message(),
    {
        match self {
            ErrRes::PoolError(_) => String::from_str("internal server error"),
            ErrRes::DieselError(_) => String::from_str("internal server error"),
            ErrRes::FilenameTooShort(name) => {
                let mut text = String::from_str("filename `");
                text.append(name.as_str());
                text.append("` is too short");
                text
            },
            ErrRes::DuplicatedTagTemplate(uuid) => say_about_template(
                "tag template ",
                *uuid,
                " is duplicated",
            ),
            ErrRes::InvalidTagTemplate(uuid) => say_about_template(
                "tag template ",
                *uuid,
                " does not exist",
            ),
            ErrRes::ExtraTagValue(uuid, supplied) => {
                let mut text = say_about_template(
                    "tag template ",
                    *uuid,
                    " does not accept any values, but a value of type `",
                );
                text.append(supplied.name());
                text.append("` was supplied");
                text
            },
            ErrRes::MissingTagValue(uuid, declared) => {
                let mut text = say_about_template(
                    "tag template ",
                    *uuid,
                    " requires a value of type `",
                );
                text.append(declared.name());
                text.append("` but was not met");
                text
            },
            ErrRes::InvalidTagValue(uuid, declared, supplied) => {
                let mut text = say_about_template(
                    "tag template ",
                    *uuid,
                    " expects a value of type `",
                );
                text.append(declared.name());
                text.append("`, but a value of type `");
                text.append(supplied.name());
                text.append("` was supplied");
                text
            },
        }
    }
}

impl Tagged for FilePrepareReqBodyTag {
    open spec fn template(&self) -> u128 {
        self.template_uuid
    }

    fn template_uuid(&self) -> (id: u128) {
        self.template_uuid
    }
}

impl FilePrepareReqBody {
    /// Checks the request before anything is looked up, and puts its tags in the order of
    /// their template identities.
    ///
    /// An empty name is turned down with `FilenameTooShort`. If a template identity occurs
    /// twice among the tags, the request is turned down with `DuplicatedTagTemplate`, which
    /// names the smallest such identity. Otherwise the tags are the same as before, in
    /// strictly rising order of their templates.
    pub fn check<P, D>(&mut self) -> (checked: Result<(), ErrRes<P, D>>)
        ensures
            final(self).name == old(self).name,
            old(self).name@.len() == 0 ==> checked == Err::<(), ErrRes<P, D>>(
                ErrRes::FilenameTooShort(old(self).name),
            ) && final(self).tags == old(self).tags,
            old(self).name@.len() > 0 ==> same_items(old(self).tags@, final(self).tags@)
                && is_rising(template_ids(final(self).tags@)),
            old(self).name@.len() > 0 ==> match checked {
                Ok(_) => {
                    &&& is_strictly_rising(template_ids(final(self).tags@))
                    &&& forall|id: u128| !occurs_twice(template_ids(old(self).tags@), id)
                },
                Err(ErrRes::DuplicatedTagTemplate(id)) => {
                    &&& occurs_twice(template_ids(old(self).tags@), id)
                    &&& forall|other: u128|
                        occurs_twice(template_ids(old(self).tags@), other) ==> id <= other
                },
                Err(_) => false,
            },
    {
        if self.name.as_str().is_empty() {
            return Err(ErrRes::FilenameTooShort(self.name.clone()));
        }
        match order_by_template(&mut self.tags) {
            Some(id) => Err(ErrRes::DuplicatedTagTemplate(id)),
            None => Ok(()),
        }
    }
}

/// What is wrong with a tag, given the templates that were found for the request; `None`
/// where the tag is in order.
///
/// A tag whose template was not found names a template that does not exist. A template that
/// declares a kind wants a value of that kind: none is a missing value, one of another kind
/// an invalid value. A template that declares no kind wants no value.
pub open spec fn tag_problem<P, D>(
    tag: FilePrepareReqBodyTag,
    templates: Seq<TagTemplateCompact>,
) -> Option<ErrRes<P, D>> {
    match template_of(templates, tag.template_uuid) {
        None => Some(ErrRes::InvalidTagTemplate(tag.template_uuid)),
        Some(template) => match (template.value_type, tag.value) {
            (Some(declared), Some(value)) => if declared != value.spec_type_kind() {
                Some(ErrRes::InvalidTagValue(template.uuid, declared, value.spec_type_kind()))
            } else {
                None
            },
            (Some(declared), None) => Some(ErrRes::MissingTagValue(template.uuid, declared)),
            (None, Some(value)) => Some(ErrRes::ExtraTagValue(template.uuid, value.spec_type_kind())),
            (None, None) => None,
        },
    }
}

/// Checks one tag against the templates that were found.
pub fn check_tag<P, D>(
    tag: &FilePrepareReqBodyTag,
    templates: &Vec<TagTemplateCompact>,
) -> (checked: Result<(), ErrRes<P, D>>)
    ensures
        match checked {
            Ok(_) => tag_problem::<P, D>(*tag, templates@) is None,
            Err(problem) => tag_problem::<P, D>(*tag, templates@) == Some(problem),
        },
{
    match find_template(templates, tag.template_uuid) {
        None => Err(ErrRes::InvalidTagTemplate(tag.template_uuid)),
        Some(template) => match template.value_type {
            Some(declared) => match &tag.value {
                Some(value) => {
                    let kind = value.type_kind();
                    if declared != kind {
                        Err(ErrRes::InvalidTagValue(template.uuid, declared, kind))
                    } else {
                        Ok(())
                    }
                },
                None => Err(ErrRes::MissingTagValue(template.uuid, declared)),
            },
            None => match &tag.value {
                Some(value) => Err(ErrRes::ExtraTagValue(template.uuid, value.type_kind())),
                None => Ok(()),
            },
        },
    }
}

/// Checks the tags of a request, in their order, against the templates that were found for
/// them. The first tag that is not in order decides the failure; the request passes only if
/// every tag is in order.
pub fn validate_tags<P, D>(
    tags: &Vec<FilePrepareReqBodyTag>,
    templates: &Vec<TagTemplateCompact>,
) -> (checked: Result<(), ErrRes<P, D>>)
    ensures
        match checked {
            Ok(_) => forall|k: int|
                0 <= k < tags@.len() ==> tag_problem::<P, D>(#[trigger] tags@[k], templates@)
                    is None,
            Err(problem) => exists|k: int|
                {
                    &&& 0 <= k < tags@.len()
                    &&& tag_problem::<P, D>(#[trigger] tags@[k], templates@) == Some(problem)
                    &&& forall|j: int|
                        0 <= j < k ==> tag_problem::<P, D>(#[trigger] tags@[j], templates@)
                            is None
                },
        },
{
    let mut index: usize = 0;
    while index < tags.len()
        invariant
            index <= tags.len(),
            forall|j: int|
                0 <= j < index ==> tag_problem::<P, D>(#[trigger] tags@[j], templates@) is None,
        decreases tags.len() - index,
    {
        match check_tag::<P, D>(&tags[index], templates) {
            Ok(_) => {},
            Err(problem) => {
                assert(tag_problem::<P, D>(tags@[index as int], templates@) == Some(problem));
                return Err(problem);
            },
        }
        index = index + 1;
    }
    Ok(())
}

/// A tag as the relational store keeps it: the template and the file it joins, and one slot
/// for each kind of value.
#[derive(Debug, Clone, PartialEq, Eq, Hash)]
pub struct TagRow {
    pub template_uuid: u128,
    pub file_uuid: u128,
    pub value_string: Option<String>,
    pub value_integer: Option<i64>,
    pub value_boolean: Option<bool>,
}

impl TagRow {
    /// The kind of the slot that is filled; `None` where no slot is.
    pub open spec fn kind(&self) -> Option<TagValueTypeKind> {
        if self.value_string is Some {
            Some(TagValueTypeKind::String)
        } else if self.value_integer is Some {
            Some(TagValueTypeKind::Integer)
        } else if self.value_boolean is Some {
            Some(TagValueTypeKind::Boolean)
        } else {
            None
        }
    }

    /// At most one slot is filled.
    pub open spec fn wf(&self) -> bool {
        &&& self.value_string is Some ==> self.value_integer is None && self.value_boolean is None
        &&& self.value_integer is Some ==> self.value_boolean is None
    }
}

/// The row that stores `tag` for the file `file_uuid`: the value goes to the slot of its
/// kind, and the other slots stay empty.
pub open spec fn row_of(file_uuid: u128, tag: FilePrepareReqBodyTag) -> TagRow {
    TagRow {
        template_uuid: tag.template_uuid,
        file_uuid,
        value_string: match tag.value {
            Some(FilePrepareReqBodyTagValue::String(text)) => Some(text),
            _ => None,
        },
        value_integer: match tag.value {
            Some(FilePrepareReqBodyTagValue::Integer(number)) => Some(number),
            _ => None,
        },
        value_boolean: match tag.value {
            Some(FilePrepareReqBodyTagValue::Boolean(flag)) => Some(flag),
            _ => None,
        },
    }
}

/// The rows to insert for a request that passed its checks: the header of the new file, and
/// one row for each tag, in the order of the tags.
pub fn plan_rows(file_uuid: u128, body: &FilePrepareReqBody) -> (rows: (FileHeader, Vec<TagRow>))
    ensures
        rows.0.uuid == file_uuid,
        rows.0.name == body.name,
        rows.1@.len() == body.tags@.len(),
        forall|k: int|
            0 <= k < body.tags@.len() ==> #[trigger] rows.1@[k] == row_of(file_uuid, body.tags@[k]),
{
    let mut tag_rows: Vec<TagRow> = Vec::new();
    let mut index: usize = 0;
    while index < body.tags.len()
        invariant
            index <= body.tags.len(),
            tag_rows@.len() == index,
            forall|k: int|
                0 <= k < index ==> #[trigger] tag_rows@[k] == row_of(file_uuid, body.tags@[k]),
        decreases body.tags.len() - index,
    {
        let tag = &body.tags[index];
        let row = match &tag.value {
            Some(FilePrepareReqBodyTagValue::String(text)) => TagRow {
                template_uuid: tag.template_uuid,
                file_uuid,
                value_string: Some(text.clone()),
                value_integer: None,
                value_boolean: None,
            },
            Some(FilePrepareReqBodyTagValue::Integer(number)) => TagRow {
                template_uuid: tag.template_uuid,
                file_uuid,
                value_string: None,
                value_integer: Some(*number),
                value_boolean: None,
            },
            Some(FilePrepareReqBodyTagValue::Boolean(flag)) => TagRow {
                template_uuid: tag.template_uuid,
                file_uuid,
                value_string: None,
                value_integer: None,
                value_boolean: Some(*flag),
            },
            None => TagRow {
                template_uuid: tag.template_uuid,
                file_uuid,
                value_string: None,
                value_integer: None,
                value_boolean: None,
            },
        };
        tag_rows.push(row);
        index = index + 1;
    }
    (FileHeader { uuid: file_uuid, name: body.name.clone() }, tag_rows)
}

/// The row of a tag that passed its check fills the slot of the kind that its template
/// declares, or no slot where the template declares none; and never more than one.
pub proof fn lemma_checked_tag_agrees_with_template<P, D>(
    file_uuid: u128,
    tag: FilePrepareReqBodyTag,
    templates: Seq<TagTemplateCompact>,
)
    requires
        tag_problem::<P, D>(tag, templates) is None,
    ensures
        template_of(templates, tag.template_uuid) matches Some(template) && row_of(
            file_uuid,
            tag,
        ).kind() == template.value_type,
        row_of(file_uuid, tag).wf(),
{
}

} // verus!

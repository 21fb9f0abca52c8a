//! Plain uploads: a slot is allocated and bytes are written into it, without a commit. The
//! body is multipart and must carry exactly one file.

use crate::file_driver::{ReadFileSizeError, WriteFileError};
use crate::identity::{canonical_text, parsed_identity, uuid_parse, uuid_text};
use crate::multipart::{framing_of, FramingError, SingleFileField};
use crate::response::{IntoStatus, Status};
use crate::stagings::invalid_offset_text;
use crate::text::push_decimal;
use vstd::prelude::*;
use vstd::string::StringExecFns;

verus! {

/// The answer to the allocation of an upload.
#[derive(Debug, Clone, Copy, PartialEq, Eq, Hash)]
pub struct NewUploadResponse {
    pub uuid: u128,
}

/// The upload that a query names.
#[derive(Debug, Clone, Copy, PartialEq, Eq, Hash)]
pub struct GetUploadParam {
    pub uuid: u128,
}

/// Why the parameter of a query could not be read.
#[derive(Clone, Copy, Debug, PartialEq, Eq, Structural, Hash)]
pub enum GetUploadParamRejection {
    InvalidUuid,
}

/// The upload that a write names.
#[derive(Debug, Clone, Copy, PartialEq, Eq, Hash)]
pub struct PutUploadParam {
    pub uuid: u128,
}

/// Why the parameter of a write could not be read.
#[derive(Clone, Copy, Debug, PartialEq, Eq, Structural, Hash)]
pub enum PutUploadParamRejection {
    InvalidUuid,
}

impl GetUploadParam {
    /// Reads the parameter from the text in the path of the request.
    pub fn parse(text: &str) -> (param: Result<Self, GetUploadParamRejection>)
        ensures
            param == (match parsed_identity(text@) {
                Some(uuid) => Ok(GetUploadParam { uuid }),
                None => Err(GetUploadParamRejection::InvalidUuid),
            }),
    {
        match uuid_parse(text) {
            Some(uuid) => Ok(GetUploadParam { uuid }),
            None => Err(GetUploadParamRejection::InvalidUuid),
        }
    }
}

impl PutUploadParam {
    /// Reads the parameter from the text in the path of the request.
    pub fn parse(text: &str) -> (param: Result<Self, PutUploadParamRejection>)
        ensures
            param == (match parsed_identity(text@) {
                Some(uuid) => Ok(PutUploadParam { uuid }),
                None => Err(PutUploadParamRejection::InvalidUuid),
            }),
    {
        match uuid_parse(text) {
            Some(uuid) => Ok(PutUploadParam { uuid }),
            None => Err(PutUploadParamRejection::InvalidUuid),
        }
    }
}

impl IntoStatus for GetUploadParamRejection {
    open spec fn status(&self) -> Status {
        Status::BadRequest
    }

    fn into_status(&self) -> (status: Status) {
        Status::BadRequest
    }
}

impl IntoStatus for PutUploadParamRejection {
    open spec fn status(&self) -> Status {
        Status::BadRequest
    }

    fn into_status(&self) -> (status: Status) {
        Status::BadRequest
    }
}

impl GetUploadParamRejection {
    /// What the rejection says of itself.
    pub fn message(&self) -> (text: String)
        ensures
            text@ == "invalid uuid"@,
    {
        String::from_str("invalid uuid")
    }
}

impl PutUploadParamRejection {
    /// What the rejection says of itself.
    pub fn message(&self) -> (text: String)
        ensures
            text@ == "invalid uuid"@,
    {
        String::from_str("invalid uuid")
    }
}

/// The answer to a query for an upload.
#[derive(Debug, Clone, Copy, PartialEq, Eq, Hash)]
pub struct GetUploadResponse {
    pub uuid: u128,
    pub uploaded_size: u64,
    pub created_at: chrono::NaiveDateTime,
}

impl GetUploadResponse {
    /// The answer for an upload that was allocated at `created_at`, given the size of its
    /// object. An upload into which nothing was written yet has no object: its size is zero.
    pub fn new(uuid: u128, size: Option<u64>, created_at: chrono::NaiveDateTime) -> (response:
        Self)
        ensures
            response.uuid == uuid,
            response.created_at == created_at,
            response.uploaded_size == (match size {
                Some(len) => len,
                None => 0,
            }),
    {
        GetUploadResponse {
            uuid,
            uploaded_size: match size {
                Some(len) => len,
                None => 0,
            },
            created_at,
        }
    }
}

/// The answer to a write into an upload.
#[derive(Debug, Clone, PartialEq, Eq, Hash)]
pub struct PutUploadResponse {
    pub uuid: u128,
    pub file_name: String,
    pub uploaded_size: u64,
}

/// Why an upload could not be allocated.
#[derive(Debug)]
pub enum NewUploadError<P, D> {
    R2d2Error(P),
    DieselError(D),
}

/// Why an upload could not be queried.
#[derive(Debug)]
pub enum GetUploadError<P, D> {
    R2d2Error(P),
    DieselError(D),
    NotFound { uuid: u128 },
    FileDriverError(ReadFileSizeError),
}

/// Why a write into an upload failed. `M` is the failure of the multipart body.
#[derive(Debug)]
pub enum PutUploadError<P, D, M> {
    R2d2Error(P),
    DieselError(D),
    NotFound { uuid: u128 },
    MultipartError(M),
    MultipleFieldFound,
    InvalidFileName,
    NoFieldFound,
    FileDriverError(WriteFileError<M>),
}

impl<P, D> IntoStatus for NewUploadError<P, D> {
    open spec fn status(&self) -> Status {
        Status::InternalServerError
    }

    fn into_status(&self) -> (status: Status) {
        match self {
            NewUploadError::R2d2Error(_) => Status::InternalServerError,
            NewUploadError::DieselError(_) => Status::InternalServerError,
        }
    }
}

impl<P, D> IntoStatus for GetUploadError<P, D> {
    /// An upload that does not exist is not found; everything else is a failure of the
    /// service.
    open spec fn status(&self) -> Status {
        match self {
            GetUploadError::NotFound { .. } => Status::NotFound,
            _ => Status::InternalServerError,
        }
    }

    fn into_status(&self) -> (status: Status) {
        match self {
            GetUploadError::R2d2Error(_) => Status::InternalServerError,
            GetUploadError::DieselError(_) => Status::InternalServerError,
            GetUploadError::NotFound { .. } => Status::NotFound,
            GetUploadError::FileDriverError(_) => Status::InternalServerError,
        }
    }
}

impl<P, D, M> IntoStatus for PutUploadError<P, D, M> {
    /// An upload that does not exist is not found. A body that cannot be read as multipart,
    /// or that does not carry exactly one file, is a bad request. An offset past the end of
    /// what was written cannot be processed. Everything else is a failure of the service.
    open spec fn status(&self) -> Status {
        match self {
            PutUploadError::NotFound { .. } => Status::NotFound,
            PutUploadError::MultipartError(_) => Status::BadRequest,
            PutUploadError::MultipleFieldFound => Status::BadRequest,
            PutUploadError::InvalidFileName => Status::BadRequest,
            PutUploadError::NoFieldFound => Status::BadRequest,
            PutUploadError::FileDriverError(inner) => inner.status(),
            _ => Status::InternalServerError,
        }
    }

    fn into_status(&self) -> (status: Status) {
        match self {
            PutUploadError::R2d2Error(_) => Status::InternalServerError,
            PutUploadError::DieselError(_) => Status::InternalServerError,
            PutUploadError::NotFound { .. } => Status::NotFound,
            PutUploadError::MultipartError(_) => Status::BadRequest,
            PutUploadError::MultipleFieldFound => Status::BadRequest,
            PutUploadError::InvalidFileName => Status::BadRequest,
            PutUploadError::NoFieldFound => Status::BadRequest,
            PutUploadError::FileDriverError(inner) => inner.into_status(),
        }
    }
}

/// What is said of an upload that does not exist.
pub open spec fn upload_not_found_text(uuid: u128) -> Seq<char> {
    "no upload was found with uuid `"@ + canonical_text(uuid) + "`"@
}

/// Says that the upload `uuid` does not exist.
fn upload_not_found(uuid: u128) -> (text: String)
    ensures
        text@ == upload_not_found_text(uuid),
{
    let mut text = String::from_str("no upload was found with uuid `");
    let id = uuid_text(uuid);
    text.append(id.as_str());
    text.append("`");
    text
}

impl<P, D> NewUploadError<P, D> {
    /// What the failure says of itself.
    pub fn message(&self) -> (text: String)
        ensures
            text@ == "database error"@,
    {
        String::from_str("database error")
    }
}

impl<P, D> GetUploadError<P, D> {
    /// What the failure says of itself.
    pub open spec fn spec_message(&self) -> Seq<char> {
        match self {
            GetUploadError::R2d2Error(_) => "database error"@,
            GetUploadError::DieselError(_) => "database error"@,
            GetUploadError::NotFound { uuid } => upload_not_found_text(*uuid),
            GetUploadError::FileDriverError(_) => "internal error"@,
        }
    }

    /// What the failure says of itself.
    pub fn message(&self) -> (text: String)
        ensures
            text@ == self.spec_message(),
    {
        match self {
            GetUploadError::R2d2Error(_) => String::from_str("database error"),
            GetUploadError::DieselError(_) => String::from_str("database error"),
            GetUploadError::NotFound { uuid } => upload_not_found(*uuid),
            GetUploadError::FileDriverError(_) => String::from_str("internal error"),
        }
    }
}

impl<P, D, M> PutUploadError<P, D, M> {
    /// What the failure says of itself.
    pub open spec fn spec_message(&self) -> Seq<char> {
        match self {
            PutUploadError::R2d2Error(_) => "database error"@,
            PutUploadError::DieselError(_) => "database error"@,
            PutUploadError::NotFound { uuid } => upload_not_found_text(*uuid),
            PutUploadError::MultipartError(_) => "invalid multipart request"@,
            PutUploadError::MultipleFieldFound =>
                "multiple fields were found; only one field is allowed"@,
            PutUploadError::InvalidFileName => "invalid filename; it must be a valid filename"@,
            PutUploadError::NoFieldFound => "no field was found; a field is required"@,
            PutUploadError::FileDriverError(_) => "internal error"@,
        }
    }

    /// What the failure says of itself.
    pub fn message(&self) -> (text: String)
        ensures
            text@ == self.spec_message(),
    {
        match self {
            PutUploadError::R2d2Error(_) => String::from_str("database error"),
            PutUploadError::DieselError(_) => String::from_str("database error"),
            PutUploadError::NotFound { uuid } => upload_not_found(*uuid),
            PutUploadError::MultipartError(_) => String::from_str("invalid multipart request"),
            PutUploadError::MultipleFieldFound => String::from_str(
                "multiple fields were found; only one field is allowed",
            ),
            PutUploadError::InvalidFileName => String::from_str(
                "invalid filename; it must be a valid filename",
            ),
            PutUploadError::NoFieldFound => String::from_str(
                "no field was found; a field is required",
            ),
            PutUploadError::FileDriverError(_) => String::from_str("internal error"),
        }
    }

    /// What a client is told whatever the build: an offset past the end is always spelled
    /// out with both numbers, since the client needs them to resume.
    pub open spec fn fixed_text(&self) -> Option<Seq<char>> {
        match self {
            PutUploadError::FileDriverError(WriteFileError::InvalidOffset { offset, file_size }) =>
                Some(invalid_offset_text(*offset, *file_size)),
            _ => None,
        }
    }

    /// What a client is told whatever the build, where the failure fixes that.
    pub fn fixed_message(&self) -> (text: Option<String>)
        ensures
            match text {
                Some(fixed) => self.fixed_text() == Some(fixed@),
                None => self.fixed_text() is None,
            },
    {
        match self {
            PutUploadError::FileDriverError(WriteFileError::InvalidOffset { offset, file_size }) => {
                let mut fixed = String::from_str(
                    "invalid offset; expected offset to be less than or equal to file size; offset: ",
                );
                push_decimal(&mut fixed, *offset);
                fixed.append(", file size: ");
                push_decimal(&mut fixed, *file_size);
                Some(fixed)
            },
            _ => None,
        }
    }

    /// The failure that a fault in the framing of the body becomes.
    pub fn from_framing(fault: FramingError) -> (failure: Self)
        ensures
            failure == (match fault {
                FramingError::MultipleFieldFound => PutUploadError::<P, D, M>::MultipleFieldFound,
                FramingError::InvalidFileName => PutUploadError::<P, D, M>::InvalidFileName,
                FramingError::NoFieldFound => PutUploadError::<P, D, M>::NoFieldFound,
            }),
    {
        match fault {
            FramingError::MultipleFieldFound => PutUploadError::MultipleFieldFound,
            FramingError::InvalidFileName => PutUploadError::InvalidFileName,
            FramingError::NoFieldFound => PutUploadError::NoFieldFound,
        }
    }
}

/// The answer to a write into the upload `uuid`, once the body has ended: the name and the
/// size of the one file that it carried, or `NoFieldFound` where it carried none.
pub fn put_upload<P, D, M>(uuid: u128, fields: SingleFileField) -> (response: Result<
    PutUploadResponse,
    PutUploadError<P, D, M>,
>)
    requires
        fields.wf(),
        !fields.is_writing(),
    ensures
        match response {
            Ok(answer) => {
                &&& answer.uuid == uuid
                &&& framing_of(fields.seen()) == Ok::<Seq<char>, FramingError>(answer.file_name@)
                &&& fields.size() == Some(answer.uploaded_size)
            },
            Err(failure) => {
                &&& framing_of(fields.seen()) is Err
                &&& failure == PutUploadError::<P, D, M>::NoFieldFound
            },
        },
{
    match fields.finish() {
        Ok((file_name, uploaded_size)) => Ok(PutUploadResponse { uuid, file_name, uploaded_size }),
        Err(fault) => Err(PutUploadError::from_framing(fault)),
    }
}

} // verus!

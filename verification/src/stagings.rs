//! Staging areas: a slot is allocated, bytes are staged into it, and the staged object is
//! committed as a file. The commit is a conversation like the upload: the session decides,
//! and whoever holds the database, the multipart body and the object store carries out.

use crate::file_driver::{
    CommitStagingIntoFileError, FileInfo, ReadFileInfoError, ReadFileSizeError, WriteFileError,
};
use crate::identity::{canonical_text, parsed_identity, uuid_parse, uuid_text};
use crate::multipart::{framing_of, FramingError};
use crate::records::{hash_column, size_column};
use crate::response::{IntoStatus, Status};
use crate::text::{decimal_text, push_decimal};
use vstd::pervasive::unreached;
use vstd::prelude::*;
use vstd::string::StringExecFns;

verus! {

/// The answer to the allocation of a staging area.
#[derive(Debug, Clone, Copy, PartialEq, Eq, Hash)]
pub struct NewStagingResponse {
    pub uuid: u128,
}

/// The staging area that a query names.
#[derive(Debug, Clone, Copy, PartialEq, Eq, Hash)]
pub struct GetStagingParam {
    pub uuid: u128,
}

/// Why the parameter of a query could not be read.
#[derive(Clone, Copy, Debug, PartialEq, Eq, Structural, Hash)]
pub enum GetStagingParamRejection {
    InvalidUuid,
}

/// The staging area that an upload names.
#[derive(Debug, Clone, Copy, PartialEq, Eq, Hash)]
pub struct PutStagingParam {
    pub uuid: u128,
}

/// Why the parameter of an upload could not be read.
#[derive(Clone, Copy, Debug, PartialEq, Eq, Structural, Hash)]
pub enum PutStagingParamRejection {
    InvalidUuid,
}

impl GetStagingParam {
    /// Reads the parameter from the text in the path of the request.
    pub fn parse(text: &str) -> (param: Result<Self, GetStagingParamRejection>)
        ensures
            param == (match parsed_identity(text@) {
                Some(uuid) => Ok(GetStagingParam { uuid }),
                None => Err(GetStagingParamRejection::InvalidUuid),
            }),
    {
        match uuid_parse(text) {
            Some(uuid) => Ok(GetStagingParam { uuid }),
            None => Err(GetStagingParamRejection::InvalidUuid),
        }
    }
}

impl PutStagingParam {
    /// Reads the parameter from the text in the path of the request.
    pub fn parse(text: &str) -> (param: Result<Self, PutStagingParamRejection>)
        ensures
            param == (match parsed_identity(text@) {
                Some(uuid) => Ok(PutStagingParam { uuid }),
                None => Err(PutStagingParamRejection::InvalidUuid),
            }),
    {
        match uuid_parse(text) {
            Some(uuid) => Ok(PutStagingParam { uuid }),
            None => Err(PutStagingParamRejection::InvalidUuid),
        }
    }
}

impl IntoStatus for GetStagingParamRejection {
    open spec fn status(&self) -> Status {
        Status::BadRequest
    }

    fn into_status(&self) -> (status: Status) {
        Status::BadRequest
    }
}

impl IntoStatus for PutStagingParamRejection {
    open spec fn status(&self) -> Status {
        Status::BadRequest
    }

    fn into_status(&self) -> (status: Status) {
        Status::BadRequest
    }
}

impl GetStagingParamRejection {
    /// What the rejection says of itself.
    pub fn message(&self) -> (text: String)
        ensures
            text@ == "invalid uuid"@,
    {
        String::from_str("invalid uuid")
    }
}

impl PutStagingParamRejection {
    /// What the rejection says of itself.
    pub fn message(&self) -> (text: String)
        ensures
            text@ == "invalid uuid"@,
    {
        String::from_str("invalid uuid")
    }
}

/// The answer to a query for a staging area.
#[derive(Debug, Clone, Copy, PartialEq, Eq, Hash)]
pub struct GetStagingResponse {
    pub uuid: u128,
    pub staged_size: u64,
    pub staged_at: chrono::NaiveDateTime,
}

impl GetStagingResponse {
    /// The answer for a staging area that was allocated at `staged_at`, given the size of
    /// its staged object. An area into which nothing was staged yet has no object: its
    /// staged size is zero.
    pub fn new(uuid: u128, size: Option<u64>, staged_at: chrono::NaiveDateTime) -> (response:
        Self)
        ensures
            response.uuid == uuid,
            response.staged_at == staged_at,
            response.staged_size == (match size {
                Some(len) => len,
                None => 0,
            }),
    {
        GetStagingResponse {
            uuid,
            staged_size: match size {
                Some(len) => len,
                None => 0,
            },
            staged_at,
        }
    }
}

/// The answer to an upload into a staging area: the file that the staged object became.
#[derive(Debug, Clone, PartialEq, Eq, Hash)]
pub struct PutStagingResponse {
    pub uuid: u128,
    pub name: String,
    pub mime: &'static str,
    pub size: u64,
    pub hash: u32,
    pub uploaded_at: chrono::NaiveDateTime,
}

/// Why a staging area could not be allocated.
#[derive(Debug)]
pub enum NewStagingError<P, D> {
    PoolError(P),
    DieselError(D),
}

/// Why a staging area could not be queried.
#[derive(Debug)]
pub enum GetStagingError<P, D> {
    PoolError(P),
    DieselError(D),
    NotFound { uuid: u128 },
    FileDriverError(ReadFileSizeError),
}

/// Why an upload into a staging area failed. `M` is the failure of the multipart body.
#[derive(Debug)]
pub enum PutStagingError<P, D, M> {
    PoolError(P),
    DieselError(D),
    NotFound { uuid: u128 },
    MultipartError(M),
    MultipleFieldFound,
    InvalidFileName,
    NoFieldFound,
    FileDriverError(WriteFileError<M>),
    ReadStagingInfoError(ReadFileInfoError),
    CommitStagingIntoFileError(CommitStagingIntoFileError),
}

impl<P, D> IntoStatus for NewStagingError<P, D> {
    open spec fn status(&self) -> Status {
        Status::InternalServerError
    }

    fn into_status(&self) -> (status: Status) {
        match self {
            NewStagingError::PoolError(_) => Status::InternalServerError,
            NewStagingError::DieselError(_) => Status::InternalServerError,
        }
    }
}

impl<P, D> NewStagingError<P, D> {
    /// What the failure says of itself.
    pub fn message(&self) -> (text: String)
        ensures
            text@ == "database error"@,
    {
        String::from_str("database error")
    }
}

impl<P, D> IntoStatus for GetStagingError<P, D> {
    /// A staging area that does not exist is not found; everything else is a failure of the
    /// service.
    open spec fn status(&self) -> Status {
        match self {
            GetStagingError::NotFound { .. } => Status::NotFound,
            _ => Status::InternalServerError,
        }
    }

    fn into_status(&self) -> (status: Status) {
        match self {
            GetStagingError::PoolError(_) => Status::InternalServerError,
            GetStagingError::DieselError(_) => Status::InternalServerError,
            GetStagingError::NotFound { .. } => Status::NotFound,
            GetStagingError::FileDriverError(_) => Status::InternalServerError,
        }
    }
}

/// What is said of a staging area that does not exist.
pub open spec fn staging_not_found_text(uuid: u128) -> Seq<char> {
    "staging was not found with uuid `"@ + canonical_text(uuid) + "`"@
}

/// Says that the staging area `uuid` does not exist.
fn staging_not_found(uuid: u128) -> (text: String)
    ensures
        text@ == staging_not_found_text(uuid),
{
    let mut text = String::from_str("staging was not found with uuid `");
    let id = uuid_text(uuid);
    text.append(id.as_str());
    text.append("`");
    text
}

impl<P, D> GetStagingError<P, D> {
    /// What the failure says of itself.
    pub open spec fn spec_message(&self) -> Seq<char> {
        match self {
            GetStagingError::PoolError(_) => "database error"@,
            GetStagingError::DieselError(_) => "database error"@,
            GetStagingError::NotFound { uuid } => staging_not_found_text(*uuid),
            GetStagingError::FileDriverError(_) => "internal error"@,
        }
    }

    /// What the failure says of itself.
    pub fn message(&self) -> (text: String)
        ensures
            text@ == self.spec_message(),
    {
        match self {
            GetStagingError::PoolError(_) => String::from_str("database error"),
            GetStagingError::DieselError(_) => String::from_str("database error"),
            GetStagingError::NotFound { uuid } => staging_not_found(*uuid),
            GetStagingError::FileDriverError(_) => String::from_str("internal error"),
        }
    }
}

impl<P, D, M> IntoStatus for PutStagingError<P, D, M> {
    /// A staging area that does not exist is not found. A body that cannot be read as
    /// multipart, or that does not carry exactly one file, is a bad request. An offset past
    /// the end of what is staged cannot be processed. Everything else is a failure of the
    /// service.
    open spec fn status(&self) -> Status {
        match self {
            PutStagingError::NotFound { .. } => Status::NotFound,
            PutStagingError::MultipartError(_) => Status::BadRequest,
            PutStagingError::MultipleFieldFound => Status::BadRequest,
            PutStagingError::InvalidFileName => Status::BadRequest,
            PutStagingError::NoFieldFound => Status::BadRequest,
            PutStagingError::FileDriverError(inner) => inner.status(),
            _ => Status::InternalServerError,
        }
    }

    fn into_status(&self) -> (status: Status) {
        match self {
            PutStagingError::PoolError(_) => Status::InternalServerError,
            PutStagingError::DieselError(_) => Status::InternalServerError,
            PutStagingError::NotFound { .. } => Status::NotFound,
            PutStagingError::MultipartError(_) => Status::BadRequest,
            PutStagingError::MultipleFieldFound => Status::BadRequest,
            PutStagingError::InvalidFileName => Status::BadRequest,
            PutStagingError::NoFieldFound => Status::BadRequest,
            PutStagingError::FileDriverError(inner) => match inner {
                WriteFileError::CreateFile(_) => Status::InternalServerError,
                WriteFileError::ReadFileMetadata(_) => Status::InternalServerError,
                WriteFileError::InvalidOffset { .. } => Status::UnprocessableEntity,
                WriteFileError::ReadFromStream(_) => Status::InternalServerError,
                WriteFileError::WriteToFile(_) => Status::InternalServerError,
            },
            PutStagingError::ReadStagingInfoError(_) => Status::InternalServerError,
            PutStagingError::CommitStagingIntoFileError(_) => Status::InternalServerError,
        }
    }
}

/// What a client is told of an offset past the end of what is staged.
pub open spec fn invalid_offset_text(offset: u64, file_size: u64) -> Seq<char> {
    "invalid offset; expected offset to be less than or equal to file size; offset: "@
        + decimal_text(offset as nat) + ", file size: "@ + decimal_text(file_size as nat)
}

impl<P, D, M> PutStagingError<P, D, M> {
    /// What the failure says of itself.
    pub open spec fn spec_message(&self) -> Seq<char> {
        match self {
            PutStagingError::PoolError(_) => "database error"@,
            PutStagingError::DieselError(_) => "database error"@,
            PutStagingError::NotFound { uuid } => staging_not_found_text(*uuid),
            PutStagingError::MultipartError(_) => "invalid multipart request"@,
            PutStagingError::MultipleFieldFound =>
                "multiple fields were found; only one field is allowed"@,
            PutStagingError::InvalidFileName => "invalid filename; it must be a valid filename"@,
            PutStagingError::NoFieldFound => "no field was found; a field is required"@,
            PutStagingError::FileDriverError(_) => "internal error"@,
            PutStagingError::ReadStagingInfoError(_) => "internal error"@,
            PutStagingError::CommitStagingIntoFileError(_) => "internal error"@,
        }
    }

    /// What the failure says of itself.
    pub fn message(&self) -> (text: String)
        ensures
            text@ == self.spec_message(),
    {
        match self {
            PutStagingError::PoolError(_) => String::from_str("database error"),
            PutStagingError::DieselError(_) => String::from_str("database error"),
            PutStagingError::NotFound { uuid } => staging_not_found(*uuid),
            PutStagingError::MultipartError(_) => String::from_str("invalid multipart request"),
            PutStagingError::MultipleFieldFound => String::from_str(
                "multiple fields were found; only one field is allowed",
            ),
            PutStagingError::InvalidFileName => String::from_str(
                "invalid filename; it must be a valid filename",
            ),
            PutStagingError::NoFieldFound => String::from_str(
                "no field was found; a field is required",
            ),
            PutStagingError::FileDriverError(_) => String::from_str("internal error"),
            PutStagingError::ReadStagingInfoError(_) => String::from_str("internal error"),
            PutStagingError::CommitStagingIntoFileError(_) => String::from_str("internal error"),
        }
    }

    /// What a client is told whatever the build: an offset past the end is always spelled
    /// out with both numbers, since the client needs them to resume. For every other failure
    /// the answer is the message, or the detail where details are exposed.
    pub open spec fn fixed_text(&self) -> Option<Seq<char>> {
        match self {
            PutStagingError::FileDriverError(WriteFileError::InvalidOffset { offset, file_size }) =>
                Some(invalid_offset_text(*offset, *file_size)),
            _ => None,
        }
    }

    /// What a client is told whatever the build, where the failure fixes that.
    pub fn fixed_message(&self) -> (text: Option<String>)
        ensures
            match text {
                Some(fixed) => self.fixed_text() == Some(fixed@),
                None => self.fixed_text() is None,
            },
    {
        match self {
            PutStagingError::FileDriverError(WriteFileError::InvalidOffset { offset, file_size }) => {
                let mut fixed = String::from_str(
                    "invalid offset; expected offset to be less than or equal to file size; offset: ",
                );
                push_decimal(&mut fixed, *offset);
                fixed.append(", file size: ");
                push_decimal(&mut fixed, *file_size);
                Some(fixed)
            },
            _ => None,
        }
    }
}

/// What the session is waiting to hear about.
#[derive(Clone, Copy, Debug, PartialEq, Eq, Structural)]
pub enum StagingPhase {
    /// A connection is being checked out and a transaction opened on it.
    Connecting,
    /// The record of the staging area is being selected and locked.
    Locking,
    /// The next field of the body is being awaited.
    Fielding,
    /// The field is being written to the staged object.
    Writing,
    /// The checksum and type of the staged object are being read.
    Reading,
    /// The record of the new file is being inserted.
    Inserting,
    /// The record of the staging area is being deleted.
    Deleting,
    /// The staged object is being promoted to a committed file.
    Promoting,
    /// The transaction is being committed.
    Committing,
    /// The upload is over.
    Closed,
}

/// What the session asks for next.
#[derive(Debug)]
pub enum StagingCommand<P, D, M> {
    /// Check out a connection and open a transaction on it.
    Connect,
    /// Select the record of this staging area and lock it until the transaction ends.
    LockStaging(u128),
    /// Await the next field of the body.
    NextField,
    /// Write the field to the staged object of this area, from this offset.
    Write { uuid: u128, offset: Option<u64> },
    /// Read the checksum and the media type of the staged object of this area.
    ReadInfo(u128),
    /// Insert the record of the new file, complete, with the current time as the time of
    /// its upload, and report that time.
    InsertFile { uuid: u128, name: String, mime: &'static str, size: i64, hash: i64 },
    /// Delete the record of this staging area: it is consumed.
    DeleteStaging(u128),
    /// Move the staged object of the area to the committed object of the file.
    Promote { staging_uuid: u128, file_uuid: u128 },
    /// Commit the transaction.
    Commit,
    /// Roll the transaction back and answer with this failure.
    Abort(PutStagingError<P, D, M>),
    /// Answer with this result. The transaction, if one was opened, has ended.
    Respond(Result<PutStagingResponse, PutStagingError<P, D, M>>),
}

/// What came of a command.
#[derive(Debug)]
pub enum StagingReply<P, D, M> {
    /// A connection was checked out and a transaction opened.
    Connected,
    /// No connection could be had.
    PoolFailed(P),
    /// Whether the staging area exists.
    Staging(bool),
    /// A statement failed.
    DatabaseFailed(D),
    /// A field arrived, with this file name if it carries one.
    Field(Option<String>),
    /// The body has ended.
    NoMoreFields,
    /// The body could not be read.
    MultipartFailed(M),
    /// What the write returned.
    Written(Result<u64, WriteFileError<M>>),
    /// What reading the metadata returned.
    Info(Result<FileInfo, ReadFileInfoError>),
    /// The record of the file was inserted, with this time of upload.
    Inserted(chrono::NaiveDateTime),
    /// The record of the staging area was deleted.
    Deleted,
    /// What the promotion returned.
    Promoted(Result<(), CommitStagingIntoFileError>),
    /// The transaction was committed.
    Committed,
}

/// One upload into one staging area, which ends with the staged object committed as a file.
#[derive(Debug)]
pub struct PutStagingSession {
    pub phase: StagingPhase,
    /// The identity of the staging area.
    pub staging_uuid: u128,
    /// The identity that the file gets.
    pub file_uuid: u128,
    /// The offset that the request asked to resume from.
    pub offset: Option<u64>,
    /// The file name of the one field, once it arrived.
    pub file_name: Option<String>,
    /// The length of the staged object, once the field was written.
    pub file_size: u64,
    /// The media type of the staged object, once it was read.
    pub mime: Option<&'static str>,
    /// The checksum of the staged object, once it was read.
    pub hash: u32,
    /// The time of the upload, once the record of the file was inserted.
    pub uploaded_at: Option<chrono::NaiveDateTime>,
}

/// Whether `reply` answers the command that a session in `phase` is waiting on.
pub open spec fn answers<P, D, M>(phase: StagingPhase, reply: StagingReply<P, D, M>) -> bool {
    match phase {
        StagingPhase::Connecting => reply is Connected || reply is PoolFailed || reply
            is DatabaseFailed,
        StagingPhase::Locking => reply is Staging || reply is DatabaseFailed,
        StagingPhase::Fielding => reply is Field || reply is NoMoreFields || reply
            is MultipartFailed,
        StagingPhase::Writing => reply is Written,
        StagingPhase::Reading => reply is Info,
        StagingPhase::Inserting => reply is Inserted || reply is DatabaseFailed,
        StagingPhase::Deleting => reply is Deleted || reply is DatabaseFailed,
        StagingPhase::Promoting => reply is Promoted,
        StagingPhase::Committing => reply is Committed || reply is DatabaseFailed,
        StagingPhase::Closed => false,
    }
}

impl PutStagingSession {
    /// The session with another phase.
    pub open spec fn at(self, phase: StagingPhase) -> Self {
        PutStagingSession { phase, ..self }
    }

    /// The file names of the fields that were taken so far: none, or the one of the field
    /// that was written.
    pub open spec fn fields_taken(self) -> Seq<Option<Seq<char>>> {
        match self.file_name {
            Some(name) => seq![Some(name@)],
            None => Seq::empty(),
        }
    }

    /// The answer to an upload that went through, from what the session has gathered.
    pub open spec fn answer(self) -> PutStagingResponse
        recommends
            self.file_name is Some,
            self.mime is Some,
            self.uploaded_at is Some,
    {
        PutStagingResponse {
            uuid: self.file_uuid,
            name: self.file_name->0,
            mime: self.mime->0,
            size: self.file_size,
            hash: self.hash,
            uploaded_at: self.uploaded_at->0,
        }
    }

    /// Everything that later steps read has been gathered by the steps before.
    pub open spec fn wf(self) -> bool {
        match self.phase {
            StagingPhase::Connecting | StagingPhase::Locking => self.file_name is None,
            StagingPhase::Fielding | StagingPhase::Closed => true,
            StagingPhase::Writing | StagingPhase::Reading => self.file_name is Some,
            StagingPhase::Inserting => self.file_name is Some && self.mime is Some,
            StagingPhase::Deleting | StagingPhase::Promoting | StagingPhase::Committing =>
                self.file_name is Some && self.mime is Some && self.uploaded_at is Some,
        }
    }

    /// The decision table of the upload into a staging area: the session and the command
    /// that follow when the session hears `reply`.
    ///
    /// The body must carry exactly one field, and that field a file name: a second field, a
    /// field without a name and a body without fields each end the upload. The staged object
    /// is promoted only after the record of the file is inserted and that of the staging
    /// area deleted, so that a promotion that fails can still roll both back.
    pub open spec fn decided<P, D, M>(self, reply: StagingReply<P, D, M>) -> (
        Self,
        StagingCommand<P, D, M>,
    )
        recommends
            self.wf(),
            answers(self.phase, reply),
    {
        let closed = self.at(StagingPhase::Closed);
        match (self.phase, reply) {
            (StagingPhase::Connecting, StagingReply::Connected) => (
                self.at(StagingPhase::Locking),
                StagingCommand::LockStaging(self.staging_uuid),
            ),
            (StagingPhase::Connecting, StagingReply::PoolFailed(failure)) => (
                closed,
                StagingCommand::Respond(Err(PutStagingError::PoolError(failure))),
            ),
            (StagingPhase::Locking, StagingReply::Staging(found)) => if found {
                (self.at(StagingPhase::Fielding), StagingCommand::NextField)
            } else {
                (
                    closed,
                    StagingCommand::Abort(PutStagingError::NotFound { uuid: self.staging_uuid }),
                )
            },
            (StagingPhase::Fielding, StagingReply::Field(file_name)) => if self.file_name
                is Some {
                (closed, StagingCommand::Abort(PutStagingError::MultipleFieldFound))
            } else {
                match file_name {
                    Some(name) => (
                        PutStagingSession {
                            file_name: Some(name),
                            ..self.at(StagingPhase::Writing)
                        },
                        StagingCommand::Write { uuid: self.staging_uuid, offset: self.offset },
                    ),
                    None => (closed, StagingCommand::Abort(PutStagingError::InvalidFileName)),
                }
            },
            (StagingPhase::Fielding, StagingReply::NoMoreFields) => match self.file_name {
                Some(_) => (
                    self.at(StagingPhase::Reading),
                    StagingCommand::ReadInfo(self.staging_uuid),
                ),
                None => (closed, StagingCommand::Abort(PutStagingError::NoFieldFound)),
            },
            (StagingPhase::Fielding, StagingReply::MultipartFailed(failure)) => (
                closed,
                StagingCommand::Abort(PutStagingError::MultipartError(failure)),
            ),
            (StagingPhase::Writing, StagingReply::Written(Ok(size))) => (
                PutStagingSession { file_size: size, ..self.at(StagingPhase::Fielding) },
                StagingCommand::NextField,
            ),
            (StagingPhase::Writing, StagingReply::Written(Err(failure))) => (
                closed,
                StagingCommand::Abort(PutStagingError::FileDriverError(failure)),
            ),
            (StagingPhase::Reading, StagingReply::Info(Ok(info))) => (
                PutStagingSession {
                    mime: Some(info.mime),
                    hash: info.hash,
                    ..self.at(StagingPhase::Inserting)
                },
                StagingCommand::InsertFile {
                    uuid: self.file_uuid,
                    name: self.file_name->0,
                    mime: info.mime,
                    size: size_column(self.file_size),
                    hash: hash_column(info.hash),
                },
            ),
            (StagingPhase::Reading, StagingReply::Info(Err(failure))) => (
                closed,
                StagingCommand::Abort(PutStagingError::ReadStagingInfoError(failure)),
            ),
            (StagingPhase::Inserting, StagingReply::Inserted(now)) => (
                PutStagingSession { uploaded_at: Some(now), ..self.at(StagingPhase::Deleting) },
                StagingCommand::DeleteStaging(self.staging_uuid),
            ),
            (StagingPhase::Deleting, StagingReply::Deleted) => (
                self.at(StagingPhase::Promoting),
                StagingCommand::Promote {
                    staging_uuid: self.staging_uuid,
                    file_uuid: self.file_uuid,
                },
            ),
            (StagingPhase::Promoting, StagingReply::Promoted(Ok(_))) => (
                self.at(StagingPhase::Committing),
                StagingCommand::Commit,
            ),
            (StagingPhase::Promoting, StagingReply::Promoted(Err(failure))) => (
                closed,
                StagingCommand::Abort(PutStagingError::CommitStagingIntoFileError(failure)),
            ),
            (StagingPhase::Committing, StagingReply::Committed) => (
                PutStagingSession { file_name: None, ..closed },
                StagingCommand::Respond(Ok(self.answer())),
            ),
            (StagingPhase::Committing, StagingReply::DatabaseFailed(failure)) => (
                closed,
                StagingCommand::Respond(Err(PutStagingError::DieselError(failure))),
            ),
            (_, StagingReply::DatabaseFailed(failure)) => (
                closed,
                StagingCommand::Abort(PutStagingError::DieselError(failure)),
            ),
            _ => (self, StagingCommand::Connect),
        }
    }

    /// Starts an upload into the staging area `staging_uuid`, to resume from `offset` where
    /// one is given. The file that the staged object becomes gets the identity `file_uuid`.
    /// The first command is always to connect.
    pub fn begin<P, D, M>(staging_uuid: u128, file_uuid: u128, offset: Option<u64>) -> (started: (
        Self,
        StagingCommand<P, D, M>,
    ))
        ensures
            started.0.phase == StagingPhase::Connecting,
            started.0.staging_uuid == staging_uuid,
            started.0.file_uuid == file_uuid,
            started.0.offset == offset,
            started.0.file_name is None,
            started.0.wf(),
            started.1 is Connect,
    {
        (
            PutStagingSession {
                phase: StagingPhase::Connecting,
                staging_uuid,
                file_uuid,
                offset,
                file_name: None,
                file_size: 0,
                mime: None,
                hash: 0,
                uploaded_at: None,
            },
            StagingCommand::Connect,
        )
    }

    /// Whether `reply` answers the command that the session is waiting on.
    pub fn awaits<P, D, M>(&self, reply: &StagingReply<P, D, M>) -> (fits: bool)
        ensures
            fits == answers(self.phase, *reply),
    {
        match self.phase {
            StagingPhase::Connecting => match reply {
                StagingReply::Connected => true,
                StagingReply::PoolFailed(_) => true,
                StagingReply::DatabaseFailed(_) => true,
                _ => false,
            },
            StagingPhase::Locking => match reply {
                StagingReply::Staging(_) => true,
                StagingReply::DatabaseFailed(_) => true,
                _ => false,
            },
            StagingPhase::Fielding => match reply {
                StagingReply::Field(_) => true,
                StagingReply::NoMoreFields => true,
                StagingReply::MultipartFailed(_) => true,
                _ => false,
            },
            StagingPhase::Writing => match reply {
                StagingReply::Written(_) => true,
                _ => false,
            },
            StagingPhase::Reading => match reply {
                StagingReply::Info(_) => true,
                _ => false,
            },
            StagingPhase::Inserting => match reply {
                StagingReply::Inserted(_) => true,
                StagingReply::DatabaseFailed(_) => true,
                _ => false,
            },
            StagingPhase::Deleting => match reply {
                StagingReply::Deleted => true,
                StagingReply::DatabaseFailed(_) => true,
                _ => false,
            },
            StagingPhase::Promoting => match reply {
                StagingReply::Promoted(_) => true,
                _ => false,
            },
            StagingPhase::Committing => match reply {
                StagingReply::Committed => true,
                StagingReply::DatabaseFailed(_) => true,
                _ => false,
            },
            StagingPhase::Closed => false,
        }
    }

    /// Takes the reply to the last command and decides the next one.
    pub fn advance<P, D, M>(&mut self, reply: StagingReply<P, D, M>) -> (command: StagingCommand<
        P,
        D,
        M,
    >)
        requires
            old(self).wf(),
            answers(old(self).phase, reply),
        ensures
            (*final(self), command) == old(self).decided(reply),
            final(self).wf(),
    {
        match reply {
            StagingReply::Connected => {
                self.phase = StagingPhase::Locking;
                StagingCommand::LockStaging(self.staging_uuid)
            },
            StagingReply::PoolFailed(failure) => {
                self.phase = StagingPhase::Closed;
                StagingCommand::Respond(Err(PutStagingError::PoolError(failure)))
            },
            StagingReply::Staging(found) => {
                if found {
                    self.phase = StagingPhase::Fielding;
                    StagingCommand::NextField
                } else {
                    self.phase = StagingPhase::Closed;
                    StagingCommand::Abort(PutStagingError::NotFound { uuid: self.staging_uuid })
                }
            },
            StagingReply::DatabaseFailed(failure) => {
                let committing = self.phase == StagingPhase::Committing;
                self.phase = StagingPhase::Closed;
                if committing {
                    StagingCommand::Respond(Err(PutStagingError::DieselError(failure)))
                } else {
                    StagingCommand::Abort(PutStagingError::DieselError(failure))
                }
            },
            StagingReply::Field(file_name) => {
                if self.file_name.is_some() {
                    self.phase = StagingPhase::Closed;
                    StagingCommand::Abort(PutStagingError::MultipleFieldFound)
                } else {
                    match file_name {
                        Some(name) => {
                            self.phase = StagingPhase::Writing;
                            self.file_name = Some(name);
                            StagingCommand::Write { uuid: self.staging_uuid, offset: self.offset }
                        },
                        None => {
                            self.phase = StagingPhase::Closed;
                            StagingCommand::Abort(PutStagingError::InvalidFileName)
                        },
                    }
                }
            },
            StagingReply::NoMoreFields => {
                if self.file_name.is_some() {
                    self.phase = StagingPhase::Reading;
                    StagingCommand::ReadInfo(self.staging_uuid)
                } else {
                    self.phase = StagingPhase::Closed;
                    StagingCommand::Abort(PutStagingError::NoFieldFound)
                }
            },
            StagingReply::MultipartFailed(failure) => {
                self.phase = StagingPhase::Closed;
                StagingCommand::Abort(PutStagingError::MultipartError(failure))
            },
            StagingReply::Written(Ok(size)) => {
                self.phase = StagingPhase::Fielding;
                self.file_size = size;
                StagingCommand::NextField
            },
            StagingReply::Written(Err(failure)) => {
                self.phase = StagingPhase::Closed;
                StagingCommand::Abort(PutStagingError::FileDriverError(failure))
            },
            StagingReply::Info(Ok(info)) => {
                self.phase = StagingPhase::Inserting;
                self.mime = Some(info.mime);
                self.hash = info.hash;
                let name = match &self.file_name {
                    Some(name) => name.clone(),
                    None => unreached(),
                };
                StagingCommand::InsertFile {
                    uuid: self.file_uuid,
                    name,
                    mime: info.mime,
                    size: self.file_size as i64,
                    hash: info.hash as i64,
                }
            },
            StagingReply::Info(Err(failure)) => {
                self.phase = StagingPhase::Closed;
                StagingCommand::Abort(PutStagingError::ReadStagingInfoError(failure))
            },
            StagingReply::Inserted(now) => {
                self.phase = StagingPhase::Deleting;
                self.uploaded_at = Some(now);
                StagingCommand::DeleteStaging(self.staging_uuid)
            },
            StagingReply::Deleted => {
                self.phase = StagingPhase::Promoting;
                StagingCommand::Promote {
                    staging_uuid: self.staging_uuid,
                    file_uuid: self.file_uuid,
                }
            },
            StagingReply::Promoted(Ok(_)) => {
                self.phase = StagingPhase::Committing;
                StagingCommand::Commit
            },
            StagingReply::Promoted(Err(failure)) => {
                self.phase = StagingPhase::Closed;
                StagingCommand::Abort(PutStagingError::CommitStagingIntoFileError(failure))
            },
            StagingReply::Committed => {
                self.phase = StagingPhase::Closed;
                let name = match self.file_name.take() {
                    Some(name) => name,
                    None => unreached(),
                };
                let mime = match self.mime {
                    Some(mime) => mime,
                    None => unreached(),
                };
                let uploaded_at = match self.uploaded_at {
                    Some(moment) => moment,
                    None => unreached(),
                };
                StagingCommand::Respond(
                    Ok(
                        PutStagingResponse {
                            uuid: self.file_uuid,
                            name,
                            mime,
                            size: self.file_size,
                            hash: self.hash,
                            uploaded_at,
                        },
                    ),
                )
            },
        }
    }
}

/// The session judges the framing of the body as the fields arrive: it turns a field away,
/// or the end of the body, exactly where the fields taken so far, with the one that arrives,
/// are not one file-bearing field.
pub proof fn lemma_session_judges_framing<P, D, M>(
    session: PutStagingSession,
    file_name: Option<String>,
)
    requires
        session.phase == StagingPhase::Fielding,
    ensures
        match framing_of(
            session.fields_taken().push(
                match file_name {
                    Some(name) => Some(name@),
                    None => None,
                },
            ),
        ) {
            Ok(_) => session.decided(StagingReply::<P, D, M>::Field(file_name)).1 is Write,
            Err(FramingError::MultipleFieldFound) => session.decided(
                StagingReply::<P, D, M>::Field(file_name),
            ).1 == StagingCommand::<P, D, M>::Abort(PutStagingError::MultipleFieldFound),
            Err(FramingError::InvalidFileName) => session.decided(
                StagingReply::<P, D, M>::Field(file_name),
            ).1 == StagingCommand::<P, D, M>::Abort(PutStagingError::InvalidFileName),
            Err(FramingError::NoFieldFound) => false,
        },
        match framing_of(session.fields_taken()) {
            Ok(_) => session.decided(StagingReply::<P, D, M>::NoMoreFields).1 is ReadInfo,
            Err(_) => session.decided(StagingReply::<P, D, M>::NoMoreFields).1
                == StagingCommand::<P, D, M>::Abort(PutStagingError::NoFieldFound),
        },
{
}

} // verus!

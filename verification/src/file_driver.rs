//! The file driver: where staged and committed objects live, what the outcome of each
//! operation on them means, and how the failures of those operations are told apart.

use crate::identity::{
    canonical_text, lemma_canonical_text_is_relative, lemma_canonical_text_is_unique, uuid_text,
};
use crate::response::{IntoStatus, Status};
use crate::text::{decimal_text, push_decimal};
use crate::write::{WriteCommand, WritePhase, WriteSession};
use vstd::prelude::*;
use vstd::string::StringExecFns;
use vstd::string::StrSliceExecFns;

verus! {

/// `std::io::Error`, the failure of an operation on the disk. It is carried as it is; all
/// that is read from it is whether it says that something does not exist.
#[verifier::external_type_specification]
#[verifier::external_body]
pub struct ExIoError(std::io::Error);

/// `tokio::task::JoinError`, the failure of a task that was run aside. It is carried as it
/// is and never looked into.
#[verifier::external_type_specification]
#[verifier::external_body]
pub struct ExJoinError(tokio::task::JoinError);

/// Whether an I/O failure says that the thing asked for does not exist: whether
/// `std::io::Error::kind` gives `NotFound`.
pub uninterp spec fn is_not_found(failure: std::io::Error) -> bool;

/// Calls `std::io::Error::kind` and compares the kind with `NotFound`.
#[verifier::external_body]
fn io_error_is_not_found(failure: &std::io::Error) -> (missing: bool)
    ensures
        missing == is_not_found(*failure),
{
    failure.kind() == std::io::ErrorKind::NotFound
}

/// Calls `std::io::Error::from` on the kind `NotFound`: the failure that a disk gives for an
/// object that does not exist.
#[verifier::external_body]
pub(crate) fn not_found_failure() -> (failure: std::io::Error)
    ensures
        is_not_found(failure),
{
    std::io::Error::from(std::io::ErrorKind::NotFound)
}

/// A path made of a directory and a name below it. An absolute name stands for itself, and
/// so does any name below the empty directory; otherwise the two are joined by one slash.
pub open spec fn joined(base: Seq<char>, name: Seq<char>) -> Seq<char> {
    if name.len() > 0 && name[0] == '/' {
        name
    } else if base.len() == 0 {
        name
    } else if base.last() == '/' {
        base + name
    } else {
        base + seq!['/'] + name
    }
}

/// Joins a directory and a name below it.
pub fn join_path(base: &str, name: &str) -> (path: String)
    ensures
        path@ == joined(base@, name@),
{
    let name_len = name.unicode_len();
    if name_len > 0 && name.get_char(0) == '/' {
        return String::from_str(name);
    }
    let base_len = base.unicode_len();
    if base_len == 0 {
        return String::from_str(name);
    }
    let mut path = String::from_str(base);
    if base.get_char(base_len - 1) != '/' {
        proof {
            reveal_strlit("/");
            assert("/"@ =~= seq!['/']);
        }
        path.append("/");
    }
    path.append(name);
    path
}

/// The two directories of the object store: one for objects that are still being staged,
/// one for committed files. Both must lie on one volume, since promotion renames.
#[derive(Debug, Clone)]
pub struct FileDriver {
    pub staging_path: String,
    pub files_path: String,
}

impl FileDriver {
    /// The driver whose directories are `staging` and `files` below `root`.
    pub fn new(root: &str) -> (driver: Self)
        ensures
            driver.staging_path@ == joined(root@, "staging"@),
            driver.files_path@ == joined(root@, "files"@),
    {
        FileDriver { staging_path: join_path(root, "staging"), files_path: join_path(root, "files") }
    }

    /// Takes the directories relative to the directory the process runs in, and lists them:
    /// they are the directories that must exist before the driver is used. Directories that
    /// are absolute already stay as they are.
    pub fn create_dirs(&mut self, current_dir: &str) -> (dirs: Vec<String>)
        ensures
            final(self).staging_path@ == joined(current_dir@, old(self).staging_path@),
            final(self).files_path@ == joined(current_dir@, old(self).files_path@),
            dirs@.len() == 2,
            dirs@[0]@ == final(self).staging_path@,
            dirs@[1]@ == final(self).files_path@,
    {
        let staging_path = join_path(current_dir, self.staging_path.as_str());
        let files_path = join_path(current_dir, self.files_path.as_str());
        let mut dirs: Vec<String> = Vec::new();
        dirs.push(staging_path.clone());
        dirs.push(files_path.clone());
        self.staging_path = staging_path;
        self.files_path = files_path;
        dirs
    }

    /// Where the staged object of a staging identity is kept: one flat file, named by the
    /// canonical text of the identity.
    pub fn staging_object_path(&self, staging_id: u128) -> (path: String)
        ensures
            path@ == joined(self.staging_path@, canonical_text(staging_id)),
    {
        let name = uuid_text(staging_id);
        join_path(self.staging_path.as_str(), name.as_str())
    }

    /// Where the committed object of a file identity is kept.
    pub fn file_object_path(&self, file_id: u128) -> (path: String)
        ensures
            path@ == joined(self.files_path@, canonical_text(file_id)),
    {
        let name = uuid_text(file_id);
        join_path(self.files_path.as_str(), name.as_str())
    }
}

/// Below one directory, the objects of two identities never share a path.
pub proof fn lemma_object_paths_do_not_collide(directory: Seq<char>, first: u128, second: u128)
    requires
        joined(directory, canonical_text(first)) == joined(directory, canonical_text(second)),
    ensures
        first == second,
{
    lemma_canonical_text_is_relative(first);
    lemma_canonical_text_is_relative(second);
    let one = canonical_text(first);
    let other = canonical_text(second);
    let path = joined(directory, one);
    assert(one =~= path.skip(path.len() - 36));
    assert(other =~= path.skip(path.len() - 36));
    lemma_canonical_text_is_unique(first, second);
}

/// What is known of a stored file once it is complete.
#[derive(Debug, Clone, PartialEq, Eq, Hash)]
pub struct FileInfo {
    pub mime: &'static str,
    pub hash: u32,
}

/// Why the size of an object could not be told.
#[derive(Debug)]
pub enum ReadFileSizeError {
    ReadFileMetadata(std::io::Error),
}

/// Why a write to a staged object failed. `E` is the failure of the stream that delivers the
/// bytes; the driver wraps it without looking inside.
#[derive(Debug)]
pub enum WriteFileError<E> {
    CreateFile(std::io::Error),
    ReadFileMetadata(std::io::Error),
    InvalidOffset { offset: u64, file_size: u64 },
    ReadFromStream(E),
    WriteToFile(std::io::Error),
}

/// Why the checksum of a file could not be computed.
#[derive(Debug)]
pub enum ComputeFileHashError {
    OpenFileError(std::io::Error),
    ReadFileError(std::io::Error),
}

/// Why the media type of a file could not be computed.
#[derive(Debug)]
pub enum ComputeFileMimeError {
    InferError(std::io::Error),
    JoinError(tokio::task::JoinError),
}

/// Why the metadata of a file could not be read.
#[derive(Debug)]
pub enum ReadFileInfoError {
    ReadFileMetadata(std::io::Error),
    ComputeFileHashError(ComputeFileHashError),
    ComputeFileMimeError(ComputeFileMimeError),
}

/// Why a staged object could not be promoted to a committed file.
#[derive(Debug)]
pub enum CommitStagingIntoFileError {
    PromoteFailed(std::io::Error),
}

/// Any failure of the file driver, for callers that do not tell the operations apart.
#[derive(Debug)]
pub enum FileDriverError<E> {
    ReadStagingSizeError(ReadFileSizeError),
    WriteStagingError(WriteFileError<E>),
    ReadStagingInfoError(ReadFileInfoError),
    CommitStagingIntoFileError(CommitStagingIntoFileError),
}

impl IntoStatus for ReadFileSizeError {
    open spec fn status(&self) -> Status {
        Status::InternalServerError
    }

    fn into_status(&self) -> (status: Status) {
        Status::InternalServerError
    }
}

impl<E> WriteFileError<E> {
    /// What the failure says of itself. An offset past the end of the object is spelled out
    /// with both numbers; nothing is said of the other failures.
    pub open spec fn spec_message(&self) -> Seq<char> {
        match self {
            WriteFileError::InvalidOffset { offset, file_size } => "invalid offset; offset is `"@
                + decimal_text(*offset as nat) + "`, but file size is `"@ + decimal_text(
                *file_size as nat,
            ) + "`"@,
            _ => "internal server error"@,
        }
    }

    /// What the failure says of itself.
    pub fn message(&self) -> (text: String)
        ensures
            text@ == self.spec_message(),
    {
        match self {
            WriteFileError::InvalidOffset { offset, file_size } => {
                let mut text = String::from_str("invalid offset; offset is `");
                push_decimal(&mut text, *offset);
                text.append("`, but file size is `");
                push_decimal(&mut text, *file_size);
                text.append("`");
                text
            },
            _ => String::from_str("internal server error"),
        }
    }
}

impl<E> IntoStatus for WriteFileError<E> {
    /// An offset beyond the end of the object is the client's mistake; everything else is a
    /// failure on this side or of the stream.
    open spec fn status(&self) -> Status {
        match self {
            WriteFileError::InvalidOffset { .. } => Status::UnprocessableEntity,
            _ => Status::InternalServerError,
        }
    }

    fn into_status(&self) -> (status: Status) {
        match self {
            WriteFileError::CreateFile(_) => Status::InternalServerError,
            WriteFileError::ReadFileMetadata(_) => Status::InternalServerError,
            WriteFileError::InvalidOffset { .. } => Status::UnprocessableEntity,
            WriteFileError::ReadFromStream(_) => Status::InternalServerError,
            WriteFileError::WriteToFile(_) => Status::InternalServerError,
        }
    }
}

impl IntoStatus for ReadFileInfoError {
    open spec fn status(&self) -> Status {
        Status::InternalServerError
    }

    fn into_status(&self) -> (status: Status) {
        match self {
            ReadFileInfoError::ReadFileMetadata(_) => Status::InternalServerError,
            ReadFileInfoError::ComputeFileHashError(_) => Status::InternalServerError,
            ReadFileInfoError::ComputeFileMimeError(_) => Status::InternalServerError,
        }
    }
}

impl IntoStatus for CommitStagingIntoFileError {
    open spec fn status(&self) -> Status {
        Status::InternalServerError
    }

    fn into_status(&self) -> (status: Status) {
        Status::InternalServerError
    }
}

impl<E> IntoStatus for FileDriverError<E> {
    /// The status of the failure inside.
    open spec fn status(&self) -> Status {
        match self {
            FileDriverError::ReadStagingSizeError(inner) => inner.status(),
            FileDriverError::WriteStagingError(inner) => inner.status(),
            FileDriverError::ReadStagingInfoError(inner) => inner.status(),
            FileDriverError::CommitStagingIntoFileError(inner) => inner.status(),
        }
    }

    fn into_status(&self) -> (status: Status) {
        match self {
            FileDriverError::ReadStagingSizeError(inner) => inner.into_status(),
            FileDriverError::WriteStagingError(inner) => inner.into_status(),
            FileDriverError::ReadStagingInfoError(inner) => inner.into_status(),
            FileDriverError::CommitStagingIntoFileError(inner) => inner.into_status(),
        }
    }
}

impl FileDriver {
    /// Starts a write to the committed object of `uuid`, from `offset` or from the start
    /// where none is given: the path of the object, the session that directs the write, and
    /// its first command.
    pub fn write_file<E>(&self, uuid: u128, offset: Option<u64>) -> (started: (
        String,
        WriteSession,
        WriteCommand<E>,
    ))
        ensures
            started.0@ == joined(self.files_path@, canonical_text(uuid)),
            started.1.phase() == WritePhase::Opening,
            started.1.offset() == (match offset {
                Some(from) => from,
                None => 0,
            }),
            started.2 is Open,
    {
        let (session, command) = WriteSession::begin(offset);
        (self.file_object_path(uuid), session, command)
    }

    /// Starts a write to the staged object of `uuid`, from `offset` or from the start where
    /// none is given: the path of the object, the session that directs the write, and its
    /// first command.
    pub fn write_staging<E>(&self, uuid: u128, offset: Option<u64>) -> (started: (
        String,
        WriteSession,
        WriteCommand<E>,
    ))
        ensures
            started.0@ == joined(self.staging_path@, canonical_text(uuid)),
            started.1.phase() == WritePhase::Opening,
            started.1.offset() == (match offset {
                Some(from) => from,
                None => 0,
            }),
            started.2 is Open,
    {
        let (session, command) = WriteSession::begin(offset);
        (self.staging_object_path(uuid), session, command)
    }

    /// The size of an object, from what asking the disk for its metadata gave. An object
    /// that does not exist has no size, which is no failure; any other failure of the probe
    /// is one.
    pub fn read_file_size(probe: Result<u64, std::io::Error>) -> (size: Result<
        Option<u64>,
        ReadFileSizeError,
    >)
        ensures
            match probe {
                Ok(len) => size == Ok::<Option<u64>, ReadFileSizeError>(Some(len)),
                Err(failure) => if is_not_found(failure) {
                    size == Ok::<Option<u64>, ReadFileSizeError>(None)
                } else {
                    size == Err::<Option<u64>, ReadFileSizeError>(
                        ReadFileSizeError::ReadFileMetadata(failure),
                    )
                },
            },
    {
        match probe {
            Ok(len) => Ok(Some(len)),
            Err(failure) => {
                if io_error_is_not_found(&failure) {
                    Ok(None)
                } else {
                    Err(ReadFileSizeError::ReadFileMetadata(failure))
                }
            },
        }
    }

    /// The metadata of a file, from the outcomes of the two passes over it. The passes are
    /// independent and may run side by side; where both fail, the failure of the checksum is
    /// the one reported.
    pub fn read_file_info(
        hash: Result<u32, ComputeFileHashError>,
        mime: Result<&'static str, ComputeFileMimeError>,
    ) -> (info: Result<FileInfo, ReadFileInfoError>)
        ensures
            match (hash, mime) {
                (Ok(h), Ok(m)) => info == Ok::<FileInfo, ReadFileInfoError>(
                    FileInfo { mime: m, hash: h },
                ),
                (Err(failure), _) => info == Err::<FileInfo, ReadFileInfoError>(
                    ReadFileInfoError::ComputeFileHashError(failure),
                ),
                (Ok(_), Err(failure)) => info == Err::<FileInfo, ReadFileInfoError>(
                    ReadFileInfoError::ComputeFileMimeError(failure),
                ),
            },
    {
        match hash {
            Err(failure) => Err(ReadFileInfoError::ComputeFileHashError(failure)),
            Ok(h) => match mime {
                Err(failure) => Err(ReadFileInfoError::ComputeFileMimeError(failure)),
                Ok(m) => Ok(FileInfo { mime: m, hash: h }),
            },
        }
    }

    /// The outcome of a promotion, from what renaming the staged object to its committed
    /// path gave. A rename that fails, as it does across volumes, fails the promotion: there
    /// is no fallback to copying.
    pub fn commit_staging_into_file(renamed: Result<(), std::io::Error>) -> (done: Result<
        (),
        CommitStagingIntoFileError,
    >)
        ensures
            match renamed {
                Ok(_) => done is Ok,
                Err(failure) => done == Err::<(), CommitStagingIntoFileError>(
                    CommitStagingIntoFileError::PromoteFailed(failure),
                ),
            },
    {
        match renamed {
            Ok(_) => Ok(()),
            Err(failure) => Err(CommitStagingIntoFileError::PromoteFailed(failure)),
        }
    }
}

} // verus!

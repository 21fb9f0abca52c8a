//! The upload of bytes for a prepared file, as a conversation. The session sequences the
//! steps: find and lock the record, write the bytes, read their checksum and type, set the
//! four derived fields together, tell the search index, and commit. Whoever holds the
//! database, the object store and the index carries out each command and reports back.

use crate::file_driver::{FileInfo, ReadFileInfoError, WriteFileError};
use crate::identity::{canonical_text, uuid_text};
use crate::records::{hash_column, size_column, FileHeader};
use crate::response::{IntoStatus, Status};
use vstd::pervasive::unreached;
use vstd::prelude::*;
use vstd::string::StringExecFns;

verus! {

/// The answer to an upload that succeeded: the file as it now stands.
#[derive(Debug, Clone, PartialEq, Eq, Hash)]
pub struct FileUploadRes {
    pub uuid: u128,
    pub name: String,
    pub mime: &'static str,
    pub size: u64,
    pub hash: u32,
    pub uploaded_at: chrono::NaiveDateTime,
}

/// Why an upload failed. `P`, `D` and `X` are the failures of the connection pool, of the
/// relational store and of the search index; `S` is the failure of the stream of bytes.
#[derive(Debug)]
pub enum ErrRes<P, D, X, S> {
    PoolError(P),
    DieselError(D),
    MeilisearchError(X),
    FileNotFound(u128),
    WriteFileError(WriteFileError<S>),
    ReadFileInfoError(ReadFileInfoError),
}

impl<P, D, X, S> IntoStatus for ErrRes<P, D, X, S> {
    /// A missing file is not found; a failure of the driver has the status of that failure;
    /// a failure of anything the service depends on is a failure of the service.
    open spec fn status(&self) -> Status {
        match self {
            ErrRes::PoolError(_) => Status::InternalServerError,
            ErrRes::DieselError(_) => Status::InternalServerError,
            ErrRes::MeilisearchError(_) => Status::InternalServerError,
            ErrRes::FileNotFound(_) => Status::NotFound,
            ErrRes::WriteFileError(inner) => inner.status(),
            ErrRes::ReadFileInfoError(inner) => inner.status(),
        }
    }

    fn into_status(&self) -> (status: Status) {
        match self {
            ErrRes::PoolError(_) => Status::InternalServerError,
            ErrRes::DieselError(_) => Status::InternalServerError,
            ErrRes::MeilisearchError(_) => Status::InternalServerError,
            ErrRes::FileNotFound(_) => Status::NotFound,
            ErrRes::WriteFileError(inner) => inner.into_status(),
            ErrRes::ReadFileInfoError(inner) => inner.into_status(),
        }
    }
}

impl<P, D, X, S> ErrRes<P, D, X, S> {
    /// What the failure says of itself. A failure of the driver speaks for itself.
    pub open spec fn spec_message(&self) -> Seq<char> {
        match self {
            ErrRes::PoolError(_) => "internal server error"@,
            ErrRes::DieselError(_) => "internal server error"@,
            ErrRes::MeilisearchError(_) => "internal server error"@,
            ErrRes::FileNotFound(uuid) => "file `"@ + canonical_text(*uuid) + "` is not found"@,
            ErrRes::WriteFileError(inner) => inner.spec_message(),
            ErrRes::ReadFileInfoError(_) => "internal server error"@,
        }
    }

    /// What the failure says of itself.
    pub fn message(&self) -> (text: String)
        ensures
            text@ == self.spec_message(),
    {
        match self {
            ErrRes::PoolError(_) => String::from_str("internal server error"),
            ErrRes::DieselError(_) => String::from_str("internal server error"),
            ErrRes::MeilisearchError(_) => String::from_str("internal server error"),
            ErrRes::FileNotFound(uuid) => {
                let mut text = String::from_str("file `");
                let id = uuid_text(*uuid);
                text.append(id.as_str());
                text.append("` is not found");
                text
            },
            ErrRes::WriteFileError(inner) => inner.message(),
            ErrRes::ReadFileInfoError(_) => String::from_str("internal server error"),
        }
    }
}

/// The offset to resume from, given the byte range that the request declares for its body:
/// the first byte of the range. A request that declares no range starts from the beginning.
pub fn resume_offset(bytes_range: Option<(u64, u64)>) -> (offset: Option<u64>)
    ensures
        offset == (match bytes_range {
            Some(range) => Some(range.0),
            None => None,
        }),
{
    match bytes_range {
        Some(range) => Some(range.0),
        None => None,
    }
}

/// What the session is waiting to hear about.
#[derive(Clone, Copy, Debug, PartialEq, Eq, Structural)]
pub enum UploadPhase {
    /// A connection is being checked out and a transaction opened on it.
    Connecting,
    /// The record of the file is being selected and locked.
    Locking,
    /// The bytes are being written to the object.
    Writing,
    /// The checksum and type of the object are being read.
    Reading,
    /// The derived fields of the record are being set.
    Updating,
    /// The search index is being told of the file.
    Indexing,
    /// The transaction is being committed.
    Committing,
    /// The upload is over.
    Closed,
}

/// What the session asks for next.
#[derive(Debug)]
pub enum UploadCommand<P, D, X, S> {
    /// Check out a connection and open a transaction on it.
    Connect,
    /// Select the record of this file and lock it until the transaction ends, so that a
    /// second upload for the same file waits for this one.
    LockRecord(u128),
    /// Write the body of the request to the object of this file, from this offset.
    Write { uuid: u128, offset: Option<u64> },
    /// Read the checksum and the media type of the object of this file.
    ReadInfo(u128),
    /// Set `mime`, `size`, `hash` and the time of the upload on the record of this file, in
    /// one statement, and report the time that was set.
    UpdateRecord { uuid: u128, mime: &'static str, size: i64, hash: i64 },
    /// Put the file into the search index, under its identity.
    IndexUpsert(FileHeader),
    /// Commit the transaction.
    Commit,
    /// Roll the transaction back and answer with this failure.
    Abort(ErrRes<P, D, X, S>),
    /// Answer with this result. The transaction, if one was opened, has ended.
    Respond(Result<FileUploadRes, ErrRes<P, D, X, S>>),
}

/// What came of a command.
#[derive(Debug)]
pub enum UploadReply<P, D, X, S> {
    /// A connection was checked out and a transaction opened.
    Connected,
    /// No connection could be had.
    PoolFailed(P),
    /// The record that was selected, if there is one.
    Record(Option<FileHeader>),
    /// A statement failed.
    DatabaseFailed(D),
    /// What the write returned.
    Written(Result<u64, WriteFileError<S>>),
    /// What reading the metadata returned.
    Info(Result<FileInfo, ReadFileInfoError>),
    /// The record was updated, with this time of upload.
    Updated(chrono::NaiveDateTime),
    /// The index took the file.
    Indexed,
    /// The index failed.
    IndexFailed(X),
    /// The transaction was committed.
    Committed,
}

/// One upload for one file.
#[derive(Debug)]
pub struct UploadSession<X> {
    pub phase: UploadPhase,
    /// The identity of the file.
    pub uuid: u128,
    /// The offset that the request asked to resume from.
    pub offset: Option<u64>,
    /// Whether a search index is wired in.
    pub with_index: bool,
    /// The name of the file, once its record was found.
    pub name: Option<String>,
    /// The length of the object, once the write returned it.
    pub size: u64,
    /// The media type of the object, once it was read.
    pub mime: Option<&'static str>,
    /// The checksum of the object, once it was read.
    pub hash: u32,
    /// The time that was set on the record, once it was updated.
    pub uploaded_at: Option<chrono::NaiveDateTime>,
    /// The failure of the index, where it failed: the record is committed all the same, and
    /// the failure is answered afterwards.
    pub index_failure: Option<X>,
}

/// Whether `reply` answers the command that a session in `phase` is waiting on.
pub open spec fn answers<P, D, X, S>(phase: UploadPhase, reply: UploadReply<P, D, X, S>) -> bool {
    match phase {
        UploadPhase::Connecting => reply is Connected || reply is PoolFailed || reply
            is DatabaseFailed,
        UploadPhase::Locking => reply is Record || reply is DatabaseFailed,
        UploadPhase::Writing => reply is Written,
        UploadPhase::Reading => reply is Info,
        UploadPhase::Updating => reply is Updated || reply is DatabaseFailed,
        UploadPhase::Indexing => reply is Indexed || reply is IndexFailed,
        UploadPhase::Committing => reply is Committed || reply is DatabaseFailed,
        UploadPhase::Closed => false,
    }
}

impl<X> UploadSession<X> {
    /// The session with another phase.
    pub open spec fn at(self, phase: UploadPhase) -> Self {
        UploadSession { phase, ..self }
    }

    /// The answer to an upload that went through, from what the session has gathered.
    pub open spec fn answer(self) -> FileUploadRes
        recommends
            self.name is Some,
            self.mime is Some,
            self.uploaded_at is Some,
    {
        FileUploadRes {
            uuid: self.uuid,
            name: self.name->0,
            mime: self.mime->0,
            size: self.size,
            hash: self.hash,
            uploaded_at: self.uploaded_at->0,
        }
    }

    /// Everything that later steps read has been gathered by the steps before.
    pub open spec fn wf(self) -> bool {
        match self.phase {
            UploadPhase::Connecting | UploadPhase::Locking | UploadPhase::Closed => true,
            UploadPhase::Writing | UploadPhase::Reading => self.name is Some,
            UploadPhase::Updating => self.name is Some && self.mime is Some,
            UploadPhase::Indexing | UploadPhase::Committing => self.name is Some && self.mime
                is Some && self.uploaded_at is Some,
        }
    }

    /// The decision table of the upload: the session and the command that follow when the
    /// session hears `reply`.
    ///
    /// Nothing touches the object before the record is found and locked. A failure before
    /// the record is updated and indexed, the failure to open the transaction among them,
    /// rolls the transaction back; the four derived fields
    /// are set in one statement. A failure of the index does not undo that: the transaction
    /// is committed, and the failure is answered afterwards.
    pub open spec fn decided<P, D, S>(self, reply: UploadReply<P, D, X, S>) -> (
        Self,
        UploadCommand<P, D, X, S>,
    )
        recommends
            self.wf(),
            answers(self.phase, reply),
    {
        let closed = self.at(UploadPhase::Closed);
        match (self.phase, reply) {
            (UploadPhase::Connecting, UploadReply::Connected) => (
                self.at(UploadPhase::Locking),
                UploadCommand::LockRecord(self.uuid),
            ),
            (UploadPhase::Connecting, UploadReply::PoolFailed(failure)) => (
                closed,
                UploadCommand::Respond(Err(ErrRes::PoolError(failure))),
            ),
            (UploadPhase::Locking, UploadReply::Record(Some(header))) => (
                UploadSession { name: Some(header.name), ..self.at(UploadPhase::Writing) },
                UploadCommand::Write { uuid: self.uuid, offset: self.offset },
            ),
            (UploadPhase::Locking, UploadReply::Record(None)) => (
                closed,
                UploadCommand::Abort(ErrRes::FileNotFound(self.uuid)),
            ),
            (UploadPhase::Writing, UploadReply::Written(Ok(size))) => (
                UploadSession { size, ..self.at(UploadPhase::Reading) },
                UploadCommand::ReadInfo(self.uuid),
            ),
            (UploadPhase::Writing, UploadReply::Written(Err(failure))) => (
                closed,
                UploadCommand::Abort(ErrRes::WriteFileError(failure)),
            ),
            (UploadPhase::Reading, UploadReply::Info(Ok(info))) => (
                UploadSession {
                    mime: Some(info.mime),
                    hash: info.hash,
                    ..self.at(UploadPhase::Updating)
                },
                UploadCommand::UpdateRecord {
                    uuid: self.uuid,
                    mime: info.mime,
                    size: size_column(self.size),
                    hash: hash_column(info.hash),
                },
            ),
            (UploadPhase::Reading, UploadReply::Info(Err(failure))) => (
                closed,
                UploadCommand::Abort(ErrRes::ReadFileInfoError(failure)),
            ),
            (UploadPhase::Updating, UploadReply::Updated(now)) => if self.with_index {
                (
                    UploadSession { uploaded_at: Some(now), ..self.at(UploadPhase::Indexing) },
                    UploadCommand::IndexUpsert(FileHeader { uuid: self.uuid, name: self.name->0 }),
                )
            } else {
                (
                    UploadSession { uploaded_at: Some(now), ..self.at(UploadPhase::Committing) },
                    UploadCommand::Commit,
                )
            },
            (UploadPhase::Indexing, UploadReply::Indexed) => (
                self.at(UploadPhase::Committing),
                UploadCommand::Commit,
            ),
            (UploadPhase::Indexing, UploadReply::IndexFailed(failure)) => (
                UploadSession { index_failure: Some(failure), ..self.at(UploadPhase::Committing) },
                UploadCommand::Commit,
            ),
            (UploadPhase::Committing, UploadReply::Committed) => match self.index_failure {
                Some(failure) => (
                    UploadSession { index_failure: None, ..closed },
                    UploadCommand::Respond(Err(ErrRes::MeilisearchError(failure))),
                ),
                None => (
                    UploadSession { name: None, ..closed },
                    UploadCommand::Respond(Ok(self.answer())),
                ),
            },
            (UploadPhase::Committing, UploadReply::DatabaseFailed(failure)) => (
                closed,
                UploadCommand::Respond(Err(ErrRes::DieselError(failure))),
            ),
            (_, UploadReply::DatabaseFailed(failure)) => (
                closed,
                UploadCommand::Abort(ErrRes::DieselError(failure)),
            ),
            _ => (self, UploadCommand::Connect),
        }
    }

    /// Starts an upload for the file `uuid`, to resume from `offset` where one is given.
    /// `with_index` says whether a search index is wired in. The first command is always to
    /// connect.
    pub fn begin<P, D, S>(uuid: u128, offset: Option<u64>, with_index: bool) -> (started: (
        Self,
        UploadCommand<P, D, X, S>,
    ))
        ensures
            started.0.phase == UploadPhase::Connecting,
            started.0.uuid == uuid,
            started.0.offset == offset,
            started.0.with_index == with_index,
            started.0.index_failure is None,
            started.0.wf(),
            started.1 is Connect,
    {
        (
            UploadSession {
                phase: UploadPhase::Connecting,
                uuid,
                offset,
                with_index,
                name: None,
                size: 0,
                mime: None,
                hash: 0,
                uploaded_at: None,
                index_failure: None,
            },
            UploadCommand::Connect,
        )
    }

    /// Whether `reply` answers the command that the session is waiting on.
    pub fn awaits<P, D, S>(&self, reply: &UploadReply<P, D, X, S>) -> (fits: bool)
        ensures
            fits == answers(self.phase, *reply),
    {
        match self.phase {
            UploadPhase::Connecting => match reply {
                UploadReply::Connected => true,
                UploadReply::PoolFailed(_) => true,
                UploadReply::DatabaseFailed(_) => true,
                _ => false,
            },
            UploadPhase::Locking => match reply {
                UploadReply::Record(_) => true,
                UploadReply::DatabaseFailed(_) => true,
                _ => false,
            },
            UploadPhase::Writing => match reply {
                UploadReply::Written(_) => true,
                _ => false,
            },
            UploadPhase::Reading => match reply {
                UploadReply::Info(_) => true,
                _ => false,
            },
            UploadPhase::Updating => match reply {
                UploadReply::Updated(_) => true,
                UploadReply::DatabaseFailed(_) => true,
                _ => false,
            },
            UploadPhase::Indexing => match reply {
                UploadReply::Indexed => true,
                UploadReply::IndexFailed(_) => true,
                _ => false,
            },
            UploadPhase::Committing => match reply {
                UploadReply::Committed => true,
                UploadReply::DatabaseFailed(_) => true,
                _ => false,
            },
            UploadPhase::Closed => false,
        }
    }

    /// Takes the reply to the last command and decides the next one.
    pub fn advance<P, D, S>(&mut self, reply: UploadReply<P, D, X, S>) -> (command: UploadCommand<
        P,
        D,
        X,
        S,
    >)
        requires
            old(self).wf(),
            answers(old(self).phase, reply),
        ensures
            (*final(self), command) == old(self).decided(reply),
            final(self).wf(),
    {
        match reply {
            UploadReply::Connected => {
                self.phase = UploadPhase::Locking;
                UploadCommand::LockRecord(self.uuid)
            },
            UploadReply::PoolFailed(failure) => {
                self.phase = UploadPhase::Closed;
                UploadCommand::Respond(Err(ErrRes::PoolError(failure)))
            },
            UploadReply::Record(Some(header)) => {
                self.phase = UploadPhase::Writing;
                self.name = Some(header.name);
                UploadCommand::Write { uuid: self.uuid, offset: self.offset }
            },
            UploadReply::Record(None) => {
                self.phase = UploadPhase::Closed;
                UploadCommand::Abort(ErrRes::FileNotFound(self.uuid))
            },
            UploadReply::DatabaseFailed(failure) => {
                let committing = self.phase == UploadPhase::Committing;
                self.phase = UploadPhase::Closed;
                if committing {
                    UploadCommand::Respond(Err(ErrRes::DieselError(failure)))
                } else {
                    UploadCommand::Abort(ErrRes::DieselError(failure))
                }
            },
            UploadReply::Written(Ok(size)) => {
                self.phase = UploadPhase::Reading;
                self.size = size;
                UploadCommand::ReadInfo(self.uuid)
            },
            UploadReply::Written(Err(failure)) => {
                self.phase = UploadPhase::Closed;
                UploadCommand::Abort(ErrRes::WriteFileError(failure))
            },
            UploadReply::Info(Ok(info)) => {
                self.phase = UploadPhase::Updating;
                self.mime = Some(info.mime);
                self.hash = info.hash;
                UploadCommand::UpdateRecord {
                    uuid: self.uuid,
                    mime: info.mime,
                    size: self.size as i64,
                    hash: info.hash as i64,
                }
            },
            UploadReply::Info(Err(failure)) => {
                self.phase = UploadPhase::Closed;
                UploadCommand::Abort(ErrRes::ReadFileInfoError(failure))
            },
            UploadReply::Updated(now) => {
                self.uploaded_at = Some(now);
                if self.with_index {
                    self.phase = UploadPhase::Indexing;
                    let name = match &self.name {
                        Some(name) => name.clone(),
                        None => unreached(),
                    };
                    UploadCommand::IndexUpsert(FileHeader { uuid: self.uuid, name })
                } else {
                    self.phase = UploadPhase::Committing;
                    UploadCommand::Commit
                }
            },
            UploadReply::Indexed => {
                self.phase = UploadPhase::Committing;
                UploadCommand::Commit
            },
            UploadReply::IndexFailed(failure) => {
                self.phase = UploadPhase::Committing;
                self.index_failure = Some(failure);
                UploadCommand::Commit
            },
            UploadReply::Committed => {
                self.phase = UploadPhase::Closed;
                match self.index_failure.take() {
                    Some(failure) => UploadCommand::Respond(
                        Err(ErrRes::MeilisearchError(failure)),
                    ),
                    None => {
                        let name = match self.name.take() {
                            Some(name) => name,
                            None => unreached(),
                        };
                        let mime = match self.mime {
                            Some(mime) => mime,
                            None => unreached(),
                        };
                        let uploaded_at = match self.uploaded_at {
                            Some(moment) => moment,
                            None => unreached(),
                        };
                        UploadCommand::Respond(
                            Ok(
                                FileUploadRes {
                                    uuid: self.uuid,
                                    name,
                                    mime,
                                    size: self.size,
                                    hash: self.hash,
                                    uploaded_at,
                                },
                            ),
                        )
                    },
                }
            },
        }
    }
}

/// Whether a session in `phase` has the record of its file locked.
pub open spec fn holds_lock(phase: UploadPhase) -> bool {
    phase is Writing || phase is Reading || phase is Updating || phase is Indexing || phase
        is Committing
}

/// Within one upload, the object and the record of the file are touched only while the
/// record is locked: the lock is asked for first, it is had before the first write, and
/// every step up to the commit is decided with the lock held. Two uploads for the same file
/// therefore meet at the lock, where the relational store lets one wait for the other.
pub proof fn lemma_file_is_touched_under_lock<P, D, X, S>(
    session: UploadSession<X>,
    reply: UploadReply<P, D, X, S>,
)
    requires
        session.wf(),
        answers(session.phase, reply),
    ensures
        ({
            let (next, command) = session.decided(reply);
            &&& command is LockRecord <==> session.phase is Connecting && reply is Connected
            &&& command is Write ==> session.phase is Locking && next.phase is Writing
            &&& (command is Write || command is ReadInfo || command is UpdateRecord || command
                is IndexUpsert || command is Commit) ==> holds_lock(next.phase)
            &&& holds_lock(next.phase) ==> session.phase is Locking || holds_lock(session.phase)
            &&& (command is Abort || command is Respond) <==> next.phase is Closed
        }),
{
}

/// An upload answers with success only after the four derived fields were set and the
/// transaction was committed, and then it answers with exactly what was set: the length
/// that the write returned, the checksum and type that were read, and the time that the
/// update reported.
pub proof fn lemma_success_answers_what_was_stored<P, D, X, S>(
    session: UploadSession<X>,
    reply: UploadReply<P, D, X, S>,
)
    requires
        session.wf(),
        answers(session.phase, reply),
        session.decided(reply).1 matches UploadCommand::Respond(Ok(_)),
    ensures
        session.phase is Committing,
        reply is Committed,
        session.index_failure is None,
        session.decided(reply).1 == UploadCommand::<P, D, X, S>::Respond(Ok(session.answer())),
        session.answer().uuid == session.uuid,
        session.answer().size == session.size,
        session.answer().hash == session.hash,
{
}

/// One of two uploads that run side by side.
#[derive(Clone, Copy, Debug, PartialEq, Eq, Structural)]
pub enum Turn {
    First,
    Second,
}

/// Two uploads for one file that run side by side, and which of them the relational store
/// has granted the lock on the record of the file, if any.
pub struct Pair<X> {
    pub first: UploadSession<X>,
    pub second: UploadSession<X>,
    pub holder: Option<Turn>,
}

impl<X> Pair<X> {
    /// The upload whose turn it is.
    pub open spec fn of(self, turn: Turn) -> UploadSession<X> {
        match turn {
            Turn::First => self.first,
            Turn::Second => self.second,
        }
    }

    /// The lock is held by exactly the upload that is between finding the record and the
    /// end of its transaction.
    pub open spec fn exclusive(self) -> bool {
        &&& holds_lock(self.first.phase) <==> self.holder == Some(Turn::First)
        &&& holds_lock(self.second.phase) <==> self.holder == Some(Turn::Second)
    }

    /// Whether the relational store can give `reply` to the upload whose turn it is. The
    /// store hands out a record locked only while no other transaction holds the lock on
    /// it: an upload that asks for a record that is locked waits.
    pub open spec fn grants<P, D, S>(self, turn: Turn, reply: UploadReply<P, D, X, S>) -> bool {
        &&& self.of(turn).wf()
        &&& answers(self.of(turn).phase, reply)
        &&& (self.of(turn).phase is Locking && reply is Record && reply->Record_0 is Some)
            ==> self.holder is None
    }

    /// The two uploads after the one whose turn it is heard `reply`. The lock goes to an
    /// upload when its record is found, and is free again when its transaction ends.
    pub open spec fn after<P, D, S>(self, turn: Turn, reply: UploadReply<P, D, X, S>) -> Self {
        let next = self.of(turn).decided(reply).0;
        let holder = if holds_lock(next.phase) {
            Some(turn)
        } else if self.holder == Some(turn) {
            None
        } else {
            self.holder
        };
        match turn {
            Turn::First => Pair { first: next, second: self.second, holder },
            Turn::Second => Pair { first: self.first, second: next, holder },
        }
    }

    /// The two uploads after a run of steps, each the turn of one of them.
    pub open spec fn after_all<P, D, S>(self, steps: Seq<(Turn, UploadReply<P, D, X, S>)>) -> Self
        decreases steps.len(),
    {
        if steps.len() == 0 {
            self
        } else {
            self.after_all(steps.drop_last()).after(steps.last().0, steps.last().1)
        }
    }

    /// Whether the relational store can give each reply of a run of steps when its turn
    /// comes.
    pub open spec fn grants_all<P, D, S>(self, steps: Seq<(Turn, UploadReply<P, D, X, S>)>) -> bool
        decreases steps.len(),
    {
        steps.len() > 0 ==> self.grants_all(steps.drop_last()) && self.after_all(
            steps.drop_last(),
        ).grants(steps.last().0, steps.last().1)
    }
}

/// One step keeps the lock with exactly the upload that is at work on the file.
pub proof fn lemma_step_keeps_uploads_apart<P, D, X, S>(
    pair: Pair<X>,
    turn: Turn,
    reply: UploadReply<P, D, X, S>,
)
    requires
        pair.exclusive(),
        pair.grants(turn, reply),
    ensures
        pair.after(turn, reply).exclusive(),
{
}

/// Two uploads for one file never work on it at the same time, however their steps
/// interleave: from the moment one of them has found the record until its transaction has
/// ended, the other has not written, read back or updated anything. The writes of the two
/// can therefore not interleave; the second to find the record starts from what the first
/// has committed or rolled back.
pub proof fn lemma_uploads_of_one_file_take_turns<P, D, X, S>(
    pair: Pair<X>,
    steps: Seq<(Turn, UploadReply<P, D, X, S>)>,
)
    requires
        pair.exclusive(),
        pair.grants_all(steps),
    ensures
        pair.after_all(steps).exclusive(),
        !(holds_lock(pair.after_all(steps).first.phase) && holds_lock(
            pair.after_all(steps).second.phase,
        )),
    decreases steps.len(),
{
    if steps.len() > 0 {
        lemma_uploads_of_one_file_take_turns(pair, steps.drop_last());
        lemma_step_keeps_uploads_apart(
            pair.after_all(steps.drop_last()),
            steps.last().0,
            steps.last().1,
        );
    }
}

} // verus!

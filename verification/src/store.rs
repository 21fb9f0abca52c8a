//! The staged-object store over memory: a staging namespace and a committed namespace of
//! byte sequences, changed only by the operations of the driver. It carries out the commands
//! of a write session on buffers, which fixes what a write does to the bytes of an object.

use crate::file_driver::{
    is_not_found, not_found_failure, CommitStagingIntoFileError, ComputeFileHashError,
    FileInfo, ReadFileInfoError, WriteFileError,
};
use crate::hash::{compute_file_hash, crc32};
use crate::identity::{canonical_text, uuid_text};
use crate::mime::{compute_file_mime, file_mime};
use crate::write::{WriteCommand, WritePhase, WriteReply, WriteSession};
use std::collections::HashMap;
use vstd::prelude::*;

verus! {

broadcast use vstd::std_specs::hash::group_hash_axioms;

/// The first failure of a stream, if it has one.
pub open spec fn failure_of<E>(stream: Seq<Result<Vec<u8>, E>>) -> Option<E>
    decreases stream.len(),
{
    if stream.len() == 0 {
        None
    } else {
        match failure_of(stream.drop_last()) {
            Some(failure) => Some(failure),
            None => match stream.last() {
                Ok(_) => None,
                Err(failure) => Some(failure),
            },
        }
    }
}

/// The bytes that a stream delivers: its chunks in order, up to its first failure.
pub open spec fn delivered<E>(stream: Seq<Result<Vec<u8>, E>>) -> Seq<u8>
    decreases stream.len(),
{
    if stream.len() == 0 {
        Seq::<u8>::empty()
    } else if failure_of(stream.drop_last()) is Some {
        delivered(stream.drop_last())
    } else {
        match stream.last() {
            Ok(chunk) => delivered(stream.drop_last()) + chunk@,
            Err(_) => delivered(stream.drop_last()),
        }
    }
}

/// What an object holds after `data` was written into it from `offset`: what it held below
/// the offset, then the data. Nothing that it held from the offset on survives.
pub open spec fn overwritten(before: Seq<u8>, offset: u64, data: Seq<u8>) -> Seq<u8>
    recommends
        offset <= before.len(),
{
    before.take(offset as int) + data
}

/// What an object holds after a write of `stream` from `offset`, whether the write
/// succeeded or not. An offset past the end changes nothing; a stream that fails leaves what
/// it delivered before it failed.
pub open spec fn content_after_write<E>(
    before: Seq<u8>,
    offset: u64,
    stream: Seq<Result<Vec<u8>, E>>,
) -> Seq<u8> {
    if before.len() < offset {
        before
    } else {
        overwritten(before, offset, delivered(stream))
    }
}

/// What a write of `stream` from `offset` returns for an object that held `before`: the
/// final length, or why it failed.
pub open spec fn result_of_write<E>(
    before: Seq<u8>,
    offset: u64,
    stream: Seq<Result<Vec<u8>, E>>,
) -> Result<u64, WriteFileError<E>> {
    if before.len() < offset {
        Err(WriteFileError::InvalidOffset { offset, file_size: before.len() as u64 })
    } else {
        match failure_of(stream) {
            Some(failure) => Err(WriteFileError::ReadFromStream(failure)),
            None => Ok((offset + delivered(stream).len()) as u64),
        }
    }
}

/// Once a stream has failed, what follows the failure counts for nothing.
proof fn lemma_failure_ends_stream<E>(stream: Seq<Result<Vec<u8>, E>>, upto: int)
    requires
        0 <= upto <= stream.len(),
        failure_of(stream.take(upto)) is Some,
    ensures
        failure_of(stream) == failure_of(stream.take(upto)),
        delivered(stream) == delivered(stream.take(upto)),
    decreases stream.len() - upto,
{
    if upto == stream.len() {
        assert(stream.take(upto) =~= stream);
    } else {
        assert(stream.drop_last().take(upto) =~= stream.take(upto));
        lemma_failure_ends_stream(stream.drop_last(), upto);
    }
}

/// What taking one more item of a stream that has not failed yet adds.
proof fn lemma_stream_step<E>(stream: Seq<Result<Vec<u8>, E>>, taken: int)
    requires
        0 <= taken < stream.len(),
        failure_of(stream.take(taken)) is None,
    ensures
        match stream[taken] {
            Ok(chunk) => failure_of(stream.take(taken + 1)) is None && delivered(
                stream.take(taken + 1),
            ) == delivered(stream.take(taken)) + chunk@,
            Err(failure) => failure_of(stream.take(taken + 1)) == Some(failure) && delivered(
                stream.take(taken + 1),
            ) == delivered(stream.take(taken)),
        },
{
    assert(stream.take(taken + 1).drop_last() =~= stream.take(taken));
    assert(stream.take(taken + 1).last() == stream[taken]);
}

/// The items of `stream` in reverse, so that the next one to take is the last.
fn reversed<E>(stream: Vec<Result<Vec<u8>, E>>) -> (pending: Vec<Result<Vec<u8>, E>>)
    ensures
        pending@ == stream@.reverse(),
{
    let mut stream = stream;
    let mut pending: Vec<Result<Vec<u8>, E>> = Vec::new();
    let ghost all = stream@;
    while stream.len() > 0
        invariant
            stream@ == all.take(stream@.len() as int),
            pending@.len() + stream@.len() == all.len(),
            forall|i: int|
                0 <= i < pending@.len() ==> pending@[i] == #[trigger] all[all.len() - 1 - i],
        decreases stream.len(),
    {
        let item = stream.pop();
        match item {
            Some(item) => {
                pending.push(item);
                assert(stream@ =~= all.take(stream@.len() as int));
            },
            None => {},
        }
    }
    assert(pending@ =~= all.reverse());
    pending
}

/// A store of staged and committed objects, held in memory.
pub struct ObjectStore {
    staging: HashMap<u128, Vec<u8>>,
    files: HashMap<u128, Vec<u8>>,
}

/// The bytes of each object of a namespace.
spec fn contents(objects: Map<u128, Vec<u8>>) -> Map<u128, Seq<u8>> {
    objects.map_values(|bytes: Vec<u8>| bytes@)
}

/// Everything that the loop of a write rests on: how far the stream has been taken, and
/// what the buffer holds at each phase of the session.
spec fn write_in_step<E>(
    before: Seq<u8>,
    stream: Seq<Result<Vec<u8>, E>>,
    session: WriteSession,
    command: WriteCommand<E>,
    buffer: Seq<u8>,
    pending: Seq<Result<Vec<u8>, E>>,
) -> bool {
    let offset = session.offset();
    let taken = stream.len() - pending.len();
    &&& 0 <= taken <= stream.len()
    &&& pending =~= stream.skip(taken).reverse()
    &&& match session.phase() {
        WritePhase::Opening => command is Open && taken == 0 && buffer == before,
        WritePhase::Sizing => command is ReadSize && taken == 0 && buffer == before && offset
            != 0,
        WritePhase::Truncating => command == WriteCommand::<E>::Truncate(offset) && taken == 0
            && buffer == before && offset <= before.len(),
        WritePhase::Pulling => command is Pull && offset <= before.len() && failure_of(
            stream.take(taken),
        ) is None && buffer == overwritten(before, offset, delivered(stream.take(taken))),
        WritePhase::Appending => {
            &&& offset <= before.len()
            &&& taken >= 1
            &&& failure_of(stream.take(taken - 1)) is None
            &&& buffer == overwritten(before, offset, delivered(stream.take(taken - 1)))
            &&& stream[taken - 1] matches Ok(chunk)
            &&& command matches WriteCommand::Append(bytes)
            &&& bytes@ == chunk@
        },
        WritePhase::Measuring => command is ReadSize && offset <= before.len() && taken
            == stream.len() && failure_of(stream) is None && buffer == overwritten(
            before,
            offset,
            delivered(stream),
        ),
        WritePhase::Closed => {
            &&& command matches WriteCommand::Stop(result)
            &&& result == result_of_write(before, offset, stream)
            &&& buffer == content_after_write(before, offset, stream)
        },
    }
}

/// How many turns of the loop a write has left at most.
spec fn turns_left(phase: WritePhase, pending: nat) -> nat {
    3 * pending + match phase {
        WritePhase::Opening => 6nat,
        WritePhase::Sizing => 5nat,
        WritePhase::Truncating => 4nat,
        WritePhase::Appending => 3nat,
        WritePhase::Pulling => 2nat,
        WritePhase::Measuring => 1nat,
        WritePhase::Closed => 0nat,
    }
}

impl ObjectStore {
    /// The staging namespace: the bytes of each staged object, by staging identity.
    pub closed spec fn staged(&self) -> Map<u128, Seq<u8>> {
        contents(self.staging@)
    }

    /// The committed namespace: the bytes of each committed file, by file identity.
    pub closed spec fn committed(&self) -> Map<u128, Seq<u8>> {
        contents(self.files@)
    }

    /// What the staged object of `id` holds; nothing where there is none.
    pub open spec fn staged_bytes(&self, id: u128) -> Seq<u8> {
        if self.staged().contains_key(id) {
            self.staged()[id]
        } else {
            Seq::<u8>::empty()
        }
    }

    /// A store that holds no objects.
    pub fn new() -> (store: Self)
        ensures
            store.staged() == Map::<u128, Seq<u8>>::empty(),
            store.committed() == Map::<u128, Seq<u8>>::empty(),
    {
        let store = ObjectStore { staging: HashMap::new(), files: HashMap::new() };
        assert(store.staged() =~= Map::<u128, Seq<u8>>::empty());
        assert(store.committed() =~= Map::<u128, Seq<u8>>::empty());
        store
    }

    /// The length of the staged object of `id`, or `None` where there is none.
    pub fn size_of(&self, id: u128) -> (size: Option<u64>)
        ensures
            size == (if self.staged().contains_key(id) {
                Some(self.staged()[id].len() as u64)
            } else {
                None
            }),
    {
        match self.staging.get(&id) {
            Some(bytes) => Some(bytes.len() as u64),
            None => None,
        }
    }

    /// Writes `stream` into the staged object of `id` from `offset`, or from the start where
    /// no offset is given, and returns the final length of the object.
    ///
    /// The object is created if it was absent, whatever comes of the write. An offset past
    /// its end is refused with `InvalidOffset` and changes nothing else. Otherwise the object
    /// is cut to the offset and the chunks are appended in order; a failure of the stream
    /// stops the write with `ReadFromStream` and leaves what was appended before it.
    #[verifier::loop_isolation(false)]
    pub fn write<E>(
        &mut self,
        id: u128,
        offset: Option<u64>,
        stream: Vec<Result<Vec<u8>, E>>,
    ) -> (result: Result<u64, WriteFileError<E>>)
        ensures
            result == result_of_write(
                old(self).staged_bytes(id),
                match offset {
                    Some(from) => from,
                    None => 0,
                },
                stream@,
            ),
            final(self).staged() == old(self).staged().insert(
                id,
                content_after_write(
                    old(self).staged_bytes(id),
                    match offset {
                        Some(from) => from,
                        None => 0,
                    },
                    stream@,
                ),
            ),
            final(self).committed() == old(self).committed(),
    {
        let ghost all = stream@;
        let ghost others = self.staged().remove(id);
        let ghost before = self.staged_bytes(id);
        let mut buffer = match self.staging.remove(&id) {
            Some(bytes) => bytes,
            None => Vec::new(),
        };
        assert(contents(self.staging@) =~= others);
        let mut pending = reversed(stream);
        let (mut session, mut command) = WriteSession::begin::<E>(offset);
        assert(all.skip(0) =~= all);
        loop
            invariant
                write_in_step(before, all, session, command, buffer@, pending@),
                session.offset() == (match offset {
                    Some(from) => from,
                    None => 0,
                }),
                contents(self.staging@) == others,
                self.files == old(self).files,
                others == old(self).staged().remove(id),
            decreases turns_left(session.phase(), pending@.len()),
        {
            let ghost taken = all.len() - pending@.len();
            let reply = match command {
                WriteCommand::Open => WriteReply::Done,
                WriteCommand::ReadSize => WriteReply::Size(buffer.len() as u64),
                WriteCommand::Truncate(len) => {
                    buffer.truncate(len as usize);
                    proof {
                        assert(all.take(0) =~= Seq::<Result<Vec<u8>, E>>::empty());
                        assert(buffer@ =~= overwritten(before, len, delivered(all.take(0))));
                    }
                    WriteReply::Done
                },
                WriteCommand::Pull => {
                    match pending.pop() {
                        Some(Ok(chunk)) => {
                            proof {
                                assert(all.skip(taken)[0] == all[taken]);
                                lemma_stream_step(all, taken);
                                assert(pending@ =~= all.skip(taken + 1).reverse());
                            }
                            WriteReply::Chunk(chunk)
                        },
                        Some(Err(failure)) => {
                            proof {
                                assert(all.skip(taken)[0] == all[taken]);
                                lemma_stream_step(all, taken);
                                lemma_failure_ends_stream(all, taken + 1);
                                assert(pending@ =~= all.skip(taken + 1).reverse());
                            }
                            WriteReply::StreamFailed(failure)
                        },
                        None => {
                            proof {
                                assert(all.take(taken) =~= all);
                            }
                            WriteReply::EndOfStream
                        },
                    }
                },
                WriteCommand::Append(bytes) => {
                    let mut bytes = bytes;
                    proof {
                        lemma_stream_step(all, taken - 1);
                        assert((before.take(session.offset() as int) + delivered(
                            all.take(taken - 1),
                        )) + bytes@ =~= before.take(session.offset() as int) + (delivered(
                            all.take(taken - 1),
                        ) + bytes@));
                    }
                    buffer.append(&mut bytes);
                    WriteReply::Done
                },
                WriteCommand::Stop(result) => {
                    self.staging.insert(id, buffer);
                    proof {
                        assert(contents(self.staging@) =~= others.insert(
                            id,
                            content_after_write(before, session.offset(), all),
                        ));
                        assert(others.insert(
                            id,
                            content_after_write(before, session.offset(), all),
                        ) =~= old(self).staged().insert(
                            id,
                            content_after_write(before, session.offset(), all),
                        ));
                    }
                    return result;
                },
            };
            command = session.advance(reply);
        }
    }

    /// The bytes of the staged object of `id`, where there is one.
    pub fn staged_object(&self, id: u128) -> (bytes: Option<&Vec<u8>>)
        ensures
            match bytes {
                Some(found) => self.staged().contains_key(id) && found@ == self.staged()[id],
                None => !self.staged().contains_key(id),
            },
    {
        self.staging.get(&id)
    }

    /// The bytes of the committed file of `id`, where there is one.
    pub fn committed_object(&self, id: u128) -> (bytes: Option<&Vec<u8>>)
        ensures
            match bytes {
                Some(found) => self.committed().contains_key(id) && found@
                    == self.committed()[id],
                None => !self.committed().contains_key(id),
            },
    {
        self.files.get(&id)
    }

    /// The checksum and media type of the staged object of `id`, from a full pass over its
    /// bytes. The object is known by the canonical text of its identity, which is the path
    /// that the extension is read from. An object that does not exist cannot be opened.
    pub fn read_staging_info(&self, id: u128) -> (info: Result<FileInfo, ReadFileInfoError>)
        ensures
            match info {
                Ok(found) => {
                    &&& self.staged().contains_key(id)
                    &&& found.hash == crc32(self.staged()[id])
                    &&& found.mime@ == file_mime(self.staged()[id], canonical_text(id))
                },
                Err(failure) => {
                    &&& !self.staged().contains_key(id)
                    &&& failure matches ReadFileInfoError::ComputeFileHashError(
                        ComputeFileHashError::OpenFileError(cause),
                    )
                    &&& is_not_found(cause)
                },
            },
    {
        match self.staging.get(&id) {
            Some(bytes) => Ok(info_of(bytes.as_slice(), id)),
            None => Err(
                ReadFileInfoError::ComputeFileHashError(
                    ComputeFileHashError::OpenFileError(not_found_failure()),
                ),
            ),
        }
    }

    /// The checksum and media type of the committed file of `id`.
    pub fn read_file_info(&self, id: u128) -> (info: Result<FileInfo, ReadFileInfoError>)
        ensures
            match info {
                Ok(found) => {
                    &&& self.committed().contains_key(id)
                    &&& found.hash == crc32(self.committed()[id])
                    &&& found.mime@ == file_mime(self.committed()[id], canonical_text(id))
                },
                Err(failure) => {
                    &&& !self.committed().contains_key(id)
                    &&& failure matches ReadFileInfoError::ComputeFileHashError(
                        ComputeFileHashError::OpenFileError(cause),
                    )
                    &&& is_not_found(cause)
                },
            },
    {
        match self.files.get(&id) {
            Some(bytes) => Ok(info_of(bytes.as_slice(), id)),
            None => Err(
                ReadFileInfoError::ComputeFileHashError(
                    ComputeFileHashError::OpenFileError(not_found_failure()),
                ),
            ),
        }
    }

    /// Moves the staged object of `staging_id` into the committed namespace under `file_id`,
    /// in one step. Afterwards nothing is staged under `staging_id`. Where nothing was staged
    /// under it, the promotion fails and the store is as before.
    pub fn promote(&mut self, staging_id: u128, file_id: u128) -> (done: Result<
        (),
        CommitStagingIntoFileError,
    >)
        ensures
            old(self).staged().contains_key(staging_id) ==> {
                &&& done is Ok
                &&& final(self).staged() == old(self).staged().remove(staging_id)
                &&& final(self).committed() == old(self).committed().insert(
                    file_id,
                    old(self).staged()[staging_id],
                )
            },
            !old(self).staged().contains_key(staging_id) ==> {
                &&& done matches Err(CommitStagingIntoFileError::PromoteFailed(cause))
                &&& is_not_found(cause)
                &&& final(self).staged() == old(self).staged()
                &&& final(self).committed() == old(self).committed()
            },
    {
        match self.staging.remove(&staging_id) {
            Some(bytes) => {
                self.files.insert(file_id, bytes);
                assert(self.staged() =~= old(self).staged().remove(staging_id));
                assert(self.committed() =~= old(self).committed().insert(
                    file_id,
                    old(self).staged()[staging_id],
                ));
                Ok(())
            },
            None => {
                assert(self.staging@ =~= old(self).staging@);
                Err(CommitStagingIntoFileError::PromoteFailed(not_found_failure()))
            },
        }
    }
}

/// The checksum and media type of an object that holds `bytes` and is named by `id`.
fn info_of(bytes: &[u8], id: u128) -> (info: FileInfo)
    ensures
        info.hash == crc32(bytes@),
        info.mime@ == file_mime(bytes@, canonical_text(id)),
{
    let name = uuid_text(id);
    FileInfo { mime: compute_file_mime(bytes, name.as_str()), hash: compute_file_hash(bytes) }
}

/// A write from the start leaves exactly what the stream delivered, whatever the object held
/// before.
pub proof fn lemma_write_from_start_replaces<E>(before: Seq<u8>, stream: Seq<Result<Vec<u8>, E>>)
    ensures
        content_after_write(before, 0, stream) == delivered(stream),
{
    assert(before.take(0) + delivered(stream) =~= delivered(stream));
}

/// Writing a stream to a fresh identity and then writing it again from the start leaves the
/// object byte for byte as writing it once does.
pub proof fn lemma_rewrite_from_start_is_idempotent<E>(stream: Seq<Result<Vec<u8>, E>>)
    ensures
        content_after_write(
            content_after_write(Seq::<u8>::empty(), 0, stream),
            0,
            stream,
        ) == content_after_write(Seq::<u8>::empty(), 0, stream),
{
    lemma_write_from_start_replaces(Seq::<u8>::empty(), stream);
    lemma_write_from_start_replaces(content_after_write(Seq::<u8>::empty(), 0, stream), stream);
}

/// A write from an offset past the end of the object fails with `InvalidOffset`, whatever the
/// stream holds, and leaves the object as it was. An object that does not exist yet holds
/// nothing, so for it every offset but zero is past the end.
pub proof fn lemma_offset_past_end_is_refused<E>(
    before: Seq<u8>,
    offset: u64,
    stream: Seq<Result<Vec<u8>, E>>,
)
    requires
        offset > before.len(),
    ensures
        result_of_write(before, offset, stream) == Err::<u64, WriteFileError<E>>(
            WriteFileError::InvalidOffset { offset, file_size: before.len() as u64 },
        ),
        content_after_write(before, offset, stream) == before,
{
}

/// A write from an offset within the object is refused only for the stream's sake: the
/// offset itself is never the reason.
pub proof fn lemma_offset_within_is_accepted<E>(
    before: Seq<u8>,
    offset: u64,
    stream: Seq<Result<Vec<u8>, E>>,
)
    requires
        offset <= before.len(),
    ensures
        !(result_of_write(before, offset, stream) matches Err(
            WriteFileError::InvalidOffset { .. },
        )),
        failure_of(stream) is None ==> result_of_write(before, offset, stream) == Ok::<
            u64,
            WriteFileError<E>,
        >((offset + delivered(stream).len()) as u64),
{
}

/// A write that resumes exactly at the end of the object loses nothing: the object keeps all
/// that it held and grows by the new data.
pub proof fn lemma_append_keeps_everything(before: Seq<u8>, data: Seq<u8>)
    requires
        before.len() <= u64::MAX,
    ensures
        overwritten(before, before.len() as u64, data) == before + data,
        overwritten(before, before.len() as u64, data).len() >= before.len(),
{
    assert(before.take(before.len() as int) =~= before);
}

/// A resumed write keeps what lies below the offset and replaces all that lay beyond it: the
/// object ends with the new data, and none of its old tail is left.
pub proof fn lemma_resume_truncates_tail(before: Seq<u8>, offset: u64, data: Seq<u8>)
    requires
        offset <= before.len(),
    ensures
        overwritten(before, offset, data).len() == offset + data.len(),
        overwritten(before, offset, data).take(offset as int) == before.take(offset as int),
        overwritten(before, offset, data).skip(offset as int) == data,
        forall|i: int| 0 <= i < offset ==> overwritten(before, offset, data)[i] == before[i],
        forall|i: int|
            0 <= i < data.len() ==> overwritten(before, offset, data)[offset + i] == data[i],
{
    assert(overwritten(before, offset, data).take(offset as int) =~= before.take(offset as int));
    assert(overwritten(before, offset, data).skip(offset as int) =~= data);
}

} // verus!

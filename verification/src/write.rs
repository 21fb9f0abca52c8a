//! The resumable write, as a conversation. The session decides; whoever holds the object and
//! the stream carries out each command and reports back. The session never touches a disk,
//! so the same decisions serve a file as well as a buffer in memory.

use crate::file_driver::WriteFileError;
use vstd::pervasive::unreached;
use vstd::prelude::*;

verus! {

/// What the session is waiting to hear about.
#[derive(Clone, Copy, Debug, PartialEq, Eq, Structural)]
pub enum WritePhase {
    /// The object is being opened, and created if it was absent.
    Opening,
    /// The length of the object is being read, to hold the offset against it.
    Sizing,
    /// The object is being cut to the offset.
    Truncating,
    /// The next chunk is being pulled from the stream.
    Pulling,
    /// A chunk is being appended to the object.
    Appending,
    /// The final length of the object is being read.
    Measuring,
    /// The write is over.
    Closed,
}

/// What the session asks for next.
#[derive(Debug)]
pub enum WriteCommand<E> {
    /// Open the object for appending; create it if it is absent.
    Open,
    /// Report the current length of the object, once all that was appended has reached it.
    ReadSize,
    /// Cut the object to exactly this length and place the write position there.
    Truncate(u64),
    /// Pull the next chunk from the stream.
    Pull,
    /// Append these bytes to the object.
    Append(Vec<u8>),
    /// The write is over, with this result.
    Stop(Result<u64, WriteFileError<E>>),
}

/// What came of a command.
#[derive(Debug)]
pub enum WriteReply<E> {
    /// The command was carried out.
    Done,
    /// The object has this length.
    Size(u64),
    /// The stream gave these bytes.
    Chunk(Vec<u8>),
    /// The stream has ended.
    EndOfStream,
    /// The stream failed.
    StreamFailed(E),
    /// The object could not be opened, measured, cut or written.
    IoFailed(std::io::Error),
}

/// Whether `reply` answers the command that a session in `phase` is waiting on.
pub open spec fn answers<E>(phase: WritePhase, reply: WriteReply<E>) -> bool {
    match phase {
        WritePhase::Opening | WritePhase::Truncating | WritePhase::Appending => reply is Done
            || reply is IoFailed,
        WritePhase::Sizing | WritePhase::Measuring => reply is Size || reply is IoFailed,
        WritePhase::Pulling => reply is Chunk || reply is EndOfStream || reply is StreamFailed,
        WritePhase::Closed => false,
    }
}

/// The decision table of the write: the phase and the command that follow when a session in
/// `phase`, writing from `offset`, hears `reply`.
///
/// A nonzero offset is held against the length of the object before anything is cut, and an
/// offset past the end stops the write with `InvalidOffset`. The object is always cut to the
/// offset before the first chunk is appended. Any failure stops the write at once, leaving
/// whatever was appended so far in place.
pub open spec fn decided<E>(phase: WritePhase, offset: u64, reply: WriteReply<E>) -> (
    WritePhase,
    WriteCommand<E>,
)
    recommends
        answers(phase, reply),
{
    match (phase, reply) {
        (WritePhase::Opening, WriteReply::Done) => if offset != 0 {
            (WritePhase::Sizing, WriteCommand::ReadSize)
        } else {
            (WritePhase::Truncating, WriteCommand::Truncate(0))
        },
        (WritePhase::Opening, WriteReply::IoFailed(failure)) => (
            WritePhase::Closed,
            WriteCommand::Stop(Err(WriteFileError::CreateFile(failure))),
        ),
        (WritePhase::Sizing, WriteReply::Size(file_size)) => if file_size < offset {
            (
                WritePhase::Closed,
                WriteCommand::Stop(Err(WriteFileError::InvalidOffset { offset, file_size })),
            )
        } else {
            (WritePhase::Truncating, WriteCommand::Truncate(offset))
        },
        (WritePhase::Sizing, WriteReply::IoFailed(failure)) => (
            WritePhase::Closed,
            WriteCommand::Stop(Err(WriteFileError::ReadFileMetadata(failure))),
        ),
        (WritePhase::Truncating, WriteReply::Done) => (WritePhase::Pulling, WriteCommand::Pull),
        (WritePhase::Truncating, WriteReply::IoFailed(failure)) => (
            WritePhase::Closed,
            WriteCommand::Stop(Err(WriteFileError::WriteToFile(failure))),
        ),
        (WritePhase::Pulling, WriteReply::Chunk(bytes)) => (
            WritePhase::Appending,
            WriteCommand::Append(bytes),
        ),
        (WritePhase::Pulling, WriteReply::EndOfStream) => (
            WritePhase::Measuring,
            WriteCommand::ReadSize,
        ),
        (WritePhase::Pulling, WriteReply::StreamFailed(failure)) => (
            WritePhase::Closed,
            WriteCommand::Stop(Err(WriteFileError::ReadFromStream(failure))),
        ),
        (WritePhase::Appending, WriteReply::Done) => (WritePhase::Pulling, WriteCommand::Pull),
        (WritePhase::Appending, WriteReply::IoFailed(failure)) => (
            WritePhase::Closed,
            WriteCommand::Stop(Err(WriteFileError::WriteToFile(failure))),
        ),
        (WritePhase::Measuring, WriteReply::Size(file_size)) => (
            WritePhase::Closed,
            WriteCommand::Stop(Ok(file_size)),
        ),
        (WritePhase::Measuring, WriteReply::IoFailed(failure)) => (
            WritePhase::Closed,
            WriteCommand::Stop(Err(WriteFileError::ReadFileMetadata(failure))),
        ),
        _ => (phase, WriteCommand::Pull),
    }
}

/// One write to one staged object, from its opening to its result.
#[derive(Debug)]
pub struct WriteSession {
    phase: WritePhase,
    offset: u64,
}

impl WriteSession {
    /// What the session is waiting to hear about.
    pub closed spec fn phase(&self) -> WritePhase {
        self.phase
    }

    /// The offset that the write starts from.
    pub closed spec fn offset(&self) -> u64 {
        self.offset
    }

    /// Starts a write from `offset`, or from the start of the object where none is given.
    /// The first command is always to open the object.
    pub fn begin<E>(offset: Option<u64>) -> (started: (Self, WriteCommand<E>))
        ensures
            started.0.phase() == WritePhase::Opening,
            started.0.offset() == (match offset {
                Some(from) => from,
                None => 0,
            }),
            started.1 is Open,
    {
        let from = match offset {
            Some(from) => from,
            None => 0,
        };
        (WriteSession { phase: WritePhase::Opening, offset: from }, WriteCommand::Open)
    }

    /// Whether the write is over.
    pub fn is_closed(&self) -> (closed: bool)
        ensures
            closed == (self.phase() == WritePhase::Closed),
    {
        self.phase == WritePhase::Closed
    }

    /// Whether `reply` answers the command that the session is waiting on.
    pub fn awaits<E>(&self, reply: &WriteReply<E>) -> (fits: bool)
        ensures
            fits == answers(self.phase(), *reply),
    {
        match self.phase {
            WritePhase::Opening | WritePhase::Truncating | WritePhase::Appending => match reply {
                WriteReply::Done => true,
                WriteReply::IoFailed(_) => true,
                _ => false,
            },
            WritePhase::Sizing | WritePhase::Measuring => match reply {
                WriteReply::Size(_) => true,
                WriteReply::IoFailed(_) => true,
                _ => false,
            },
            WritePhase::Pulling => match reply {
                WriteReply::Chunk(_) => true,
                WriteReply::EndOfStream => true,
                WriteReply::StreamFailed(_) => true,
                _ => false,
            },
            WritePhase::Closed => false,
        }
    }

    /// Takes the reply to the last command and decides the next one.
    pub fn advance<E>(&mut self, reply: WriteReply<E>) -> (command: WriteCommand<E>)
        requires
            answers(old(self).phase(), reply),
        ensures
            final(self).offset() == old(self).offset(),
            (final(self).phase(), command) == decided(old(self).phase(), old(self).offset(), reply),
    {
        let offset = self.offset;
        match self.phase {
            WritePhase::Opening => match reply {
                WriteReply::IoFailed(failure) => {
                    self.phase = WritePhase::Closed;
                    WriteCommand::Stop(Err(WriteFileError::CreateFile(failure)))
                },
                _ => {
                    if offset != 0 {
                        self.phase = WritePhase::Sizing;
                        WriteCommand::ReadSize
                    } else {
                        self.phase = WritePhase::Truncating;
                        WriteCommand::Truncate(0)
                    }
                },
            },
            WritePhase::Sizing => match reply {
                WriteReply::Size(file_size) => {
                    if file_size < offset {
                        self.phase = WritePhase::Closed;
                        WriteCommand::Stop(
                            Err(WriteFileError::InvalidOffset { offset, file_size }),
                        )
                    } else {
                        self.phase = WritePhase::Truncating;
                        WriteCommand::Truncate(offset)
                    }
                },
                WriteReply::IoFailed(failure) => {
                    self.phase = WritePhase::Closed;
                    WriteCommand::Stop(Err(WriteFileError::ReadFileMetadata(failure)))
                },
                _ => unreached(),
            },
            WritePhase::Truncating | WritePhase::Appending => match reply {
                WriteReply::IoFailed(failure) => {
                    self.phase = WritePhase::Closed;
                    WriteCommand::Stop(Err(WriteFileError::WriteToFile(failure)))
                },
                _ => {
                    self.phase = WritePhase::Pulling;
                    WriteCommand::Pull
                },
            },
            WritePhase::Pulling => match reply {
                WriteReply::Chunk(bytes) => {
                    self.phase = WritePhase::Appending;
                    WriteCommand::Append(bytes)
                },
                WriteReply::StreamFailed(failure) => {
                    self.phase = WritePhase::Closed;
                    WriteCommand::Stop(Err(WriteFileError::ReadFromStream(failure)))
                },
                _ => {
                    self.phase = WritePhase::Measuring;
                    WriteCommand::ReadSize
                },
            },
            WritePhase::Measuring => match reply {
                WriteReply::Size(file_size) => {
                    self.phase = WritePhase::Closed;
                    WriteCommand::Stop(Ok(file_size))
                },
                WriteReply::IoFailed(failure) => {
                    self.phase = WritePhase::Closed;
                    WriteCommand::Stop(Err(WriteFileError::ReadFileMetadata(failure)))
                },
                _ => unreached(),
            },
            WritePhase::Closed => unreached(),
        }
    }
}

} // verus!

//! The framing of a multipart body: how many fields a request may carry, and what each
//! field must bring. The fields themselves arrive from the transport one at a time; what is
//! decided here is whether the next one is welcome.

use crate::response::{IntoStatus, Status};
use vstd::prelude::*;
use vstd::string::StringExecFns;

verus! {

/// Why parsing a multipart body stopped. `M` is the failure of the transport, `E1` that of
/// the filter and `E2` that of the writer that the caller supplied.
#[derive(Debug)]
pub enum MultipartParserError<M, E1, E2> {
    MultipartError(M),
    FilterError(E1),
    WriterError(E2),
    MaxFieldCountError(usize),
}

impl<M, E1: IntoStatus, E2: IntoStatus> IntoStatus for MultipartParserError<M, E1, E2> {
    /// A failure of the filter or the writer has the status of that failure; too many fields
    /// is a bad request; a failure of the transport is a failure of the service.
    open spec fn status(&self) -> Status {
        match self {
            MultipartParserError::MultipartError(_) => Status::InternalServerError,
            MultipartParserError::FilterError(inner) => inner.status(),
            MultipartParserError::WriterError(inner) => inner.status(),
            MultipartParserError::MaxFieldCountError(_) => Status::BadRequest,
        }
    }

    fn into_status(&self) -> (status: Status) {
        match self {
            MultipartParserError::MultipartError(_) => Status::InternalServerError,
            MultipartParserError::FilterError(inner) => inner.into_status(),
            MultipartParserError::WriterError(inner) => inner.into_status(),
            MultipartParserError::MaxFieldCountError(_) => Status::BadRequest,
        }
    }
}

/// Why a request for a file could not be routed. `R` is the rejection of a body that is not
/// multipart, `M` the failure of reading one that is.
#[derive(Debug)]
pub enum FileRouterError<R, M> {
    MultipartExtractorRejection(R),
    MultipartError(M),
    IOError(std::io::Error),
}

impl<R, M: IntoStatus> IntoStatus for FileRouterError<R, M> {
    /// A body that is not multipart is a bad request; a failure of reading one has the
    /// status that the transport gives it; a failure of the disk is a failure of the
    /// service.
    open spec fn status(&self) -> Status {
        match self {
            FileRouterError::MultipartExtractorRejection(_) => Status::BadRequest,
            FileRouterError::MultipartError(inner) => inner.status(),
            FileRouterError::IOError(_) => Status::InternalServerError,
        }
    }

    fn into_status(&self) -> (status: Status) {
        match self {
            FileRouterError::MultipartExtractorRejection(_) => Status::BadRequest,
            FileRouterError::MultipartError(inner) => inner.into_status(),
            FileRouterError::IOError(_) => Status::InternalServerError,
        }
    }
}

/// Counts the fields of a multipart body against a limit.
#[derive(Debug, Clone, Copy, PartialEq, Eq, Hash)]
pub struct MultipartParser {
    pub max_field_count: Option<usize>,
    pub field_count: usize,
}

impl MultipartParser {
    /// A parser that has seen no field yet and lets through `max_field_count` fields, or any
    /// number where no limit is given.
    pub fn new(max_field_count: Option<usize>) -> (parser: Self)
        ensures
            parser.max_field_count == max_field_count,
            parser.field_count == 0,
    {
        MultipartParser { max_field_count, field_count: 0 }
    }

    /// Whether one more field would still be within the limit.
    pub open spec fn has_room(&self) -> bool {
        match self.max_field_count {
            Some(max) => self.field_count < max,
            None => true,
        }
    }

    /// Counts the field that just arrived and returns its number, counted from one. A field
    /// beyond the limit stops the parsing; it is counted all the same. The count stays at the
    /// largest number that it can hold.
    pub fn accept<M, E1, E2>(&mut self) -> (accepted: Result<usize, MultipartParserError<M, E1, E2>>)
        ensures
            final(self).max_field_count == old(self).max_field_count,
            final(self).field_count == if old(self).field_count < usize::MAX {
                old(self).field_count + 1
            } else {
                usize::MAX as int
            },
            match accepted {
                Ok(number) => old(self).has_room() && number == final(self).field_count,
                Err(MultipartParserError::MaxFieldCountError(max)) => !old(self).has_room()
                    && old(self).max_field_count == Some(max),
                Err(_) => false,
            },
    {
        let seen = self.field_count;
        if seen < usize::MAX {
            self.field_count = seen + 1;
        }
        match self.max_field_count {
            Some(max) => {
                if max <= seen {
                    Err(MultipartParserError::MaxFieldCountError(max))
                } else {
                    Ok(self.field_count)
                }
            },
            None => Ok(self.field_count),
        }
    }

    /// Whether the field that was accepted is to be written, from what the filter said of
    /// it. A field that the filter turns away is skipped without a failure.
    pub fn filtered<M, E1, E2>(verdict: Result<bool, E1>) -> (keep: Result<
        bool,
        MultipartParserError<M, E1, E2>,
    >)
        ensures
            match verdict {
                Ok(wanted) => keep == Ok::<bool, MultipartParserError<M, E1, E2>>(wanted),
                Err(failure) => keep == Err::<bool, MultipartParserError<M, E1, E2>>(
                    MultipartParserError::FilterError(failure),
                ),
            },
    {
        match verdict {
            Ok(wanted) => Ok(wanted),
            Err(failure) => Err(MultipartParserError::FilterError(failure)),
        }
    }

    /// Takes what the writer made of a field into the results, or stops at its failure.
    pub fn written<M, R, E1, E2>(fields: &mut Vec<R>, outcome: Result<R, E2>) -> (stored: Result<
        (),
        MultipartParserError<M, E1, E2>,
    >)
        ensures
            match outcome {
                Ok(field) => stored is Ok && final(fields)@ == old(fields)@.push(field),
                Err(failure) => stored == Err::<(), MultipartParserError<M, E1, E2>>(
                    MultipartParserError::WriterError(failure),
                ) && final(fields)@ == old(fields)@,
            },
    {
        match outcome {
            Ok(field) => {
                fields.push(field);
                Ok(())
            },
            Err(failure) => Err(MultipartParserError::WriterError(failure)),
        }
    }
}

/// What is wrong with the framing of a body that must carry exactly one file.
#[derive(Clone, Copy, Debug, PartialEq, Eq, Structural, Hash)]
pub enum FramingError {
    /// The body carries more than one field.
    MultipleFieldFound,
    /// The field carries no file name.
    InvalidFileName,
    /// The body carries no field.
    NoFieldFound,
}

/// What a body is found to carry, given the file names of its fields in order of arrival
/// (`None` for a field without one): the name of its one file, or what is wrong with it.
/// The fields are judged as they arrive, so the first fault met decides.
pub open spec fn framing_of(fields: Seq<Option<Seq<char>>>) -> Result<Seq<char>, FramingError> {
    if fields.len() == 0 {
        Err(FramingError::NoFieldFound)
    } else {
        match fields[0] {
            None => Err(FramingError::InvalidFileName),
            Some(name) => if fields.len() > 1 {
                Err(FramingError::MultipleFieldFound)
            } else {
                Ok(name)
            },
        }
    }
}

/// The guard for a body that must carry exactly one file-bearing field. Each field is first
/// judged by its file name and, if it passes, written; the guard remembers the name and the
/// length that the write gave.
pub struct SingleFileField {
    file_name: Option<String>,
    file_size: Option<u64>,
    seen: Ghost<Seq<Option<Seq<char>>>>,
}

impl SingleFileField {
    /// The file names of the fields that passed the guard so far, in order of arrival.
    pub closed spec fn seen(&self) -> Seq<Option<Seq<char>>> {
        self.seen@
    }

    /// Whether a field has passed the guard and its write has not been noted yet.
    pub closed spec fn is_writing(&self) -> bool {
        self.file_name is Some && self.file_size is None
    }

    /// The length that writing the field gave, once it was noted.
    pub closed spec fn size(&self) -> Option<u64> {
        self.file_size
    }

    /// The guard remembers exactly what passed it: nothing, or one field with a file name.
    pub closed spec fn wf(&self) -> bool {
        match self.file_name {
            None => self.seen@.len() == 0 && self.file_size is None,
            Some(name) => self.seen@ == seq![Some(name@)],
        }
    }

    /// The guard before any field arrived.
    pub fn new() -> (guard: Self)
        ensures
            guard.wf(),
            guard.seen().len() == 0,
            !guard.is_writing(),
            guard.size() is None,
    {
        SingleFileField { file_name: None, file_size: None, seen: Ghost(Seq::empty()) }
    }

    /// Judges the field that just arrived, by its file name. A second field is turned away
    /// whatever it carries; the first must carry a file name, which is kept. A field that is
    /// turned away leaves the guard as it was.
    pub fn accept(&mut self, file_name: Option<&str>) -> (accepted: Result<(), FramingError>)
        requires
            old(self).wf(),
            !old(self).is_writing(),
        ensures
            final(self).wf(),
            match accepted {
                Ok(_) => {
                    &&& final(self).seen() == old(self).seen().push(
                        match file_name {
                            Some(name) => Some(name@),
                            None => None,
                        },
                    )
                    &&& framing_of(final(self).seen()) is Ok
                    &&& final(self).is_writing()
                },
                Err(fault) => {
                    &&& framing_of(
                        old(self).seen().push(
                            match file_name {
                                Some(name) => Some(name@),
                                None => None,
                            },
                        ),
                    ) == Err::<Seq<char>, FramingError>(fault)
                    &&& final(self).seen() == old(self).seen()
                    &&& final(self).size() == old(self).size()
                    &&& !final(self).is_writing()
                },
            },
    {
        if self.file_name.is_some() {
            return Err(FramingError::MultipleFieldFound);
        }
        match file_name {
            Some(name) => {
                let kept = String::from_str(name);
                let ghost seen = Seq::<Option<Seq<char>>>::empty().push(Some(kept@));
                self.seen = Ghost(seen);
                self.file_name = Some(kept);
                assert(seen =~= seq![Some(name@)]);
                assert(old(self).seen().push(Some(name@)) =~= seen);
                Ok(())
            },
            None => Err(FramingError::InvalidFileName),
        }
    }

    /// Notes the length that writing the accepted field gave.
    pub fn written(&mut self, file_size: u64)
        requires
            old(self).wf(),
            old(self).is_writing(),
        ensures
            final(self).wf(),
            final(self).seen() == old(self).seen(),
            final(self).size() == Some(file_size),
            !final(self).is_writing(),
    {
        self.file_size = Some(file_size);
    }

    /// Closes the guard when the body has ended: the name and the length of the one file, or
    /// `NoFieldFound` where no field arrived.
    pub fn finish(self) -> (found: Result<(String, u64), FramingError>)
        requires
            self.wf(),
            !self.is_writing(),
        ensures
            match found {
                Ok((name, size)) => framing_of(self.seen()) == Ok::<Seq<char>, FramingError>(
                    name@,
                ) && self.size() == Some(size),
                Err(fault) => fault == FramingError::NoFieldFound && framing_of(self.seen())
                    == Err::<Seq<char>, FramingError>(fault),
            },
    {
        match (self.file_name, self.file_size) {
            (Some(name), Some(size)) => Ok((name, size)),
            _ => Err(FramingError::NoFieldFound),
        }
    }
}

} // verus!

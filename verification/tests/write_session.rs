use poly_tag::file_driver::WriteFileError;
use poly_tag::write::{WriteCommand, WriteReply, WriteSession};
use std::io::{Error, ErrorKind};

type Command = WriteCommand<String>;
type Reply = WriteReply<String>;

fn io() -> Error {
    Error::from(ErrorKind::Other)
}

fn step(session: &mut WriteSession, reply: Reply) -> Command {
    assert!(session.awaits(&reply));
    session.advance(reply)
}

#[test]
fn write_always_begins_by_opening() {
    let (session, command) = WriteSession::begin::<String>(Some(3));
    assert!(matches!(command, WriteCommand::Open));
    assert!(!session.is_closed());
}

#[test]
fn write_from_start_skips_the_size_check() {
    let (mut session, _) = WriteSession::begin::<String>(None);
    assert!(matches!(step(&mut session, WriteReply::Done), WriteCommand::Truncate(0)));
    assert!(matches!(step(&mut session, WriteReply::Done), WriteCommand::Pull));
    assert!(matches!(
        step(&mut session, WriteReply::Chunk(b"ab".to_vec())),
        WriteCommand::Append(bytes) if bytes == b"ab"
    ));
    assert!(matches!(step(&mut session, WriteReply::Done), WriteCommand::Pull));
    assert!(matches!(step(&mut session, WriteReply::EndOfStream), WriteCommand::ReadSize));
    assert!(matches!(step(&mut session, WriteReply::Size(2)), WriteCommand::Stop(Ok(2))));
    assert!(session.is_closed());
}

#[test]
fn write_from_offset_checks_the_size_first() {
    let (mut session, _) = WriteSession::begin::<String>(Some(40));
    assert!(matches!(step(&mut session, WriteReply::Done), WriteCommand::ReadSize));
    assert!(matches!(step(&mut session, WriteReply::Size(100)), WriteCommand::Truncate(40)));
    assert!(matches!(step(&mut session, WriteReply::Done), WriteCommand::Pull));
}

#[test]
fn offset_equal_to_size_is_accepted() {
    let (mut session, _) = WriteSession::begin::<String>(Some(40));
    step(&mut session, WriteReply::Done);
    assert!(matches!(step(&mut session, WriteReply::Size(40)), WriteCommand::Truncate(40)));
}

#[test]
fn offset_past_size_stops_the_write() {
    let (mut session, _) = WriteSession::begin::<String>(Some(41));
    step(&mut session, WriteReply::Done);
    assert!(matches!(
        step(&mut session, WriteReply::Size(40)),
        WriteCommand::Stop(Err(WriteFileError::InvalidOffset { offset: 41, file_size: 40 }))
    ));
    assert!(session.is_closed());
}

#[test]
fn open_failure_is_create_failure() {
    let (mut session, _) = WriteSession::begin::<String>(None);
    assert!(matches!(
        step(&mut session, WriteReply::IoFailed(io())),
        WriteCommand::Stop(Err(WriteFileError::CreateFile(_)))
    ));
    assert!(session.is_closed());
}

#[test]
fn size_failure_is_metadata_failure() {
    let (mut session, _) = WriteSession::begin::<String>(Some(1));
    step(&mut session, WriteReply::Done);
    assert!(matches!(
        step(&mut session, WriteReply::IoFailed(io())),
        WriteCommand::Stop(Err(WriteFileError::ReadFileMetadata(_)))
    ));
}

#[test]
fn truncate_failure_is_write_failure() {
    let (mut session, _) = WriteSession::begin::<String>(None);
    step(&mut session, WriteReply::Done);
    assert!(matches!(
        step(&mut session, WriteReply::IoFailed(io())),
        WriteCommand::Stop(Err(WriteFileError::WriteToFile(_)))
    ));
}

#[test]
fn append_failure_is_write_failure() {
    let (mut session, _) = WriteSession::begin::<String>(None);
    step(&mut session, WriteReply::Done);
    step(&mut session, WriteReply::Done);
    step(&mut session, WriteReply::Chunk(vec![1]));
    assert!(matches!(
        step(&mut session, WriteReply::IoFailed(io())),
        WriteCommand::Stop(Err(WriteFileError::WriteToFile(_)))
    ));
}

#[test]
fn stream_failure_is_wrapped() {
    let (mut session, _) = WriteSession::begin::<String>(None);
    step(&mut session, WriteReply::Done);
    step(&mut session, WriteReply::Done);
    match step(&mut session, WriteReply::StreamFailed("reset".to_string())) {
        WriteCommand::Stop(Err(WriteFileError::ReadFromStream(cause))) => {
            assert_eq!(cause, "reset")
        }
        other => panic!("unexpected: {:?}", other),
    }
}

#[test]
fn final_size_failure_is_metadata_failure() {
    let (mut session, _) = WriteSession::begin::<String>(None);
    step(&mut session, WriteReply::Done);
    step(&mut session, WriteReply::Done);
    step(&mut session, WriteReply::EndOfStream);
    assert!(matches!(
        step(&mut session, WriteReply::IoFailed(io())),
        WriteCommand::Stop(Err(WriteFileError::ReadFileMetadata(_)))
    ));
}

#[test]
fn replies_that_do_not_fit_are_recognised() {
    let (mut session, _) = WriteSession::begin::<String>(None);
    assert!(!session.awaits(&Reply::Size(1)));
    assert!(!session.awaits(&Reply::EndOfStream));
    assert!(session.awaits(&Reply::Done));
    step(&mut session, WriteReply::Done);
    step(&mut session, WriteReply::Done);
    assert!(!session.awaits(&Reply::Done));
    assert!(!session.awaits(&Reply::IoFailed(io())));
    step(&mut session, WriteReply::EndOfStream);
    step(&mut session, WriteReply::Size(0));
    assert!(!session.awaits(&Reply::Done));
    assert!(!session.awaits(&Reply::Size(0)));
}

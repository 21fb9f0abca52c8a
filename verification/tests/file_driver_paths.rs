use poly_tag::file_driver::{
    join_path, CommitStagingIntoFileError, ComputeFileHashError, ComputeFileMimeError, FileDriver,
    FileDriverError, FileInfo, ReadFileInfoError, ReadFileSizeError, WriteFileError,
};
use poly_tag::response::{IntoStatus, Status};
use std::io::{Error, ErrorKind};

const ID: u128 = 0x550e8400_e29b_41d4_a716_446655440000;

#[test]
fn driver_directories_lie_below_the_root() {
    let driver = FileDriver::new("./files");
    assert_eq!(driver.files_path, "./files/files");
    assert_eq!(driver.staging_path, "./files/staging");
}

#[test]
fn driver_below_empty_root() {
    let driver = FileDriver::new("");
    assert_eq!(driver.files_path, "files");
    assert_eq!(driver.staging_path, "staging");
}

#[test]
fn driver_is_anchored_at_the_current_directory() {
    let mut driver = FileDriver::new("data");
    let dirs = driver.create_dirs("/srv/app");
    assert_eq!(driver.files_path, "/srv/app/data/files");
    assert_eq!(driver.staging_path, "/srv/app/data/staging");
    assert_eq!(dirs, vec!["/srv/app/data/staging", "/srv/app/data/files"]);
}

#[test]
fn absolute_directories_stay_when_anchored() {
    let mut driver = FileDriver::new("/var/data");
    let dirs = driver.create_dirs("/srv/app");
    assert_eq!(driver.files_path, "/var/data/files");
    assert_eq!(dirs, vec!["/var/data/staging", "/var/data/files"]);
}

#[test]
fn driver_starts_writes_at_the_object() {
    let driver = FileDriver::new("root");
    let (path, session, command) = driver.write_file::<()>(ID, Some(7));
    assert_eq!(path, "root/files/550e8400-e29b-41d4-a716-446655440000");
    assert!(matches!(command, poly_tag::write::WriteCommand::Open));
    assert!(!session.is_closed());
    let (path, _, command) = driver.write_staging::<()>(ID, None);
    assert_eq!(path, "root/staging/550e8400-e29b-41d4-a716-446655440000");
    assert!(matches!(command, poly_tag::write::WriteCommand::Open));
}

#[test]
fn join_path_rules() {
    assert_eq!(join_path("a", "b"), "a/b");
    assert_eq!(join_path("a/", "b"), "a/b");
    assert_eq!(join_path("", "b"), "b");
    assert_eq!(join_path("a", "/b"), "/b");
    assert_eq!(join_path("a", ""), "a/");
    assert_eq!(join_path("/", "b"), "/b");
}

#[test]
fn objects_are_named_by_canonical_text() {
    let driver = FileDriver::new("root");
    assert_eq!(
        driver.staging_object_path(ID),
        "root/staging/550e8400-e29b-41d4-a716-446655440000"
    );
    assert_eq!(
        driver.file_object_path(ID),
        "root/files/550e8400-e29b-41d4-a716-446655440000"
    );
}

#[test]
fn canonical_text_pads_and_uses_lower_case() {
    let driver = FileDriver::new("");
    assert_eq!(
        driver.file_object_path(0xABCDEF),
        "files/00000000-0000-0000-0000-000000abcdef"
    );
    assert_eq!(
        driver.file_object_path(u128::MAX),
        "files/ffffffff-ffff-ffff-ffff-ffffffffffff"
    );
}

#[test]
fn size_of_existing_object() {
    assert!(matches!(FileDriver::read_file_size(Ok(42)), Ok(Some(42))));
}

#[test]
fn size_of_missing_object_is_none() {
    let probe = Err(Error::from(ErrorKind::NotFound));
    assert!(matches!(FileDriver::read_file_size(probe), Ok(None)));
}

#[test]
fn size_probe_failure_is_reported() {
    let probe = Err(Error::from(ErrorKind::PermissionDenied));
    match FileDriver::read_file_size(probe) {
        Err(ReadFileSizeError::ReadFileMetadata(cause)) => {
            assert_eq!(cause.kind(), ErrorKind::PermissionDenied)
        }
        other => panic!("unexpected: {:?}", other),
    }
}

#[test]
fn info_is_assembled_from_both_passes() {
    let info = FileDriver::read_file_info(Ok(7), Ok("text/plain")).unwrap();
    assert_eq!(info, FileInfo { mime: "text/plain", hash: 7 });
}

#[test]
fn hash_failure_is_reported_first() {
    let hash = Err(ComputeFileHashError::ReadFileError(Error::from(ErrorKind::Other)));
    let mime = Err(ComputeFileMimeError::InferError(Error::from(ErrorKind::Other)));
    assert!(matches!(
        FileDriver::read_file_info(hash, mime),
        Err(ReadFileInfoError::ComputeFileHashError(ComputeFileHashError::ReadFileError(_)))
    ));
}

#[test]
fn mime_failure_is_reported() {
    let mime = Err(ComputeFileMimeError::InferError(Error::from(ErrorKind::Other)));
    assert!(matches!(
        FileDriver::read_file_info(Ok(1), mime),
        Err(ReadFileInfoError::ComputeFileMimeError(ComputeFileMimeError::InferError(_)))
    ));
}

#[test]
fn promotion_outcome() {
    assert!(FileDriver::commit_staging_into_file(Ok(())).is_ok());
    assert!(matches!(
        FileDriver::commit_staging_into_file(Err(Error::from(ErrorKind::Other))),
        Err(CommitStagingIntoFileError::PromoteFailed(_))
    ));
}

#[test]
fn write_error_statuses() {
    let io = || Error::from(ErrorKind::Other);
    assert_eq!(WriteFileError::<()>::CreateFile(io()).into_status(), Status::InternalServerError);
    assert_eq!(
        WriteFileError::<()>::ReadFileMetadata(io()).into_status(),
        Status::InternalServerError
    );
    assert_eq!(
        WriteFileError::<()>::InvalidOffset { offset: 5, file_size: 2 }.into_status(),
        Status::UnprocessableEntity
    );
    assert_eq!(WriteFileError::ReadFromStream(()).into_status(), Status::InternalServerError);
    assert_eq!(WriteFileError::<()>::WriteToFile(io()).into_status(), Status::InternalServerError);
}

#[test]
fn write_error_messages() {
    assert_eq!(
        WriteFileError::<()>::InvalidOffset { offset: 120, file_size: 7 }.message(),
        "invalid offset; offset is `120`, but file size is `7`"
    );
    assert_eq!(
        WriteFileError::<()>::InvalidOffset { offset: u64::MAX, file_size: 0 }.message(),
        "invalid offset; offset is `18446744073709551615`, but file size is `0`"
    );
    assert_eq!(WriteFileError::ReadFromStream(()).message(), "internal server error");
}

#[test]
fn driver_error_has_the_status_of_its_cause() {
    let invalid: FileDriverError<()> =
        FileDriverError::WriteStagingError(WriteFileError::InvalidOffset { offset: 1, file_size: 0 });
    assert_eq!(invalid.into_status(), Status::UnprocessableEntity);
    let size: FileDriverError<()> = FileDriverError::ReadStagingSizeError(
        ReadFileSizeError::ReadFileMetadata(Error::from(ErrorKind::Other)),
    );
    assert_eq!(size.into_status(), Status::InternalServerError);
    let commit: FileDriverError<()> = FileDriverError::CommitStagingIntoFileError(
        CommitStagingIntoFileError::PromoteFailed(Error::from(ErrorKind::Other)),
    );
    assert_eq!(commit.into_status(), Status::InternalServerError);
}

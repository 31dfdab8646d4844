use rencfs_winfsp::error::{fs_error, io_error, FsError, FspError, IoError, IoErrorKind};

fn io(message: &str) -> FsError {
    FsError::Io(IoError { kind: IoErrorKind::BrokenPipe, message: message.to_string() })
}

#[test]
fn errors_are_reported_by_windows_codes() {
    let cases: [(FsError, u32); 11] = [
        (FsError::NotFound("path component"), 2),
        (FsError::InodeNotFound, 2),
        (FsError::AlreadyExists, 183),
        (FsError::AlreadyOpenForWrite, 183),
        (FsError::ReadOnly, 19),
        (FsError::InvalidInput("root has no parent"), 87),
        (FsError::InvalidInodeType, 267),
        (FsError::NotEmpty, 145),
        (FsError::MaxFilesizeExceeded(4096), 112),
        (io("disk gone"), 1117),
        (FsError::Other("crypto".to_string()), 1117),
    ];
    for (err, code) in cases {
        assert_eq!(fs_error(err), FspError::WIN32(code));
    }
}

#[test]
fn rendered_failures_become_io_errors() {
    let wrapped: FsError = io_error("channel closed".to_string());
    let message: String = "channel closed".to_string();
    assert_eq!(wrapped, FsError::Io(IoError { kind: IoErrorKind::Other, message }));
    assert_ne!(wrapped, io("channel closed"));
}

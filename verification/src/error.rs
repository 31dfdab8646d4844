//! Errors of the encrypted file system and the Windows codes they are reported as.

use vstd::prelude::*;

verus! {

pub const ERROR_FILE_NOT_FOUND: u32 = 2;

pub const ERROR_ACCESS_DENIED: u32 = 5;

pub const ERROR_WRITE_PROTECT: u32 = 19;

pub const ERROR_INVALID_PARAMETER: u32 = 87;

pub const ERROR_DISK_FULL: u32 = 112;

pub const ERROR_DIR_NOT_EMPTY: u32 = 145;

pub const ERROR_ALREADY_EXISTS: u32 = 183;

pub const ERROR_DIRECTORY: u32 = 267;

pub const ERROR_IO_DEVICE: u32 = 1117;

/// The kinds of input/output errors that the standard library tells apart. `Uncategorized` stands
/// for those that it keeps to itself.
#[derive(Debug, Clone, Copy, PartialEq, Eq, Structural)]
pub enum IoErrorKind {
    NotFound,
    PermissionDenied,
    ConnectionRefused,
    ConnectionReset,
    HostUnreachable,
    NetworkUnreachable,
    ConnectionAborted,
    NotConnected,
    AddrInUse,
    AddrNotAvailable,
    NetworkDown,
    BrokenPipe,
    AlreadyExists,
    WouldBlock,
    NotADirectory,
    IsADirectory,
    DirectoryNotEmpty,
    ReadOnlyFilesystem,
    StaleNetworkFileHandle,
    InvalidInput,
    InvalidData,
    TimedOut,
    WriteZero,
    StorageFull,
    NotSeekable,
    QuotaExceeded,
    FileTooLarge,
    ResourceBusy,
    ExecutableFileBusy,
    Deadlock,
    CrossesDevices,
    TooManyLinks,
    InvalidFilename,
    ArgumentListTooLong,
    Interrupted,
    Unsupported,
    UnexpectedEof,
    OutOfMemory,
    Other,
    Uncategorized,
}

/// An input/output error: its kind and its message.
#[derive(Debug, PartialEq, Eq)]
pub struct IoError {
    pub kind: IoErrorKind,
    pub message: String,
}

/// An error of the encrypted file system. The failures of which nothing is decided here are passed
/// on as they are, in `Other`.
#[derive(Debug, PartialEq, Eq)]
pub enum FsError<Passed = String> {
    Io(IoError),
    NotFound(&'static str),
    InodeNotFound,
    InvalidInput(&'static str),
    InvalidInodeType,
    AlreadyExists,
    AlreadyOpenForWrite,
    NotEmpty,
    MaxFilesizeExceeded(usize),
    ReadOnly,
    Other(Passed),
}

pub type FsResult<T, Passed = String> = Result<T, FsError<Passed>>;

/// An error as it is handed to WinFSP.
#[derive(Debug, Clone, Copy, PartialEq, Eq)]
pub enum FspError {
    HRESULT(i32),
    WIN32(u32),
    NTSTATUS(i32),
}

/// The Windows error code under which an error of the file system is reported.
pub open spec fn win32_code(err: FsError) -> u32 {
    match err {
        FsError::NotFound(_) => ERROR_FILE_NOT_FOUND,
        FsError::InodeNotFound => ERROR_FILE_NOT_FOUND,
        FsError::AlreadyExists => ERROR_ALREADY_EXISTS,
        FsError::AlreadyOpenForWrite => ERROR_ALREADY_EXISTS,
        FsError::ReadOnly => ERROR_WRITE_PROTECT,
        FsError::InvalidInput(_) => ERROR_INVALID_PARAMETER,
        FsError::InvalidInodeType => ERROR_DIRECTORY,
        FsError::NotEmpty => ERROR_DIR_NOT_EMPTY,
        FsError::MaxFilesizeExceeded(_) => ERROR_DISK_FULL,
        FsError::Io(_) => ERROR_IO_DEVICE,
        FsError::Other(_) => ERROR_IO_DEVICE,
    }
}

/// What WinFSP is told of an error of the file system.
pub open spec fn reported(err: FsError) -> FspError {
    FspError::WIN32(win32_code(err))
}

/// Translates an error of the file system for WinFSP.
pub fn fs_error(err: FsError) -> (reply: FspError)
    ensures
        reply == reported(err),
{
    match err {
        FsError::NotFound(_) | FsError::InodeNotFound => FspError::WIN32(ERROR_FILE_NOT_FOUND),
        FsError::AlreadyExists | FsError::AlreadyOpenForWrite => FspError::WIN32(
            ERROR_ALREADY_EXISTS,
        ),
        FsError::ReadOnly => FspError::WIN32(ERROR_WRITE_PROTECT),
        FsError::InvalidInput(_) => FspError::WIN32(ERROR_INVALID_PARAMETER),
        FsError::InvalidInodeType => FspError::WIN32(ERROR_DIRECTORY),
        FsError::NotEmpty => FspError::WIN32(ERROR_DIR_NOT_EMPTY),
        FsError::MaxFilesizeExceeded(_) => FspError::WIN32(ERROR_DISK_FULL),
        _ => FspError::WIN32(ERROR_IO_DEVICE),
    }
}

/// The input/output error that a failure without a kind of its own is wrapped as.
pub open spec fn other_io_error<Passed>(message: String) -> FsError<Passed> {
    FsError::Io(IoError { kind: IoErrorKind::Other, message })
}

/// Wraps the rendered text of a failure as an input/output error.
pub fn io_error<Passed>(err: String) -> (wrapped: FsError<Passed>)
    ensures
        wrapped == other_io_error::<Passed>(err),
        wrapped matches FsError::Io(io) && io.kind == IoErrorKind::Other && io.message == err,
{
    FsError::Io(IoError { kind: IoErrorKind::Other, message: err })
}

/// No error of the file system is reported as success, and only a missing file or directory is
/// reported as not found.
pub proof fn reported_codes_are_failures(err: FsError)
    ensures
        win32_code(err) != 0,
        win32_code(err) == ERROR_FILE_NOT_FOUND <==> (err is NotFound || err is InodeNotFound),
        win32_code(err) == ERROR_ALREADY_EXISTS <==> (err is AlreadyExists
            || err is AlreadyOpenForWrite),
{
}

/// The Windows code of each error, by its number: a missing file or directory is 2, one that is
/// there already or is open for writing 183, a read-only file system 19, an input that is not
/// valid 87, a file in the place of a directory or the other way round 267, a directory that is
/// not empty 145, a file that would be too large 112, and anything else 1117.
pub proof fn errors_have_numbers(err: FsError)
    ensures
        reported(err) == FspError::WIN32(
            if err is NotFound || err is InodeNotFound {
                2
            } else if err is AlreadyExists || err is AlreadyOpenForWrite {
                183
            } else if err is ReadOnly {
                19
            } else if err is InvalidInput {
                87
            } else if err is InvalidInodeType {
                267
            } else if err is NotEmpty {
                145
            } else if err is MaxFilesizeExceeded {
                112
            } else {
                1117
            },
        ),
        ERROR_ACCESS_DENIED == 5,
        ERROR_INVALID_PARAMETER == 87,
        ERROR_DIRECTORY == 267,
{
}

/// A failure that is wrapped is told from every other input/output error by its kind, and from
/// every other failure that is wrapped by its message.
pub proof fn wrapped_failure_keeps_message<Passed>(message: String, other: IoError)
    ensures
        other_io_error::<Passed>(message) is Io,
        other_io_error::<Passed>(message) == FsError::<Passed>::Io(other) <==> (other.kind
            == IoErrorKind::Other && other.message == message),
{
}

} // verus!

use rencfs_winfsp::attr::{FileAttr, FileInfo, FileType};
use rencfs_winfsp::context::{HandleState, WinFileContext, WinFsContext};
use rencfs_winfsp::error::{io_error, FsError, FspError};
use rencfs_winfsp::file::{UpdateStep, WriteRequest, WriteStep};
use rencfs_winfsp::request::{DataRequest, FsCall, FsReply, FsRequest, Step};
use rencfs_winfsp::time::{SystemTime, UNIX_EPOCH_FILETIME};

const VOLUME: WinFsContext = WinFsContext { read_only: false };
const READ_ONLY_VOLUME: WinFsContext = WinFsContext { read_only: true };

/// Fifty bytes, each different from the others.
const DATA: [u8; 50] = [
    1, 2, 3, 4, 5, 6, 7, 8, 9, 10, 11, 12, 13, 14, 15, 16, 17, 18, 19, 20, 21, 22, 23, 24, 25, 26,
    27, 28, 29, 30, 31, 32, 33, 34, 35, 36, 37, 38, 39, 40, 41, 42, 43, 44, 45, 46, 47, 48, 49, 50,
];

fn attr(size: u64) -> FileAttr {
    let time: SystemTime = SystemTime::new(1, 0).unwrap();
    FileAttr {
        ino: 3,
        size,
        atime: time,
        mtime: time,
        ctime: time,
        crtime: time,
        kind: FileType::RegularFile,
    }
}

fn handle(fh: u64, kind: FileType) -> WinFileContext {
    WinFileContext {
        ino: 3,
        fh,
        kind,
        state: HandleState { parent: None, name: None, delete_on_close: false },
    }
}

fn update(
    step: UpdateStep<FsRequest>,
    replies: Vec<FsReply>,
) -> (Vec<FsRequest>, Result<FileInfo, FspError>) {
    let mut calls: Vec<FsRequest> = Vec::new();
    let mut replies = replies.into_iter();
    let mut step: UpdateStep<FsRequest> = step;
    loop {
        match step {
            Step::Call(call, state) => {
                calls.push(call);
                step = state.step(replies.next().unwrap());
            }
            Step::Done(outcome) => return (calls, outcome),
        }
    }
}

fn write<'a>(
    step: WriteStep<DataRequest<'a>, &'a [u8]>,
    replies: Vec<FsReply>,
) -> (Vec<DataRequest<'a>>, Result<(u32, Option<FileInfo>), FspError>) {
    let mut calls: Vec<DataRequest<'a>> = Vec::new();
    let mut replies = replies.into_iter();
    let mut step: WriteStep<DataRequest<'a>, &'a [u8]> = step;
    loop {
        match step {
            Step::Call(call, state) => {
                calls.push(call);
                step = state.step(replies.next().unwrap());
            }
            Step::Done(outcome) => return (calls, outcome),
        }
    }
}

#[test]
fn flushing_the_volume_does_nothing() {
    assert!(VOLUME.flush(None).is_none());
}

#[test]
fn flushing_a_file_flushes_and_describes() {
    let context: WinFileContext = handle(7, FileType::RegularFile);
    let (calls, outcome) = update(
        VOLUME.flush(Some(&context)).unwrap(),
        vec![FsReply::Done(Ok(())), FsReply::Attr(Ok(attr(5)))],
    );
    assert_eq!(calls, vec![FsCall::Flush { fh: 7 }, FsCall::GetAttr { ino: 3 }]);
    assert_eq!(outcome.unwrap().file_size, 5);
}

#[test]
fn flushing_a_directory_only_describes() {
    let context: WinFileContext = handle(0, FileType::Directory);
    let (calls, outcome) =
        update(VOLUME.flush(Some(&context)).unwrap(), vec![FsReply::Attr(Ok(attr(5)))]);
    assert_eq!(calls, vec![FsCall::GetAttr { ino: 3 }]);
    assert!(outcome.is_ok());
}

#[test]
fn a_failed_flush_is_reported_without_describing() {
    let context: WinFileContext = handle(7, FileType::RegularFile);
    let (calls, outcome) = update(
        VOLUME.flush(Some(&context)).unwrap(),
        vec![FsReply::Done(Err(io_error("gone".to_string())))],
    );
    assert_eq!(calls.len(), 1);
    assert_eq!(outcome, Err(FspError::WIN32(1117)));
}

#[test]
fn file_info_is_asked_for_by_inode() {
    let context: WinFileContext = handle(7, FileType::RegularFile);
    let (calls, outcome) =
        update(VOLUME.get_file_info(&context), vec![FsReply::Attr(Err(FsError::InodeNotFound))]);
    assert_eq!(calls, vec![FsCall::GetAttr { ino: 3 }]);
    assert_eq!(outcome, Err(FspError::WIN32(2)));
}

#[test]
fn overwriting_empties_the_file() {
    let context: WinFileContext = handle(7, FileType::RegularFile);
    let (calls, outcome) = update(
        VOLUME.overwrite(&context),
        vec![FsReply::Done(Ok(())), FsReply::Attr(Ok(attr(0)))],
    );
    assert_eq!(calls, vec![FsCall::SetLen { ino: 3, size: 0 }, FsCall::GetAttr { ino: 3 }]);
    assert_eq!(outcome.unwrap().file_size, 0);
}

#[test]
fn the_size_is_set_as_asked() {
    let context: WinFileContext = handle(7, FileType::RegularFile);
    let (calls, outcome) = update(
        VOLUME.set_file_size(&context, 12_345),
        vec![FsReply::Done(Err(FsError::MaxFilesizeExceeded(1)))],
    );
    assert_eq!(calls, vec![FsCall::SetLen { ino: 3, size: 12_345 }]);
    assert_eq!(outcome, Err(FspError::WIN32(112)));
}

#[test]
fn times_are_set_unless_they_are_early() {
    let context: WinFileContext = handle(7, FileType::RegularFile);
    let (calls, _) = update(
        VOLUME.set_basic_info(
            &context,
            UNIX_EPOCH_FILETIME + 10_000_000,
            0,
            UNIX_EPOCH_FILETIME + 20_000_001,
            UNIX_EPOCH_FILETIME - 1,
        ),
        vec![FsReply::Done(Ok(())), FsReply::Attr(Ok(attr(0)))],
    );
    match &calls[0] {
        FsCall::SetAttr { ino, changes } => {
            assert_eq!(*ino, 3);
            assert_eq!(changes.crtime, SystemTime::new(1, 0));
            assert_eq!(changes.atime, None);
            assert_eq!(changes.mtime, SystemTime::new(2, 100));
            assert_eq!(changes.ctime, None);
        }
        other => panic!("unexpected {other:?}"),
    }
}

#[test]
fn access_and_change_times_are_set_too() {
    let context: WinFileContext = handle(7, FileType::RegularFile);
    let changed: u64 = UNIX_EPOCH_FILETIME + 10_000_000;
    match VOLUME.set_basic_info(&context, 0, UNIX_EPOCH_FILETIME, 0, changed) {
        Step::Call(FsCall::SetAttr { changes, .. }, _) => {
            assert_eq!(changes.atime, SystemTime::new(0, 0));
            assert_eq!(changes.ctime, SystemTime::new(1, 0));
            assert_eq!((changes.crtime, changes.mtime), (None, None));
        }
        _ => panic!("did not ask to change the times"),
    }
}

#[test]
fn read_only_volume_refuses_every_change() {
    let context: WinFileContext = handle(7, FileType::RegularFile);
    let denied: Result<FileInfo, FspError> = Err(FspError::WIN32(5));
    assert_eq!(update(READ_ONLY_VOLUME.overwrite(&context), vec![]), (vec![], denied));
    assert_eq!(update(READ_ONLY_VOLUME.set_file_size(&context, 1), vec![]), (vec![], denied));
    assert_eq!(
        update(READ_ONLY_VOLUME.set_basic_info(&context, 1, 2, 3, 4), vec![]),
        (vec![], denied)
    );
    assert_eq!(
        write(READ_ONLY_VOLUME.write(&context, &DATA[..4], 0, false, false), vec![]),
        (vec![], Err(FspError::WIN32(5)))
    );
}

#[test]
fn read_only_volume_still_reads_and_describes() {
    let context: WinFileContext = handle(7, FileType::RegularFile);
    assert!(matches!(
        READ_ONLY_VOLUME.get_file_info(&context),
        Step::Call(FsCall::GetAttr { ino: 3 }, _)
    ));
    assert!(matches!(
        READ_ONLY_VOLUME.read(&context, 9),
        Step::Call(FsCall::Read { ino: 3, offset: 9, fh: 7 }, _)
    ));
}

#[test]
fn reading_passes_the_count_on() {
    let context: WinFileContext = handle(7, FileType::RegularFile);
    match VOLUME.read(&context, 100) {
        Step::Call(call, state) => {
            assert_eq!(call, FsCall::Read { ino: 3, offset: 100, fh: 7 });
            match state.step(FsReply::Count(Ok(512))) {
                Step::Done(outcome) => assert_eq!(outcome, Ok(512)),
                Step::Call(..) => panic!("went on"),
            }
        }
        Step::Done(_) => panic!("did not read"),
    }
}

#[test]
fn counts_are_told_by_their_low_bits() {
    let context: WinFileContext = handle(7, FileType::RegularFile);
    match VOLUME.read(&context, 0) {
        Step::Call(_, state) => match state.step(FsReply::Count(Ok(0x1_0000_0005))) {
            Step::Done(outcome) => assert_eq!(outcome, Ok(5)),
            Step::Call(..) => panic!("went on"),
        },
        Step::Done(_) => panic!("did not read"),
    }
}

#[test]
fn directories_are_neither_read_nor_written() {
    let context: WinFileContext = handle(0, FileType::Directory);
    match VOLUME.read(&context, 0) {
        Step::Done(outcome) => assert_eq!(outcome, Err(FspError::WIN32(267))),
        Step::Call(..) => panic!("read a directory"),
    }
    assert_eq!(
        write(VOLUME.write(&context, &DATA[..1], 0, false, false), vec![]),
        (vec![], Err(FspError::WIN32(267)))
    );
}

#[test]
fn a_failed_read_is_reported() {
    let context: WinFileContext = handle(7, FileType::RegularFile);
    match VOLUME.read(&context, 0) {
        Step::Call(_, state) => match state.step(FsReply::Count(Err(FsError::InvalidInodeType))) {
            Step::Done(outcome) => assert_eq!(outcome, Err(FspError::WIN32(267))),
            Step::Call(..) => panic!("went on"),
        },
        Step::Done(_) => panic!("did not read"),
    }
}

#[test]
fn a_write_sizes_stores_and_describes() {
    let context: WinFileContext = handle(7, FileType::RegularFile);
    let (calls, outcome) = write(
        VOLUME.write(&context, &DATA, 20, false, false),
        vec![FsReply::Attr(Ok(attr(30))), FsReply::Count(Ok(50)), FsReply::Attr(Ok(attr(70)))],
    );
    assert_eq!(
        calls,
        vec![
            FsCall::GetAttr { ino: 3 },
            FsCall::Write { ino: 3, offset: 20, data: &DATA[..50], fh: 7 },
            FsCall::GetAttr { ino: 3 },
        ]
    );
    let (count, info) = outcome.unwrap();
    assert_eq!((count, info.unwrap().file_size), (50, 70));
}

#[test]
fn a_write_to_the_end_goes_to_the_end() {
    let context: WinFileContext = handle(7, FileType::RegularFile);
    let (calls, _) = write(
        VOLUME.write(&context, &DATA[..5], u64::MAX, true, false),
        vec![FsReply::Attr(Ok(attr(30))), FsReply::Count(Ok(5)), FsReply::Attr(Ok(attr(35)))],
    );
    assert_eq!(calls[1], FsCall::Write { ino: 3, offset: 30, data: &DATA[..5], fh: 7 });
}

#[test]
fn a_constrained_write_is_cut_at_the_end() {
    let context: WinFileContext = handle(7, FileType::RegularFile);
    let (calls, outcome) = write(
        VOLUME.write(&context, &DATA, 20, false, true),
        vec![FsReply::Attr(Ok(attr(30))), FsReply::Count(Ok(10)), FsReply::Attr(Ok(attr(30)))],
    );
    assert_eq!(calls[1], FsCall::Write { ino: 3, offset: 20, data: &DATA[..10], fh: 7 });
    assert_eq!(outcome.unwrap().0, 10);
}

#[test]
fn a_cut_write_takes_the_first_bytes() {
    let mut context: WinFileContext = handle(3, FileType::RegularFile);
    context.ino = 7;
    let (calls, outcome) = write(
        VOLUME.write(&context, &[1, 2, 3, 4, 5], 8, false, true),
        vec![FsReply::Attr(Ok(attr(10))), FsReply::Count(Ok(2)), FsReply::Attr(Ok(attr(10)))],
    );
    let first: &[u8] = &[1, 2];
    assert_eq!(calls[1], FsCall::Write { ino: 7, offset: 8, data: first, fh: 3 });
    assert_eq!(calls.len(), 3);
    assert_eq!(outcome.unwrap().0, 2);
}

#[test]
fn a_constrained_write_at_or_after_the_end_writes_nothing() {
    let context: WinFileContext = handle(7, FileType::RegularFile);
    for (offset, to_end) in [(30u64, false), (31, false), (0, true)] {
        let (calls, outcome) = write(
            VOLUME.write(&context, &DATA, offset, to_end, true),
            vec![FsReply::Attr(Ok(attr(30)))],
        );
        assert_eq!(calls.len(), 1);
        assert_eq!(outcome, Ok((0, None)));
    }
}

#[test]
fn each_failure_of_a_write_is_reported() {
    let context: WinFileContext = handle(7, FileType::RegularFile);
    let begin = || VOLUME.write(&context, &DATA[..5], 0, false, false);
    assert_eq!(
        write(begin(), vec![FsReply::Attr(Err(FsError::InodeNotFound))]).1,
        Err(FspError::WIN32(2))
    );
    assert_eq!(
        write(begin(), vec![FsReply::Attr(Ok(attr(0))), FsReply::Count(Err(FsError::ReadOnly))]).1,
        Err(FspError::WIN32(19))
    );
    assert_eq!(
        write(
            begin(),
            vec![
                FsReply::Attr(Ok(attr(0))),
                FsReply::Count(Ok(5)),
                FsReply::Attr(Err(FsError::Other("late".to_string()))),
            ]
        )
        .1,
        Err(FspError::WIN32(1117))
    );
}

#[test]
fn only_what_is_told_must_have_a_size_in_range() {
    let context: WinFileContext = handle(7, FileType::RegularFile);
    let huge: FsReply = FsReply::Attr(Ok(attr(u64::MAX)));
    match VOLUME.write(&context, &DATA[..5], 0, false, true) {
        Step::Call(_, sizing) => {
            assert!(sizing.can_tell(&huge));
            match sizing.step(FsReply::Attr(Ok(attr(u64::MAX)))) {
                Step::Call(call, storing) => {
                    assert_eq!(call, FsCall::Write { ino: 3, offset: 0, data: &DATA[..5], fh: 7 });
                    match storing.step(FsReply::Count(Ok(5))) {
                        Step::Call(_, refreshing) => assert!(!refreshing.can_tell(&huge)),
                        Step::Done(_) => panic!("did not refresh"),
                    }
                }
                Step::Done(_) => panic!("did not write"),
            }
        }
        Step::Done(_) => panic!("did not size"),
    }
    match VOLUME.get_file_info(&context) {
        Step::Call(_, state) => {
            assert!(!state.can_tell(&huge));
            assert!(state.can_tell(&FsReply::Attr(Ok(attr(4)))));
        }
        Step::Done(_) => panic!("did not ask"),
    }
}

#[test]
fn extents_follow_the_request() {
    let request = WriteRequest {
        ino: 3,
        fh: 7,
        offset: 4,
        data: &DATA[..10],
        write_to_eof: false,
        constrained_io: true,
    };
    assert_eq!(request.extent(14), Some((4, 10)));
    assert_eq!(request.extent(13), Some((4, 9)));
    assert_eq!(request.extent(4), None);
    assert_eq!(WriteRequest { constrained_io: false, ..request }.extent(4), Some((4, 10)));
    let appending = WriteRequest { constrained_io: false, write_to_eof: true, ..request };
    assert_eq!(appending.extent(9), Some((9, 10)));
}

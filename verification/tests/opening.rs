use rencfs_winfsp::attr::{FileAttr, FileType};
use rencfs_winfsp::context::{HandleState, WinFileContext, WinFsContext};
use rencfs_winfsp::error::{FsError, FspError};
use rencfs_winfsp::open::security_of;
use rencfs_winfsp::request::{FsCall, FsReply, FsRequest, Step};
use rencfs_winfsp::time::SystemTime;

const VOLUME: WinFsContext = WinFsContext { read_only: false };
const READ_ONLY_VOLUME: WinFsContext = WinFsContext { read_only: true };

fn wide(text: &str) -> Vec<u16> {
    text.encode_utf16().collect()
}

fn attr(ino: u64, kind: FileType) -> FileAttr {
    let time: SystemTime = SystemTime::new(1, 0).unwrap();
    FileAttr { ino, size: 10, atime: time, mtime: time, ctime: time, crtime: time, kind }
}

/// A file system with `\docs` (2), `\docs\plan` (3, a file) and `\notes` (4, a file).
fn answer(call: &FsRequest) -> FsReply<'static> {
    match call {
        FsCall::GetAttr { ino: 1 } => FsReply::Attr(Ok(attr(1, FileType::Directory))),
        FsCall::FindByName { parent, name } => {
            FsReply::Found(Ok(match (*parent, name.as_str()) {
                (1, "docs") => Some(attr(2, FileType::Directory)),
                (2, "plan") => Some(attr(3, FileType::RegularFile)),
                (1, "notes") => Some(attr(4, FileType::RegularFile)),
                (1, "locked") => return FsReply::Found(Err(FsError::ReadOnly)),
                _ => None,
            }))
        }
        FsCall::Open { ino: 3, .. } => FsReply::Handle(Ok(77)),
        FsCall::Open { .. } => FsReply::Handle(Err(FsError::AlreadyOpenForWrite)),
        FsCall::Create { attr: wanted, .. } => match wanted.kind {
            FileType::Directory => FsReply::Created(Ok((0, attr(9, FileType::Directory)))),
            FileType::RegularFile => FsReply::Created(Ok((88, attr(8, FileType::RegularFile)))),
        },
        FsCall::Rename { name, .. } => {
            if name == "plan" {
                FsReply::Done(Ok(()))
            } else {
                FsReply::Done(Err(FsError::AlreadyExists))
            }
        }
        _ => panic!("not asked for: {call:?}"),
    }
}

fn find(parent: u64, name: &str) -> FsRequest {
    FsCall::FindByName { parent, name: name.to_string() }
}

fn open(
    volume: &WinFsContext,
    path: &str,
    access: u32,
) -> (Vec<FsRequest>, Result<WinFileContext, FspError>) {
    let mut calls: Vec<FsRequest> = Vec::new();
    let mut step = volume.open(&wide(path), access);
    loop {
        match step {
            Step::Call(call, state) => {
                step = state.step(answer(&call));
                calls.push(call);
            }
            Step::Done(outcome) => return (calls, outcome.map(|(context, _)| context)),
        }
    }
}

fn create(
    path: &str,
    options: u32,
    access: u32,
    attributes: u32,
) -> (Vec<FsRequest>, Result<WinFileContext, FspError>) {
    let mut calls: Vec<FsRequest> = Vec::new();
    let mut step = VOLUME.create(&wide(path), options, access, attributes);
    loop {
        match step {
            Step::Call(call, state) => {
                step = state.step(answer(&call));
                calls.push(call);
            }
            Step::Done(outcome) => return (calls, outcome.map(|(context, _)| context)),
        }
    }
}

fn rename(
    context: &WinFileContext,
    path: &str,
) -> (Vec<FsRequest>, Result<(u64, String), FspError>) {
    let mut calls: Vec<FsRequest> = Vec::new();
    let mut step = VOLUME.rename(context, &wide(path));
    loop {
        match step {
            Step::Call(call, state) => {
                step = state.step(answer(&call));
                calls.push(call);
            }
            Step::Done(outcome) => return (calls, outcome),
        }
    }
}

fn handle(ino: u64, kind: FileType, location: Option<(u64, &str)>) -> WinFileContext {
    WinFileContext {
        ino,
        fh: 0,
        kind,
        state: HandleState {
            parent: location.map(|(parent, _)| parent),
            name: location.map(|(_, name)| name.to_string()),
            delete_on_close: false,
        },
    }
}

#[test]
fn resolving_walks_from_the_root() {
    let mut calls: Vec<FsRequest> = Vec::new();
    let mut step = VOLUME.resolve(&wide("\\docs\\plan"));
    let found = loop {
        match step {
            Step::Call(call, state) => {
                step = state.step(answer(&call));
                calls.push(call);
            }
            Step::Done(outcome) => break outcome,
        }
    };
    assert_eq!(found, Ok(attr(3, FileType::RegularFile)));
    assert_eq!(calls, vec![FsCall::GetAttr { ino: 1 }, find(1, "docs"), find(2, "plan")]);
}

#[test]
fn resolving_a_missing_name_fails() {
    let mut step = VOLUME.resolve(&wide("\\docs\\none\\more"));
    let mut asked: usize = 0;
    let found = loop {
        match step {
            Step::Call(call, state) => {
                asked += 1;
                step = state.step(answer(&call));
            }
            Step::Done(outcome) => break outcome,
        }
    };
    assert_eq!(found, Err(FsError::NotFound("path component")));
    assert_eq!(asked, 3);
}

#[test]
fn resolving_the_parent_stops_before_the_last_name() {
    let mut calls: Vec<FsRequest> = Vec::new();
    let mut step = VOLUME.resolve_parent(&wide("\\docs\\new"));
    let found = loop {
        match step {
            Step::Call(call, state) => {
                step = state.step(answer(&call));
                calls.push(call);
            }
            Step::Done(outcome) => break outcome,
        }
    };
    assert_eq!(found, Ok((2, "new".to_string())));
    assert_eq!(calls, vec![find(1, "docs")]);
}

#[test]
fn the_root_has_no_parent() {
    match VOLUME.resolve_parent(&wide("\\")) {
        Step::Done(outcome) => {
            assert_eq!(outcome, Err(FsError::InvalidInput("root has no parent")));
        }
        Step::Call(..) => panic!("asked for the parent of the root"),
    }
}

#[test]
fn a_parent_must_be_a_directory_that_exists() {
    for (path, expected) in [
        ("\\notes\\x", FsError::InvalidInodeType),
        ("\\none\\x", FsError::NotFound("parent path component")),
        ("\\locked\\x", FsError::ReadOnly),
    ] {
        match VOLUME.resolve_parent(&wide(path)) {
            Step::Call(call, state) => match state.step(answer(&call)) {
                Step::Done(outcome) => assert_eq!(outcome, Err(expected)),
                Step::Call(..) => panic!("went on from {path}"),
            },
            Step::Done(_) => panic!("did not look up {path}"),
        }
    }
}

#[test]
fn attributes_of_a_path_are_told() {
    for (path, bits) in [("\\docs", 0x10u32), ("\\docs\\plan", 0x20), ("\\", 0x10)] {
        let mut step = VOLUME.get_security_by_name(&wide(path));
        let security = loop {
            match step {
                Step::Call(call, walk) => step = security_of(walk.step(answer(&call))),
                Step::Done(outcome) => break outcome.unwrap(),
            }
        };
        assert_eq!(security.attributes, bits);
        assert!(!security.reparse);
        assert_eq!(security.sz_security_descriptor, 0);
    }
}

#[test]
fn attributes_of_a_missing_path_are_an_error() {
    let mut step = VOLUME.get_security_by_name(&wide("\\none"));
    let outcome = loop {
        match step {
            Step::Call(call, walk) => step = security_of(walk.step(answer(&call))),
            Step::Done(outcome) => break outcome,
        }
    };
    assert_eq!(outcome, Err(FspError::WIN32(2)));
}

#[test]
fn a_file_is_opened_and_located() {
    let (calls, outcome) = open(&VOLUME, "\\docs\\plan", 0x2);
    assert_eq!(
        calls,
        vec![
            FsCall::GetAttr { ino: 1 },
            find(1, "docs"),
            find(2, "plan"),
            FsCall::Open { ino: 3, read: true, write: true },
            find(1, "docs"),
        ]
    );
    let context: WinFileContext = outcome.unwrap();
    assert_eq!((context.ino, context.fh, context.kind), (3, 77, FileType::RegularFile));
    assert_eq!(context.state.parent, Some(2));
    assert_eq!(context.state.name, Some("plan".to_string()));
    assert!(!context.state.delete_on_close);
}

#[test]
fn opening_describes_the_file() {
    let mut step = VOLUME.open(&wide("\\docs\\plan"), 0);
    let info = loop {
        match step {
            Step::Call(call, state) => step = state.step(answer(&call)),
            Step::Done(outcome) => break outcome.unwrap().1,
        }
    };
    assert_eq!((info.index_number, info.file_size, info.allocation_size), (3, 10, 4096));
    assert_eq!(info.creation_time, 116_444_736_010_000_000);
}

#[test]
fn only_what_is_opened_must_have_a_size_in_range() {
    let mut huge: FileAttr = attr(2, FileType::Directory);
    huge.size = u64::MAX;
    match VOLUME.open(&wide("\\docs\\plan"), 0) {
        Step::Call(_, state) => assert!(state.can_tell(&FsReply::Attr(Ok(huge)))),
        Step::Done(_) => panic!("did not ask"),
    }
    match VOLUME.open(&wide("\\"), 0) {
        Step::Call(_, state) => {
            assert!(!state.can_tell(&FsReply::Attr(Ok(huge))));
            assert!(state.can_tell(&FsReply::Attr(Ok(attr(1, FileType::Directory)))));
        }
        Step::Done(_) => panic!("did not ask"),
    }
    match VOLUME.create(&wide("\\new"), 0, 0, 0) {
        Step::Call(_, state) => {
            assert!(!state.can_tell(&FsReply::Created(Ok((1, huge)))));
            assert!(state.can_tell(&FsReply::Created(Err(FsError::NotEmpty))));
        }
        Step::Done(_) => panic!("did not ask"),
    }
}

#[test]
fn a_directory_is_opened_without_a_handle() {
    let (calls, outcome) = open(&VOLUME, "\\docs", 0xFFFF_FFFF);
    assert_eq!(calls, vec![FsCall::GetAttr { ino: 1 }, find(1, "docs")]);
    let context: WinFileContext = outcome.unwrap();
    assert_eq!((context.ino, context.fh), (2, 0));
    assert_eq!((context.state.parent, context.state.name), (Some(1), Some("docs".to_string())));
}

#[test]
fn the_root_is_opened_without_a_name() {
    let (_, outcome) = open(&VOLUME, "\\", 0);
    let context: WinFileContext = outcome.unwrap();
    assert_eq!((context.ino, context.state.parent, context.state.name), (1, None, None));
}

#[test]
fn opening_fails_as_the_file_system_does() {
    assert_eq!(open(&VOLUME, "\\notes", 0).1, Err(FspError::WIN32(183)));
    assert_eq!(open(&VOLUME, "\\none", 0).1, Err(FspError::WIN32(2)));
    assert_eq!(open(&VOLUME, "\\locked", 0).1, Err(FspError::WIN32(19)));
}

#[test]
fn read_only_opening_asks_for_reading_alone() {
    let (calls, outcome) = open(&READ_ONLY_VOLUME, "\\docs\\plan", 0xFFFF_FFFF);
    assert!(outcome.is_ok());
    assert!(calls.contains(&FsCall::Open { ino: 3, read: true, write: false }));
}

#[test]
fn an_opened_handle_is_found_again_under_its_name() {
    let context: WinFileContext = open(&VOLUME, "\\docs\\plan", 0).1.unwrap();
    let (parent, name) = context.state.target().unwrap();
    assert_eq!(
        answer(&FsCall::FindByName { parent, name }),
        FsReply::Found(Ok(Some(attr(3, FileType::RegularFile))))
    );
}

#[test]
fn a_file_is_created_with_a_handle() {
    let (calls, outcome) = create("\\docs\\new", 0, 0x2, 0x20);
    assert_eq!(calls[0], find(1, "docs"));
    match &calls[1] {
        FsCall::Create { parent, name, attr, read, write } => {
            assert_eq!((*parent, name.as_str(), *read, *write), (2, "new", true, true));
            assert_eq!((attr.kind, attr.perm), (FileType::RegularFile, 0o666));
        }
        other => panic!("unexpected {other:?}"),
    }
    let context: WinFileContext = outcome.unwrap();
    assert_eq!((context.ino, context.fh), (8, 88));
    assert_eq!((context.state.parent, context.state.name), (Some(2), Some("new".to_string())));
}

#[test]
fn directories_are_created_by_option_or_attribute() {
    for (options, attributes) in [(0x1u32, 0u32), (0, 0x10), (0x21, 0x30)] {
        let (calls, outcome) = create("\\sub", options, 0xFFFF_FFFF, attributes);
        match &calls[0] {
            FsCall::Create { parent, name, attr, read, write } => {
                assert_eq!((*parent, name.as_str(), *read, *write), (1, "sub", false, false));
                assert_eq!((attr.kind, attr.perm), (FileType::Directory, 0o777));
            }
            other => panic!("unexpected {other:?}"),
        }
        assert_eq!(outcome.unwrap().kind, FileType::Directory);
    }
}

#[test]
fn a_file_for_reading_is_created_for_reading() {
    let (calls, _) = create("\\r", 0, 0x1, 0);
    assert!(matches!(&calls[0], FsCall::Create { read: true, write: false, .. }));
}

#[test]
fn creating_fails_without_a_parent() {
    assert_eq!(create("\\", 0, 0, 0).1, Err(FspError::WIN32(87)));
    assert_eq!(create("\\none\\x", 0, 0, 0).1, Err(FspError::WIN32(2)));
    assert_eq!(create("\\notes\\x", 0, 0, 0).1, Err(FspError::WIN32(267)));
}

#[test]
fn read_only_volume_refuses_to_create() {
    match READ_ONLY_VOLUME.create(&wide("\\x"), 0, 0, 0) {
        Step::Done(outcome) => assert_eq!(outcome.map(|_| ()), Err(FspError::WIN32(5))),
        Step::Call(..) => panic!("asked the file system"),
    }
}

#[test]
fn moving_asks_from_old_place_to_new_place() {
    let mut context: WinFileContext = handle(3, FileType::RegularFile, Some((2, "plan")));
    let (calls, outcome) = rename(&context, "\\docs\\done");
    assert_eq!(
        calls,
        vec![
            find(1, "docs"),
            FsCall::Rename {
                parent: 2,
                name: "plan".to_string(),
                new_parent: 2,
                new_name: "done".to_string(),
            },
        ]
    );
    assert_eq!(context.finish_rename(outcome), Ok(()));
    assert_eq!(context.state.target(), Some((2, "done".to_string())));
    assert_eq!((context.ino, context.state.delete_on_close), (3, false));
}

#[test]
fn moving_fails_as_the_file_system_does() {
    let mut context: WinFileContext = handle(4, FileType::RegularFile, Some((1, "notes")));
    let (_, outcome) = rename(&context, "\\docs");
    assert_eq!(context.finish_rename(outcome), Err(FspError::WIN32(183)));
    assert_eq!(context.state.target(), Some((1, "notes".to_string())));
    assert_eq!(rename(&context, "\\none\\x").1, Err(FspError::WIN32(2)));
}

#[test]
fn a_handle_without_a_name_cannot_be_moved() {
    let (calls, outcome) = rename(&handle(1, FileType::Directory, None), "\\x");
    assert!(calls.is_empty());
    assert_eq!(outcome, Err(FspError::WIN32(87)));
}

#[test]
fn read_only_volume_refuses_to_move() {
    let context: WinFileContext = handle(3, FileType::RegularFile, Some((2, "plan")));
    match READ_ONLY_VOLUME.rename(&context, &wide("\\x")) {
        Step::Done(outcome) => assert_eq!(outcome, Err(FspError::WIN32(5))),
        Step::Call(..) => panic!("asked the file system"),
    }
}

#[test]
fn closing_releases_a_handle_of_the_file_system() {
    let mut context: WinFileContext = handle(3, FileType::RegularFile, None);
    context.fh = 12;
    assert_eq!(VOLUME.close(context), Some(FsCall::Release { fh: 12 }));
    assert_eq!(VOLUME.close(handle(2, FileType::Directory, None)), None);
}

#[test]
fn cleanup_removes_a_marked_file_once() {
    let mut context: WinFileContext = handle(3, FileType::RegularFile, Some((2, "plan")));
    assert_eq!(VOLUME.cleanup(&mut context), None);
    assert_eq!(VOLUME.set_delete(&mut context, true), Ok(()));
    assert_eq!(
        VOLUME.cleanup(&mut context),
        Some(FsCall::RemoveFile { parent: 2, name: "plan".to_string() })
    );
    assert_eq!(VOLUME.cleanup(&mut context), None);
}

#[test]
fn cleanup_removes_a_marked_directory() {
    let mut context: WinFileContext = handle(2, FileType::Directory, Some((1, "docs")));
    assert_eq!(VOLUME.set_delete(&mut context, true), Ok(()));
    assert_eq!(
        VOLUME.cleanup(&mut context),
        Some(FsCall::RemoveDir { parent: 1, name: "docs".to_string() })
    );
}

#[test]
fn cleanup_removes_the_name_after_a_move() {
    let mut context: WinFileContext = handle(3, FileType::RegularFile, Some((2, "plan")));
    assert_eq!(VOLUME.set_delete(&mut context, true), Ok(()));
    context.relocate(1, "moved".to_string());
    assert_eq!(
        VOLUME.cleanup(&mut context),
        Some(FsCall::RemoveFile { parent: 1, name: "moved".to_string() })
    );
}

#[test]
fn a_mark_can_be_taken_back() {
    let mut context: WinFileContext = handle(3, FileType::RegularFile, Some((2, "plan")));
    assert_eq!(VOLUME.set_delete(&mut context, true), Ok(()));
    assert_eq!(VOLUME.set_delete(&mut context, false), Ok(()));
    assert_eq!(VOLUME.cleanup(&mut context), None);
}

#[test]
fn a_marked_handle_without_a_name_removes_nothing() {
    let mut context: WinFileContext = handle(1, FileType::Directory, None);
    assert_eq!(VOLUME.set_delete(&mut context, true), Ok(()));
    assert_eq!(VOLUME.cleanup(&mut context), None);
    assert!(!context.state.delete_on_close);
}

#[test]
fn read_only_volume_refuses_marks() {
    let mut context: WinFileContext = handle(3, FileType::RegularFile, Some((2, "plan")));
    assert_eq!(READ_ONLY_VOLUME.set_delete(&mut context, true), Err(FspError::WIN32(5)));
    assert_eq!(READ_ONLY_VOLUME.cleanup(&mut context), None);
}

#[test]
fn a_context_remembers_where_it_was_found() {
    let found = WinFsContext::make_context(
        attr(3, FileType::RegularFile),
        7,
        Ok((2, "plan".to_string())),
    );
    assert_eq!(found.state.target(), Some((2, "plan".to_string())));
    let lost = WinFsContext::make_context(
        attr(3, FileType::RegularFile),
        7,
        Err(FsError::InodeNotFound),
    );
    assert_eq!((lost.ino, lost.fh, lost.state.target()), (3, 7, None));
}

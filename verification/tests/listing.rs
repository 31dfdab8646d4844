use rencfs_winfsp::attr::{FileAttr, FileType};
use rencfs_winfsp::context::{HandleState, WinFileContext, WinFsContext};
use rencfs_winfsp::directory::{AppendOutcome, DirectoryListing, FillStep};
use rencfs_winfsp::error::{FsError, FsResult, FspError};
use rencfs_winfsp::order::sort_entries;
use rencfs_winfsp::request::{DirectoryEntryPlus, FsCall, FsReply, Step};
use rencfs_winfsp::time::SystemTime;

const VOLUME: WinFsContext = WinFsContext { read_only: false };

fn entry(name: &str, ino: u64) -> DirectoryEntryPlus<'_> {
    let time: SystemTime = SystemTime::new(1, 0).unwrap();
    DirectoryEntryPlus {
        name,
        attr: FileAttr {
            ino,
            size: 1,
            atime: time,
            mtime: time,
            ctime: time,
            crtime: time,
            kind: FileType::RegularFile,
        },
    }
}

fn entries<'a>(names: &[&'a str]) -> Vec<FsResult<DirectoryEntryPlus<'a>>> {
    names.iter().enumerate().map(|(i, name)| Ok(entry(name, i as u64))).collect()
}

fn handle(kind: FileType) -> WinFileContext {
    WinFileContext {
        ino: 6,
        fh: 0,
        kind,
        state: HandleState { parent: None, name: None, delete_on_close: false },
    }
}

fn list<'a>(
    marker: Option<&[u16]>,
    found: FsResult<Vec<FsResult<DirectoryEntryPlus<'a>>>>,
) -> Result<DirectoryListing<'a>, FspError> {
    match VOLUME.read_directory(&handle(FileType::Directory), marker) {
        Step::Call(call, state) => {
            assert_eq!(call, FsCall::ReadDirPlus { ino: 6 });
            match state.step(FsReply::Entries(found)) {
                Step::Done(outcome) => outcome,
                Step::Call(..) => panic!("went on"),
            }
        }
        Step::Done(_) => panic!("did not ask"),
    }
}

/// Fills a buffer with room for some entries; the names and inodes that it then holds.
fn fill(mut listing: DirectoryListing, room: usize) -> Vec<(String, u64)> {
    let mut held: Vec<(String, u64)> = Vec::new();
    let mut step = listing.next();
    loop {
        match step {
            FillStep::Append(shown) => {
                if held.len() < room {
                    held.push((shown.name.to_string(), shown.info.index_number));
                    step = listing.after(AppendOutcome::Appended);
                } else {
                    step = listing.after(AppendOutcome::Full);
                }
            }
            FillStep::Finalize => return held,
            FillStep::Fail(err) => panic!("{err:?}"),
        }
    }
}

fn names(held: &[(String, u64)]) -> Vec<&str> {
    held.iter().map(|(name, _)| name.as_str()).collect()
}

#[test]
fn entries_are_listed_by_name() {
    let held = fill(list(None, Ok(entries(&["b", "\u{e9}", "a", "B"]))).unwrap(), 10);
    assert_eq!(names(&held), vec!["B", "a", "b", "\u{e9}"]);
    assert_eq!(held[1].1, 2);
}

#[test]
fn equal_names_keep_their_order() {
    let held = fill(list(None, Ok(entries(&["x", "a", "x", "x"]))).unwrap(), 10);
    let inodes: Vec<u64> = held.iter().map(|(_, ino)| *ino).collect();
    assert_eq!(inodes, vec![1, 0, 2, 3]);
}

#[test]
fn entries_up_to_the_marker_are_left_out() {
    let marker: Vec<u16> = "b".encode_utf16().collect();
    let held = fill(list(Some(&marker), Ok(entries(&["c", "b", "a", "bb"]))).unwrap(), 10);
    assert_eq!(names(&held), vec!["bb", "c"]);
}

#[test]
fn the_marker_need_not_be_an_entry() {
    let marker: Vec<u16> = "aa".encode_utf16().collect();
    let held = fill(list(Some(&marker), Ok(entries(&["c", "b", "a"]))).unwrap(), 10);
    assert_eq!(names(&held), vec!["b", "c"]);
}

#[test]
fn a_marker_is_decoded_with_replacements() {
    let found = Ok(entries(&["\u{fffc}", "\u{fffd}", "\u{fffe}"]));
    let held = fill(list(Some(&[0xD800]), found).unwrap(), 10);
    assert_eq!(names(&held), vec!["\u{fffe}"]);
    let lock: Vec<u16> = vec![0xD83D, 0xDD12];
    let found = Ok(entries(&["\u{1f511}", "\u{1f512}", "\u{1f513}"]));
    let held = fill(list(Some(&lock), found).unwrap(), 10);
    assert_eq!(names(&held), vec!["\u{1f513}"]);
}

#[test]
fn a_listing_resumes_where_the_buffer_was_full() {
    let all: [&str; 7] = ["g", "c", "a", "f", "b", "e", "d"];
    let mut seen: Vec<String> = Vec::new();
    let mut marker: Option<Vec<u16>> = None;
    loop {
        let page = fill(list(marker.as_deref(), Ok(entries(&all))).unwrap(), 3);
        match page.last() {
            Some((name, _)) => marker = Some(name.encode_utf16().collect()),
            None => break,
        }
        seen.extend(page.into_iter().map(|(name, _)| name));
    }
    assert_eq!(seen, vec!["a", "b", "c", "d", "e", "f", "g"]);
}

#[test]
fn a_rejected_entry_ends_the_listing_with_its_error() {
    let mut listing: DirectoryListing = list(None, Ok(entries(&["a", "b"]))).unwrap();
    assert!(matches!(listing.next(), FillStep::Append(_)));
    let err: FspError = FspError::NTSTATUS(-1_073_741_670);
    assert_eq!(listing.after(AppendOutcome::Rejected(err)), FillStep::Fail(err));
}

#[test]
fn an_empty_directory_is_finalized_at_once() {
    let mut listing: DirectoryListing = list(None, Ok(vec![])).unwrap();
    assert_eq!(listing.next(), FillStep::Finalize);
}

#[test]
fn entries_are_described() {
    let mut listing: DirectoryListing = list(None, Ok(entries(&["a"]))).unwrap();
    match listing.next() {
        FillStep::Append(shown) => {
            assert_eq!(shown.info.file_attributes, 0x20);
            assert_eq!(shown.info.allocation_size, 4096);
            assert_eq!(shown.info.change_time, 116_444_736_010_000_000);
        }
        other => panic!("unexpected {other:?}"),
    }
}

#[test]
fn what_is_no_directory_is_not_listed() {
    match VOLUME.read_directory(&handle(FileType::RegularFile), None) {
        Step::Done(outcome) => assert_eq!(outcome.map(|_| ()), Err(FspError::WIN32(267))),
        Step::Call(..) => panic!("asked the file system"),
    }
}

#[test]
fn the_first_error_among_the_entries_is_reported() {
    let mut found: Vec<FsResult<DirectoryEntryPlus>> = entries(&["a", "b"]);
    found.insert(1, Err(FsError::InodeNotFound));
    found.push(Err(FsError::ReadOnly));
    assert_eq!(list(None, Ok(found)).map(|_| ()), Err(FspError::WIN32(2)));
    assert_eq!(list(None, Err(FsError::InvalidInodeType)).map(|_| ()), Err(FspError::WIN32(267)));
}

#[test]
fn only_the_next_entry_must_be_valid() {
    let mut big: DirectoryEntryPlus = entry("b", 1);
    big.attr.size = u64::MAX;
    let mut listing: DirectoryListing =
        list(None, Ok(vec![Ok(big), Ok(entry("a", 2)), Ok(entry("c", 3))])).unwrap();
    assert!(listing.is_valid());
    assert!(matches!(listing.next(), FillStep::Append(_)));
    assert!(!listing.is_valid());
    assert_eq!(listing.after(AppendOutcome::Full), FillStep::Finalize);
    assert!(list(None, Ok(vec![])).unwrap().is_valid());
}

#[test]
fn sorting_gives_the_order_of_the_names() {
    let unsorted: Vec<DirectoryEntryPlus> = vec![entry("c", 0), entry("a", 1), entry("b", 2)];
    assert_eq!(sort_entries(&unsorted), vec![1, 2, 0]);
}

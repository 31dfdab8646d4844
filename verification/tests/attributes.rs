use rencfs_winfsp::attr::{
    access_modes, describe, dir_attr, file_attr, fill_file_info, windows_attributes, FileAttr,
    FileInfo, FileType, SetFileAttr, MAX_FILE_SIZE,
};
use rencfs_winfsp::time::SystemTime;

fn at(secs: i64) -> SystemTime {
    SystemTime::new(secs, 0).unwrap()
}

fn attr(kind: FileType, size: u64) -> FileAttr {
    FileAttr { ino: 42, size, atime: at(1), mtime: at(2), ctime: at(3), crtime: at(4), kind }
}

#[test]
fn attribute_bits_tell_directories_from_files() {
    assert_eq!(windows_attributes(&attr(FileType::Directory, 0)), 0x10);
    assert_eq!(windows_attributes(&attr(FileType::RegularFile, 0)), 0x20);
}

#[test]
fn allocation_size_is_whole_units() {
    let cases: [(u64, u64); 7] = [
        (0, 0),
        (1, 4096),
        (4095, 4096),
        (4096, 4096),
        (4097, 8192),
        (1 << 40, 1 << 40),
        (MAX_FILE_SIZE, MAX_FILE_SIZE),
    ];
    for (size, allocated) in cases {
        assert_eq!(describe(&attr(FileType::RegularFile, size)).allocation_size, allocated);
    }
}

#[test]
fn sizes_beyond_the_largest_are_not_valid() {
    assert!(attr(FileType::RegularFile, MAX_FILE_SIZE).is_valid());
    assert!(!attr(FileType::RegularFile, MAX_FILE_SIZE + 1).is_valid());
}

#[test]
fn times_without_a_filetime_are_not_valid() {
    let late: SystemTime = SystemTime::new(i64::MAX, 0).unwrap();
    let good: FileAttr = attr(FileType::RegularFile, 1);
    assert!(good.is_valid());
    assert!(!FileAttr { atime: late, ..good }.is_valid());
    assert!(!FileAttr { mtime: late, ..good }.is_valid());
    assert!(!FileAttr { ctime: late, ..good }.is_valid());
    assert!(!FileAttr { crtime: late, ..good }.is_valid());
}

#[test]
fn every_field_of_the_record_is_filled() {
    let mut info: FileInfo = FileInfo::empty();
    info.reparse_tag = 9;
    info.hard_links = 9;
    info.ea_size = 9;
    fill_file_info(&attr(FileType::RegularFile, 5000), &mut info);
    assert_eq!(
        info,
        FileInfo {
            file_attributes: 0x20,
            reparse_tag: 0,
            allocation_size: 8192,
            file_size: 5000,
            creation_time: 116_444_736_040_000_000,
            last_access_time: 116_444_736_010_000_000,
            last_write_time: 116_444_736_020_000_000,
            change_time: 116_444_736_030_000_000,
            index_number: 42,
            hard_links: 0,
            ea_size: 0,
        }
    );
}

#[test]
fn reading_is_always_included() {
    assert_eq!(access_modes(0, false), (true, false));
    assert_eq!(access_modes(0x1, false), (true, false));
    assert_eq!(access_modes(0x8000_0000, false), (true, false));
}

#[test]
fn each_write_right_opens_for_writing() {
    assert_eq!(access_modes(0x2, false), (true, true));
    assert_eq!(access_modes(0x4, false), (true, true));
    assert_eq!(access_modes(0x4000_0000, false), (true, true));
    assert_eq!(access_modes(0xFFFF_FFFF, false), (true, true));
}

#[test]
fn read_only_volume_is_never_opened_for_writing() {
    assert_eq!(access_modes(0xFFFF_FFFF, true), (true, false));
}

#[test]
fn new_files_and_directories_have_fixed_attributes() {
    assert_eq!(file_attr().kind, FileType::RegularFile);
    assert_eq!(file_attr().perm, 0o666);
    assert_eq!(dir_attr().kind, FileType::Directory);
    assert_eq!(dir_attr().perm, 0o777);
    assert_eq!((dir_attr().uid, dir_attr().gid, dir_attr().rdev, dir_attr().flags), (0, 0, 0, 0));
}

#[test]
fn changes_are_collected() {
    let none: SetFileAttr = SetFileAttr::default();
    assert_eq!((none.atime, none.mtime, none.ctime, none.crtime), (None, None, None, None));
    let all: SetFileAttr =
        none.with_atime(at(1)).with_mtime(at(2)).with_ctime(at(3)).with_crtime(at(4));
    assert_eq!(
        (all.atime, all.mtime, all.ctime, all.crtime),
        (Some(at(1)), Some(at(2)), Some(at(3)), Some(at(4)))
    );
}

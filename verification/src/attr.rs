//! File attributes, and the form in which Windows asks for them.

use vstd::prelude::*;

use crate::time::{filetime_of, system_time_to_filetime, SystemTime};

verus! {

pub const FILE_ATTRIBUTE_DIRECTORY: u32 = 0x10;

pub const FILE_ATTRIBUTE_ARCHIVE: u32 = 0x20;

pub const FILE_DIRECTORY_FILE: u32 = 0x0000_0001;

pub const FILE_READ_DATA: u32 = 0x0000_0001;

pub const FILE_WRITE_DATA: u32 = 0x0000_0002;

pub const FILE_APPEND_DATA: u32 = 0x0000_0004;

pub const GENERIC_READ: u32 = 0x8000_0000;

pub const GENERIC_WRITE: u32 = 0x4000_0000;

/// Bytes per allocation unit of the volume.
pub const ALLOCATION_UNIT: u64 = 4096;

/// The largest file size whose allocation size fits 64 bits.
pub const MAX_FILE_SIZE: u64 = 0xFFFF_FFFF_FFFF_F000;

#[derive(Debug, Clone, Copy, PartialEq, Eq, Structural)]
pub enum FileType {
    RegularFile,
    Directory,
}

/// What the file system reports of a file or directory.
#[derive(Debug, Clone, Copy, PartialEq, Eq)]
pub struct FileAttr {
    pub ino: u64,
    pub size: u64,
    pub atime: SystemTime,
    pub mtime: SystemTime,
    pub ctime: SystemTime,
    pub crtime: SystemTime,
    pub kind: FileType,
}

impl FileAttr {
    /// Windows can be told of the file or directory: the size can be rounded up to whole allocation
    /// units, and the times have file times.
    pub open spec fn wf(&self) -> bool {
        &&& self.size <= MAX_FILE_SIZE
        &&& self.atime.has_filetime()
        &&& self.mtime.has_filetime()
        &&& self.ctime.has_filetime()
        &&& self.crtime.has_filetime()
    }

    /// Whether Windows can be told of the file or directory.
    pub fn is_valid(&self) -> (valid: bool)
        ensures
            valid == self.wf(),
    {
        self.size <= MAX_FILE_SIZE && self.atime.is_valid() && self.mtime.is_valid()
            && self.ctime.is_valid() && self.crtime.is_valid()
    }
}

/// What the file system is told of a file or directory that it creates.
#[derive(Debug, Clone, Copy, PartialEq, Eq)]
pub struct CreateFileAttr {
    pub kind: FileType,
    pub perm: u16,
    pub uid: u32,
    pub gid: u32,
    pub rdev: u32,
    pub flags: u32,
}

/// The times that the file system is asked to change; a time that is `None` stays as it is.
#[derive(Debug, Clone, Copy, PartialEq, Eq)]
pub struct SetFileAttr {
    pub atime: Option<SystemTime>,
    pub mtime: Option<SystemTime>,
    pub ctime: Option<SystemTime>,
    pub crtime: Option<SystemTime>,
}

impl Default for SetFileAttr {
    fn default() -> (attr: SetFileAttr)
        ensures
            attr == (SetFileAttr { atime: None, mtime: None, ctime: None, crtime: None }),
    {
        SetFileAttr { atime: None, mtime: None, ctime: None, crtime: None }
    }
}

impl SetFileAttr {
    pub fn with_atime(self, atime: SystemTime) -> (attr: SetFileAttr)
        ensures
            attr == (SetFileAttr { atime: Some(atime), ..self }),
    {
        SetFileAttr { atime: Some(atime), ..self }
    }

    pub fn with_mtime(self, mtime: SystemTime) -> (attr: SetFileAttr)
        ensures
            attr == (SetFileAttr { mtime: Some(mtime), ..self }),
    {
        SetFileAttr { mtime: Some(mtime), ..self }
    }

    pub fn with_ctime(self, ctime: SystemTime) -> (attr: SetFileAttr)
        ensures
            attr == (SetFileAttr { ctime: Some(ctime), ..self }),
    {
        SetFileAttr { ctime: Some(ctime), ..self }
    }

    pub fn with_crtime(self, crtime: SystemTime) -> (attr: SetFileAttr)
        ensures
            attr == (SetFileAttr { crtime: Some(crtime), ..self }),
    {
        SetFileAttr { crtime: Some(crtime), ..self }
    }
}

/// What Windows is told of a file or directory.
#[derive(Debug, Clone, Copy, PartialEq, Eq, Structural)]
pub struct FileInfo {
    pub file_attributes: u32,
    pub reparse_tag: u32,
    pub allocation_size: u64,
    pub file_size: u64,
    pub creation_time: u64,
    pub last_access_time: u64,
    pub last_write_time: u64,
    pub change_time: u64,
    pub index_number: u64,
    pub hard_links: u32,
    pub ea_size: u32,
}

impl FileInfo {
    /// A record with every field zero.
    pub fn empty() -> (info: FileInfo)
        ensures
            info == (FileInfo {
                file_attributes: 0,
                reparse_tag: 0,
                allocation_size: 0,
                file_size: 0,
                creation_time: 0,
                last_access_time: 0,
                last_write_time: 0,
                change_time: 0,
                index_number: 0,
                hard_links: 0,
                ea_size: 0,
            }),
    {
        FileInfo {
            file_attributes: 0,
            reparse_tag: 0,
            allocation_size: 0,
            file_size: 0,
            creation_time: 0,
            last_access_time: 0,
            last_write_time: 0,
            change_time: 0,
            index_number: 0,
            hard_links: 0,
            ea_size: 0,
        }
    }
}

/// The Windows attribute bits of a kind of file.
pub open spec fn attribute_bits(kind: FileType) -> u32 {
    match kind {
        FileType::Directory => FILE_ATTRIBUTE_DIRECTORY,
        FileType::RegularFile => FILE_ATTRIBUTE_ARCHIVE,
    }
}

/// The least whole number of allocation units that holds `size` bytes, in bytes.
pub open spec fn allocation_size(size: int) -> int {
    (size + ALLOCATION_UNIT - 1) / (ALLOCATION_UNIT as int) * ALLOCATION_UNIT
}

/// The Windows record that describes a file or directory.
pub open spec fn file_info_of(attr: FileAttr) -> FileInfo {
    FileInfo {
        file_attributes: attribute_bits(attr.kind),
        reparse_tag: 0,
        allocation_size: allocation_size(attr.size as int) as u64,
        file_size: attr.size,
        creation_time: filetime_of(attr.crtime@) as u64,
        last_access_time: filetime_of(attr.atime@) as u64,
        last_write_time: filetime_of(attr.mtime@) as u64,
        change_time: filetime_of(attr.ctime@) as u64,
        index_number: attr.ino,
        hard_links: 0,
        ea_size: 0,
    }
}

/// The Windows attribute bits of a file or directory.
pub fn windows_attributes(attr: &FileAttr) -> (bits: u32)
    ensures
        bits == attribute_bits(attr.kind),
{
    match attr.kind {
        FileType::Directory => FILE_ATTRIBUTE_DIRECTORY,
        FileType::RegularFile => FILE_ATTRIBUTE_ARCHIVE,
    }
}

/// Describes a file or directory to Windows.
pub fn fill_file_info(attr: &FileAttr, out: &mut FileInfo)
    requires
        attr.wf(),
    ensures
        *final(out) == file_info_of(*attr),
        final(out).allocation_size == allocation_size(attr.size as int),
        final(out).creation_time == filetime_of(attr.crtime@),
        final(out).last_access_time == filetime_of(attr.atime@),
        final(out).last_write_time == filetime_of(attr.mtime@),
        final(out).change_time == filetime_of(attr.ctime@),
{
    out.file_attributes = windows_attributes(attr);
    out.reparse_tag = 0;
    out.file_size = attr.size;
    let units: u64 = attr.size / ALLOCATION_UNIT + if attr.size % ALLOCATION_UNIT == 0 {
        0
    } else {
        1
    };
    out.allocation_size = units * ALLOCATION_UNIT;
    out.creation_time = system_time_to_filetime(attr.crtime);
    out.last_access_time = system_time_to_filetime(attr.atime);
    out.last_write_time = system_time_to_filetime(attr.mtime);
    out.change_time = system_time_to_filetime(attr.ctime);
    out.index_number = attr.ino;
    out.hard_links = 0;
    out.ea_size = 0;
}

/// The Windows record that describes a file or directory.
pub fn describe(attr: &FileAttr) -> (info: FileInfo)
    requires
        attr.wf(),
    ensures
        info == file_info_of(*attr),
{
    let mut info: FileInfo = FileInfo::empty();
    fill_file_info(attr, &mut info);
    info
}

/// The access rights of a request hold one that lets it change file contents.
pub open spec fn asks_to_write(granted_access: u32) -> bool {
    ||| granted_access & FILE_WRITE_DATA != 0
    ||| granted_access & FILE_APPEND_DATA != 0
    ||| granted_access & GENERIC_WRITE != 0
}

/// Whether a file is opened for reading and for writing.
///
/// Reading is always included: encrypted contents are changed by reading, modifying and writing
/// back, and cached input and output of Windows may read while a file is written. Windows itself
/// still holds the caller to the access it asked for.
pub fn access_modes(granted_access: u32, read_only: bool) -> (modes: (bool, bool))
    ensures
        modes == (true, !read_only && asks_to_write(granted_access)),
{
    let write: bool = !read_only && granted_access & (FILE_WRITE_DATA | FILE_APPEND_DATA
        | GENERIC_WRITE) != 0;
    assert(granted_access & (0x0000_0002u32 | 0x0000_0004u32 | 0x4000_0000u32) != 0 <==> (
    granted_access & 0x0000_0002u32 != 0 || granted_access & 0x0000_0004u32 != 0 || granted_access
        & 0x4000_0000u32 != 0)) by (bit_vector);
    let read: bool = true;
    (read, write)
}

/// The attributes of a new file.
pub fn file_attr() -> (attr: CreateFileAttr)
    ensures
        attr == (CreateFileAttr {
            kind: FileType::RegularFile,
            perm: 0o666,
            uid: 0,
            gid: 0,
            rdev: 0,
            flags: 0,
        }),
{
    CreateFileAttr { kind: FileType::RegularFile, perm: 0o666, uid: 0, gid: 0, rdev: 0, flags: 0 }
}

/// The attributes of a new directory.
pub fn dir_attr() -> (attr: CreateFileAttr)
    ensures
        attr == (CreateFileAttr {
            kind: FileType::Directory,
            perm: 0o777,
            uid: 0,
            gid: 0,
            rdev: 0,
            flags: 0,
        }),
{
    CreateFileAttr { kind: FileType::Directory, perm: 0o777, uid: 0, gid: 0, rdev: 0, flags: 0 }
}

/// The allocation size is the least multiple of the allocation unit that holds the file.
pub proof fn allocation_size_is_least(size: u64, units: int)
    requires
        size <= MAX_FILE_SIZE,
    ensures
        size <= allocation_size(size as int) <= u64::MAX,
        allocation_size(size as int) % (ALLOCATION_UNIT as int) == 0,
        size <= units * ALLOCATION_UNIT ==> allocation_size(size as int) <= units
            * ALLOCATION_UNIT,
{
}

/// Beyond the largest file size, no 64-bit allocation size holds the file.
pub proof fn allocation_size_needs_bound(size: u64)
    requires
        size > MAX_FILE_SIZE,
    ensures
        allocation_size(size as int) > u64::MAX,
{
}

/// The attribute bits tell files from directories.
pub proof fn attribute_bits_tell_kinds_apart(kind: FileType)
    ensures
        attribute_bits(kind) & FILE_ATTRIBUTE_DIRECTORY != 0 <==> kind == FileType::Directory,
{
    assert(0x10u32 & 0x10u32 != 0) by (bit_vector);
    assert(0x20u32 & 0x10u32 == 0) by (bit_vector);
}

/// Windows is told of a file or directory as it is: its own inode, size and kind, each of its four
/// times under its own name, the size in whole units of 4096 bytes, and nothing else.
pub proof fn record_is_of_file(attr: FileAttr)
    requires
        attr.wf(),
    ensures
        file_info_of(attr).index_number == attr.ino,
        file_info_of(attr).file_size == attr.size,
        file_info_of(attr).file_attributes == (if attr.kind is Directory {
            0x10u32
        } else {
            0x20u32
        }),
        file_info_of(attr).allocation_size % 4096 == 0,
        attr.size <= file_info_of(attr).allocation_size < attr.size + 4096,
        file_info_of(attr).creation_time == filetime_of(attr.crtime@),
        file_info_of(attr).last_access_time == filetime_of(attr.atime@),
        file_info_of(attr).last_write_time == filetime_of(attr.mtime@),
        file_info_of(attr).change_time == filetime_of(attr.ctime@),
        file_info_of(attr).reparse_tag == 0,
        file_info_of(attr).hard_links == 0,
        file_info_of(attr).ea_size == 0,
{
}

/// Windows can be told of every file up to the largest size that whole units of 4096 bytes can
/// hold, and whose times have file times.
pub proof fn what_can_be_told(attr: FileAttr)
    ensures
        attr.wf() <==> {
            &&& attr.size <= 0x1_0000_0000_0000_0000 - 4096
            &&& filetime_of(attr.crtime@) <= u64::MAX
            &&& filetime_of(attr.atime@) <= u64::MAX
            &&& filetime_of(attr.mtime@) <= u64::MAX
            &&& filetime_of(attr.ctime@) <= u64::MAX
        },
{
}

/// The rights that let a request change file contents are 2, 4 and 0x40000000: asking for more
/// rights never takes that away, and none of the other rights gives it.
pub proof fn rights_that_write(granted_access: u32)
    ensures
        asks_to_write(granted_access) <==> granted_access & 0x4000_0006 != 0,
{
    assert(granted_access & 0x4000_0006u32 != 0 <==> (granted_access & 0x2u32 != 0 || granted_access
        & 0x4u32 != 0 || granted_access & 0x4000_0000u32 != 0)) by (bit_vector);
}

} // verus!

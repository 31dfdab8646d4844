//! What is asked of the encrypted file system, and what it answers.
//!
//! An operation is a conversation: each step either asks the file system for one thing and waits
//! for the answer, or is done. The types of a conversation are generic in how they hold names, so
//! that a value with `String`s and its view with character sequences have the same shape.

use vstd::prelude::*;

use crate::attr::{CreateFileAttr, FileAttr, SetFileAttr};
use crate::error::FsResult;

verus! {

/// The inode of the root directory.
pub const ROOT_INODE: u64 = 1;

/// One thing that is asked of the file system. Data of Windows that it hands over stays where
/// Windows keeps it.
#[derive(Debug, PartialEq, Eq)]
pub enum FsCall<Name, Bytes = Seq<u8>> {
    GetAttr { ino: u64 },
    FindByName { parent: u64, name: Name },
    Open { ino: u64, read: bool, write: bool },
    Release { fh: u64 },
    Create { parent: u64, name: Name, attr: CreateFileAttr, read: bool, write: bool },
    RemoveDir { parent: u64, name: Name },
    RemoveFile { parent: u64, name: Name },
    Flush { fh: u64 },
    SetLen { ino: u64, size: u64 },
    ReadDirPlus { ino: u64 },
    Rename { parent: u64, name: Name, new_parent: u64, new_name: Name },
    SetAttr { ino: u64, changes: SetFileAttr },
    Read { ino: u64, offset: u64, fh: u64 },
    Write { ino: u64, offset: u64, data: Bytes, fh: u64 },
}

/// A call that may hand over data of Windows.
pub type DataRequest<'a> = FsCall<String, &'a [u8]>;

/// A call that hands over no data of Windows.
pub type FsRequest = DataRequest<'static>;

/// The kinds of answer.
#[derive(Debug, Clone, Copy, PartialEq, Eq, Structural)]
pub enum ReplyKind {
    Attr,
    Found,
    Handle,
    Created,
    Done,
    Entries,
    Count,
}

/// An entry of a directory with the attributes of what it names. The name stays where the file
/// system keeps it.
#[derive(Debug, Clone, Copy, PartialEq, Eq)]
pub struct DirectoryEntryPlus<'a> {
    pub name: &'a str,
    pub attr: FileAttr,
}

/// An answer of the file system.
#[derive(Debug, PartialEq, Eq)]
pub enum FsReply<'a> {
    Attr(FsResult<FileAttr>),
    Found(FsResult<Option<FileAttr>>),
    Handle(FsResult<u64>),
    Created(FsResult<(u64, FileAttr)>),
    Done(FsResult<()>),
    Entries(FsResult<Vec<FsResult<DirectoryEntryPlus<'a>>>>),
    Count(FsResult<usize>),
}

/// Where an operation stands: it waits for the answer to a call, or it is done.
pub enum Step<Call, State, Outcome> {
    Call(Call, State),
    Done(Outcome),
}

impl<'a> View for FsCall<String, &'a [u8]> {
    type V = FsCall<Seq<char>>;

    open spec fn view(&self) -> FsCall<Seq<char>> {
        match *self {
            FsCall::GetAttr { ino } => FsCall::GetAttr { ino },
            FsCall::FindByName { parent, name } => FsCall::FindByName { parent, name: name@ },
            FsCall::Open { ino, read, write } => FsCall::Open { ino, read, write },
            FsCall::Release { fh } => FsCall::Release { fh },
            FsCall::Create { parent, name, attr, read, write } => FsCall::Create {
                parent,
                name: name@,
                attr,
                read,
                write,
            },
            FsCall::RemoveDir { parent, name } => FsCall::RemoveDir { parent, name: name@ },
            FsCall::RemoveFile { parent, name } => FsCall::RemoveFile { parent, name: name@ },
            FsCall::Flush { fh } => FsCall::Flush { fh },
            FsCall::SetLen { ino, size } => FsCall::SetLen { ino, size },
            FsCall::ReadDirPlus { ino } => FsCall::ReadDirPlus { ino },
            FsCall::Rename { parent, name, new_parent, new_name } => FsCall::Rename {
                parent,
                name: name@,
                new_parent,
                new_name: new_name@,
            },
            FsCall::SetAttr { ino, changes } => FsCall::SetAttr { ino, changes },
            FsCall::Read { ino, offset, fh } => FsCall::Read { ino, offset, fh },
            FsCall::Write { ino, offset, data, fh } => FsCall::Write {
                ino,
                offset,
                data: data@,
                fh,
            },
        }
    }
}

impl<Name, Bytes> FsCall<Name, Bytes> {
    /// The kind of answer that the call gets.
    pub open spec fn reply_kind(&self) -> ReplyKind {
        match *self {
            FsCall::GetAttr { .. } => ReplyKind::Attr,
            FsCall::FindByName { .. } => ReplyKind::Found,
            FsCall::Open { .. } => ReplyKind::Handle,
            FsCall::Create { .. } => ReplyKind::Created,
            FsCall::ReadDirPlus { .. } => ReplyKind::Entries,
            FsCall::Read { .. } => ReplyKind::Count,
            FsCall::Write { .. } => ReplyKind::Count,
            _ => ReplyKind::Done,
        }
    }

    /// The call can change what the file system stores, now or through the handle it opens.
    pub open spec fn can_change(&self) -> bool {
        match *self {
            FsCall::Open { write, .. } => write,
            FsCall::Create { .. } => true,
            FsCall::RemoveDir { .. } => true,
            FsCall::RemoveFile { .. } => true,
            FsCall::SetLen { .. } => true,
            FsCall::Rename { .. } => true,
            FsCall::SetAttr { .. } => true,
            FsCall::Write { .. } => true,
            _ => false,
        }
    }
}

impl<'a> FsReply<'a> {
    pub open spec fn kind(&self) -> ReplyKind {
        match *self {
            FsReply::Attr(_) => ReplyKind::Attr,
            FsReply::Found(_) => ReplyKind::Found,
            FsReply::Handle(_) => ReplyKind::Handle,
            FsReply::Created(_) => ReplyKind::Created,
            FsReply::Done(_) => ReplyKind::Done,
            FsReply::Entries(_) => ReplyKind::Entries,
            FsReply::Count(_) => ReplyKind::Count,
        }
    }
}

/// What is said of a call is said of its own fields: numbers and flags are those of the call, and
/// names and data have the characters and bytes of the call.
pub proof fn call_is_seen_as_it_is(call: DataRequest)
    ensures
        match (call, call@) {
            (FsCall::GetAttr { ino }, FsCall::GetAttr { ino: i }) => i == ino,
            (
                FsCall::FindByName { parent, name },
                FsCall::FindByName { parent: p, name: n },
            ) => p == parent && n == name@,
            (FsCall::Open { ino, read, write }, FsCall::Open { ino: i, read: r, write: w }) => i
                == ino && r == read && w == write,
            (FsCall::Release { fh }, FsCall::Release { fh: f }) => f == fh,
            (
                FsCall::Create { parent, name, attr, read, write },
                FsCall::Create { parent: p, name: n, attr: a, read: r, write: w },
            ) => p == parent && n == name@ && a == attr && r == read && w == write,
            (
                FsCall::RemoveDir { parent, name },
                FsCall::RemoveDir { parent: p, name: n },
            ) => p == parent && n == name@,
            (
                FsCall::RemoveFile { parent, name },
                FsCall::RemoveFile { parent: p, name: n },
            ) => p == parent && n == name@,
            (FsCall::Flush { fh }, FsCall::Flush { fh: f }) => f == fh,
            (FsCall::SetLen { ino, size }, FsCall::SetLen { ino: i, size: s }) => i == ino && s
                == size,
            (FsCall::ReadDirPlus { ino }, FsCall::ReadDirPlus { ino: i }) => i == ino,
            (
                FsCall::Rename { parent, name, new_parent, new_name },
                FsCall::Rename { parent: p, name: n, new_parent: q, new_name: m },
            ) => p == parent && n == name@ && q == new_parent && m == new_name@,
            (FsCall::SetAttr { ino, changes }, FsCall::SetAttr { ino: i, changes: c }) => i == ino
                && c == changes,
            (
                FsCall::Read { ino, offset, fh },
                FsCall::Read { ino: i, offset: o, fh: f },
            ) => i == ino && o == offset && f == fh,
            (
                FsCall::Write { ino, offset, data, fh },
                FsCall::Write { ino: i, offset: o, data: d, fh: f },
            ) => i == ino && o == offset && d == data@ && f == fh,
            _ => false,
        },
{
}

/// Looking up, listing, reading, flushing, releasing, and opening without writing are the calls
/// that can change nothing.
pub proof fn calls_that_change_nothing(call: FsCall<Seq<char>>)
    ensures
        !call.can_change() <==> {
            ||| call is GetAttr
            ||| call is FindByName
            ||| call is ReadDirPlus
            ||| call is Read
            ||| call is Flush
            ||| call is Release
            ||| call matches FsCall::Open { write, .. } && !write
        },
        ROOT_INODE == 1,
{
}

/// Each call gets an answer of its own kind: attributes for asking after a file, what was found for
/// a name, a handle for opening, a handle with attributes for creating, entries for listing, a
/// count for reading and writing, and success or failure for the rest.
pub proof fn calls_get_answers_of_their_kind(call: FsCall<Seq<char>>, reply: FsReply)
    ensures
        reply.kind() == call.reply_kind() <==> match call {
            FsCall::GetAttr { .. } => reply is Attr,
            FsCall::FindByName { .. } => reply is Found,
            FsCall::Open { .. } => reply is Handle,
            FsCall::Create { .. } => reply is Created,
            FsCall::ReadDirPlus { .. } => reply is Entries,
            FsCall::Read { .. } => reply is Count,
            FsCall::Write { .. } => reply is Count,
            _ => reply is Done,
        },
{
}

} // verus!

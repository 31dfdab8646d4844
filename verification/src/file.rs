//! Operations on an open handle: describing, changing, reading and writing.

use vstd::prelude::*;
use vstd::slice::slice_subrange;

use crate::attr::{describe, file_info_of, FileAttr, FileInfo, FileType, SetFileAttr};
use crate::context::{WinFileContext, WinFsContext};
use crate::error::{
    fs_error, reported, FsError, FsResult, FspError, ERROR_ACCESS_DENIED, ERROR_DIRECTORY,
};
use crate::request::{DataRequest, FsCall, FsReply, FsRequest, ReplyKind, Step};
use crate::time::{filetime_to_system_time, instant_of, SystemTime, UNIX_EPOCH_FILETIME};

verus! {

/// A change to a file, after which Windows is told what became of the file.
#[derive(Debug, Clone, Copy, PartialEq, Eq, Structural)]
pub enum Update {
    Applying { ino: u64 },
    Refreshing,
}

/// A step of a change. The outcome is what Windows is told of the file.
pub type UpdateStep<Call> = Step<Call, Update, Result<FileInfo, FspError>>;

/// Reading, once the file system was asked.
#[derive(Debug, Clone, Copy, PartialEq, Eq, Structural)]
pub struct Reading;

/// A step of reading. The outcome is the number of bytes.
pub type ReadStep<Call> = Step<Call, Reading, Result<u32, FspError>>;

/// What a write request asks for.
#[derive(Debug, Clone, Copy, PartialEq, Eq)]
pub struct WriteRequest<Bytes> {
    pub ino: u64,
    pub fh: u64,
    pub offset: u64,
    pub data: Bytes,
    pub write_to_eof: bool,
    pub constrained_io: bool,
}

/// Writing: asking for the size of the file, writing, and asking what became of the file.
#[derive(Debug, Clone, Copy, PartialEq, Eq)]
pub enum Writing<Bytes> {
    Sizing { request: WriteRequest<Bytes> },
    Storing { ino: u64 },
    Refreshing { written: u32 },
}

/// A step of writing. The outcome is the number of bytes and, unless nothing was to be written,
/// what Windows is told of the file.
pub type WriteStep<Call, Bytes> = Step<
    Call,
    Writing<Bytes>,
    Result<(u32, Option<FileInfo>), FspError>,
>;

impl<'a> View for WriteRequest<&'a [u8]> {
    type V = WriteRequest<Seq<u8>>;

    open spec fn view(&self) -> WriteRequest<Seq<u8>> {
        WriteRequest {
            ino: self.ino,
            fh: self.fh,
            offset: self.offset,
            data: self.data@,
            write_to_eof: self.write_to_eof,
            constrained_io: self.constrained_io,
        }
    }
}

impl<'a> View for Writing<&'a [u8]> {
    type V = Writing<Seq<u8>>;

    open spec fn view(&self) -> Writing<Seq<u8>> {
        match *self {
            Writing::Sizing { request } => Writing::Sizing { request: request@ },
            Writing::Storing { ino } => Writing::Storing { ino },
            Writing::Refreshing { written } => Writing::Refreshing { written },
        }
    }
}

impl UpdateStep<FsRequest> {
    pub open spec fn view(&self) -> UpdateStep<FsCall<Seq<char>>> {
        match *self {
            Step::Call(call, state) => Step::Call(call@, state),
            Step::Done(outcome) => Step::Done(outcome),
        }
    }
}

impl ReadStep<FsRequest> {
    pub open spec fn view(&self) -> ReadStep<FsCall<Seq<char>>> {
        match *self {
            Step::Call(call, state) => Step::Call(call@, state),
            Step::Done(outcome) => Step::Done(outcome),
        }
    }
}

impl<'a> WriteStep<DataRequest<'a>, &'a [u8]> {
    pub open spec fn view(&self) -> WriteStep<FsCall<Seq<char>>, Seq<u8>> {
        match *self {
            Step::Call(call, state) => Step::Call(call@, state@),
            Step::Done(outcome) => Step::Done(outcome),
        }
    }
}

/// Asking what Windows is to be told of a file.
pub open spec fn refresh(ino: u64) -> UpdateStep<FsCall<Seq<char>>> {
    Step::Call(FsCall::GetAttr { ino }, Update::Refreshing)
}

/// A change to a file. A read-only volume refuses.
pub open spec fn update_start(read_only: bool, ino: u64, change: FsCall<Seq<char>>) -> UpdateStep<
    FsCall<Seq<char>>,
> {
    if read_only {
        Step::Done(Err(FspError::WIN32(ERROR_ACCESS_DENIED)))
    } else {
        Step::Call(change, Update::Applying { ino })
    }
}

/// How a change goes on after an answer.
pub open spec fn update_step(state: Update, reply: FsReply) -> UpdateStep<FsCall<Seq<char>>> {
    match (state, reply) {
        (Update::Applying { ino }, FsReply::Done(Ok(_))) => refresh(ino),
        (Update::Applying { ino }, FsReply::Done(Err(err))) => Step::Done(Err(reported(err))),
        (Update::Refreshing, FsReply::Attr(Ok(attr))) => Step::Done(Ok(file_info_of(attr))),
        (Update::Refreshing, FsReply::Attr(Err(err))) => Step::Done(Err(reported(err))),
        _ => arbitrary(),
    }
}

/// What flushing a handle begins with. A directory has nothing to flush.
pub open spec fn flush_start(context: WinFileContext<Seq<char>>) -> UpdateStep<FsCall<Seq<char>>> {
    if context.fh != 0 {
        Step::Call(FsCall::Flush { fh: context.fh }, Update::Applying { ino: context.ino })
    } else {
        refresh(context.ino)
    }
}

/// A file time from Windows sets a time of a file: one before the Unix epoch, such as 0, leaves
/// the time as it is.
pub open spec fn time_set(filetime: u64, time: Option<SystemTime>) -> bool {
    &&& time is Some <==> filetime >= UNIX_EPOCH_FILETIME
    &&& time matches Some(t) ==> t@ == instant_of(filetime as int)
}

/// The number of bytes that Windows is told: the low 32 bits of the count.
pub open spec fn reported_count(count: usize) -> u32 {
    (count as int % 0x1_0000_0000) as u32
}

/// How reading begins. A directory is refused.
pub open spec fn read_start(context: WinFileContext<Seq<char>>, offset: u64) -> ReadStep<
    FsCall<Seq<char>>,
> {
    if context.kind == FileType::Directory {
        Step::Done(Err(FspError::WIN32(ERROR_DIRECTORY)))
    } else {
        Step::Call(FsCall::Read { ino: context.ino, offset, fh: context.fh }, Reading)
    }
}

/// How reading goes on after the answer.
pub open spec fn read_step(reply: FsReply) -> ReadStep<FsCall<Seq<char>>> {
    match reply {
        FsReply::Count(Ok(count)) => Step::Done(Ok(reported_count(count))),
        FsReply::Count(Err(err)) => Step::Done(Err(reported(err))),
        _ => arbitrary(),
    }
}

/// Where a write goes and how many bytes of the data it takes, given the size of the file; `None`
/// if there is nothing to write.
///
/// A write to the end of the file goes there. A constrained write stays within the file: it takes
/// only the bytes that lie before the end, and none if it would begin at or after the end.
pub open spec fn write_extent(request: WriteRequest<Seq<u8>>, size: u64) -> Option<(u64, int)> {
    let offset = if request.write_to_eof {
        size
    } else {
        request.offset
    };
    if !request.constrained_io {
        Some((offset, request.data.len() as int))
    } else if offset >= size {
        None
    } else if request.data.len() <= size - offset {
        Some((offset, request.data.len() as int))
    } else {
        Some((offset, size - offset))
    }
}

/// How writing begins. A read-only volume refuses, and so does a directory.
pub open spec fn write_start(
    read_only: bool,
    context: WinFileContext<Seq<char>>,
    offset: u64,
    data: Seq<u8>,
    write_to_eof: bool,
    constrained_io: bool,
) -> WriteStep<FsCall<Seq<char>>, Seq<u8>> {
    if read_only {
        Step::Done(Err(FspError::WIN32(ERROR_ACCESS_DENIED)))
    } else if context.kind == FileType::Directory {
        Step::Done(Err(FspError::WIN32(ERROR_DIRECTORY)))
    } else {
        Step::Call(
            FsCall::GetAttr { ino: context.ino },
            Writing::Sizing {
                request: WriteRequest {
                    ino: context.ino,
                    fh: context.fh,
                    offset,
                    data,
                    write_to_eof,
                    constrained_io,
                },
            },
        )
    }
}

/// Asking the file system to write.
pub open spec fn store(request: WriteRequest<Seq<u8>>, offset: u64, data: Seq<u8>) -> WriteStep<
    FsCall<Seq<char>>,
    Seq<u8>,
> {
    Step::Call(
        FsCall::Write { ino: request.ino, offset, data, fh: request.fh },
        Writing::Storing { ino: request.ino },
    )
}

/// The end of a write that takes no byte.
pub open spec fn nothing_written() -> WriteStep<FsCall<Seq<char>>, Seq<u8>> {
    Step::Done(Ok((0, None)))
}

/// How writing goes on after an answer. The bytes that a write takes are the first of the data.
pub open spec fn write_step(state: Writing<Seq<u8>>, reply: FsReply) -> WriteStep<
    FsCall<Seq<char>>,
    Seq<u8>,
> {
    match (state, reply) {
        (Writing::Sizing { request }, FsReply::Attr(Ok(attr))) => match write_extent(
            request,
            attr.size,
        ) {
            Some((offset, len)) => store(request, offset, request.data.take(len)),
            None => nothing_written(),
        },
        (Writing::Sizing { request }, FsReply::Attr(Err(err))) => Step::Done(Err(reported(err))),
        (Writing::Storing { ino }, FsReply::Count(Ok(count))) => Step::Call(
            FsCall::GetAttr { ino },
            Writing::Refreshing { written: reported_count(count) },
        ),
        (Writing::Storing { ino }, FsReply::Count(Err(err))) => Step::Done(Err(reported(err))),
        (Writing::Refreshing { written }, FsReply::Attr(Ok(attr))) => Step::Done(
            Ok((written, Some(file_info_of(attr)))),
        ),
        (Writing::Refreshing { written }, FsReply::Attr(Err(err))) => Step::Done(
            Err(reported(err)),
        ),
        _ => arbitrary(),
    }
}

impl Update {
    /// The kind of answer that a change waits for.
    pub open spec fn awaits(&self) -> ReplyKind {
        match *self {
            Update::Applying { .. } => ReplyKind::Done,
            Update::Refreshing => ReplyKind::Attr,
        }
    }

    /// The attributes that Windows is told of when a change goes on after an answer.
    pub open spec fn told(&self, reply: FsReply) -> Option<FileAttr> {
        match (*self, reply) {
            (Update::Refreshing, FsReply::Attr(Ok(attr))) => Some(attr),
            _ => None,
        }
    }

    /// Whether the attributes that Windows is told of when a change goes on can be told.
    pub fn can_tell(&self, reply: &FsReply) -> (can: bool)
        ensures
            can == (self.told(*reply) matches Some(attr) ==> attr.wf()),
    {
        match (self, reply) {
            (Update::Refreshing, FsReply::Attr(Ok(attr))) => attr.is_valid(),
            _ => true,
        }
    }

    /// Goes on with a change after an answer.
    pub fn step(self, reply: FsReply) -> (step: UpdateStep<FsRequest>)
        requires
            reply.kind() == self.awaits(),
            self.told(reply) matches Some(attr) ==> attr.wf(),
        ensures
            step@ == update_step(self, reply),
            step matches Step::Call(call, state) ==> state.awaits() == call.reply_kind(),
    {
        match (self, reply) {
            (Update::Applying { ino }, FsReply::Done(Ok(_))) => Step::Call(
                FsCall::GetAttr { ino },
                Update::Refreshing,
            ),
            (Update::Applying { .. }, FsReply::Done(Err(err))) => Step::Done(Err(fs_error(err))),
            (Update::Refreshing, FsReply::Attr(Ok(attr))) => Step::Done(Ok(describe(&attr))),
            (Update::Refreshing, FsReply::Attr(Err(err))) => Step::Done(Err(fs_error(err))),
            _ => vstd::pervasive::unreached(),
        }
    }
}

impl Reading {
    /// The kind of answer that reading waits for.
    pub open spec fn awaits(&self) -> ReplyKind {
        ReplyKind::Count
    }

    /// Goes on with reading after the answer.
    pub fn step(self, reply: FsReply) -> (step: ReadStep<FsRequest>)
        requires
            reply.kind() == self.awaits(),
        ensures
            step@ == read_step(reply),
            step is Done,
    {
        match reply {
            FsReply::Count(Ok(count)) => Step::Done(Ok(low_bits(count))),
            FsReply::Count(Err(err)) => Step::Done(Err(fs_error(err))),
            _ => vstd::pervasive::unreached(),
        }
    }
}

/// The low 32 bits of a count.
fn low_bits(count: usize) -> (bits: u32)
    ensures
        bits == reported_count(count),
{
    let bits: u32 = #[verifier::truncate] (count as u32);
    assert(bits as int == count as int % 0x1_0000_0000) by {
        let wide: u64 = count as u64;
        assert(wide as u32 == wide % 0x1_0000_0000) by (bit_vector);
    }
    bits
}

impl<'a> WriteRequest<&'a [u8]> {
    /// Where the write goes and how many bytes of the data it takes, given the size of the file.
    pub fn extent(&self, size: u64) -> (extent: Option<(u64, usize)>)
        ensures
            match extent {
                Some((offset, len)) => write_extent(self@, size) == Some((offset, len as int)),
                None => write_extent(self@, size) is None,
            },
    {
        let offset: u64 = if self.write_to_eof {
            size
        } else {
            self.offset
        };
        if !self.constrained_io {
            return Some((offset, self.data.len()));
        }
        if offset >= size {
            return None;
        }
        let room: u64 = size - offset;
        if self.data.len() as u64 <= room {
            Some((offset, self.data.len()))
        } else {
            Some((offset, room as usize))
        }
    }
}

impl<Bytes> Writing<Bytes> {
    /// The kind of answer that writing waits for.
    pub open spec fn awaits(&self) -> ReplyKind {
        match *self {
            Writing::Sizing { .. } => ReplyKind::Attr,
            Writing::Storing { .. } => ReplyKind::Count,
            Writing::Refreshing { .. } => ReplyKind::Attr,
        }
    }
}

impl<'a> Writing<&'a [u8]> {
    /// The attributes that Windows is told of when writing goes on after an answer.
    pub open spec fn told(&self, reply: FsReply) -> Option<FileAttr> {
        match (*self, reply) {
            (Writing::Refreshing { .. }, FsReply::Attr(Ok(attr))) => Some(attr),
            _ => None,
        }
    }

    /// Whether the attributes that Windows is told of when writing goes on can be told.
    pub fn can_tell(&self, reply: &FsReply) -> (can: bool)
        ensures
            can == (self.told(*reply) matches Some(attr) ==> attr.wf()),
    {
        match (self, reply) {
            (Writing::Refreshing { .. }, FsReply::Attr(Ok(attr))) => attr.is_valid(),
            _ => true,
        }
    }

    /// Goes on with writing after an answer.
    pub fn step(self, reply: FsReply) -> (step: WriteStep<DataRequest<'a>, &'a [u8]>)
        requires
            reply.kind() == self.awaits(),
            self.told(reply) matches Some(attr) ==> attr.wf(),
        ensures
            step@ == write_step(self@, reply),
            step matches Step::Call(call, state) ==> state.awaits() == call.reply_kind(),
    {
        match (self, reply) {
            (Writing::Sizing { request }, FsReply::Attr(Ok(attr))) => {
                match request.extent(attr.size) {
                    Some((offset, len)) => Step::Call(
                        FsCall::Write {
                            ino: request.ino,
                            offset,
                            data: slice_subrange(request.data, 0, len),
                            fh: request.fh,
                        },
                        Writing::Storing { ino: request.ino },
                    ),
                    None => Step::Done(Ok((0, None))),
                }
            },
            (Writing::Sizing { .. }, FsReply::Attr(Err(err))) => Step::Done(Err(fs_error(err))),
            (Writing::Storing { ino }, FsReply::Count(Ok(count))) => Step::Call(
                FsCall::GetAttr { ino },
                Writing::Refreshing { written: low_bits(count) },
            ),
            (Writing::Storing { .. }, FsReply::Count(Err(err))) => Step::Done(Err(fs_error(err))),
            (Writing::Refreshing { written }, FsReply::Attr(Ok(attr))) => Step::Done(
                Ok((written, Some(describe(&attr)))),
            ),
            (Writing::Refreshing { .. }, FsReply::Attr(Err(err))) => Step::Done(
                Err(fs_error(err)),
            ),
            _ => vstd::pervasive::unreached(),
        }
    }
}

impl WinFsContext {
    /// Begins to flush a handle. There is nothing to do for the volume as a whole.
    pub fn flush(&self, context: Option<&WinFileContext<String>>) -> (step: Option<
        UpdateStep<FsRequest>,
    >)
        ensures
            step is Some <==> context is Some,
            context matches Some(c) ==> (step matches Some(s) && s@ == flush_start(c@)),
            step matches Some(Step::Call(call, state)) ==> state.awaits() == call.reply_kind(),
    {
        match context {
            None => None,
            Some(context) => if context.fh != 0 {
                Some(
                    Step::Call(
                        FsCall::Flush { fh: context.fh },
                        Update::Applying { ino: context.ino },
                    ),
                )
            } else {
                Some(self.get_file_info(context))
            },
        }
    }

    /// Begins to ask what Windows is to be told of a handle.
    pub fn get_file_info(&self, context: &WinFileContext<String>) -> (step: UpdateStep<FsRequest>)
        ensures
            step@ == refresh(context.ino),
            step matches Step::Call(call, state) ==> state.awaits() == call.reply_kind(),
    {
        Step::Call(FsCall::GetAttr { ino: context.ino }, Update::Refreshing)
    }

    /// Begins to empty a file.
    pub fn overwrite(&self, context: &WinFileContext<String>) -> (step: UpdateStep<FsRequest>)
        ensures
            step@ == update_start(
                self.read_only,
                context.ino,
                FsCall::SetLen { ino: context.ino, size: 0 },
            ),
            step matches Step::Call(call, state) ==> state.awaits() == call.reply_kind(),
    {
        self.set_file_size(context, 0)
    }

    /// Begins to change the size of a file.
    pub fn set_file_size(&self, context: &WinFileContext<String>, new_size: u64) -> (step:
        UpdateStep<FsRequest>)
        ensures
            step@ == update_start(
                self.read_only,
                context.ino,
                FsCall::SetLen { ino: context.ino, size: new_size },
            ),
            step matches Step::Call(call, state) ==> state.awaits() == call.reply_kind(),
    {
        if self.read_only {
            return Step::Done(Err(FspError::WIN32(ERROR_ACCESS_DENIED)));
        }
        Step::Call(
            FsCall::SetLen { ino: context.ino, size: new_size },
            Update::Applying { ino: context.ino },
        )
    }

    /// Begins to change the times of a file or directory.
    pub fn set_basic_info(
        &self,
        context: &WinFileContext<String>,
        creation_time: u64,
        last_access_time: u64,
        last_write_time: u64,
        last_change_time: u64,
    ) -> (step: UpdateStep<FsRequest>)
        ensures
            match step {
                Step::Done(outcome) => self.read_only && outcome == Err::<FileInfo, FspError>(
                    FspError::WIN32(ERROR_ACCESS_DENIED),
                ),
                Step::Call(FsCall::SetAttr { ino, changes }, state) => {
                    &&& !self.read_only
                    &&& ino == context.ino
                    &&& state == (Update::Applying { ino: context.ino })
                    &&& time_set(creation_time, changes.crtime)
                    &&& time_set(last_access_time, changes.atime)
                    &&& time_set(last_write_time, changes.mtime)
                    &&& time_set(last_change_time, changes.ctime)
                },
                _ => false,
            },
            step matches Step::Call(call, state) ==> state.awaits() == call.reply_kind(),
    {
        if self.read_only {
            return Step::Done(Err(FspError::WIN32(ERROR_ACCESS_DENIED)));
        }
        let mut changes: SetFileAttr = SetFileAttr::default();
        if let Some(value) = filetime_to_system_time(creation_time) {
            changes = changes.with_crtime(value);
        }
        if let Some(value) = filetime_to_system_time(last_access_time) {
            changes = changes.with_atime(value);
        }
        if let Some(value) = filetime_to_system_time(last_write_time) {
            changes = changes.with_mtime(value);
        }
        if let Some(value) = filetime_to_system_time(last_change_time) {
            changes = changes.with_ctime(value);
        }
        Step::Call(
            FsCall::SetAttr { ino: context.ino, changes },
            Update::Applying { ino: context.ino },
        )
    }

    /// Begins to read from a file.
    pub fn read(&self, context: &WinFileContext<String>, offset: u64) -> (step: ReadStep<FsRequest>)
        ensures
            step@ == read_start(context@, offset),
            step matches Step::Call(call, state) ==> state.awaits() == call.reply_kind(),
    {
        if context.kind == FileType::Directory {
            return Step::Done(Err(FspError::WIN32(ERROR_DIRECTORY)));
        }
        Step::Call(FsCall::Read { ino: context.ino, offset, fh: context.fh }, Reading)
    }

    /// Begins to write the data of a buffer to a file.
    pub fn write<'a>(
        &self,
        context: &WinFileContext<String>,
        buffer: &'a [u8],
        offset: u64,
        write_to_eof: bool,
        constrained_io: bool,
    ) -> (step: WriteStep<DataRequest<'a>, &'a [u8]>)
        ensures
            step@ == write_start(
                self.read_only,
                context@,
                offset,
                buffer@,
                write_to_eof,
                constrained_io,
            ),
            step matches Step::Call(call, state) ==> state.awaits() == call.reply_kind(),
    {
        if self.read_only {
            return Step::Done(Err(FspError::WIN32(ERROR_ACCESS_DENIED)));
        }
        if context.kind == FileType::Directory {
            return Step::Done(Err(FspError::WIN32(ERROR_DIRECTORY)));
        }
        let request: WriteRequest<&'a [u8]> = WriteRequest {
            ino: context.ino,
            fh: context.fh,
            offset,
            data: buffer,
            write_to_eof,
            constrained_io,
        };
        Step::Call(FsCall::GetAttr { ino: context.ino }, Writing::Sizing { request })
    }
}

/// A constrained write stays within the file, so it never makes the file longer, and it takes no
/// more than the data holds.
pub proof fn constrained_write_stays_within_file(request: WriteRequest<Seq<u8>>, size: u64)
    requires
        request.constrained_io,
    ensures
        write_extent(request, size) matches Some((offset, len)) ==> {
            &&& offset < size
            &&& offset + len <= size
            &&& 0 <= len <= request.data.len()
        },
        request.write_to_eof ==> write_extent(request, size) is None,
        write_extent(request, size) is None <==> (request.write_to_eof || request.offset >= size),
{
}

/// Once the size of the file is known, a constrained write at an offset asks the file system to
/// write, at that offset, the first bytes of the data up to the end of the file. Where the offset
/// lies at or after the end, the file system is not asked, and nothing was written.
pub proof fn constrained_write_takes_first_bytes(
    request: WriteRequest<Seq<u8>>,
    attr: FileAttr,
    room: int,
)
    requires
        request.constrained_io,
        !request.write_to_eof,
        room == attr.size - request.offset,
    ensures
        write_step(Writing::Sizing { request }, FsReply::Attr(Ok(attr))) == (if room <= 0 {
            nothing_written()
        } else if request.data.len() <= room {
            store(request, request.offset, request.data)
        } else {
            store(request, request.offset, request.data.take(room))
        }),
{
    assert(request.data.take(request.data.len() as int) =~= request.data);
}

/// Once the size of the file is known, a write that is not constrained asks the file system to
/// write all of the data.
pub proof fn unconstrained_write_takes_all_data(
    request: WriteRequest<Seq<u8>>,
    attr: FileAttr,
)
    requires
        !request.constrained_io,
    ensures
        write_step(Writing::Sizing { request }, FsReply::Attr(Ok(attr))) == store(
            request,
            if request.write_to_eof {
                attr.size
            } else {
                request.offset
            },
            request.data,
        ),
{
    assert(request.data.take(request.data.len() as int) =~= request.data);
}

/// The outcome of a change when the file system gives some answers; `None` if they do not bring it
/// to its end.
pub open spec fn run_update(step: UpdateStep<FsCall<Seq<char>>>, replies: Seq<FsReply>) -> Option<
    Result<FileInfo, FspError>,
>
    decreases replies.len(),
{
    match step {
        Step::Call(_, state) => if replies.len() > 0 && replies[0].kind() == state.awaits() {
            run_update(update_step(state, replies[0]), replies.skip(1))
        } else {
            None
        },
        Step::Done(outcome) => Some(outcome),
    }
}

/// The outcome of writing when the file system gives some answers; `None` if they do not bring it
/// to its end.
pub open spec fn run_write(
    step: WriteStep<FsCall<Seq<char>>, Seq<u8>>,
    replies: Seq<FsReply>,
) -> Option<Result<(u32, Option<FileInfo>), FspError>>
    decreases replies.len(),
{
    match step {
        Step::Call(_, state) => if replies.len() > 0 && replies[0].kind() == state.awaits() {
            run_write(write_step(state, replies[0]), replies.skip(1))
        } else {
            None
        },
        Step::Done(outcome) => Some(outcome),
    }
}

/// A change tells Windows of the file as it is after the change. The first thing that fails is
/// what Windows is told instead.
pub proof fn update_describes_changed_file(
    ino: u64,
    change: FsCall<Seq<char>>,
    applied: FsResult<()>,
    after: FsResult<FileAttr>,
)
    ensures
        run_update(
            update_start(false, ino, change),
            seq![FsReply::Done(applied), FsReply::Attr(after)],
        ) == Some(
            match (applied, after) {
                (Ok(_), Ok(attr)) => Ok(file_info_of(attr)),
                (Ok(_), Err(err)) => Err(reported(err)),
                (Err(err), _) => Err(reported(err)),
            },
        ),
{
    reveal_with_fuel(run_update, 3);
}

/// A write to a file tells Windows how many bytes the file system took, and of the file as it is
/// after that. Where nothing is to be written the file system is not asked to write, and where
/// something fails that is what Windows is told.
pub proof fn write_tells_what_was_taken(
    context: WinFileContext<Seq<char>>,
    request: WriteRequest<Seq<u8>>,
    before: FsResult<FileAttr>,
    taken: FsResult<usize>,
    after: FsResult<FileAttr>,
)
    requires
        context.kind != FileType::Directory,
        request.ino == context.ino,
        request.fh == context.fh,
    ensures
        run_write(
            write_start(
                false,
                context,
                request.offset,
                request.data,
                request.write_to_eof,
                request.constrained_io,
            ),
            seq![FsReply::Attr(before), FsReply::Count(taken), FsReply::Attr(after)],
        ) == Some(
            match (before, taken, after) {
                (Err(err), _, _) => Err(reported(err)),
                (Ok(attr), _, _) if write_extent(request, attr.size) is None => Ok((0, None)),
                (Ok(_), Err(err), _) => Err(reported(err)),
                (Ok(_), Ok(_), Err(err)) => Err(reported(err)),
                (Ok(_), Ok(count), Ok(attr)) => Ok(
                    (reported_count(count), Some(file_info_of(attr))),
                ),
            },
        ),
{
    reveal_with_fuel(run_write, 4);
}

/// Counts below 2^32, and so those of a whole buffer of Windows, are told exactly.
pub proof fn small_counts_are_exact(count: usize)
    requires
        count < 0x1_0000_0000,
    ensures
        reported_count(count) == count,
{
}

/// A write asks for the size of the handle's own file first. A read-only volume and a directory
/// refuse before anything is asked.
pub proof fn write_asks_for_size_of_own_file(
    context: WinFileContext<Seq<char>>,
    at: u64,
    bytes: Seq<u8>,
    to_end: bool,
    constrained: bool,
)
    ensures
        write_start(true, context, at, bytes, to_end, constrained) matches Step::Done(
            Err(FspError::WIN32(code)),
        ) && code == 5,
        context.kind is Directory ==> (write_start(
            false,
            context,
            at,
            bytes,
            to_end,
            constrained,
        ) matches Step::Done(Err(FspError::WIN32(code))) && code == 267),
        context.kind is RegularFile ==> (write_start(
            false,
            context,
            at,
            bytes,
            to_end,
            constrained,
        ) matches Step::Call(FsCall::GetAttr { ino }, Writing::Sizing { request }) && {
            &&& ino == context.ino
            &&& request.ino == context.ino
            &&& request.fh == context.fh
            &&& request.offset == at
            &&& request.data == bytes
            &&& request.write_to_eof == to_end
            &&& request.constrained_io == constrained
        }),
{
}

/// Once the size of the file is known, a write goes to the handle's own file through its own
/// handle, exactly at the offset that was asked for, or at the end of the file if that was asked
/// for, wherever that is. It hands over the first bytes of the data: all of them, or, if it is
/// constrained, those that lie before the end of the file. A constrained write at or after the end
/// hands over nothing, and the file system is not asked.
pub proof fn write_goes_where_it_was_asked_for(request: WriteRequest<Seq<u8>>, attr: FileAttr)
    ensures
        match write_step(Writing::Sizing { request }, FsReply::Attr(Ok(attr))) {
            Step::Call(FsCall::Write { ino, offset, data, fh }, Writing::Storing { ino: i }) => {
                &&& ino == request.ino
                &&& fh == request.fh
                &&& i == request.ino
                &&& request.write_to_eof ==> offset == attr.size
                &&& !request.write_to_eof ==> offset == request.offset
                &&& !request.constrained_io ==> data == request.data
                &&& request.constrained_io ==> {
                    &&& offset < attr.size
                    &&& data.is_prefix_of(request.data)
                    &&& offset + data.len() <= attr.size
                    &&& data.len() == request.data.len() || offset + data.len() == attr.size
                }
            },
            Step::Done(Ok((count, info))) => {
                &&& request.constrained_io
                &&& request.write_to_eof || request.offset >= attr.size
                &&& count == 0
                &&& info is None
            },
            _ => false,
        },
{
    assert(request.data.take(request.data.len() as int) =~= request.data);
}

/// After a write the file system is asked of the same file again. Windows is told the low 32 bits
/// of the count that the file system gave, and the record of what it then said of the file. The
/// first failure is reported.
pub proof fn write_ends_with_count_and_record(
    request: WriteRequest<Seq<u8>>,
    ino: u64,
    count: usize,
    written: u32,
    attr: FileAttr,
    err: FsError,
)
    ensures
        write_step(Writing::Storing { ino }, FsReply::Count(Ok(count))) matches Step::Call(
            FsCall::GetAttr { ino: i },
            Writing::Refreshing { written: w },
        ) && i == ino && w == count as int % 0x1_0000_0000,
        write_step(Writing::Refreshing { written }, FsReply::Attr(Ok(attr))) matches Step::Done(
            Ok((w, Some(info))),
        ) && w == written && info == file_info_of(attr),
        write_step(Writing::Sizing { request }, FsReply::Attr(Err(err))) matches Step::Done(Err(e))
            && e == reported(err),
        write_step(Writing::Storing { ino }, FsReply::Count(Err(err))) matches Step::Done(Err(e))
            && e == reported(err),
        write_step(Writing::Refreshing { written }, FsReply::Attr(Err(err))) matches Step::Done(
            Err(e),
        ) && e == reported(err),
{
}

/// Reading asks for the handle's own file through its own handle, exactly at the offset that was
/// asked for, and tells the low 32 bits of the count that the file system gave. A directory is
/// refused, and a failure is reported.
pub proof fn read_reads_where_it_was_asked_for(
    context: WinFileContext<Seq<char>>,
    at: u64,
    count: usize,
    err: FsError,
)
    ensures
        context.kind is Directory ==> (read_start(context, at) matches Step::Done(
            Err(FspError::WIN32(code)),
        ) && code == 267),
        context.kind is RegularFile ==> (read_start(context, at) matches Step::Call(
            FsCall::Read { ino, offset, fh },
            _,
        ) && ino == context.ino && offset == at && fh == context.fh),
        read_step(FsReply::Count(Ok(count))) matches Step::Done(Ok(told)) && told == count as int
            % 0x1_0000_0000,
        read_step(FsReply::Count(Err(err))) matches Step::Done(Err(e)) && e == reported(err),
{
}

/// Describing a handle asks for its own file. Flushing a handle flushes the handle of the file
/// system, if there is one, and then describes its own file.
pub proof fn flush_is_of_own_file(context: WinFileContext<Seq<char>>)
    ensures
        refresh(context.ino) matches Step::Call(FsCall::GetAttr { ino }, Update::Refreshing) && ino
            == context.ino,
        context.fh != 0 ==> (flush_start(context) matches Step::Call(
            FsCall::Flush { fh },
            Update::Applying { ino },
        ) && fh == context.fh && ino == context.ino),
        context.fh == 0 ==> (flush_start(context) matches Step::Call(
            FsCall::GetAttr { ino },
            Update::Refreshing,
        ) && ino == context.ino),
{
}

/// A change is asked for as it is, of a volume that is not read-only, and once it was made the same
/// file is described as the file system then says it is. The first failure is reported.
pub proof fn update_asks_for_the_change(
    file: u64,
    change: FsCall<Seq<char>>,
    attr: FileAttr,
    err: FsError,
)
    ensures
        update_start(true, file, change) matches Step::Done(Err(FspError::WIN32(code))) && code
            == 5,
        update_start(false, file, change) matches Step::Call(call, Update::Applying { ino }) && call
            == change && ino == file,
        update_step(Update::Applying { ino: file }, FsReply::Done(Ok(()))) matches Step::Call(
            FsCall::GetAttr { ino },
            Update::Refreshing,
        ) && ino == file,
        update_step(Update::Refreshing, FsReply::Attr(Ok(attr))) matches Step::Done(Ok(info))
            && info == file_info_of(attr),
        update_step(Update::Applying { ino: file }, FsReply::Done(Err(err))) matches Step::Done(
            Err(e),
        ) && e == reported(err),
        update_step(Update::Refreshing, FsReply::Attr(Err(err))) matches Step::Done(Err(e)) && e
            == reported(err),
{
}

/// A file time sets a time exactly if it does not lie before the Unix epoch, which is the file time
/// 116444736000000000, and then to the point in time that lies as many intervals of 100 nanoseconds
/// after the Unix epoch.
pub proof fn times_are_set_from_unix_epoch_on(filetime: u64, time: SystemTime)
    ensures
        time_set(filetime, None) <==> filetime < 116_444_736_000_000_000,
        time_set(filetime, Some(time)) <==> filetime >= 116_444_736_000_000_000 && time@ == (
        filetime - 116_444_736_000_000_000) * 100,
{
}

/// The extent of a write lies where it was asked for, and takes all of the data unless a
/// constrained write would go past the end of the file. What is said of a request is said of its
/// own fields.
pub proof fn extent_lies_where_it_was_asked_for(
    request: WriteRequest<Seq<u8>>,
    size: u64,
    asked: WriteRequest<&[u8]>,
)
    ensures
        write_extent(request, size) matches Some((offset, len)) ==> {
            &&& request.write_to_eof ==> offset == size
            &&& !request.write_to_eof ==> offset == request.offset
            &&& len == request.data.len() || (request.constrained_io && offset + len == size && len
                < request.data.len())
        },
        !request.constrained_io ==> write_extent(request, size) is Some,
        asked@.ino == asked.ino,
        asked@.fh == asked.fh,
        asked@.offset == asked.offset,
        asked@.data == asked.data@,
        asked@.write_to_eof == asked.write_to_eof,
        asked@.constrained_io == asked.constrained_io,
{
}

/// What is said of a step of a change is said of its own call and outcome.
pub proof fn update_step_is_seen_as_it_is(step: UpdateStep<FsRequest>)
    ensures
        match step {
            Step::Call(call, state) => step@ matches Step::Call(c, s) && c == call@ && s == state,
            Step::Done(outcome) => step@ matches Step::Done(o) && o == outcome,
        },
{
}

/// What is said of a step of reading is said of its own call and outcome.
pub proof fn read_step_is_seen_as_it_is(step: ReadStep<FsRequest>)
    ensures
        match step {
            Step::Call(call, state) => step@ matches Step::Call(c, s) && c == call@ && s == state,
            Step::Done(outcome) => step@ matches Step::Done(o) && o == outcome,
        },
{
}

/// What is said of a step of writing is said of its own call and outcome.
pub proof fn write_step_is_seen_as_it_is(step: WriteStep<DataRequest, &[u8]>)
    ensures
        match step {
            Step::Call(call, state) => step@ matches Step::Call(c, s) && c == call@ && s == state@,
            Step::Done(outcome) => step@ matches Step::Done(o) && o == outcome,
        },
{
}

/// Windows is told of the attributes that the file system gives after a change or a write, and of
/// no others.
pub proof fn only_what_became_of_file_is_told(
    update: Update,
    writing: Writing<&[u8]>,
    reply: FsReply,
)
    ensures
        update.told(reply) matches Some(attr) ==> update is Refreshing && reply == FsReply::Attr(
            Ok(attr),
        ),
        writing.told(reply) matches Some(attr) ==> writing is Refreshing && reply == FsReply::Attr(
            Ok(attr),
        ),
{
}

} // verus!

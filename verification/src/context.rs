//! Open handles, and what becomes of them.

use vstd::prelude::*;

use crate::attr::{FileAttr, FileType};
use crate::error::{FsResult, FspError, ERROR_ACCESS_DENIED};
use crate::request::{FsCall, FsRequest};
use crate::walk::location_view;

verus! {

/// Where an open handle was found, and whether what it names goes away with it.
///
/// The root has neither a parent nor a name, and neither has a handle whose parent could not be
/// found when it was opened.
#[derive(Debug, PartialEq, Eq)]
pub struct HandleState<Name = String> {
    pub parent: Option<u64>,
    pub name: Option<Name>,
    pub delete_on_close: bool,
}

/// An open handle. Directories are opened without a handle of the file system: theirs is 0.
#[derive(Debug, PartialEq, Eq)]
pub struct WinFileContext<Name = String> {
    pub ino: u64,
    pub fh: u64,
    pub kind: FileType,
    pub state: HandleState<Name>,
}

/// A mounted volume.
pub struct WinFsContext {
    pub read_only: bool,
}

impl View for HandleState<String> {
    type V = HandleState<Seq<char>>;

    open spec fn view(&self) -> HandleState<Seq<char>> {
        HandleState {
            parent: self.parent,
            name: match self.name {
                Some(name) => Some(name@),
                None => None,
            },
            delete_on_close: self.delete_on_close,
        }
    }
}

impl View for WinFileContext<String> {
    type V = WinFileContext<Seq<char>>;

    open spec fn view(&self) -> WinFileContext<Seq<char>> {
        WinFileContext { ino: self.ino, fh: self.fh, kind: self.kind, state: self.state@ }
    }
}

/// A directory and a name in it.
pub open spec fn target_view(target: Option<(u64, String)>) -> Option<(u64, Seq<char>)> {
    match target {
        Some((parent, name)) => Some((parent, name@)),
        None => None,
    }
}

impl HandleState<Seq<char>> {
    /// The directory and the name under which a handle was found.
    pub open spec fn target(self) -> Option<(u64, Seq<char>)> {
        match (self.parent, self.name) {
            (Some(parent), Some(name)) => Some((parent, name)),
            _ => None,
        }
    }
}

impl HandleState<String> {
    /// The directory and the name under which the handle was found.
    pub fn target(&self) -> (target: Option<(u64, String)>)
        ensures
            target_view(target) == self@.target(),
    {
        match (self.parent, &self.name) {
            (Some(parent), Some(name)) => Some((parent, name.clone())),
            _ => None,
        }
    }
}

/// The handle of a file or directory that was just opened.
pub open spec fn context_of<Name>(
    attr: FileAttr,
    fh: u64,
    location: FsResult<(u64, Name)>,
) -> WinFileContext<Name> {
    WinFileContext {
        ino: attr.ino,
        fh,
        kind: attr.kind,
        state: HandleState {
            parent: match location {
                Ok((parent, name)) => Some(parent),
                Err(_) => None,
            },
            name: match location {
                Ok((parent, name)) => Some(name),
                Err(_) => None,
            },
            delete_on_close: false,
        },
    }
}

/// What closing a handle asks of the file system: to release its handle, if it has one.
pub open spec fn close_call(context: WinFileContext<Seq<char>>) -> Option<FsCall<Seq<char>>> {
    if context.fh != 0 {
        Some(FsCall::Release { fh: context.fh })
    } else {
        None
    }
}

/// What cleaning up a handle asks of the file system: to remove what it names, if that was to go
/// away with it.
pub open spec fn cleanup_call(context: WinFileContext<Seq<char>>) -> Option<FsCall<Seq<char>>> {
    match context.state.target() {
        Some((parent, name)) => if !context.state.delete_on_close {
            None
        } else if context.kind == FileType::Directory {
            Some(FsCall::RemoveDir { parent, name })
        } else {
            Some(FsCall::RemoveFile { parent, name })
        },
        None => None,
    }
}

/// A call that may be missing, with its names as character sequences.
pub open spec fn call_view(call: Option<FsRequest>) -> Option<FsCall<Seq<char>>> {
    match call {
        Some(c) => Some(c@),
        None => None,
    }
}

/// A handle that keeps what it names.
pub open spec fn kept(context: WinFileContext<Seq<char>>) -> WinFileContext<Seq<char>> {
    with_delete(context, false)
}

/// A handle that was told whether what it names goes away with it.
pub open spec fn with_delete(context: WinFileContext<Seq<char>>, delete: bool) -> WinFileContext<
    Seq<char>,
> {
    WinFileContext {
        state: HandleState { delete_on_close: delete, ..context.state },
        ..context
    }
}

/// A handle that was moved to another directory or name.
pub open spec fn relocated(
    context: WinFileContext<Seq<char>>,
    parent: u64,
    name: Seq<char>,
) -> WinFileContext<Seq<char>> {
    WinFileContext {
        state: HandleState { parent: Some(parent), name: Some(name), ..context.state },
        ..context
    }
}

/// A handle after an attempt to move what it names: it moves along, or stays as it was.
pub open spec fn after_rename(
    context: WinFileContext<Seq<char>>,
    outcome: Result<(u64, Seq<char>), FspError>,
) -> WinFileContext<Seq<char>> {
    match outcome {
        Ok((parent, name)) => relocated(context, parent, name),
        Err(_) => context,
    }
}

/// What Windows is told of an attempt to move something.
pub open spec fn told_of_rename<Name>(outcome: Result<(u64, Name), FspError>) -> Result<
    (),
    FspError,
> {
    match outcome {
        Ok(_) => Ok(()),
        Err(err) => Err(err),
    }
}

/// The outcome of an attempt to move something.
pub open spec fn renamed_view(outcome: Result<(u64, String), FspError>) -> Result<
    (u64, Seq<char>),
    FspError,
> {
    match outcome {
        Ok((parent, name)) => Ok((parent, name@)),
        Err(err) => Err(err),
    }
}

impl WinFileContext<String> {
    /// Ends a move of what the handle names: after a success the handle moves along, after a
    /// failure it stays as it was.
    pub fn finish_rename(&mut self, outcome: Result<(u64, String), FspError>) -> (told: Result<
        (),
        FspError,
    >)
        ensures
            told == told_of_rename(outcome),
            final(self)@ == after_rename(old(self)@, renamed_view(outcome)),
    {
        match outcome {
            Ok((parent, name)) => {
                self.relocate(parent, name);
                Ok(())
            },
            Err(err) => Err(err),
        }
    }

    /// Moves the handle to another directory or name, once what it names was moved there.
    pub fn relocate(&mut self, parent: u64, name: String)
        ensures
            final(self)@ == relocated(old(self)@, parent, name@),
    {
        self.state.parent = Some(parent);
        self.state.name = Some(name);
    }
}

impl WinFsContext {
    /// The handle of a file or directory that was just opened, given where it was found.
    pub fn make_context(
        attr: FileAttr,
        fh: u64,
        location: FsResult<(u64, String)>,
    ) -> (context: WinFileContext<String>)
        ensures
            context@ == context_of(attr, fh, location_view(location)),
    {
        let (parent, name): (Option<u64>, Option<String>) = match location {
            Ok((parent, name)) => (Some(parent), Some(name)),
            Err(_) => (None, None),
        };
        WinFileContext {
            ino: attr.ino,
            fh,
            kind: attr.kind,
            state: HandleState { parent, name, delete_on_close: false },
        }
    }

    /// Closes a handle. Whether the file system succeeds makes no difference.
    pub fn close(&self, context: WinFileContext<String>) -> (call: Option<FsRequest>)
        ensures
            call_view(call) == close_call(context@),
    {
        if context.fh != 0 {
            Some(FsCall::Release { fh: context.fh })
        } else {
            None
        }
    }

    /// Cleans up a handle when the last user of it is gone. Whether the file system succeeds makes
    /// no difference: the handle then keeps what it names.
    pub fn cleanup(&self, context: &mut WinFileContext<String>) -> (call: Option<FsRequest>)
        ensures
            call_view(call) == cleanup_call(old(context)@),
            final(context)@ == kept(old(context)@),
    {
        if !context.state.delete_on_close {
            return None;
        }
        context.state.delete_on_close = false;
        match context.state.target() {
            Some((parent, name)) => if context.kind == FileType::Directory {
                Some(FsCall::RemoveDir { parent, name })
            } else {
                Some(FsCall::RemoveFile { parent, name })
            },
            None => None,
        }
    }

    /// Says whether what a handle names goes away with it. A read-only volume refuses.
    pub fn set_delete(&self, context: &mut WinFileContext<String>, delete_file: bool) -> (outcome:
        Result<(), FspError>)
        ensures
            self.read_only ==> outcome == Err::<(), FspError>(FspError::WIN32(ERROR_ACCESS_DENIED))
                && final(context)@ == old(context)@,
            !self.read_only ==> outcome == Ok::<(), FspError>(()) && final(context)@ == with_delete(
                old(context)@,
                delete_file,
            ),
    {
        if self.read_only {
            return Err(FspError::WIN32(ERROR_ACCESS_DENIED));
        }
        context.state.delete_on_close = delete_file;
        Ok(())
    }
}

/// What a handle names is removed at most once: after cleaning up, cleaning up again asks for
/// nothing.
pub proof fn cleanup_removes_once(context: WinFileContext<Seq<char>>)
    ensures
        cleanup_call(kept(context)) is None,
        kept(kept(context)) == kept(context),
{
}

/// Cleaning up a handle that was marked removes what it names now, by the kind it has: after a
/// move that is the new directory and name.
pub proof fn cleanup_removes_current_name(
    context: WinFileContext<Seq<char>>,
    parent: u64,
    name: Seq<char>,
)
    ensures
        cleanup_call(with_delete(relocated(context, parent, name), true)) == Some::<
            FsCall<Seq<char>>,
        >(
            if context.kind == FileType::Directory {
                FsCall::RemoveDir { parent, name }
            } else {
                FsCall::RemoveFile { parent, name }
            },
        ),
        relocated(with_delete(context, true), parent, name) == with_delete(
            relocated(context, parent, name),
            true,
        ),
{
}

/// Taking a mark back undoes it: the handle then keeps what it names.
pub proof fn unmarked_handle_removes_nothing(context: WinFileContext<Seq<char>>)
    ensures
        cleanup_call(with_delete(with_delete(context, true), false)) is None,
{
}

/// A handle starts out unmarked, and moving it does not mark it, so without a mark by
/// `set_delete` nothing is ever removed.
pub proof fn fresh_handle_removes_nothing(
    attr: FileAttr,
    fh: u64,
    location: FsResult<(u64, Seq<char>)>,
    parent: u64,
    name: Seq<char>,
)
    ensures
        cleanup_call(context_of(attr, fh, location)) is None,
        cleanup_call(relocated(context_of(attr, fh, location), parent, name)) is None,
{
}

/// What is said of a handle is said of its own fields, and what is said of a call that may be
/// missing, or of a target or outcome, is said of it.
pub proof fn handle_is_seen_as_it_is(
    context: WinFileContext<String>,
    name: String,
    call: FsRequest,
    parent: u64,
    err: FspError,
)
    ensures
        context@.ino == context.ino,
        context@.fh == context.fh,
        context@.kind == context.kind,
        context@.state.parent == context.state.parent,
        context@.state.delete_on_close == context.state.delete_on_close,
        context.state.name == Some(name) ==> context@.state.name == Some(name@),
        context.state.name is None ==> context@.state.name is None,
        call_view(Some(call)) == Some(call@),
        call_view(None) is None,
        target_view(Some((parent, name))) == Some((parent, name@)),
        target_view(None) is None,
        renamed_view(Ok((parent, name))) == Ok::<(u64, Seq<char>), FspError>((parent, name@)),
        renamed_view(Err(err)) == Err::<(u64, Seq<char>), FspError>(err),
{
}

/// A handle that was just opened has the inode and the kind of what was opened and the handle that
/// the file system gave, remembers the directory and the name that were found, both or neither,
/// and is not marked.
pub proof fn new_handle_is_of_what_was_opened(
    attr: FileAttr,
    fh: u64,
    location: FsResult<(u64, Seq<char>)>,
)
    ensures
        context_of(attr, fh, location).ino == attr.ino,
        context_of(attr, fh, location).kind == attr.kind,
        context_of(attr, fh, location).fh == fh,
        !context_of(attr, fh, location).state.delete_on_close,
        match location {
            Ok((parent, name)) => context_of(attr, fh, location).state.parent == Some(parent)
                && context_of(attr, fh, location).state.name == Some(name),
            Err(_) => context_of(attr, fh, location).state.parent is None && context_of(
                attr,
                fh,
                location,
            ).state.name is None,
        },
{
}

/// Closing releases exactly the handle of the file system, whatever else the handle is, and asks
/// for nothing where there is none.
pub proof fn close_releases_own_handle(context: WinFileContext<Seq<char>>)
    ensures
        context.fh == 0 ==> close_call(context) is None,
        context.fh != 0 ==> (close_call(context) matches Some(FsCall::Release { fh }) && fh
            == context.fh),
{
}

/// Cleaning up removes something exactly if the handle is marked and knows its directory and name.
/// It removes that name from that directory, a directory as a directory and a file as a file.
pub proof fn cleanup_removes_what_handle_names(context: WinFileContext<Seq<char>>)
    ensures
        cleanup_call(context) is Some <==> context.state.delete_on_close && context.state.parent
            is Some && context.state.name is Some,
        cleanup_call(context) matches Some(call) ==> match call {
            FsCall::RemoveDir { parent, name } => context.kind is Directory && context.state.parent
                == Some(parent) && context.state.name == Some(name),
            FsCall::RemoveFile { parent, name } => context.kind is RegularFile
                && context.state.parent == Some(parent) && context.state.name == Some(name),
            _ => false,
        },
        !kept(context).state.delete_on_close,
{
}

/// Marking a handle changes its mark and nothing else, and so does taking the mark back or cleaning
/// up. Moving a handle changes its directory and name and nothing else.
pub proof fn handles_keep_the_rest(
    context: WinFileContext<Seq<char>>,
    delete: bool,
    new_parent: u64,
    new_name: Seq<char>,
)
    ensures
        with_delete(context, delete).state.delete_on_close == delete,
        with_delete(context, delete).state.parent == context.state.parent,
        with_delete(context, delete).state.name == context.state.name,
        with_delete(context, delete).ino == context.ino,
        with_delete(context, delete).fh == context.fh,
        with_delete(context, delete).kind == context.kind,
        kept(context).state.parent == context.state.parent,
        kept(context).state.name == context.state.name,
        kept(context).ino == context.ino,
        kept(context).fh == context.fh,
        kept(context).kind == context.kind,
        relocated(context, new_parent, new_name).state.parent == Some(new_parent),
        relocated(context, new_parent, new_name).state.name == Some(new_name),
        relocated(context, new_parent, new_name).state.delete_on_close
            == context.state.delete_on_close,
        relocated(context, new_parent, new_name).ino == context.ino,
        relocated(context, new_parent, new_name).fh == context.fh,
        relocated(context, new_parent, new_name).kind == context.kind,
{
}

/// After a move that succeeded the handle is in the new directory under the new name, with all else
/// as it was, and Windows is told of the success. After one that failed the handle is as it was,
/// and Windows is told of that failure.
pub proof fn handle_moves_on_success_alone(
    context: WinFileContext<Seq<char>>,
    parent: u64,
    name: Seq<char>,
    err: FspError,
)
    ensures
        after_rename(context, Ok((parent, name))).state.parent == Some(parent),
        after_rename(context, Ok((parent, name))).state.name == Some(name),
        after_rename(context, Ok((parent, name))).state.delete_on_close
            == context.state.delete_on_close,
        after_rename(context, Ok((parent, name))).ino == context.ino,
        after_rename(context, Ok((parent, name))).fh == context.fh,
        after_rename(context, Ok((parent, name))).kind == context.kind,
        after_rename(context, Err(err)) == context,
        told_of_rename(Ok::<(u64, Seq<char>), FspError>((parent, name))) is Ok,
        told_of_rename(Err::<(u64, Seq<char>), FspError>(err)) == Err::<(), FspError>(err),
        context.state.target() == (match (context.state.parent, context.state.name) {
            (Some(p), Some(n)) => Some((p, n)),
            _ => None,
        }),
{
}

} // verus!

//! Operations that begin with a path: looking up, opening, creating and moving.

use vstd::prelude::*;

use crate::attr::{
    access_modes, asks_to_write, attribute_bits, describe, dir_attr, file_attr, file_info_of,
    rights_that_write, windows_attributes, CreateFileAttr, FileAttr, FileInfo, FileType,
    FILE_ATTRIBUTE_DIRECTORY, FILE_DIRECTORY_FILE,
};
use crate::context::{context_of, renamed_view, HandleState, WinFileContext, WinFsContext};
use crate::error::{
    fs_error, reported, FsError, FspError, ERROR_ACCESS_DENIED, ERROR_INVALID_PARAMETER,
};
use crate::path::{components, path_components};
use crate::request::{FsCall, FsReply, FsRequest, ReplyKind, Step};
use crate::text::decode_utf16_lossy;
use crate::walk::{
    resolve_parent_start, resolve_parent_step, resolve_start, resolve_step, Resolve, ResolveParent,
    ResolveParentStep, ResolveStep,
};

verus! {

/// What Windows is told before it opens a file or directory.
#[derive(Debug, Clone, Copy, PartialEq, Eq, Structural)]
pub struct FileSecurity {
    pub reparse: bool,
    pub sz_security_descriptor: u64,
    pub attributes: u32,
}

/// A step of looking up the attributes of a path.
pub type SecurityStep<Call, Names> = Step<Call, Resolve<Names>, Result<FileSecurity, FspError>>;

/// Opening: walking to the file or directory, opening the file, and walking to its parent.
///
/// `names` are all names of the path, for the walk to the parent.
pub enum Open<Names, Name> {
    Resolving { walk: Resolve<Names>, names: Names, write: bool },
    Opening { attr: FileAttr, names: Names },
    Locating { attr: FileAttr, info: FileInfo, fh: u64, upward: ResolveParent<Names, Name> },
}

/// A step of opening. The outcome is the handle and what Windows is told of the file.
pub type OpenStep<Call, Names, Name> = Step<
    Call,
    Open<Names, Name>,
    Result<(WinFileContext<Name>, FileInfo), FspError>,
>;

/// Creating: walking to the parent, and creating the file or directory in it.
pub enum Create<Names, Name> {
    Resolving { walk: ResolveParent<Names, Name>, directory: bool, write: bool },
    Creating { parent: u64, name: Name },
}

/// A step of creating. The outcome is the handle and what Windows is told of the file.
pub type CreateStep<Call, Names, Name> = Step<
    Call,
    Create<Names, Name>,
    Result<(WinFileContext<Name>, FileInfo), FspError>,
>;

/// Moving: walking to the new parent, and moving the file or directory there.
pub enum Rename<Names, Name> {
    Resolving { walk: ResolveParent<Names, Name>, parent: u64, name: Name },
    Renaming { parent: u64, name: Name },
}

/// A step of moving. The outcome is the directory and the name that the handle has from then on.
pub type RenameStep<Call, Names, Name> = Step<
    Call,
    Rename<Names, Name>,
    Result<(u64, Name), FspError>,
>;

impl SecurityStep<FsRequest, Vec<String>> {
    pub open spec fn view(&self) -> SecurityStep<FsCall<Seq<char>>, Seq<Seq<char>>> {
        match *self {
            Step::Call(call, state) => Step::Call(call@, state@),
            Step::Done(outcome) => Step::Done(outcome),
        }
    }
}

impl View for Open<Vec<String>, String> {
    type V = Open<Seq<Seq<char>>, Seq<char>>;

    open spec fn view(&self) -> Open<Seq<Seq<char>>, Seq<char>> {
        match *self {
            Open::Resolving { walk, names, write } => Open::Resolving {
                walk: walk@,
                names: names.deep_view(),
                write,
            },
            Open::Opening { attr, names } => Open::Opening { attr, names: names.deep_view() },
            Open::Locating { attr, info, fh, upward } => Open::Locating {
                attr,
                info,
                fh,
                upward: upward@,
            },
        }
    }
}

/// A handle and a record, or an error.
pub open spec fn handle_view(
    outcome: Result<(WinFileContext<String>, FileInfo), FspError>,
) -> Result<(WinFileContext<Seq<char>>, FileInfo), FspError> {
    match outcome {
        Ok((context, info)) => Ok((context@, info)),
        Err(err) => Err(err),
    }
}

impl OpenStep<FsRequest, Vec<String>, String> {
    pub open spec fn view(&self) -> OpenStep<FsCall<Seq<char>>, Seq<Seq<char>>, Seq<char>> {
        match *self {
            Step::Call(call, state) => Step::Call(call@, state@),
            Step::Done(outcome) => Step::Done(handle_view(outcome)),
        }
    }
}

impl View for Create<Vec<String>, String> {
    type V = Create<Seq<Seq<char>>, Seq<char>>;

    open spec fn view(&self) -> Create<Seq<Seq<char>>, Seq<char>> {
        match *self {
            Create::Resolving { walk, directory, write } => Create::Resolving {
                walk: walk@,
                directory,
                write,
            },
            Create::Creating { parent, name } => Create::Creating { parent, name: name@ },
        }
    }
}

impl CreateStep<FsRequest, Vec<String>, String> {
    pub open spec fn view(&self) -> CreateStep<FsCall<Seq<char>>, Seq<Seq<char>>, Seq<char>> {
        match *self {
            Step::Call(call, state) => Step::Call(call@, state@),
            Step::Done(outcome) => Step::Done(handle_view(outcome)),
        }
    }
}

impl View for Rename<Vec<String>, String> {
    type V = Rename<Seq<Seq<char>>, Seq<char>>;

    open spec fn view(&self) -> Rename<Seq<Seq<char>>, Seq<char>> {
        match *self {
            Rename::Resolving { walk, parent, name } => Rename::Resolving {
                walk: walk@,
                parent,
                name: name@,
            },
            Rename::Renaming { parent, name } => Rename::Renaming { parent, name: name@ },
        }
    }
}

impl RenameStep<FsRequest, Vec<String>, String> {
    pub open spec fn view(&self) -> RenameStep<FsCall<Seq<char>>, Seq<Seq<char>>, Seq<char>> {
        match *self {
            Step::Call(call, state) => Step::Call(call@, state@),
            Step::Done(outcome) => Step::Done(renamed_view(outcome)),
        }
    }
}

/// Looking up the attributes of a path follows the walk to what the path leads to.
pub open spec fn security_along(
    step: ResolveStep<FsCall<Seq<char>>, Seq<Seq<char>>>,
) -> SecurityStep<FsCall<Seq<char>>, Seq<Seq<char>>> {
    match step {
        Step::Call(call, walk) => Step::Call(call, walk),
        Step::Done(Ok(attr)) => Step::Done(
            Ok(
                FileSecurity {
                    reparse: false,
                    sz_security_descriptor: 0,
                    attributes: attribute_bits(attr.kind),
                },
            ),
        ),
        Step::Done(Err(err)) => Step::Done(Err(reported(err))),
    }
}

/// Opening goes along the walk to what the path leads to. A directory is opened without asking
/// the file system, a file with a handle for reading and, where `write` says so, writing.
pub open spec fn open_along(
    step: ResolveStep<FsCall<Seq<char>>, Seq<Seq<char>>>,
    names: Seq<Seq<char>>,
    write: bool,
) -> OpenStep<FsCall<Seq<char>>, Seq<Seq<char>>, Seq<char>> {
    match step {
        Step::Call(call, walk) => Step::Call(call, Open::Resolving { walk, names, write }),
        Step::Done(Ok(attr)) => if attr.kind == FileType::Directory {
            locate_along(attr, file_info_of(attr), 0, resolve_parent_start(names))
        } else {
            Step::Call(
                FsCall::Open { ino: attr.ino, read: true, write },
                Open::Opening { attr, names },
            )
        },
        Step::Done(Err(err)) => Step::Done(Err(reported(err))),
    }
}

/// What was opened is located along the walk to its parent. Where that fails, the handle has
/// neither parent nor name.
pub open spec fn locate_along(
    attr: FileAttr,
    info: FileInfo,
    fh: u64,
    step: ResolveParentStep<FsCall<Seq<char>>, Seq<Seq<char>>, Seq<char>>,
) -> OpenStep<FsCall<Seq<char>>, Seq<Seq<char>>, Seq<char>> {
    match step {
        Step::Call(call, upward) => Step::Call(call, Open::Locating { attr, info, fh, upward }),
        Step::Done(location) => Step::Done(Ok((context_of(attr, fh, location), info))),
    }
}

/// How opening begins.
pub open spec fn open_start(
    read_only: bool,
    names: Seq<Seq<char>>,
    granted_access: u32,
) -> OpenStep<FsCall<Seq<char>>, Seq<Seq<char>>, Seq<char>> {
    open_along(
        resolve_start(names),
        names,
        !read_only && asks_to_write(granted_access),
    )
}

/// How opening goes on after an answer.
pub open spec fn open_step(
    state: Open<Seq<Seq<char>>, Seq<char>>,
    reply: FsReply,
) -> OpenStep<FsCall<Seq<char>>, Seq<Seq<char>>, Seq<char>> {
    match state {
        Open::Resolving { walk, names, write } => open_along(
            resolve_step(walk, reply),
            names,
            write,
        ),
        Open::Opening { attr, names } => match reply {
            FsReply::Handle(Ok(fh)) => locate_along(
                attr,
                file_info_of(attr),
                fh,
                resolve_parent_start(names),
            ),
            FsReply::Handle(Err(err)) => Step::Done(Err(reported(err))),
            _ => arbitrary(),
        },
        Open::Locating { attr, info, fh, upward } => locate_along(
            attr,
            info,
            fh,
            resolve_parent_step(upward, reply),
        ),
    }
}

/// A create request asks for a directory.
pub open spec fn asks_for_directory(create_options: u32, file_attributes: u32) -> bool {
    ||| create_options & FILE_DIRECTORY_FILE != 0
    ||| file_attributes & FILE_ATTRIBUTE_DIRECTORY != 0
}

/// The call that creates a file or directory. A directory is created without a handle.
pub open spec fn create_call(parent: u64, name: Seq<char>, directory: bool, write: bool) -> FsCall<
    Seq<char>,
> {
    FsCall::Create {
        parent,
        name,
        attr: CreateFileAttr {
            kind: if directory {
                FileType::Directory
            } else {
                FileType::RegularFile
            },
            perm: if directory {
                0o777
            } else {
                0o666
            },
            uid: 0,
            gid: 0,
            rdev: 0,
            flags: 0,
        },
        read: !directory,
        write: !directory && write,
    }
}

/// Creating goes along the walk to the parent.
pub open spec fn create_along(
    step: ResolveParentStep<FsCall<Seq<char>>, Seq<Seq<char>>, Seq<char>>,
    directory: bool,
    write: bool,
) -> CreateStep<FsCall<Seq<char>>, Seq<Seq<char>>, Seq<char>> {
    match step {
        Step::Call(call, walk) => Step::Call(call, Create::Resolving { walk, directory, write }),
        Step::Done(Ok((parent, name))) => Step::Call(
            create_call(parent, name, directory, write),
            Create::Creating { parent, name },
        ),
        Step::Done(Err(err)) => Step::Done(Err(reported(err))),
    }
}

/// How creating begins. A read-only volume refuses.
pub open spec fn create_start(
    read_only: bool,
    names: Seq<Seq<char>>,
    create_options: u32,
    granted_access: u32,
    file_attributes: u32,
) -> CreateStep<FsCall<Seq<char>>, Seq<Seq<char>>, Seq<char>> {
    if read_only {
        Step::Done(Err(FspError::WIN32(ERROR_ACCESS_DENIED)))
    } else {
        create_along(
            resolve_parent_start(names),
            asks_for_directory(create_options, file_attributes),
            asks_to_write(granted_access),
        )
    }
}

/// How creating goes on after an answer.
pub open spec fn create_step(
    state: Create<Seq<Seq<char>>, Seq<char>>,
    reply: FsReply,
) -> CreateStep<FsCall<Seq<char>>, Seq<Seq<char>>, Seq<char>> {
    match state {
        Create::Resolving { walk, directory, write } => create_along(
            resolve_parent_step(walk, reply),
            directory,
            write,
        ),
        Create::Creating { parent, name } => match reply {
            FsReply::Created(Ok((fh, attr))) => Step::Done(
                Ok((context_of(attr, fh, Ok((parent, name))), file_info_of(attr))),
            ),
            FsReply::Created(Err(err)) => Step::Done(Err(reported(err))),
            _ => arbitrary(),
        },
    }
}

/// Moving goes along the walk to the new parent.
pub open spec fn rename_along(
    step: ResolveParentStep<FsCall<Seq<char>>, Seq<Seq<char>>, Seq<char>>,
    parent: u64,
    name: Seq<char>,
) -> RenameStep<FsCall<Seq<char>>, Seq<Seq<char>>, Seq<char>> {
    match step {
        Step::Call(call, walk) => Step::Call(call, Rename::Resolving { walk, parent, name }),
        Step::Done(Ok((new_parent, new_name))) => Step::Call(
            FsCall::Rename { parent, name, new_parent, new_name },
            Rename::Renaming { parent: new_parent, name: new_name },
        ),
        Step::Done(Err(err)) => Step::Done(Err(reported(err))),
    }
}

/// How moving begins. A read-only volume refuses, and so does a handle without a name.
pub open spec fn rename_start(
    read_only: bool,
    state: HandleState<Seq<char>>,
    new_names: Seq<Seq<char>>,
) -> RenameStep<FsCall<Seq<char>>, Seq<Seq<char>>, Seq<char>> {
    if read_only {
        Step::Done(Err(FspError::WIN32(ERROR_ACCESS_DENIED)))
    } else {
        match state.target() {
            Some((parent, name)) => rename_along(resolve_parent_start(new_names), parent, name),
            None => Step::Done(Err(FspError::WIN32(ERROR_INVALID_PARAMETER))),
        }
    }
}

/// How moving goes on after an answer.
pub open spec fn rename_step(
    state: Rename<Seq<Seq<char>>, Seq<char>>,
    reply: FsReply,
) -> RenameStep<FsCall<Seq<char>>, Seq<Seq<char>>, Seq<char>> {
    match state {
        Rename::Resolving { walk, parent, name } => rename_along(
            resolve_parent_step(walk, reply),
            parent,
            name,
        ),
        Rename::Renaming { parent, name } => match reply {
            FsReply::Done(Ok(_)) => Step::Done(Ok((parent, name))),
            FsReply::Done(Err(err)) => Step::Done(Err(reported(err))),
            _ => arbitrary(),
        },
    }
}

impl<Names, Name> Open<Names, Name> {
    /// The kind of answer that opening waits for.
    pub open spec fn awaits(&self) -> ReplyKind {
        match *self {
            Open::Resolving { walk, .. } => walk.awaits(),
            Open::Opening { .. } => ReplyKind::Handle,
            Open::Locating { upward, .. } => upward.awaits(),
        }
    }
}

impl<Names, Name> Create<Names, Name> {
    /// The kind of answer that creating waits for.
    pub open spec fn awaits(&self) -> ReplyKind {
        match *self {
            Create::Resolving { walk, .. } => walk.awaits(),
            Create::Creating { .. } => ReplyKind::Created,
        }
    }
}

impl<Names, Name> Rename<Names, Name> {
    /// The kind of answer that moving waits for.
    pub open spec fn awaits(&self) -> ReplyKind {
        match *self {
            Rename::Resolving { walk, .. } => walk.awaits(),
            Rename::Renaming { .. } => ReplyKind::Done,
        }
    }
}

impl WinFsContext {
    /// Begins the walk to what a path leads to.
    pub fn resolve(&self, file_name: &[u16]) -> (step: ResolveStep<FsRequest, Vec<String>>)
        ensures
            step@ == resolve_start(components(decode_utf16_lossy(file_name@))),
            step matches Step::Call(call, state) && state.awaits() == call.reply_kind(),
    {
        Resolve::start(file_name)
    }

    /// Begins the walk to the parent of a path's last name.
    pub fn resolve_parent(&self, file_name: &[u16]) -> (step: ResolveParentStep<
        FsRequest,
        Vec<String>,
        String,
    >)
        ensures
            step@ == resolve_parent_start(components(decode_utf16_lossy(file_name@))),
            step matches Step::Call(call, state) ==> state.awaits() == call.reply_kind(),
    {
        ResolveParent::start(file_name)
    }

    /// Begins to look up the attributes of a path.
    pub fn get_security_by_name(&self, file_name: &[u16]) -> (step: SecurityStep<
        FsRequest,
        Vec<String>,
    >)
        ensures
            step@ == security_along(resolve_start(components(decode_utf16_lossy(file_name@)))),
            step matches Step::Call(call, state) ==> state.awaits() == call.reply_kind(),
    {
        security_of(self.resolve(file_name))
    }

    /// Begins to open a file or directory.
    pub fn open(&self, file_name: &[u16], granted_access: u32) -> (step: OpenStep<
        FsRequest,
        Vec<String>,
        String,
    >)
        ensures
            step@ == open_start(
                self.read_only,
                components(decode_utf16_lossy(file_name@)),
                granted_access,
            ),
            step matches Step::Call(call, state) ==> state.awaits() == call.reply_kind(),
    {
        let (_, write): (bool, bool) = access_modes(granted_access, self.read_only);
        match self.resolve(file_name) {
            Step::Call(call, walk) => Step::Call(
                call,
                Open::Resolving { walk, names: path_components(file_name), write },
            ),
            Step::Done(_) => vstd::pervasive::unreached(),
        }
    }

    /// Begins to create a file or directory.
    pub fn create(
        &self,
        file_name: &[u16],
        create_options: u32,
        granted_access: u32,
        file_attributes: u32,
    ) -> (step: CreateStep<FsRequest, Vec<String>, String>)
        ensures
            step@ == create_start(
                self.read_only,
                components(decode_utf16_lossy(file_name@)),
                create_options,
                granted_access,
                file_attributes,
            ),
            step matches Step::Call(call, state) ==> state.awaits() == call.reply_kind(),
    {
        if self.read_only {
            return Step::Done(Err(FspError::WIN32(ERROR_ACCESS_DENIED)));
        }
        let directory: bool = create_options & FILE_DIRECTORY_FILE != 0 || file_attributes
            & FILE_ATTRIBUTE_DIRECTORY != 0;
        let (_, write): (bool, bool) = access_modes(granted_access, false);
        Create::along(self.resolve_parent(file_name), directory, write)
    }

    /// Begins to move what a handle names to another path.
    pub fn rename(&self, context: &WinFileContext<String>, new_file_name: &[u16]) -> (step:
        RenameStep<FsRequest, Vec<String>, String>)
        ensures
            step@ == rename_start(
                self.read_only,
                context@.state,
                components(decode_utf16_lossy(new_file_name@)),
            ),
            step matches Step::Call(call, state) ==> state.awaits() == call.reply_kind(),
    {
        if self.read_only {
            return Step::Done(Err(FspError::WIN32(ERROR_ACCESS_DENIED)));
        }
        match context.state.target() {
            Some((parent, name)) => Rename::along(
                self.resolve_parent(new_file_name),
                parent,
                name,
            ),
            None => Step::Done(Err(FspError::WIN32(ERROR_INVALID_PARAMETER))),
        }
    }
}

/// Where looking up the attributes of a path stands, given where the walk stands.
pub fn security_of(step: ResolveStep<FsRequest, Vec<String>>) -> (security: SecurityStep<
    FsRequest,
    Vec<String>,
>)
    ensures
        security@ == security_along(step@),
        security matches Step::Call(call, state) ==> step matches Step::Call(c, s) && c == call
            && s == state,
{
    match step {
        Step::Call(call, walk) => Step::Call(call, walk),
        Step::Done(Ok(attr)) => Step::Done(
            Ok(
                FileSecurity {
                    reparse: false,
                    sz_security_descriptor: 0,
                    attributes: windows_attributes(&attr),
                },
            ),
        ),
        Step::Done(Err(err)) => Step::Done(Err(fs_error(err))),
    }
}

impl Open<Vec<String>, String> {
    fn located(
        attr: FileAttr,
        info: FileInfo,
        fh: u64,
        step: ResolveParentStep<FsRequest, Vec<String>, String>,
    ) -> (opened: OpenStep<FsRequest, Vec<String>, String>)
        requires
            step matches Step::Call(call, state) ==> state.awaits() == call.reply_kind(),
        ensures
            opened@ == locate_along(attr, info, fh, step@),
            opened matches Step::Call(call, state) ==> state.awaits() == call.reply_kind(),
    {
        match step {
            Step::Call(call, upward) => Step::Call(call, Open::Locating { attr, info, fh, upward }),
            Step::Done(location) => Step::Done(
                Ok((WinFsContext::make_context(attr, fh, location), info)),
            ),
        }
    }

    /// The attributes that Windows is told of when opening goes on after an answer.
    pub open spec fn told(&self, reply: FsReply) -> Option<FileAttr> {
        match (*self, reply) {
            (
                Open::Resolving { walk, .. },
                FsReply::Attr(Ok(attr)),
            ) => if walk.names@.len() == 0 && attr.kind == FileType::Directory {
                Some(attr)
            } else {
                None
            },
            (
                Open::Resolving { walk, .. },
                FsReply::Found(Ok(Some(attr))),
            ) => if walk.names@.len() == 0 && attr.kind == FileType::Directory {
                Some(attr)
            } else {
                None
            },
            (Open::Opening { attr, .. }, FsReply::Handle(Ok(_))) => Some(attr),
            _ => None,
        }
    }

    /// Whether the attributes that Windows is told of when opening goes on can be told.
    pub fn can_tell(&self, reply: &FsReply) -> (can: bool)
        ensures
            can == (self.told(*reply) matches Some(attr) ==> attr.wf()),
    {
        match (self, reply) {
            (Open::Resolving { walk, .. }, FsReply::Attr(Ok(attr))) => walk.names.len() > 0
                || attr.kind != FileType::Directory || attr.is_valid(),
            (Open::Resolving { walk, .. }, FsReply::Found(Ok(Some(attr)))) => walk.names.len() > 0
                || attr.kind != FileType::Directory || attr.is_valid(),
            (Open::Opening { attr, .. }, FsReply::Handle(Ok(_))) => attr.is_valid(),
            _ => true,
        }
    }

    /// Goes on with opening after an answer.
    pub fn step(self, reply: FsReply) -> (step: OpenStep<FsRequest, Vec<String>, String>)
        requires
            reply.kind() == self.awaits(),
            self.told(reply) matches Some(attr) ==> attr.wf(),
        ensures
            step@ == open_step(self@, reply),
            step matches Step::Call(call, state) ==> state.awaits() == call.reply_kind(),
    {
        match self {
            Open::Resolving { walk, names, write } => match walk.step(reply) {
                Step::Call(call, walk) => Step::Call(call, Open::Resolving { walk, names, write }),
                Step::Done(Ok(attr)) => {
                    if attr.kind == FileType::Directory {
                        Self::located(attr, describe(&attr), 0, ResolveParent::along(names))
                    } else {
                        Step::Call(
                            FsCall::Open { ino: attr.ino, read: true, write },
                            Open::Opening { attr, names },
                        )
                    }
                },
                Step::Done(Err(err)) => Step::Done(Err(fs_error(err))),
            },
            Open::Opening { attr, names } => match reply {
                FsReply::Handle(Ok(fh)) => Self::located(
                    attr,
                    describe(&attr),
                    fh,
                    ResolveParent::along(names),
                ),
                FsReply::Handle(Err(err)) => Step::Done(Err(fs_error(err))),
                _ => vstd::pervasive::unreached(),
            },
            Open::Locating { attr, info, fh, upward } => Self::located(
                attr,
                info,
                fh,
                upward.step(reply),
            ),
        }
    }
}

impl Create<Vec<String>, String> {
    fn along(
        step: ResolveParentStep<FsRequest, Vec<String>, String>,
        directory: bool,
        write: bool,
    ) -> (created: CreateStep<FsRequest, Vec<String>, String>)
        requires
            step matches Step::Call(call, state) ==> state.awaits() == call.reply_kind(),
        ensures
            created@ == create_along(step@, directory, write),
            created matches Step::Call(call, state) ==> state.awaits() == call.reply_kind(),
    {
        match step {
            Step::Call(call, walk) => Step::Call(
                call,
                Create::Resolving { walk, directory, write },
            ),
            Step::Done(Ok((parent, name))) => {
                let attr: CreateFileAttr = if directory {
                    dir_attr()
                } else {
                    file_attr()
                };
                let call: FsRequest = FsCall::Create {
                    parent,
                    name: name.clone(),
                    attr,
                    read: !directory,
                    write: !directory && write,
                };
                Step::Call(call, Create::Creating { parent, name })
            },
            Step::Done(Err(err)) => Step::Done(Err(fs_error(err))),
        }
    }

    /// The attributes that Windows is told of when creating goes on after an answer.
    pub open spec fn told(&self, reply: FsReply) -> Option<FileAttr> {
        match (*self, reply) {
            (Create::Creating { .. }, FsReply::Created(Ok((_, attr)))) => Some(attr),
            _ => None,
        }
    }

    /// Whether the attributes that Windows is told of when creating goes on can be told.
    pub fn can_tell(&self, reply: &FsReply) -> (can: bool)
        ensures
            can == (self.told(*reply) matches Some(attr) ==> attr.wf()),
    {
        match (self, reply) {
            (Create::Creating { .. }, FsReply::Created(Ok((_, attr)))) => attr.is_valid(),
            _ => true,
        }
    }

    /// Goes on with creating after an answer.
    pub fn step(self, reply: FsReply) -> (step: CreateStep<FsRequest, Vec<String>, String>)
        requires
            reply.kind() == self.awaits(),
            self.told(reply) matches Some(attr) ==> attr.wf(),
        ensures
            step@ == create_step(self@, reply),
            step matches Step::Call(call, state) ==> state.awaits() == call.reply_kind(),
    {
        match self {
            Create::Resolving { walk, directory, write } => Self::along(
                walk.step(reply),
                directory,
                write,
            ),
            Create::Creating { parent, name } => match reply {
                FsReply::Created(Ok((fh, attr))) => Step::Done(
                    Ok(
                        (
                            WinFsContext::make_context(attr, fh, Ok((parent, name))),
                            describe(&attr),
                        ),
                    ),
                ),
                FsReply::Created(Err(err)) => Step::Done(Err(fs_error(err))),
                _ => vstd::pervasive::unreached(),
            },
        }
    }
}

impl Rename<Vec<String>, String> {
    fn along(
        step: ResolveParentStep<FsRequest, Vec<String>, String>,
        parent: u64,
        name: String,
    ) -> (renamed: RenameStep<FsRequest, Vec<String>, String>)
        requires
            step matches Step::Call(call, state) ==> state.awaits() == call.reply_kind(),
        ensures
            renamed@ == rename_along(step@, parent, name@),
            renamed matches Step::Call(call, state) ==> state.awaits() == call.reply_kind(),
    {
        match step {
            Step::Call(call, walk) => Step::Call(call, Rename::Resolving { walk, parent, name }),
            Step::Done(Ok((new_parent, new_name))) => Step::Call(
                FsCall::Rename { parent, name, new_parent, new_name: new_name.clone() },
                Rename::Renaming { parent: new_parent, name: new_name },
            ),
            Step::Done(Err(err)) => Step::Done(Err(fs_error(err))),
        }
    }

    /// Goes on with moving after an answer.
    pub fn step(self, reply: FsReply) -> (step: RenameStep<FsRequest, Vec<String>, String>)
        requires
            reply.kind() == self.awaits(),
        ensures
            step@ == rename_step(self@, reply),
            step matches Step::Call(call, state) ==> state.awaits() == call.reply_kind(),
    {
        match self {
            Rename::Resolving { walk, parent, name } => Self::along(
                walk.step(reply),
                parent,
                name,
            ),
            Rename::Renaming { parent, name } => match reply {
                FsReply::Done(Ok(_)) => Step::Done(Ok((parent, name))),
                FsReply::Done(Err(err)) => Step::Done(Err(fs_error(err))),
                _ => vstd::pervasive::unreached(),
            },
        }
    }
}

/// What is said of an outcome of opening or creating is said of its handle and record.
pub proof fn outcome_is_seen_as_it_is(
    context: WinFileContext<String>,
    info: FileInfo,
    err: FspError,
)
    ensures
        handle_view(Ok((context, info))) == Ok::<(WinFileContext<Seq<char>>, FileInfo), FspError>(
            (context@, info),
        ),
        handle_view(Err(err)) == Err::<(WinFileContext<Seq<char>>, FileInfo), FspError>(err),
{
}

/// Looking up the attributes of a path asks what the walk asks, and tells 0x10 of a directory and
/// 0x20 of a file, neither with a reparse point nor with a security descriptor. A failure of the
/// walk is reported.
pub proof fn security_tells_kind(
    call: FsCall<Seq<char>>,
    walk: Resolve<Seq<Seq<char>>>,
    attr: FileAttr,
    err: FsError,
)
    ensures
        security_along(Step::Call(call, walk)) matches Step::Call(c, w) && c == call && w == walk,
        security_along(Step::Done(Ok(attr))) matches Step::Done(Ok(security)) && !security.reparse
            && security.sz_security_descriptor == 0 && security.attributes == (
        if attr.kind is Directory {
            0x10u32
        } else {
            0x20u32
        }),
        security_along(Step::Done(Err(err))) matches Step::Done(Err(e)) && e == reported(err),
{
}

/// Opening begins at inode 1 with all names of the path, and is for writing exactly if the volume
/// is not read-only and one of the rights 2, 4 and 0x40000000 is asked for.
pub proof fn open_begins_at_root(read_only: bool, path: Seq<Seq<char>>, granted_access: u32)
    ensures
        open_start(read_only, path, granted_access) matches Step::Call(
            FsCall::GetAttr { ino },
            Open::Resolving { walk, names, write },
        ) && ino == 1 && walk.names == path && !walk.rooted && names == path && write == (
        !read_only && granted_access & 0x4000_0006 != 0),
{
    rights_that_write(granted_access);
}

/// Opening looks up one name after the other, each in what was found before it. What was found for
/// the last one is opened by its own inode, for reading and, if that was asked for, for writing,
/// if it is a file.
pub proof fn open_opens_what_was_found(
    walk: Resolve<Seq<Seq<char>>>,
    path: Seq<Seq<char>>,
    for_writing: bool,
    found: FileAttr,
    reply: FsReply,
)
    requires
        reply == FsReply::Attr(Ok(found)) || reply == FsReply::Found(Ok(Some(found))),
    ensures
        walk.names.len() > 0 ==> (open_step(
            Open::Resolving { walk, names: path, write: for_writing },
            reply,
        ) matches Step::Call(
            FsCall::FindByName { parent, name },
            Open::Resolving { walk: next, names, write },
        ) && parent == found.ino && name == walk.names[0] && next.names == walk.names.skip(1)
            && next.rooted && names == path && write == for_writing),
        walk.names.len() == 0 && found.kind is RegularFile ==> (open_step(
            Open::Resolving { walk, names: path, write: for_writing },
            reply,
        ) matches Step::Call(FsCall::Open { ino, read, write }, Open::Opening { attr, names })
            && ino == found.ino && read && write == for_writing && attr == found && names == path),
{
}

/// What was opened, a directory without a handle of the file system or a file with the one that it
/// gave, is then looked for from inode 1 on: the root has neither directory nor name, what lies in
/// the root is there under its name, and for the rest the names before the last are looked up.
pub proof fn opened_is_located(
    walk: Resolve<Seq<Seq<char>>>,
    path: Seq<Seq<char>>,
    for_writing: bool,
    opened: FileAttr,
    handle: u64,
    step: OpenStep<FsCall<Seq<char>>, Seq<Seq<char>>, Seq<char>>,
)
    requires
        ({
            ||| step == open_step(
                Open::Opening { attr: opened, names: path },
                FsReply::Handle(Ok(handle)),
            )
            ||| walk.names.len() == 0 && opened.kind is Directory && handle == 0 && step
                == open_step(
                Open::Resolving { walk, names: path, write: for_writing },
                FsReply::Attr(Ok(opened)),
            )
            ||| walk.names.len() == 0 && opened.kind is Directory && handle == 0 && step
                == open_step(
                Open::Resolving { walk, names: path, write: for_writing },
                FsReply::Found(Ok(Some(opened))),
            )
        }),
    ensures
        path.len() <= 1 ==> (step matches Step::Done(Ok((context, info))) && {
            &&& context.ino == opened.ino
            &&& context.fh == handle
            &&& context.kind == opened.kind
            &&& !context.state.delete_on_close
            &&& info == file_info_of(opened)
            &&& path.len() == 0 ==> context.state.parent is None && context.state.name is None
            &&& path.len() == 1 ==> context.state.parent == Some(1u64) && context.state.name
                == Some(path[0])
        }),
        path.len() > 1 ==> (step matches Step::Call(
            FsCall::FindByName { parent, name },
            Open::Locating { attr, info, fh, upward },
        ) && {
            &&& parent == 1
            &&& name == path[0]
            &&& attr == opened
            &&& info == file_info_of(opened)
            &&& fh == handle
            &&& upward.names == path.subrange(1, path.len() - 1)
            &&& upward.name == path.last()
        }),
{
    if path.len() > 1 {
        assert(path.drop_last().skip(1) =~= path.subrange(1, path.len() - 1));
    }
}

/// While what was opened is looked for, each name is looked up in the directory before it. The last
/// directory and the last name become those of the handle. Where one of the names fails, is not
/// there or is a file, the handle has neither; opening succeeds all the same, and nothing else of
/// the handle depends on it.
pub proof fn locating_finds_directory_and_name(
    opened: FileAttr,
    told: FileInfo,
    handle: u64,
    looking: ResolveParent<Seq<Seq<char>>, Seq<char>>,
    reply: FsReply,
)
    requires
        reply.kind() == looking.awaits(),
    ensures
        reply matches FsReply::Found(Ok(Some(found))) ==> found.kind is Directory
            ==> looking.names.len() > 0 ==> (open_step(
            Open::Locating { attr: opened, info: told, fh: handle, upward: looking },
            reply,
        ) matches Step::Call(
            FsCall::FindByName { parent, name },
            Open::Locating { attr, info, fh, upward },
        ) && parent == found.ino && name == looking.names[0] && attr == opened && info == told && fh
            == handle && upward.names == looking.names.skip(1) && upward.name == looking.name),
        open_step(
            Open::Locating { attr: opened, info: told, fh: handle, upward: looking },
            reply,
        ) matches Step::Done(outcome) ==> (outcome matches Ok((context, info)) && {
            &&& context.ino == opened.ino
            &&& context.fh == handle
            &&& context.kind == opened.kind
            &&& !context.state.delete_on_close
            &&& info == told
            &&& match reply {
                FsReply::Found(Ok(Some(found))) => if found.kind is Directory {
                    context.state.parent == Some(found.ino) && context.state.name == Some(
                        looking.name,
                    ) && looking.names.len() == 0
                } else {
                    context.state.parent is None && context.state.name is None
                },
                _ => context.state.parent is None && context.state.name is None,
            }
        }),
        (reply matches FsReply::Found(Ok(Some(found))) && found.kind is Directory
            && looking.names.len() > 0) || (open_step(
            Open::Locating { attr: opened, info: told, fh: handle, upward: looking },
            reply,
        ) is Done),
{
}

/// Opening fails as the file system does: a failure of looking up or of opening is reported, and a
/// name that is not there is not found.
pub proof fn open_reports_failures(
    walk: Resolve<Seq<Seq<char>>>,
    path: Seq<Seq<char>>,
    write: bool,
    attr: FileAttr,
    err: FsError,
)
    ensures
        open_step(
            Open::Resolving { walk, names: path, write },
            FsReply::Attr(Err(err)),
        ) matches Step::Done(Err(e)) && e == reported(err),
        open_step(
            Open::Resolving { walk, names: path, write },
            FsReply::Found(Err(err)),
        ) matches Step::Done(Err(e)) && e == reported(err),
        open_step(
            Open::Resolving { walk, names: path, write },
            FsReply::Found(Ok(None)),
        ) matches Step::Done(Err(FspError::WIN32(code))) && code == 2,
        open_step(
            Open::Opening { attr, names: path },
            FsReply::Handle(Err(err)),
        ) matches Step::Done(Err(e)) && e == reported(err),
{
}

/// Creating begins at inode 1: what is to lie in the root is created there under its name, and for
/// the rest the names before the last are looked up. The root itself cannot be created, and a
/// read-only volume refuses before anything is asked.
pub proof fn create_begins_at_root(
    path: Seq<Seq<char>>,
    create_options: u32,
    granted_access: u32,
    file_attributes: u32,
)
    ensures
        create_start(
            true,
            path,
            create_options,
            granted_access,
            file_attributes,
        ) matches Step::Done(Err(FspError::WIN32(code))) && code == 5,
        path.len() == 0 ==> (create_start(
            false,
            path,
            create_options,
            granted_access,
            file_attributes,
        ) matches Step::Done(Err(FspError::WIN32(code))) && code == 87),
        path.len() == 1 ==> create_start(
            false,
            path,
            create_options,
            granted_access,
            file_attributes,
        ) == create_along(
            Step::Done(Ok((1, path[0]))),
            create_options & 1 != 0 || file_attributes & 0x10 != 0,
            granted_access & 0x4000_0006 != 0,
        ),
        path.len() > 1 ==> (create_start(
            false,
            path,
            create_options,
            granted_access,
            file_attributes,
        ) matches Step::Call(
            FsCall::FindByName { parent, name },
            Create::Resolving { walk, directory, write },
        ) && {
            &&& parent == 1
            &&& name == path[0]
            &&& walk.names == path.subrange(1, path.len() - 1)
            &&& walk.name == path.last()
            &&& directory == (create_options & 1 != 0 || file_attributes & 0x10 != 0)
            &&& write == (granted_access & 0x4000_0006 != 0)
        }),
{
    rights_that_write(granted_access);
    if path.len() > 1 {
        assert(path.drop_last().skip(1) =~= path.subrange(1, path.len() - 1));
    }
}

/// What is created is created in the directory and under the name that the walk to the parent came
/// to, a directory as well as a file: a directory with the permissions 0o777 and without a handle,
/// a file with the permissions 0o666 and a handle for reading and, if that was asked for, writing.
pub proof fn create_creates_where_walk_came_to(
    directory: u64,
    last: Seq<char>,
    as_directory: bool,
    for_writing: bool,
)
    ensures
        create_along(
            Step::Done(Ok((directory, last))),
            as_directory,
            for_writing,
        ) matches Step::Call(
            FsCall::Create { parent, name, attr, read, write },
            Create::Creating { parent: p, name: n },
        ) && {
            &&& parent == directory
            &&& name == last
            &&& p == directory
            &&& n == last
            &&& attr.kind is Directory <==> as_directory
            &&& attr.perm == (if as_directory {
                0o777u16
            } else {
                0o666u16
            })
            &&& attr.uid == 0 && attr.gid == 0 && attr.rdev == 0 && attr.flags == 0
            &&& read == !as_directory
            &&& write == (!as_directory && for_writing)
        },
{
}

/// Creating looks up one directory after the other, each in the one before it, and creates in the
/// last one. It fails with the first that fails, is not there or is a file.
pub proof fn create_walks_to_parent(
    looking: ResolveParent<Seq<Seq<char>>, Seq<char>>,
    as_directory: bool,
    for_writing: bool,
    found: FileAttr,
    err: FsError,
)
    ensures
        found.kind is Directory && looking.names.len() > 0 ==> (create_step(
            Create::Resolving { walk: looking, directory: as_directory, write: for_writing },
            FsReply::Found(Ok(Some(found))),
        ) matches Step::Call(
            FsCall::FindByName { parent, name },
            Create::Resolving { walk, directory, write },
        ) && parent == found.ino && name == looking.names[0] && walk.names == looking.names.skip(1)
            && walk.name == looking.name && directory == as_directory && write == for_writing),
        found.kind is Directory && looking.names.len() == 0 ==> create_step(
            Create::Resolving { walk: looking, directory: as_directory, write: for_writing },
            FsReply::Found(Ok(Some(found))),
        ) == create_along(Step::Done(Ok((found.ino, looking.name))), as_directory, for_writing),
        found.kind is RegularFile ==> (create_step(
            Create::Resolving { walk: looking, directory: as_directory, write: for_writing },
            FsReply::Found(Ok(Some(found))),
        ) matches Step::Done(Err(FspError::WIN32(code))) && code == 267),
        create_step(
            Create::Resolving { walk: looking, directory: as_directory, write: for_writing },
            FsReply::Found(Ok(None)),
        ) matches Step::Done(Err(FspError::WIN32(code))) && code == 2,
        create_step(
            Create::Resolving { walk: looking, directory: as_directory, write: for_writing },
            FsReply::Found(Err(err)),
        ) matches Step::Done(Err(e)) && e == reported(err),
{
}

/// The handle of what was created has the inode and kind that the file system gave it, the handle
/// that came with it, and the directory and name in which it was created.
pub proof fn created_handle_is_of_what_was_created(
    parent: u64,
    name: Seq<char>,
    fh: u64,
    attr: FileAttr,
    err: FsError,
)
    ensures
        create_step(
            Create::Creating { parent, name },
            FsReply::Created(Ok((fh, attr))),
        ) matches Step::Done(Ok((context, info))) && {
            &&& context.ino == attr.ino
            &&& context.fh == fh
            &&& context.kind == attr.kind
            &&& context.state.parent == Some(parent)
            &&& context.state.name == Some(name)
            &&& !context.state.delete_on_close
            &&& info == file_info_of(attr)
        },
        create_step(
            Create::Creating { parent, name },
            FsReply::Created(Err(err)),
        ) matches Step::Done(Err(e)) && e == reported(err),
{
}

/// Moving begins at inode 1: what is to lie in the root is moved there under its new name, and for
/// the rest the names before the last are looked up. What has no directory and name, the root
/// among it, cannot be moved, nothing can be moved to the root itself, and a read-only volume
/// refuses before anything is asked.
pub proof fn rename_begins_at_root(
    read_only: bool,
    state: HandleState<Seq<char>>,
    old_parent: u64,
    old_name: Seq<char>,
    path: Seq<Seq<char>>,
)
    requires
        state.parent == Some(old_parent),
        state.name == Some(old_name),
    ensures
        rename_start(true, state, path) matches Step::Done(Err(FspError::WIN32(code))) && code == 5,
        rename_start(false, HandleState { parent: None, ..state }, path) matches Step::Done(
            Err(FspError::WIN32(code)),
        ) && code == 87,
        rename_start(false, HandleState { name: None, ..state }, path) matches Step::Done(
            Err(FspError::WIN32(code)),
        ) && code == 87,
        path.len() == 0 ==> (rename_start(false, state, path) matches Step::Done(
            Err(FspError::WIN32(code)),
        ) && code == 87),
        path.len() == 1 ==> (rename_start(false, state, path) matches Step::Call(
            FsCall::Rename { parent, name, new_parent, new_name },
            Rename::Renaming { parent: p, name: n },
        ) && {
            &&& parent == old_parent
            &&& name == old_name
            &&& new_parent == 1
            &&& new_name == path[0]
            &&& p == 1
            &&& n == path[0]
        }),
        path.len() > 1 ==> (rename_start(false, state, path) matches Step::Call(
            FsCall::FindByName { parent, name },
            Rename::Resolving { walk, parent: p, name: n },
        ) && {
            &&& parent == 1
            &&& name == path[0]
            &&& walk.names == path.subrange(1, path.len() - 1)
            &&& walk.name == path.last()
            &&& p == old_parent
            &&& n == old_name
        }),
{
    if path.len() > 1 {
        assert(path.drop_last().skip(1) =~= path.subrange(1, path.len() - 1));
    }
}

/// Moving looks up one directory after the other, each in the one before it, and moves into the
/// last one, from the old directory and name to the new ones. It fails with the first directory
/// that fails, is not there or is a file.
pub proof fn rename_walks_to_new_parent(
    looking: ResolveParent<Seq<Seq<char>>, Seq<char>>,
    old_parent: u64,
    old_name: Seq<char>,
    found: FileAttr,
    err: FsError,
)
    ensures
        found.kind is Directory && looking.names.len() > 0 ==> (rename_step(
            Rename::Resolving { walk: looking, parent: old_parent, name: old_name },
            FsReply::Found(Ok(Some(found))),
        ) matches Step::Call(
            FsCall::FindByName { parent, name },
            Rename::Resolving { walk, parent: p, name: n },
        ) && parent == found.ino && name == looking.names[0] && walk.names == looking.names.skip(1)
            && walk.name == looking.name && p == old_parent && n == old_name),
        found.kind is Directory && looking.names.len() == 0 ==> (rename_step(
            Rename::Resolving { walk: looking, parent: old_parent, name: old_name },
            FsReply::Found(Ok(Some(found))),
        ) matches Step::Call(
            FsCall::Rename { parent, name, new_parent, new_name },
            Rename::Renaming { parent: p, name: n },
        ) && {
            &&& parent == old_parent
            &&& name == old_name
            &&& new_parent == found.ino
            &&& new_name == looking.name
            &&& p == found.ino
            &&& n == looking.name
        }),
        found.kind is RegularFile ==> (rename_step(
            Rename::Resolving { walk: looking, parent: old_parent, name: old_name },
            FsReply::Found(Ok(Some(found))),
        ) matches Step::Done(Err(FspError::WIN32(code))) && code == 267),
        rename_step(
            Rename::Resolving { walk: looking, parent: old_parent, name: old_name },
            FsReply::Found(Ok(None)),
        ) matches Step::Done(Err(FspError::WIN32(code))) && code == 2,
        rename_step(
            Rename::Resolving { walk: looking, parent: old_parent, name: old_name },
            FsReply::Found(Err(err)),
        ) matches Step::Done(Err(e)) && e == reported(err),
{
}

/// A move that the file system made ends in the directory and under the name that it was asked
/// for, and one that it refused is reported.
pub proof fn rename_ends_where_it_was_asked_for(parent: u64, name: Seq<char>, err: FsError)
    ensures
        rename_step(Rename::Renaming { parent, name }, FsReply::Done(Ok(()))) matches Step::Done(
            Ok((p, n)),
        ) && p == parent && n == name,
        rename_step(Rename::Renaming { parent, name }, FsReply::Done(Err(err))) matches Step::Done(
            Err(e),
        ) && e == reported(err),
{
}

/// What is said of a step of looking up attributes is said of its own call and outcome.
pub proof fn security_step_is_seen_as_it_is(step: SecurityStep<FsRequest, Vec<String>>)
    ensures
        match step {
            Step::Call(call, state) => step@ matches Step::Call(c, s) && c == call@ && s == state@,
            Step::Done(outcome) => step@ matches Step::Done(o) && o == outcome,
        },
{
}

/// What is said of a step of opening is said of its own call and outcome.
pub proof fn open_step_is_seen_as_it_is(step: OpenStep<FsRequest, Vec<String>, String>)
    ensures
        match step {
            Step::Call(call, state) => step@ matches Step::Call(c, s) && c == call@ && s == state@,
            Step::Done(outcome) => step@ matches Step::Done(o) && o == handle_view(outcome),
        },
{
}

/// What is said of a step of creating is said of its own call and outcome.
pub proof fn create_step_is_seen_as_it_is(step: CreateStep<FsRequest, Vec<String>, String>)
    ensures
        match step {
            Step::Call(call, state) => step@ matches Step::Call(c, s) && c == call@ && s == state@,
            Step::Done(outcome) => step@ matches Step::Done(o) && o == handle_view(outcome),
        },
{
}

/// What is said of a step of moving is said of its own call and outcome.
pub proof fn rename_step_is_seen_as_it_is(step: RenameStep<FsRequest, Vec<String>, String>)
    ensures
        match step {
            Step::Call(call, state) => step@ matches Step::Call(c, s) && c == call@ && s == state@,
            Step::Done(outcome) => step@ matches Step::Done(o) && o == renamed_view(outcome),
        },
{
}

/// Windows is told of the attributes of what was opened or created, once that happened, and of no
/// others.
pub proof fn only_what_was_opened_is_told(
    opening: Open<Vec<String>, String>,
    creating: Create<Vec<String>, String>,
    reply: FsReply,
)
    ensures
        opening.told(reply) matches Some(attr) ==> match opening {
            Open::Resolving { walk, .. } => walk.names@.len() == 0 && attr.kind is Directory && (
            reply == FsReply::Attr(Ok(attr)) || reply == FsReply::Found(Ok(Some(attr)))),
            Open::Opening { attr: a, .. } => a == attr && (reply matches FsReply::Handle(Ok(_))),
            Open::Locating { .. } => false,
        },
        creating.told(reply) matches Some(attr) ==> creating is Creating && (
        reply matches FsReply::Created(Ok((_, a))) && a == attr),
{
}

} // verus!

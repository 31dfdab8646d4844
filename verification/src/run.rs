//! Whole operations on a file system that stays as it is while they look around in it.

use vstd::prelude::*;

use crate::attr::{
    asks_to_write, attribute_bits, file_info_of, rights_that_write, CreateFileAttr, FileAttr,
    FileInfo, FileType,
};
use crate::context::{after_rename, context_of, relocated, WinFileContext};
use crate::error::{reported, FsError, FsResult, FspError};
use crate::open::{
    asks_for_directory, create_along, create_call, create_start, create_step, locate_along,
    open_along, open_start, open_step, rename_along, rename_start, rename_step, security_along,
    Create, CreateStep, FileSecurity, Open, OpenStep, Rename, RenameStep, SecurityStep,
};
use crate::request::{FsCall, FsReply, Step, ROOT_INODE};
use crate::walk::{
    parent_walk_follows_trail, path_leads_through_parent, resolve_follows_path,
    resolve_parent_follows_directories, resolve_parent_start, resolve_parent_step, resolve_start,
    resolve_step, run_resolve, run_resolve_parent, walk_follows_trail, ResolveParentStep,
    ResolveStep, Tree,
};

verus! {

/// A file system by its answers.
pub struct Volume {
    pub answer: spec_fn(FsCall<Seq<char>>) -> FsReply<'static>,
}

impl Volume {
    /// Every call gets an answer of its kind.
    pub open spec fn wf(self) -> bool {
        forall|call: FsCall<Seq<char>>| (#[trigger] (self.answer)(call)).kind() == call.reply_kind()
    }

    /// What walks see of the file system.
    pub open spec fn tree(self) -> Tree {
        Tree {
            root: match (self.answer)(FsCall::GetAttr { ino: ROOT_INODE }) {
                FsReply::Attr(root) => root,
                _ => arbitrary(),
            },
            find: |parent: u64, name: Seq<char>|
                match (self.answer)(FsCall::FindByName { parent, name }) {
                    FsReply::Found(found) => found,
                    _ => arbitrary(),
                },
        }
    }
}

/// A call that a walk makes.
pub open spec fn is_walk_call(call: FsCall<Seq<char>>) -> bool {
    call is FindByName || call == (FsCall::<Seq<char>>::GetAttr { ino: ROOT_INODE })
}

proof fn tree_answers_walks(volume: Volume, call: FsCall<Seq<char>>)
    requires
        volume.wf(),
        is_walk_call(call),
    ensures
        volume.tree().answer(call) == (volume.answer)(call),
{
    assert((volume.answer)(call).kind() == call.reply_kind());
}

/// The outcome of looking up the attributes of a path.
pub open spec fn run_security(
    volume: Volume,
    step: SecurityStep<FsCall<Seq<char>>, Seq<Seq<char>>>,
) -> Result<FileSecurity, FspError>
    decreases (match step {
        Step::Call(_, walk) => walk.names.len() + 1,
        Step::Done(_) => 0,
    }),
    when volume.wf() && (step matches Step::Call(call, walk) ==> walk.awaits() == call.reply_kind())
{
    match step {
        Step::Call(call, walk) => run_security(
            volume,
            security_along(resolve_step(walk, (volume.answer)(call))),
        ),
        Step::Done(outcome) => outcome,
    }
}

/// The outcome of opening.
pub open spec fn run_open(
    volume: Volume,
    step: OpenStep<FsCall<Seq<char>>, Seq<Seq<char>>, Seq<char>>,
) -> Result<(WinFileContext<Seq<char>>, FileInfo), FspError>
    decreases (match step {
        Step::Call(_, Open::Resolving { walk, names, .. }) => walk.names.len() + names.len() + 2,
        Step::Call(_, Open::Opening { names, .. }) => names.len() + 1,
        Step::Call(_, Open::Locating { upward, .. }) => upward.names.len() + 1,
        Step::Done(_) => 0,
    }),
    when volume.wf() && (step matches Step::Call(call, state) ==> state.awaits()
        == call.reply_kind())
{
    match step {
        Step::Call(call, state) => run_open(volume, open_step(state, (volume.answer)(call))),
        Step::Done(outcome) => outcome,
    }
}

/// The outcome of creating.
pub open spec fn run_create(
    volume: Volume,
    step: CreateStep<FsCall<Seq<char>>, Seq<Seq<char>>, Seq<char>>,
) -> Result<(WinFileContext<Seq<char>>, FileInfo), FspError>
    decreases (match step {
        Step::Call(_, Create::Resolving { walk, .. }) => walk.names.len() + 2,
        Step::Call(_, Create::Creating { .. }) => 1,
        Step::Done(_) => 0,
    }),
    when volume.wf() && (step matches Step::Call(call, state) ==> state.awaits()
        == call.reply_kind())
{
    match step {
        Step::Call(call, state) => run_create(volume, create_step(state, (volume.answer)(call))),
        Step::Done(outcome) => outcome,
    }
}

/// The outcome of moving.
pub open spec fn run_rename(
    volume: Volume,
    step: RenameStep<FsCall<Seq<char>>, Seq<Seq<char>>, Seq<char>>,
) -> Result<(u64, Seq<char>), FspError>
    decreases (match step {
        Step::Call(_, Rename::Resolving { walk, .. }) => walk.names.len() + 2,
        Step::Call(_, Rename::Renaming { .. }) => 1,
        Step::Done(_) => 0,
    }),
    when volume.wf() && (step matches Step::Call(call, state) ==> state.awaits()
        == call.reply_kind())
{
    match step {
        Step::Call(call, state) => run_rename(volume, rename_step(state, (volume.answer)(call))),
        Step::Done(outcome) => outcome,
    }
}

/// What is told of the attributes of a path, given what the path leads to.
pub open spec fn security_of_found(found: FsResult<FileAttr>) -> Result<FileSecurity, FspError> {
    match found {
        Ok(attr) => Ok(
            FileSecurity {
                reparse: false,
                sz_security_descriptor: 0,
                attributes: attribute_bits(attr.kind),
            },
        ),
        Err(err) => Err(reported(err)),
    }
}

/// The handle and the record of what was opened.
pub open spec fn located(tree: Tree, attr: FileAttr, fh: u64, names: Seq<Seq<char>>) -> (
    WinFileContext<Seq<char>>,
    FileInfo,
) {
    (context_of(attr, fh, tree.lookup_parent(names)), file_info_of(attr))
}

/// The outcome of opening, given what the path leads to.
pub open spec fn opened_found(
    volume: Volume,
    names: Seq<Seq<char>>,
    write: bool,
    found: FsResult<FileAttr>,
) -> Result<(WinFileContext<Seq<char>>, FileInfo), FspError> {
    match found {
        Ok(attr) => if attr.kind == FileType::Directory {
            Ok(located(volume.tree(), attr, 0, names))
        } else {
            match (volume.answer)(FsCall::Open { ino: attr.ino, read: true, write }) {
                FsReply::Handle(Ok(fh)) => Ok(located(volume.tree(), attr, fh, names)),
                FsReply::Handle(Err(err)) => Err(reported(err)),
                _ => arbitrary(),
            }
        },
        Err(err) => Err(reported(err)),
    }
}

/// The outcome of creating, given where.
pub open spec fn created_at(
    volume: Volume,
    directory: bool,
    write: bool,
    location: FsResult<(u64, Seq<char>)>,
) -> Result<(WinFileContext<Seq<char>>, FileInfo), FspError> {
    match location {
        Ok((parent, name)) => match (volume.answer)(create_call(parent, name, directory, write)) {
            FsReply::Created(Ok((fh, attr))) => Ok(
                (context_of(attr, fh, Ok((parent, name))), file_info_of(attr)),
            ),
            FsReply::Created(Err(err)) => Err(reported(err)),
            _ => arbitrary(),
        },
        Err(err) => Err(reported(err)),
    }
}

/// The outcome of moving, given where to.
pub open spec fn renamed_to(
    volume: Volume,
    parent: u64,
    name: Seq<char>,
    location: FsResult<(u64, Seq<char>)>,
) -> Result<(u64, Seq<char>), FspError> {
    match location {
        Ok((new_parent, new_name)) => match (volume.answer)(
            FsCall::Rename { parent, name, new_parent, new_name },
        ) {
            FsReply::Done(Ok(_)) => Ok((new_parent, new_name)),
            FsReply::Done(Err(err)) => Err(reported(err)),
            _ => arbitrary(),
        },
        Err(err) => Err(reported(err)),
    }
}

proof fn security_along_walk(
    volume: Volume,
    step: ResolveStep<FsCall<Seq<char>>, Seq<Seq<char>>>,
)
    requires
        volume.wf(),
        step matches Step::Call(call, walk) ==> walk.awaits() == call.reply_kind() && is_walk_call(
            call,
        ),
    ensures
        run_security(volume, security_along(step)) == security_of_found(
            run_resolve(volume.tree(), step),
        ),
    decreases (match step {
        Step::Call(_, walk) => walk.names.len() + 1,
        Step::Done(_) => 0,
    }),
{
    if let Step::Call(call, walk) = step {
        tree_answers_walks(volume, call);
        assert((volume.answer)(call).kind() == call.reply_kind());
        security_along_walk(volume, resolve_step(walk, (volume.answer)(call)));
    }
}

proof fn locate_along_walk(
    volume: Volume,
    attr: FileAttr,
    info: FileInfo,
    fh: u64,
    step: ResolveParentStep<FsCall<Seq<char>>, Seq<Seq<char>>, Seq<char>>,
)
    requires
        volume.wf(),
        step matches Step::Call(call, _) ==> call is FindByName,
    ensures
        run_open(volume, locate_along(attr, info, fh, step)) == (
        Ok::<(WinFileContext<Seq<char>>, FileInfo), FspError>(
            (context_of(attr, fh, run_resolve_parent(volume.tree(), step)), info),
        )),
    decreases (match step {
        Step::Call(_, walk) => walk.names.len() + 1,
        Step::Done(_) => 0,
    }),
{
    if let Step::Call(call, walk) = step {
        tree_answers_walks(volume, call);
        assert((volume.answer)(call).kind() == call.reply_kind());
        locate_along_walk(
            volume,
            attr,
            info,
            fh,
            resolve_parent_step(walk, (volume.answer)(call)),
        );
    }
}

proof fn open_along_walk(
    volume: Volume,
    step: ResolveStep<FsCall<Seq<char>>, Seq<Seq<char>>>,
    names: Seq<Seq<char>>,
    write: bool,
)
    requires
        volume.wf(),
        step matches Step::Call(call, walk) ==> walk.awaits() == call.reply_kind() && is_walk_call(
            call,
        ),
    ensures
        run_open(volume, open_along(step, names, write)) == opened_found(
            volume,
            names,
            write,
            run_resolve(volume.tree(), step),
        ),
    decreases (match step {
        Step::Call(_, walk) => walk.names.len() + 1,
        Step::Done(_) => 0,
    }),
{
    match step {
        Step::Call(call, walk) => {
            tree_answers_walks(volume, call);
            assert((volume.answer)(call).kind() == call.reply_kind());
            let reply = (volume.answer)(call);
            open_along_walk(volume, resolve_step(walk, reply), names, write);
        },
        Step::Done(Ok(attr)) => {
            let upward = resolve_parent_start(names);
            resolve_parent_follows_directories(volume.tree(), names);
            if attr.kind == FileType::Directory {
                locate_along_walk(volume, attr, file_info_of(attr), 0, upward);
            } else {
                reveal_with_fuel(run_open, 2);
                let call: FsCall<Seq<char>> = FsCall::Open { ino: attr.ino, read: true, write };
                assert((volume.answer)(call).kind() == call.reply_kind());
                if let FsReply::Handle(Ok(fh)) = (volume.answer)(call) {
                    locate_along_walk(volume, attr, file_info_of(attr), fh, upward);
                }
            }
        },
        Step::Done(Err(_)) => {},
    }
}

proof fn create_along_walk(
    volume: Volume,
    step: ResolveParentStep<FsCall<Seq<char>>, Seq<Seq<char>>, Seq<char>>,
    directory: bool,
    write: bool,
)
    requires
        volume.wf(),
        step matches Step::Call(call, _) ==> call is FindByName,
    ensures
        run_create(volume, create_along(step, directory, write)) == created_at(
            volume,
            directory,
            write,
            run_resolve_parent(volume.tree(), step),
        ),
    decreases (match step {
        Step::Call(_, walk) => walk.names.len() + 1,
        Step::Done(_) => 0,
    }),
{
    match step {
        Step::Call(call, walk) => {
            tree_answers_walks(volume, call);
            assert((volume.answer)(call).kind() == call.reply_kind());
            let reply = (volume.answer)(call);
            create_along_walk(volume, resolve_parent_step(walk, reply), directory, write);
        },
        Step::Done(Ok((parent, name))) => {
            reveal_with_fuel(run_create, 2);
            let call = create_call(parent, name, directory, write);
            assert((volume.answer)(call).kind() == call.reply_kind());
        },
        Step::Done(Err(_)) => {},
    }
}

proof fn rename_along_walk(
    volume: Volume,
    step: ResolveParentStep<FsCall<Seq<char>>, Seq<Seq<char>>, Seq<char>>,
    parent: u64,
    name: Seq<char>,
)
    requires
        volume.wf(),
        step matches Step::Call(call, _) ==> call is FindByName,
    ensures
        run_rename(volume, rename_along(step, parent, name)) == renamed_to(
            volume,
            parent,
            name,
            run_resolve_parent(volume.tree(), step),
        ),
    decreases (match step {
        Step::Call(_, walk) => walk.names.len() + 1,
        Step::Done(_) => 0,
    }),
{
    match step {
        Step::Call(call, walk) => {
            tree_answers_walks(volume, call);
            assert((volume.answer)(call).kind() == call.reply_kind());
            let reply = (volume.answer)(call);
            rename_along_walk(volume, resolve_parent_step(walk, reply), parent, name);
        },
        Step::Done(Ok((new_parent, new_name))) => {
            reveal_with_fuel(run_rename, 2);
            let call = FsCall::Rename { parent, name, new_parent, new_name };
            assert((volume.answer)(call).kind() == call.reply_kind());
        },
        Step::Done(Err(_)) => {},
    }
}

/// Looking up the attributes of a path tells those of what the path leads to.
pub proof fn security_is_of_path(volume: Volume, names: Seq<Seq<char>>)
    requires
        volume.wf(),
    ensures
        run_security(volume, security_along(resolve_start(names))) == security_of_found(
            volume.tree().lookup(names),
        ),
{
    security_along_walk(volume, resolve_start(names));
    resolve_follows_path(volume.tree(), names);
}

/// Opening opens what the path leads to. A directory needs no handle; a file is opened for reading
/// always, and for writing if that was asked for and the volume is not read-only.
pub proof fn open_opens_path(
    volume: Volume,
    read_only: bool,
    names: Seq<Seq<char>>,
    granted_access: u32,
)
    requires
        volume.wf(),
    ensures
        run_open(volume, open_start(read_only, names, granted_access)) == opened_found(
            volume,
            names,
            !read_only && asks_to_write(granted_access),
            volume.tree().lookup(names),
        ),
{
    open_along_walk(
        volume,
        resolve_start(names),
        names,
        !read_only && asks_to_write(granted_access),
    );
    resolve_follows_path(volume.tree(), names);
}

/// A handle that knows its directory and name knows those of what was opened: there the file
/// system finds it again.
pub proof fn opened_handle_leads_back(
    volume: Volume,
    read_only: bool,
    names: Seq<Seq<char>>,
    granted_access: u32,
    root: FileAttr,
    context: WinFileContext<Seq<char>>,
    info: FileInfo,
)
    requires
        volume.wf(),
        volume.tree().root == Ok::<FileAttr, FsError>(root),
        root.ino == ROOT_INODE,
        run_open(volume, open_start(read_only, names, granted_access)) == Ok::<
            (WinFileContext<Seq<char>>, FileInfo),
            FspError,
        >((context, info)),
    ensures
        context.state.target() matches Some((parent, name)) ==> {
            &&& (volume.tree().find)(parent, name) matches Ok(Some(attr))
            &&& context.ino == attr.ino
            &&& context.kind == attr.kind
            &&& info == file_info_of(attr)
        },
{
    open_opens_path(volume, read_only, names, granted_access);
    let tree = volume.tree();
    if let Ok(attr) = tree.lookup(names) {
        if attr.kind != FileType::Directory {
            let call: FsCall<Seq<char>> = FsCall::Open {
                ino: attr.ino,
                read: true,
                write: !read_only && asks_to_write(granted_access),
            };
            assert((volume.answer)(call).kind() == call.reply_kind());
        }
        if tree.lookup_parent(names) is Ok {
            path_leads_through_parent(tree, root, names);
        }
    }
}

/// Creating creates under the path's last name in the directory that the rest of the path leads
/// to, and the handle knows both.
pub proof fn create_creates_at_path(
    volume: Volume,
    names: Seq<Seq<char>>,
    create_options: u32,
    granted_access: u32,
    file_attributes: u32,
)
    requires
        volume.wf(),
    ensures
        run_create(
            volume,
            create_start(false, names, create_options, granted_access, file_attributes),
        ) == created_at(
            volume,
            asks_for_directory(create_options, file_attributes),
            asks_to_write(granted_access),
            volume.tree().lookup_parent(names),
        ),
{
    create_along_walk(
        volume,
        resolve_parent_start(names),
        asks_for_directory(create_options, file_attributes),
        asks_to_write(granted_access),
    );
    resolve_parent_follows_directories(volume.tree(), names);
}

/// Moving asks to move from where the handle was found to the path's last name in the directory
/// that the rest of the path leads to. If the file system does so, that is where the handle is from
/// then on; otherwise the handle stays as it was.
pub proof fn rename_moves_to_path(
    volume: Volume,
    context: WinFileContext<Seq<char>>,
    parent: u64,
    name: Seq<char>,
    new_names: Seq<Seq<char>>,
)
    requires
        volume.wf(),
        context.state.target() == Some((parent, name)),
    ensures
        run_rename(volume, rename_start(false, context.state, new_names)) == renamed_to(
            volume,
            parent,
            name,
            volume.tree().lookup_parent(new_names),
        ),
        after_rename(
            context,
            run_rename(volume, rename_start(false, context.state, new_names)),
        ) == (match volume.tree().lookup_parent(new_names) {
            Ok((new_parent, new_name)) => match (volume.answer)(
                FsCall::Rename { parent, name, new_parent, new_name },
            ) {
                FsReply::Done(Ok(_)) => relocated(context, new_parent, new_name),
                _ => context,
            },
            Err(_) => context,
        }),
{
    if let Ok((new_parent, new_name)) = volume.tree().lookup_parent(new_names) {
        let call = FsCall::Rename { parent, name, new_parent, new_name };
        assert((volume.answer)(call).kind() == call.reply_kind());
    }
    rename_along_walk(volume, resolve_parent_start(new_names), parent, name);
    resolve_parent_follows_directories(volume.tree(), new_names);
}

/// Opening a path that leads from inode 1 through every one of its names, each found in what the
/// name before it led to, opens what the last name leads to, however long the path is: by its own
/// inode, for reading, and for writing exactly if the volume is not read-only and one of the rights
/// 2, 4 and 0x40000000 is asked for. The handle is of that file or directory.
pub proof fn opening_opens_end_of_trail(
    volume: Volume,
    read_only: bool,
    names: Seq<Seq<char>>,
    granted_access: u32,
    trail: Seq<FileAttr>,
    fh: u64,
)
    requires
        volume.wf(),
        trail.len() == names.len() + 1,
        (volume.answer)(FsCall::GetAttr { ino: 1 }) == FsReply::Attr(Ok(trail[0])),
        forall|i: int|
            0 <= i < names.len() ==> (volume.answer)(
                FsCall::FindByName { parent: trail[i].ino, name: #[trigger] names[i] },
            ) == FsReply::Found(Ok(Some(trail[i + 1]))),
        trail.last().kind is Directory ==> fh == 0,
        trail.last().kind is RegularFile ==> (volume.answer)(
            FsCall::Open {
                ino: trail.last().ino,
                read: true,
                write: !read_only && granted_access & 0x4000_0006 != 0,
            },
        ) == FsReply::Handle(Ok(fh)),
    ensures
        run_open(volume, open_start(read_only, names, granted_access)) matches Ok((context, info))
            && {
            &&& context.ino == trail.last().ino
            &&& context.fh == fh
            &&& context.kind == trail.last().kind
            &&& !context.state.delete_on_close
            &&& info == file_info_of(trail.last())
        },
{
    let tree = volume.tree();
    assert forall|i: int| 0 <= i < names.len() implies (tree.find)(
        trail[i].ino,
        #[trigger] names[i],
    ) == Ok::<Option<FileAttr>, FsError>(Some(trail[i + 1])) by {}
    walk_follows_trail(tree, names, trail);
    resolve_follows_path(tree, names);
    open_opens_path(volume, read_only, names, granted_access);
    rights_that_write(granted_access);
}

proof fn trail_of_directories(volume: Volume, names: Seq<Seq<char>>, trail: Seq<u64>)
    requires
        volume.wf(),
        0 < trail.len() == names.len(),
        trail[0] == 1,
        forall|i: int|
            0 <= i < names.len() - 1 ==> ((volume.answer)(
                FsCall::FindByName { parent: trail[i], name: #[trigger] names[i] },
            ) matches FsReply::Found(Ok(Some(attr))) && attr.kind is Directory && attr.ino
                == trail[i + 1]),
    ensures
        volume.tree().lookup_parent(names) == Ok::<(u64, Seq<char>), FsError>(
            (trail.last(), names.last()),
        ),
{
    let tree = volume.tree();
    assert forall|i: int| 0 <= i < names.len() - 1 implies ((tree.find)(
        trail[i],
        #[trigger] names[i],
    ) matches Ok(Some(attr)) && attr.kind == FileType::Directory && attr.ino == trail[i + 1]) by {}
    parent_walk_follows_trail(tree, names, trail);
    resolve_parent_follows_directories(tree, names);
}

/// Creating at a path whose names but the last lead from inode 1 through directories creates under
/// the last name in the last of them, a directory if one of the two requests for one was made and
/// a file otherwise. The handle is of what was created, and knows that directory and name.
pub proof fn creating_creates_at_end_of_trail(
    volume: Volume,
    names: Seq<Seq<char>>,
    create_options: u32,
    granted_access: u32,
    file_attributes: u32,
    trail: Seq<u64>,
    directory: bool,
    fh: u64,
    attr: FileAttr,
)
    requires
        volume.wf(),
        0 < trail.len() == names.len(),
        trail[0] == 1,
        forall|i: int|
            0 <= i < names.len() - 1 ==> ((volume.answer)(
                FsCall::FindByName { parent: trail[i], name: #[trigger] names[i] },
            ) matches FsReply::Found(Ok(Some(attr))) && attr.kind is Directory && attr.ino
                == trail[i + 1]),
        directory == (create_options & 1 != 0 || file_attributes & 0x10 != 0),
        (volume.answer)(
            FsCall::Create {
                parent: trail.last(),
                name: names.last(),
                attr: CreateFileAttr {
                    kind: if directory {
                        FileType::Directory
                    } else {
                        FileType::RegularFile
                    },
                    perm: if directory {
                        0o777
                    } else {
                        0o666
                    },
                    uid: 0,
                    gid: 0,
                    rdev: 0,
                    flags: 0,
                },
                read: !directory,
                write: !directory && granted_access & 0x4000_0006 != 0,
            },
        ) == FsReply::Created(Ok((fh, attr))),
    ensures
        run_create(
            volume,
            create_start(false, names, create_options, granted_access, file_attributes),
        ) matches Ok((context, info)) && {
            &&& context.ino == attr.ino
            &&& context.fh == fh
            &&& context.kind == attr.kind
            &&& context.state.parent == Some(trail.last())
            &&& context.state.name == Some(names.last())
            &&& !context.state.delete_on_close
            &&& info == file_info_of(attr)
        },
{
    trail_of_directories(volume, names, trail);
    create_creates_at_path(volume, names, create_options, granted_access, file_attributes);
    rights_that_write(granted_access);
}

/// Moving to a path whose names but the last lead from inode 1 through directories moves what the
/// handle names, from the handle's own directory and name, to the last name in the last of them.
/// That is then where the handle is.
pub proof fn renaming_moves_to_end_of_trail(
    volume: Volume,
    context: WinFileContext<Seq<char>>,
    parent: u64,
    name: Seq<char>,
    new_names: Seq<Seq<char>>,
    trail: Seq<u64>,
)
    requires
        volume.wf(),
        context.state.parent == Some(parent),
        context.state.name == Some(name),
        0 < trail.len() == new_names.len(),
        trail[0] == 1,
        forall|i: int|
            0 <= i < new_names.len() - 1 ==> ((volume.answer)(
                FsCall::FindByName { parent: trail[i], name: #[trigger] new_names[i] },
            ) matches FsReply::Found(Ok(Some(attr))) && attr.kind is Directory && attr.ino
                == trail[i + 1]),
        (volume.answer)(
            FsCall::Rename {
                parent,
                name,
                new_parent: trail.last(),
                new_name: new_names.last(),
            },
        ) == FsReply::Done(Ok(())),
    ensures
        run_rename(volume, rename_start(false, context.state, new_names)) matches Ok((p, n)) && {
            &&& p == trail.last()
            &&& n == new_names.last()
            &&& after_rename(context, Ok((p, n))).state.parent == Some(trail.last())
            &&& after_rename(context, Ok((p, n))).state.name == Some(new_names.last())
        },
{
    trail_of_directories(volume, new_names, trail);
    rename_moves_to_path(volume, context, parent, name, new_names);
}

} // verus!

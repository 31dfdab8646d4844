//! Finding the file or directory that a path leads to, name by name.

use vstd::prelude::*;

use crate::attr::{FileAttr, FileType};
use crate::error::{FsError, FsResult};
use crate::path::{components, path_components};
use crate::request::{FsCall, FsReply, FsRequest, ReplyKind, Step, ROOT_INODE};
use crate::text::decode_utf16_lossy;

verus! {

/// A walk from the root to what a path leads to, waiting for the attributes of the root or for
/// those of the next name. `names` are the names that are still to be looked up after that.
pub struct Resolve<Names> {
    pub rooted: bool,
    pub names: Names,
}

/// A walk from the root to the directory that holds the last name of a path, waiting for the
/// attributes of the next directory. `names` are the directories that are still to be looked up
/// after that, `name` is the last name.
pub struct ResolveParent<Names, Name> {
    pub names: Names,
    pub name: Name,
}

/// A step of the walk to what a path leads to.
pub type ResolveStep<Call, Names> = Step<Call, Resolve<Names>, FsResult<FileAttr>>;

/// A step of the walk to the directory that holds the last name of a path. Its outcome is that
/// directory together with the name.
pub type ResolveParentStep<Call, Names, Name> = Step<
    Call,
    ResolveParent<Names, Name>,
    FsResult<(u64, Name)>,
>;

impl View for Resolve<Vec<String>> {
    type V = Resolve<Seq<Seq<char>>>;

    open spec fn view(&self) -> Resolve<Seq<Seq<char>>> {
        Resolve { rooted: self.rooted, names: self.names.deep_view() }
    }
}

impl View for ResolveParent<Vec<String>, String> {
    type V = ResolveParent<Seq<Seq<char>>, Seq<char>>;

    open spec fn view(&self) -> ResolveParent<Seq<Seq<char>>, Seq<char>> {
        ResolveParent { names: self.names.deep_view(), name: self.name@ }
    }
}

impl ResolveStep<FsRequest, Vec<String>> {
    pub open spec fn view(&self) -> ResolveStep<FsCall<Seq<char>>, Seq<Seq<char>>> {
        match *self {
            Step::Call(call, state) => Step::Call(call@, state@),
            Step::Done(outcome) => Step::Done(outcome),
        }
    }
}

/// A directory and a name in it, or why there is none.
pub open spec fn location_view(location: FsResult<(u64, String)>) -> FsResult<(u64, Seq<char>)> {
    match location {
        Ok((parent, name)) => Ok((parent, name@)),
        Err(err) => Err(err),
    }
}

impl ResolveParentStep<FsRequest, Vec<String>, String> {
    pub open spec fn view(&self) -> ResolveParentStep<
        FsCall<Seq<char>>,
        Seq<Seq<char>>,
        Seq<char>,
    > {
        match *self {
            Step::Call(call, state) => Step::Call(call@, state@),
            Step::Done(outcome) => Step::Done(location_view(outcome)),
        }
    }
}

/// How a walk goes on from a file or directory: it is done if no name is left, and otherwise looks
/// up the next name.
pub open spec fn descend(attr: FileAttr, names: Seq<Seq<char>>) -> ResolveStep<
    FsCall<Seq<char>>,
    Seq<Seq<char>>,
> {
    if names.len() == 0 {
        Step::Done(Ok(attr))
    } else {
        Step::Call(
            FsCall::FindByName { parent: attr.ino, name: names[0] },
            Resolve { rooted: true, names: names.skip(1) },
        )
    }
}

/// A walk along the names of a path begins with the attributes of the root.
pub open spec fn resolve_start(names: Seq<Seq<char>>) -> ResolveStep<
    FsCall<Seq<char>>,
    Seq<Seq<char>>,
> {
    Step::Call(FsCall::GetAttr { ino: ROOT_INODE }, Resolve { rooted: false, names })
}

/// How a walk goes on after an answer: an error ends it, and so does a name that is not there.
pub open spec fn resolve_step(state: Resolve<Seq<Seq<char>>>, reply: FsReply) -> ResolveStep<
    FsCall<Seq<char>>,
    Seq<Seq<char>>,
> {
    match reply {
        FsReply::Attr(Ok(attr)) => descend(attr, state.names),
        FsReply::Attr(Err(err)) => Step::Done(Err(err)),
        FsReply::Found(Ok(Some(attr))) => descend(attr, state.names),
        FsReply::Found(Ok(None)) => Step::Done(Err(FsError::NotFound("path component"))),
        FsReply::Found(Err(err)) => Step::Done(Err(err)),
        _ => arbitrary(),
    }
}

/// How a walk to a parent goes on from a directory.
pub open spec fn descend_to_parent(
    parent: u64,
    names: Seq<Seq<char>>,
    name: Seq<char>,
) -> ResolveParentStep<FsCall<Seq<char>>, Seq<Seq<char>>, Seq<char>> {
    if names.len() == 0 {
        Step::Done(Ok((parent, name)))
    } else {
        Step::Call(
            FsCall::FindByName { parent, name: names[0] },
            ResolveParent { names: names.skip(1), name },
        )
    }
}

/// A walk to the parent of a path's last name begins at the root; the root itself has no parent.
pub open spec fn resolve_parent_start(names: Seq<Seq<char>>) -> ResolveParentStep<
    FsCall<Seq<char>>,
    Seq<Seq<char>>,
    Seq<char>,
> {
    if names.len() == 0 {
        Step::Done(Err(FsError::InvalidInput("root has no parent")))
    } else {
        descend_to_parent(ROOT_INODE, names.drop_last(), names.last())
    }
}

/// How a walk to a parent goes on after an answer: an error ends it, and so does a name that is
/// not there or is no directory.
pub open spec fn resolve_parent_step(
    state: ResolveParent<Seq<Seq<char>>, Seq<char>>,
    reply: FsReply,
) -> ResolveParentStep<FsCall<Seq<char>>, Seq<Seq<char>>, Seq<char>> {
    match reply {
        FsReply::Found(Ok(Some(attr))) => if attr.kind == FileType::Directory {
            descend_to_parent(attr.ino, state.names, state.name)
        } else {
            Step::Done(Err(FsError::InvalidInodeType))
        },
        FsReply::Found(Ok(None)) => Step::Done(Err(FsError::NotFound("parent path component"))),
        FsReply::Found(Err(err)) => Step::Done(Err(err)),
        _ => arbitrary(),
    }
}

/// Takes the first name off a list.
fn take_first(names: &mut Vec<String>) -> (name: String)
    requires
        old(names)@.len() > 0,
    ensures
        name@ == old(names).deep_view()[0],
        final(names).deep_view() == old(names).deep_view().skip(1),
{
    let name: String = names.remove(0);
    assert(names.deep_view() =~= old(names).deep_view().skip(1));
    name
}

impl<Names> Resolve<Names> {
    /// The kind of answer that the walk waits for.
    pub open spec fn awaits(&self) -> ReplyKind {
        if self.rooted {
            ReplyKind::Found
        } else {
            ReplyKind::Attr
        }
    }
}

impl Resolve<Vec<String>> {
    /// Begins the walk along a path.
    pub fn start(file_name: &[u16]) -> (step: ResolveStep<FsRequest, Vec<String>>)
        ensures
            step@ == resolve_start(components(decode_utf16_lossy(file_name@))),
            step matches Step::Call(call, state) && state.awaits() == call.reply_kind(),
    {
        let names: Vec<String> = path_components(file_name);
        Step::Call(FsCall::GetAttr { ino: ROOT_INODE }, Resolve { rooted: false, names })
    }

    fn descend(attr: FileAttr, names: Vec<String>) -> (step: ResolveStep<FsRequest, Vec<String>>)
        ensures
            step@ == descend(attr, names.deep_view()),
            step matches Step::Call(call, state) ==> state.awaits() == call.reply_kind(),
    {
        let mut names: Vec<String> = names;
        if names.len() == 0 {
            Step::Done(Ok(attr))
        } else {
            let name: String = take_first(&mut names);
            Step::Call(
                FsCall::FindByName { parent: attr.ino, name },
                Resolve { rooted: true, names },
            )
        }
    }

    /// Goes on with the walk after an answer.
    pub fn step(self, reply: FsReply) -> (step: ResolveStep<FsRequest, Vec<String>>)
        requires
            reply.kind() == self.awaits(),
        ensures
            step@ == resolve_step(self@, reply),
            step matches Step::Call(call, state) ==> state.awaits() == call.reply_kind(),
    {
        match reply {
            FsReply::Attr(Ok(attr)) => Self::descend(attr, self.names),
            FsReply::Attr(Err(err)) => Step::Done(Err(err)),
            FsReply::Found(Ok(Some(attr))) => Self::descend(attr, self.names),
            FsReply::Found(Ok(None)) => Step::Done(Err(FsError::NotFound("path component"))),
            FsReply::Found(Err(err)) => Step::Done(Err(err)),
            _ => vstd::pervasive::unreached(),
        }
    }
}

impl<Names, Name> ResolveParent<Names, Name> {
    /// The kind of answer that the walk waits for.
    pub open spec fn awaits(&self) -> ReplyKind {
        ReplyKind::Found
    }
}

impl ResolveParent<Vec<String>, String> {
    /// Begins the walk to the parent of a path's last name.
    pub fn start(file_name: &[u16]) -> (step: ResolveParentStep<FsRequest, Vec<String>, String>)
        ensures
            step@ == resolve_parent_start(components(decode_utf16_lossy(file_name@))),
            step matches Step::Call(call, state) ==> state.awaits() == call.reply_kind(),
    {
        Self::along(path_components(file_name))
    }

    /// Begins the walk to the parent of the last of some names.
    pub fn along(names: Vec<String>) -> (step: ResolveParentStep<FsRequest, Vec<String>, String>)
        ensures
            step@ == resolve_parent_start(names.deep_view()),
            step matches Step::Call(call, state) ==> state.awaits() == call.reply_kind(),
    {
        let ghost all = names.deep_view();
        let mut names: Vec<String> = names;
        match names.pop() {
            None => Step::Done(Err(FsError::InvalidInput("root has no parent"))),
            Some(name) => {
                assert(names.deep_view() =~= all.drop_last());
                Self::descend(ROOT_INODE, names, name)
            },
        }
    }

    fn descend(parent: u64, names: Vec<String>, name: String) -> (step: ResolveParentStep<
        FsRequest,
        Vec<String>,
        String,
    >)
        ensures
            step@ == descend_to_parent(parent, names.deep_view(), name@),
            step matches Step::Call(call, state) ==> state.awaits() == call.reply_kind(),
    {
        let mut names: Vec<String> = names;
        if names.len() == 0 {
            Step::Done(Ok((parent, name)))
        } else {
            let next: String = take_first(&mut names);
            Step::Call(FsCall::FindByName { parent, name: next }, ResolveParent { names, name })
        }
    }

    /// Goes on with the walk after an answer.
    pub fn step(self, reply: FsReply) -> (step: ResolveParentStep<FsRequest, Vec<String>, String>)
        requires
            reply.kind() == self.awaits(),
        ensures
            step@ == resolve_parent_step(self@, reply),
            step matches Step::Call(call, state) ==> state.awaits() == call.reply_kind(),
    {
        match reply {
            FsReply::Found(Ok(Some(attr))) => if attr.kind == FileType::Directory {
                Self::descend(attr.ino, self.names, self.name)
            } else {
                Step::Done(Err(FsError::InvalidInodeType))
            },
            FsReply::Found(Ok(None)) => Step::Done(
                Err(FsError::NotFound("parent path component")),
            ),
            FsReply::Found(Err(err)) => Step::Done(Err(err)),
            _ => vstd::pervasive::unreached(),
        }
    }
}

/// A file system as far as walks ask of it: the attributes of its root, and what it finds under a
/// name in a directory.
pub struct Tree {
    pub root: FsResult<FileAttr>,
    pub find: spec_fn(u64, Seq<char>) -> FsResult<Option<FileAttr>>,
}

impl Tree {
    /// The answer to a call of a walk.
    pub open spec fn answer(self, call: FsCall<Seq<char>>) -> FsReply<'static> {
        match call {
            FsCall::FindByName { parent, name } => FsReply::Found((self.find)(parent, name)),
            _ => FsReply::Attr(self.root),
        }
    }

    /// What a path of names leads to from a file or directory.
    pub open spec fn follow(self, from: FileAttr, names: Seq<Seq<char>>) -> FsResult<FileAttr>
        decreases names.len(),
    {
        if names.len() == 0 {
            Ok(from)
        } else {
            match (self.find)(from.ino, names[0]) {
                Ok(Some(attr)) => self.follow(attr, names.skip(1)),
                Ok(None) => Err(FsError::NotFound("path component")),
                Err(err) => Err(err),
            }
        }
    }

    /// The directory that a path of names leads to from a directory.
    pub open spec fn follow_directories(self, from: u64, names: Seq<Seq<char>>) -> FsResult<u64>
        decreases names.len(),
    {
        if names.len() == 0 {
            Ok(from)
        } else {
            match (self.find)(from, names[0]) {
                Ok(Some(attr)) => if attr.kind == FileType::Directory {
                    self.follow_directories(attr.ino, names.skip(1))
                } else {
                    Err(FsError::InvalidInodeType)
                },
                Ok(None) => Err(FsError::NotFound("parent path component")),
                Err(err) => Err(err),
            }
        }
    }

    /// What a path of names leads to from the root.
    pub open spec fn lookup(self, names: Seq<Seq<char>>) -> FsResult<FileAttr> {
        match self.root {
            Ok(root) => self.follow(root, names),
            Err(err) => Err(err),
        }
    }

    /// The directory that a path of names without the last one leads to from the root, and that
    /// last name.
    pub open spec fn lookup_parent(self, names: Seq<Seq<char>>) -> FsResult<(u64, Seq<char>)> {
        if names.len() == 0 {
            Err(FsError::InvalidInput("root has no parent"))
        } else {
            match self.follow_directories(ROOT_INODE, names.drop_last()) {
                Ok(directory) => Ok((directory, names.last())),
                Err(err) => Err(err),
            }
        }
    }
}

/// The outcome of a walk when the file system answers each of its calls.
pub open spec fn run_resolve(
    tree: Tree,
    step: ResolveStep<FsCall<Seq<char>>, Seq<Seq<char>>>,
) -> FsResult<FileAttr>
    decreases (match step {
        Step::Call(call, state) => state.names.len() + 1,
        Step::Done(_) => 0,
    }),
{
    match step {
        Step::Call(call, state) => run_resolve(tree, resolve_step(state, tree.answer(call))),
        Step::Done(outcome) => outcome,
    }
}

/// The outcome of a walk to a parent when the file system answers each of its calls.
pub open spec fn run_resolve_parent(
    tree: Tree,
    step: ResolveParentStep<FsCall<Seq<char>>, Seq<Seq<char>>, Seq<char>>,
) -> FsResult<(u64, Seq<char>)>
    decreases (match step {
        Step::Call(call, state) => state.names.len() + 1,
        Step::Done(_) => 0,
    }),
    when step matches Step::Call(call, _) ==> call is FindByName
{
    match step {
        Step::Call(call, state) => run_resolve_parent(
            tree,
            resolve_parent_step(state, tree.answer(call)),
        ),
        Step::Done(outcome) => outcome,
    }
}

proof fn descend_follows_path(tree: Tree, attr: FileAttr, names: Seq<Seq<char>>)
    ensures
        run_resolve(tree, descend(attr, names)) == tree.follow(attr, names),
    decreases names.len(),
{
    if names.len() > 0 {
        let call = FsCall::FindByName { parent: attr.ino, name: names[0] };
        let state = Resolve { rooted: true, names: names.skip(1) };
        assert(run_resolve(tree, descend(attr, names)) == run_resolve(
            tree,
            resolve_step(state, tree.answer(call)),
        ));
        if let Ok(Some(next)) = (tree.find)(attr.ino, names[0]) {
            descend_follows_path(tree, next, names.skip(1));
        }
    }
}

/// A walk ends at what the path leads to from the root.
pub proof fn resolve_follows_path(tree: Tree, names: Seq<Seq<char>>)
    ensures
        run_resolve(tree, resolve_start(names)) == tree.lookup(names),
{
    let state = Resolve { rooted: false, names };
    let call: FsCall<Seq<char>> = FsCall::GetAttr { ino: ROOT_INODE };
    assert(run_resolve(tree, resolve_start(names)) == run_resolve(
        tree,
        resolve_step(state, tree.answer(call)),
    ));
    if let Ok(root) = tree.root {
        descend_follows_path(tree, root, names);
    }
}

proof fn descend_to_parent_follows_directories(
    tree: Tree,
    parent: u64,
    names: Seq<Seq<char>>,
    name: Seq<char>,
)
    ensures
        run_resolve_parent(tree, descend_to_parent(parent, names, name)) == (
        match tree.follow_directories(parent, names) {
            Ok(directory) => Ok((directory, name)),
            Err(err) => Err(err),
        }),
    decreases names.len(),
{
    if names.len() > 0 {
        let call = FsCall::FindByName { parent, name: names[0] };
        let state = ResolveParent { names: names.skip(1), name };
        assert(run_resolve_parent(tree, descend_to_parent(parent, names, name))
            == run_resolve_parent(tree, resolve_parent_step(state, tree.answer(call))));
        if let Ok(Some(next)) = (tree.find)(parent, names[0]) {
            if next.kind == FileType::Directory {
                descend_to_parent_follows_directories(tree, next.ino, names.skip(1), name);
            }
        }
    }
}

/// A walk to the parent of a path's last name ends at the directory that the path without that
/// name leads to. A path without names is refused.
pub proof fn resolve_parent_follows_directories(tree: Tree, names: Seq<Seq<char>>)
    ensures
        run_resolve_parent(tree, resolve_parent_start(names)) == tree.lookup_parent(names),
{
    if names.len() > 0 {
        descend_to_parent_follows_directories(
            tree,
            ROOT_INODE,
            names.drop_last(),
            names.last(),
        );
    }
}

/// Where a path has a parent directory, the path leads to what that directory holds under the
/// path's last name.
pub proof fn path_leads_through_parent(tree: Tree, from: FileAttr, names: Seq<Seq<char>>)
    requires
        names.len() > 0,
        tree.follow_directories(from.ino, names.drop_last()) is Ok,
    ensures
        tree.follow(from, names) == (match (tree.find)(
            tree.follow_directories(from.ino, names.drop_last())->Ok_0,
            names.last(),
        ) {
            Ok(Some(attr)) => Ok(attr),
            Ok(None) => Err(FsError::NotFound("path component")),
            Err(err) => Err(err),
        }),
    decreases names.len(),
{
    if names.len() > 1 {
        assert(names.drop_last()[0] == names[0]);
        assert(names.drop_last().skip(1) =~= names.skip(1).drop_last());
        assert(names.skip(1).last() == names.last());
        if let Ok(Some(next)) = (tree.find)(from.ino, names[0]) {
            path_leads_through_parent(tree, next, names.skip(1));
        }
    } else {
        reveal_with_fuel(Tree::follow, 2);
        assert(names[0] == names.last());
    }
}

/// The directory and the name that are told are those that were found.
pub proof fn location_is_seen_as_it_is(location: FsResult<(u64, String)>)
    ensures
        match (location, location_view(location)) {
            (Ok((parent, name)), Ok((p, n))) => p == parent && n == name@,
            (Err(err), Err(e)) => e == err,
            _ => false,
        },
{
}

/// A walk begins with the attributes of inode 1.
pub proof fn walk_begins_at_root(names: Seq<Seq<char>>)
    ensures
        resolve_start(names) matches Step::Call(FsCall::GetAttr { ino }, next) && ino == 1
            && next.names == names && !next.rooted,
{
}

/// Each step of a walk asks for one name: the first of those that are left, in the file or
/// directory that was found last. Where none is left, that is the end of the walk.
pub proof fn walk_asks_for_names_in_turn(
    state: Resolve<Seq<Seq<char>>>,
    attr: FileAttr,
    reply: FsReply,
)
    requires
        reply == FsReply::Attr(Ok(attr)) || reply == FsReply::Found(Ok(Some(attr))),
    ensures
        if state.names.len() == 0 {
            resolve_step(state, reply) matches Step::Done(Ok(found)) && found == attr
        } else {
            resolve_step(state, reply) matches Step::Call(FsCall::FindByName { parent, name }, next)
                && parent == attr.ino && name == state.names[0] && next.names == state.names.skip(1)
                && next.rooted
        },
{
}

/// Each step of a walk to a parent asks for one name: the first of those that are left before the
/// last one, in the directory that was found last, which is inode 1 at the beginning. Where none
/// is left, that directory and the last name are the end of the walk.
pub proof fn parent_walk_asks_for_names_in_turn(
    names: Seq<Seq<char>>,
    state: ResolveParent<Seq<Seq<char>>, Seq<char>>,
    attr: FileAttr,
)
    requires
        attr.kind == FileType::Directory,
    ensures
        names.len() == 0 ==> (resolve_parent_start(names) matches Step::Done(
            Err(FsError::InvalidInput(_)),
        )),
        names.len() == 1 ==> (resolve_parent_start(names) matches Step::Done(Ok((directory, name)))
            && directory == 1 && name == names[0]),
        names.len() > 1 ==> (resolve_parent_start(names) matches Step::Call(
            FsCall::FindByName { parent, name },
            next,
        ) && parent == 1 && name == names[0] && next.name == names.last() && next.names
            == names.subrange(1, names.len() - 1)),
        if state.names.len() == 0 {
            resolve_parent_step(state, FsReply::Found(Ok(Some(attr)))) matches Step::Done(
                Ok((directory, name)),
            ) && directory == attr.ino && name == state.name
        } else {
            resolve_parent_step(state, FsReply::Found(Ok(Some(attr)))) matches Step::Call(
                FsCall::FindByName { parent, name },
                next,
            ) && parent == attr.ino && name == state.names[0] && next.name == state.name
                && next.names == state.names.skip(1)
        },
{
    if names.len() > 1 {
        assert(names.drop_last().skip(1) =~= names.subrange(1, names.len() - 1));
    }
}

/// A walk ends with the first failure: an error of the file system as it is, a name that is not
/// there as not found, and, on the way to a parent, a file as something of the wrong kind.
pub proof fn walks_end_with_first_failure(
    state: Resolve<Seq<Seq<char>>>,
    upward: ResolveParent<Seq<Seq<char>>, Seq<char>>,
    err: FsError,
    file: FileAttr,
)
    requires
        file.kind == FileType::RegularFile,
    ensures
        resolve_step(state, FsReply::Attr(Err(err))) matches Step::Done(Err(e)) && e == err,
        resolve_step(state, FsReply::Found(Err(err))) matches Step::Done(Err(e)) && e == err,
        resolve_step(state, FsReply::Found(Ok(None))) matches Step::Done(Err(FsError::NotFound(_))),
        resolve_parent_step(upward, FsReply::Found(Err(err))) matches Step::Done(Err(e)) && e
            == err,
        resolve_parent_step(upward, FsReply::Found(Ok(None))) matches Step::Done(
            Err(FsError::NotFound(_)),
        ),
        resolve_parent_step(upward, FsReply::Found(Ok(Some(file)))) matches Step::Done(
            Err(FsError::InvalidInodeType),
        ),
{
}

proof fn follow_along_trail(tree: Tree, names: Seq<Seq<char>>, trail: Seq<FileAttr>)
    requires
        0 < trail.len() <= names.len() + 1,
        forall|i: int|
            0 <= i < trail.len() - 1 ==> (tree.find)(trail[i].ino, #[trigger] names[i]) == Ok::<
                Option<FileAttr>,
                FsError,
            >(Some(trail[i + 1])),
    ensures
        tree.follow(trail[0], names) == tree.follow(trail.last(), names.skip(trail.len() - 1)),
    decreases trail.len(),
{
    if trail.len() > 1 {
        assert((tree.find)(trail[0].ino, names[0]) == Ok::<Option<FileAttr>, FsError>(
            Some(trail[1]),
        ));
        assert forall|i: int| 0 <= i < trail.skip(1).len() - 1 implies (tree.find)(
            trail.skip(1)[i].ino,
            #[trigger] names.skip(1)[i],
        ) == Ok::<Option<FileAttr>, FsError>(Some(trail.skip(1)[i + 1])) by {
            assert(names.skip(1)[i] == names[i + 1]);
        }
        follow_along_trail(tree, names.skip(1), trail.skip(1));
        assert(names.skip(1).skip(trail.len() - 2) =~= names.skip(trail.len() - 1));
    } else {
        assert(names.skip(0) =~= names);
    }
}

/// Where a trail leads from the root through every name of a path, each name found in what the name
/// before it led to, a walk along the path ends at the end of the trail, however long it is.
pub proof fn walk_follows_trail(tree: Tree, names: Seq<Seq<char>>, trail: Seq<FileAttr>)
    requires
        trail.len() == names.len() + 1,
        tree.root == Ok::<FileAttr, FsError>(trail[0]),
        forall|i: int|
            0 <= i < names.len() ==> (tree.find)(trail[i].ino, #[trigger] names[i]) == Ok::<
                Option<FileAttr>,
                FsError,
            >(Some(trail[i + 1])),
    ensures
        run_resolve(tree, resolve_start(names)) == Ok::<FileAttr, FsError>(trail.last()),
{
    resolve_follows_path(tree, names);
    follow_along_trail(tree, names, trail);
}

/// Where a trail ends before the last name of a path, since the next name is not there or cannot be
/// looked up, a walk along the path fails for that reason.
pub proof fn walk_fails_where_trail_ends(tree: Tree, names: Seq<Seq<char>>, trail: Seq<FileAttr>)
    requires
        0 < trail.len() <= names.len(),
        tree.root == Ok::<FileAttr, FsError>(trail[0]),
        forall|i: int|
            0 <= i < trail.len() - 1 ==> (tree.find)(trail[i].ino, #[trigger] names[i]) == Ok::<
                Option<FileAttr>,
                FsError,
            >(Some(trail[i + 1])),
    ensures
        (tree.find)(trail.last().ino, names[trail.len() - 1]) matches Err(err) ==> run_resolve(
            tree,
            resolve_start(names),
        ) == Err::<FileAttr, FsError>(err),
        (tree.find)(trail.last().ino, names[trail.len() - 1]) matches Ok(None) ==> (run_resolve(
            tree,
            resolve_start(names),
        ) matches Err(FsError::NotFound(_))),
{
    resolve_follows_path(tree, names);
    follow_along_trail(tree, names, trail);
}

proof fn follow_directories_along_trail(tree: Tree, names: Seq<Seq<char>>, trail: Seq<u64>)
    requires
        0 < trail.len() <= names.len() + 1,
        forall|i: int|
            0 <= i < trail.len() - 1 ==> ((tree.find)(trail[i], #[trigger] names[i]) matches Ok(
                Some(attr),
            ) && attr.kind == FileType::Directory && attr.ino == trail[i + 1]),
    ensures
        tree.follow_directories(trail[0], names) == tree.follow_directories(
            trail.last(),
            names.skip(trail.len() - 1),
        ),
    decreases trail.len(),
{
    if trail.len() > 1 {
        assert((tree.find)(trail[0], names[0]) matches Ok(Some(attr)) && attr.kind
            == FileType::Directory && attr.ino == trail[1]);
        assert forall|i: int| 0 <= i < trail.skip(1).len() - 1 implies ((tree.find)(
            trail.skip(1)[i],
            #[trigger] names.skip(1)[i],
        ) matches Ok(Some(attr)) && attr.kind == FileType::Directory && attr.ino == trail.skip(
            1,
        )[i + 1]) by {
            assert(names.skip(1)[i] == names[i + 1]);
        }
        follow_directories_along_trail(tree, names.skip(1), trail.skip(1));
        assert(names.skip(1).skip(trail.len() - 2) =~= names.skip(trail.len() - 1));
    } else {
        assert(names.skip(0) =~= names);
    }
}

/// Where a trail of directories leads from inode 1 through every name of a path but the last, a
/// walk to the parent ends at the last of them, with the last name of the path.
pub proof fn parent_walk_follows_trail(tree: Tree, names: Seq<Seq<char>>, trail: Seq<u64>)
    requires
        0 < trail.len() == names.len(),
        trail[0] == 1,
        forall|i: int|
            0 <= i < names.len() - 1 ==> ((tree.find)(trail[i], #[trigger] names[i]) matches Ok(
                Some(attr),
            ) && attr.kind == FileType::Directory && attr.ino == trail[i + 1]),
    ensures
        run_resolve_parent(tree, resolve_parent_start(names)) == Ok::<(u64, Seq<char>), FsError>(
            (trail.last(), names.last()),
        ),
{
    resolve_parent_follows_directories(tree, names);
    assert forall|i: int| 0 <= i < trail.len() - 1 implies ((tree.find)(
        trail[i],
        #[trigger] names.drop_last()[i],
    ) matches Ok(Some(attr)) && attr.kind == FileType::Directory && attr.ino == trail[i + 1]) by {
        assert(names.drop_last()[i] == names[i]);
    }
    follow_directories_along_trail(tree, names.drop_last(), trail);
}

/// Where a trail of directories ends before the last name but one of a path, since the next name
/// is a file, is not there or cannot be looked up, a walk to the parent fails for that reason.
pub proof fn parent_walk_fails_where_trail_ends(tree: Tree, names: Seq<Seq<char>>, trail: Seq<u64>)
    requires
        0 < trail.len() < names.len(),
        trail[0] == 1,
        forall|i: int|
            0 <= i < trail.len() - 1 ==> ((tree.find)(trail[i], #[trigger] names[i]) matches Ok(
                Some(attr),
            ) && attr.kind == FileType::Directory && attr.ino == trail[i + 1]),
    ensures
        (tree.find)(trail.last(), names[trail.len() - 1]) matches Err(err) ==> run_resolve_parent(
            tree,
            resolve_parent_start(names),
        ) == Err::<(u64, Seq<char>), FsError>(err),
        (tree.find)(trail.last(), names[trail.len() - 1]) matches Ok(None) ==> (run_resolve_parent(
            tree,
            resolve_parent_start(names),
        ) matches Err(FsError::NotFound(_))),
        (tree.find)(trail.last(), names[trail.len() - 1]) matches Ok(Some(attr)) ==> attr.kind
            == FileType::RegularFile ==> (run_resolve_parent(
            tree,
            resolve_parent_start(names),
        ) matches Err(FsError::InvalidInodeType)),
{
    resolve_parent_follows_directories(tree, names);
    assert forall|i: int| 0 <= i < trail.len() - 1 implies ((tree.find)(
        trail[i],
        #[trigger] names.drop_last()[i],
    ) matches Ok(Some(attr)) && attr.kind == FileType::Directory && attr.ino == trail[i + 1]) by {
        assert(names.drop_last()[i] == names[i]);
    }
    follow_directories_along_trail(tree, names.drop_last(), trail);
}

/// What is said of a step of a walk is said of its own call and outcome.
pub proof fn walk_step_is_seen_as_it_is(step: ResolveStep<FsRequest, Vec<String>>)
    ensures
        match step {
            Step::Call(call, state) => step@ matches Step::Call(c, s) && c == call@ && s == state@,
            Step::Done(outcome) => step@ matches Step::Done(o) && o == outcome,
        },
{
}

/// What is said of a step of a walk to a parent is said of its own call and outcome.
pub proof fn parent_walk_step_is_seen_as_it_is(
    step: ResolveParentStep<FsRequest, Vec<String>, String>,
)
    ensures
        match step {
            Step::Call(call, state) => step@ matches Step::Call(c, s) && c == call@ && s == state@,
            Step::Done(outcome) => step@ matches Step::Done(o) && o == location_view(outcome),
        },
{
}

} // verus!

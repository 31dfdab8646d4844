//! A volume that is mounted read-only stays as it is: no operation on it asks the file system for
//! anything that can change it.

use vstd::prelude::*;

use crate::context::{cleanup_call, close_call, WinFileContext};
use crate::directory::{read_directory_start, read_directory_step, ReadDirectory};
use crate::error::{FspError, ERROR_ACCESS_DENIED};
use crate::file::{
    flush_start, read_start, read_step, refresh, update_start, update_step, write_start, Reading,
    Update,
};
use crate::open::{
    create_start, open_start, open_step, rename_start, security_along, Open, OpenStep,
};
use crate::request::{FsCall, FsReply, Step};
use crate::walk::{
    resolve_parent_start, resolve_parent_step, resolve_start, resolve_step, Resolve, ResolveParent,
};

verus! {

/// A step asks for nothing that can change the file system.
pub open spec fn changes_nothing<State, Outcome>(
    step: Step<FsCall<Seq<char>>, State, Outcome>,
) -> bool {
    step matches Step::Call(call, _) ==> !call.can_change()
}

/// An operation is refused for want of access.
pub open spec fn access_denied<State, T>(
    step: Step<FsCall<Seq<char>>, State, Result<T, FspError>>,
) -> bool {
    step matches Step::Done(Err(err)) && err == FspError::WIN32(ERROR_ACCESS_DENIED)
}

/// Every operation that is there to change something is refused on a read-only volume, before the
/// file system is asked for anything.
pub proof fn read_only_refuses_changes(
    names: Seq<Seq<char>>,
    create_options: u32,
    granted_access: u32,
    file_attributes: u32,
    context: WinFileContext<Seq<char>>,
    change: FsCall<Seq<char>>,
    offset: u64,
    data: Seq<u8>,
    write_to_eof: bool,
    constrained_io: bool,
)
    ensures
        access_denied(
            create_start(true, names, create_options, granted_access, file_attributes),
        ),
        access_denied(rename_start(true, context.state, names)),
        access_denied(update_start(true, context.ino, change)),
        access_denied(write_start(true, context, offset, data, write_to_eof, constrained_io)),
{
}

/// Looking things up changes nothing, on any volume: walking along a path and to a parent, and
/// telling the attributes of a path.
pub proof fn lookups_change_nothing(
    names: Seq<Seq<char>>,
    walk: Resolve<Seq<Seq<char>>>,
    upward: ResolveParent<Seq<Seq<char>>, Seq<char>>,
    reply: FsReply,
)
    ensures
        changes_nothing(resolve_start(names)),
        changes_nothing(security_along(resolve_start(names))),
        changes_nothing(resolve_parent_start(names)),
        reply.kind() == walk.awaits() ==> changes_nothing(resolve_step(walk, reply))
            && changes_nothing(security_along(resolve_step(walk, reply))),
        reply.kind() == upward.awaits() ==> changes_nothing(resolve_parent_step(upward, reply)),
{
}

/// Describing, flushing, reading, listing and closing a handle change nothing, on any volume.
pub proof fn observations_change_nothing(
    context: WinFileContext<Seq<char>>,
    update: Update,
    listing: ReadDirectory<Seq<char>>,
    marker: Option<Seq<char>>,
    offset: u64,
    reply: FsReply,
)
    ensures
        changes_nothing(refresh(context.ino)),
        changes_nothing(flush_start(context)),
        reply.kind() == update.awaits() ==> changes_nothing(update_step(update, reply)),
        changes_nothing(read_start(context, offset)),
        reply.kind() == Reading.awaits() ==> read_step(reply) is Done,
        changes_nothing(read_directory_start(context, marker)),
        reply.kind() == listing.awaits() ==> read_directory_step(listing, reply) is Done,
        close_call(context) matches Some(call) ==> !call.can_change(),
{
}

/// The calls that opening makes while it is given some answers.
pub open spec fn open_calls(
    step: OpenStep<FsCall<Seq<char>>, Seq<Seq<char>>, Seq<char>>,
    replies: Seq<FsReply>,
) -> Seq<FsCall<Seq<char>>>
    decreases replies.len(),
{
    match step {
        Step::Call(call, state) => if replies.len() > 0 && replies[0].kind() == state.awaits() {
            seq![call] + open_calls(open_step(state, replies[0]), replies.skip(1))
        } else {
            seq![call]
        },
        Step::Done(_) => Seq::empty(),
    }
}

/// Opening was not begun for writing.
pub open spec fn opens_for_reading(state: Open<Seq<Seq<char>>, Seq<char>>) -> bool {
    state matches Open::Resolving { write, .. } ==> !write
}

proof fn reading_open_changes_nothing(
    step: OpenStep<FsCall<Seq<char>>, Seq<Seq<char>>, Seq<char>>,
    replies: Seq<FsReply>,
    i: int,
)
    requires
        step matches Step::Call(call, state) ==> !call.can_change() && opens_for_reading(state),
        0 <= i < open_calls(step, replies).len(),
    ensures
        !open_calls(step, replies)[i].can_change(),
    decreases replies.len(),
{
    if let Step::Call(call, state) = step {
        if i > 0 {
            reading_open_changes_nothing(
                open_step(state, replies[0]),
                replies.skip(1),
                i - 1,
            );
        }
    }
}

/// Whatever access is asked for and whatever the file system answers, opening on a read-only
/// volume makes no call that can change the file system: files are opened for reading alone.
pub proof fn read_only_open_changes_nothing(
    names: Seq<Seq<char>>,
    granted_access: u32,
    replies: Seq<FsReply>,
    i: int,
)
    requires
        0 <= i < open_calls(open_start(true, names, granted_access), replies).len(),
    ensures
        !open_calls(open_start(true, names, granted_access), replies)[i].can_change(),
{
    reading_open_changes_nothing(open_start(true, names, granted_access), replies, i);
}

/// A handle that comes from opening is not marked, so that cleaning it up removes nothing. On a
/// read-only volume it stays so: marking it and moving it are refused.
pub proof fn opened_handle_is_unmarked(
    state: Open<Seq<Seq<char>>, Seq<char>>,
    reply: FsReply,
    new_names: Seq<Seq<char>>,
)
    requires
        reply.kind() == state.awaits(),
    ensures
        open_step(state, reply) matches Step::Done(Ok((context, _))) ==> {
            &&& !context.state.delete_on_close
            &&& cleanup_call(context) is None
            &&& rename_start(true, context.state, new_names) is Done
        },
{
}

} // verus!

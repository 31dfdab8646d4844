//! Mounting a volume, and the handle that its owner holds.

use vstd::prelude::*;

use crate::error::{io_error, other_io_error, FsError, FsResult, IoErrorKind};
use crate::host::{
    bring_up, host_announces_once, host_start, message_view, run_host, HostCall, HostEvent,
    HostWorld,
};
use crate::request::Step;

verus! {

/// The path type of the standard library, which is only carried through here.
#[verifier::external_type_specification]
#[verifier::external_body]
pub struct ExPathBuf(std::path::PathBuf);

/// A volume that can be mounted: the encrypted file system of `data_dir` under `mountpoint`.
///
/// Who provides the password and which cipher is used is up to the file system. Windows knows
/// neither root nor other users, so `_allow_root` and `_allow_other` make no difference.
pub struct MountPointImpl<Provider, Cipher> {
    pub mountpoint: std::path::PathBuf,
    pub data_dir: std::path::PathBuf,
    pub password_provider: Provider,
    pub cipher: Cipher,
    pub _allow_root: bool,
    pub _allow_other: bool,
    pub read_only: bool,
}

/// What mounting asks for.
pub enum MountCall<Provider, Cipher> {
    /// Opens the encrypted file system.
    OpenFileSystem {
        data_dir: std::path::PathBuf,
        password_provider: Provider,
        cipher: Cipher,
        read_only: bool,
    },
    /// Starts the thread that serves the volume, and waits for its announcement.
    StartHost { mountpoint: std::path::PathBuf, read_only: bool },
}

/// What came of it. `Passed` are the failures that are passed on as they are.
pub enum MountReply<Passed> {
    /// The encrypted file system was opened, or not.
    Opened(FsResult<(), Passed>),
    /// The announcement of the thread, or why none came.
    Announced(Result<Result<(), String>, String>),
}

/// What mounting waits for.
#[derive(Debug, PartialEq, Eq)]
pub enum Mounting {
    Opening { mountpoint: std::path::PathBuf, read_only: bool },
    Starting,
}

/// A step of mounting.
pub type MountStep<Provider, Cipher, Passed> = Step<
    MountCall<Provider, Cipher>,
    Mounting,
    FsResult<(), Passed>,
>;

impl Mounting {
    /// A reply is one that mounting waits for.
    pub open spec fn awaits<Passed>(&self, reply: MountReply<Passed>) -> bool {
        match *self {
            Mounting::Opening { .. } => reply is Opened,
            Mounting::Starting => reply is Announced,
        }
    }
}

/// What mounting comes to, given the announcement of the thread: any failure is an input/output
/// error of the kind `Other` with the message that came.
pub open spec fn announced<Passed>(
    announcement: Result<Result<(), String>, String>,
) -> FsResult<(), Passed> {
    match announcement {
        Ok(Ok(done)) => Ok(done),
        Ok(Err(message)) => Err(other_io_error(message)),
        Err(message) => Err(other_io_error(message)),
    }
}

/// What mounting begins with.
pub open spec fn mount_start<Provider, Cipher, Passed>(
    point: MountPointImpl<Provider, Cipher>,
) -> MountStep<Provider, Cipher, Passed> {
    Step::Call(
        MountCall::OpenFileSystem {
            data_dir: point.data_dir,
            password_provider: point.password_provider,
            cipher: point.cipher,
            read_only: point.read_only,
        },
        Mounting::Opening { mountpoint: point.mountpoint, read_only: point.read_only },
    )
}

/// What mounting goes on with. The thread is started only once the file system is open; where it
/// does not open, mounting fails as that did.
pub open spec fn mount_step<Provider, Cipher, Passed>(
    state: Mounting,
    reply: MountReply<Passed>,
) -> MountStep<Provider, Cipher, Passed> {
    match (state, reply) {
        (Mounting::Opening { mountpoint, read_only }, MountReply::Opened(Ok(_))) => Step::Call(
            MountCall::StartHost { mountpoint, read_only },
            Mounting::Starting,
        ),
        (Mounting::Opening { .. }, MountReply::Opened(Err(err))) => Step::Done(Err(err)),
        (Mounting::Starting, MountReply::Announced(announcement)) => Step::Done(
            announced(announcement),
        ),
        _ => arbitrary(),
    }
}

impl<Provider, Cipher> MountPointImpl<Provider, Cipher> {
    pub fn new(
        mountpoint: std::path::PathBuf,
        data_dir: std::path::PathBuf,
        password_provider: Provider,
        cipher: Cipher,
        allow_root: bool,
        allow_other: bool,
        read_only: bool,
    ) -> (point: Self)
        ensures
            point == (MountPointImpl {
                mountpoint,
                data_dir,
                password_provider,
                cipher,
                _allow_root: allow_root,
                _allow_other: allow_other,
                read_only,
            }),
    {
        MountPointImpl {
            mountpoint,
            data_dir,
            password_provider,
            cipher,
            _allow_root: allow_root,
            _allow_other: allow_other,
            read_only,
        }
    }

    /// Begins to mount the volume.
    pub fn mount<Passed>(self) -> (step: MountStep<Provider, Cipher, Passed>)
        ensures
            step == mount_start::<Provider, Cipher, Passed>(self),
            step matches Step::Call(
                MountCall::OpenFileSystem { data_dir, password_provider, cipher, read_only },
                Mounting::Opening { mountpoint, read_only: ro },
            ) && data_dir == self.data_dir && password_provider == self.password_provider && cipher
                == self.cipher && read_only == self.read_only && mountpoint == self.mountpoint && ro
                == self.read_only,
    {
        Step::Call(
            MountCall::OpenFileSystem {
                data_dir: self.data_dir,
                password_provider: self.password_provider,
                cipher: self.cipher,
                read_only: self.read_only,
            },
            Mounting::Opening { mountpoint: self.mountpoint, read_only: self.read_only },
        )
    }
}

impl Mounting {
    /// Goes on with mounting.
    pub fn step<Provider, Cipher, Passed>(self, reply: MountReply<Passed>) -> (step: MountStep<
        Provider,
        Cipher,
        Passed,
    >)
        requires
            self.awaits(reply),
        ensures
            step == mount_step::<Provider, Cipher, Passed>(self, reply),
    {
        match (self, reply) {
            (Mounting::Opening { mountpoint, read_only }, MountReply::Opened(Ok(_))) => Step::Call(
                MountCall::StartHost { mountpoint, read_only },
                Mounting::Starting,
            ),
            (Mounting::Opening { .. }, MountReply::Opened(Err(err))) => Step::Done(Err(err)),
            (Mounting::Starting, MountReply::Announced(Ok(Ok(done)))) => Step::Done(Ok(done)),
            (Mounting::Starting, MountReply::Announced(Ok(Err(message)))) => Step::Done(
                Err(io_error(message)),
            ),
            (Mounting::Starting, MountReply::Announced(Err(message))) => Step::Done(
                Err(io_error(message)),
            ),
            _ => vstd::pervasive::unreached(),
        }
    }
}

/// What the owner of a mount holds: where to send an event to the thread, until one was sent, and
/// where to learn its outcome, until someone waits for it.
pub struct MountHandleInnerImpl<Sender, Receiver> {
    pub event_tx: Option<Sender>,
    pub done_rx: Option<Receiver>,
}

/// What is still sent when the volume is to go away.
pub open spec fn stop_message<Sender, Receiver>(
    handle: MountHandleInnerImpl<Sender, Receiver>,
) -> Option<(Sender, HostEvent)> {
    match handle.event_tx {
        Some(event_tx) => Some((event_tx, HostEvent::Stop)),
        None => None,
    }
}

/// The handle once the volume was told to go away.
pub open spec fn stopped<Sender, Receiver>(
    handle: MountHandleInnerImpl<Sender, Receiver>,
) -> MountHandleInnerImpl<Sender, Receiver> {
    MountHandleInnerImpl { event_tx: None, done_rx: handle.done_rx }
}

/// The handle once someone waits for the outcome of the thread.
pub open spec fn awaited<Sender, Receiver>(
    handle: MountHandleInnerImpl<Sender, Receiver>,
) -> MountHandleInnerImpl<Sender, Receiver> {
    MountHandleInnerImpl { event_tx: handle.event_tx, done_rx: None }
}

/// What the owner of a mount learns at its end: the outcome of the thread, or why there is none.
pub open spec fn completion(
    received: Result<Result<(), Seq<char>>, Seq<char>>,
) -> Result<(), Seq<char>> {
    match received {
        Ok(outcome) => outcome,
        Err(message) => Err(message),
    }
}

/// What was received of the thread's outcome.
pub open spec fn received_view(received: Result<Result<(), String>, String>) -> Result<
    Result<(), Seq<char>>,
    Seq<char>,
> {
    match received {
        Ok(outcome) => Ok(message_view(outcome)),
        Err(message) => Err(message@),
    }
}

impl<Sender, Receiver> MountHandleInnerImpl<Sender, Receiver> {
    pub fn new(event_tx: Sender, done_rx: Receiver) -> (handle: Self)
        ensures
            handle == (MountHandleInnerImpl { event_tx: Some(event_tx), done_rx: Some(done_rx) }),
    {
        MountHandleInnerImpl { event_tx: Some(event_tx), done_rx: Some(done_rx) }
    }

    /// Tells the volume to go away, unless it was told before. A handle that is dropped does so,
    /// too.
    pub fn stop(&mut self) -> (message: Option<(Sender, HostEvent)>)
        ensures
            message == stop_message(*old(self)),
            *final(self) == stopped(*old(self)),
    {
        match self.event_tx.take() {
            Some(event_tx) => Some((event_tx, HostEvent::Stop)),
            None => None,
        }
    }

    /// Ends the mount: tells the volume to go away, unless it was told before, and takes what the
    /// outcome of the thread is then learned from.
    pub fn unmount(&mut self) -> (ending: (
        Option<(Sender, HostEvent)>,
        Result<Receiver, String>,
    ))
        ensures
            *final(self) == awaited(stopped(*old(self))),
            ending.0 == stop_message(*old(self)),
            match ending.1 {
                Ok(receiver) => old(self).done_rx == Some(receiver),
                Err(message) => old(self).done_rx is None && message@
                    == "mount completion receiver missing"@,
            },
    {
        let message: Option<(Sender, HostEvent)> = self.stop();
        match self.done_rx.take() {
            Some(receiver) => (message, Ok(receiver)),
            None => (message, Err("mount completion receiver missing".to_string())),
        }
    }

    /// What waiting for the end of the mount without blocking gives: nothing as long as nothing
    /// was received.
    pub fn poll(&self, received: Option<Result<Result<(), String>, String>>) -> (outcome: Option<
        Result<(), String>,
    >)
        requires
            self.done_rx is Some,
        ensures
            outcome is Some <==> received is Some,
            received matches Some(r) ==> (outcome matches Some(o) && message_view(o) == completion(
                received_view(r),
            )),
    {
        match received {
            Some(received) => Some(completed(received)),
            None => None,
        }
    }
}

/// What the owner of a mount learns at its end.
pub fn completed(received: Result<Result<(), String>, String>) -> (outcome: Result<(), String>)
    ensures
        message_view(outcome) == completion(received_view(received)),
{
    match received {
        Ok(outcome) => outcome,
        Err(message) => Err(message),
    }
}

/// Mounting succeeds exactly if every attempt of the thread to bring the volume up does. Otherwise
/// it fails with an input/output error that has the message of the first attempt that failed.
pub proof fn mount_succeeds_iff_volume_comes_up<Provider, Cipher, Passed>(
    world: HostWorld,
    announcement: Result<(), String>,
)
    requires
        run_host(world, host_start()).0.contains(HostCall::Announce(message_view(announcement))),
    ensures
        mount_step::<Provider, Cipher, Passed>(
            Mounting::Starting,
            MountReply::Announced(Ok(announcement)),
        ) matches Step::Done(outcome) && {
            &&& outcome is Ok <==> forall|i: int|
                0 <= i < bring_up().len() ==> (world.attempt)(#[trigger] bring_up()[i]) is Ok
            &&& forall|failed: int|
                0 <= failed < bring_up().len() && (forall|i: int|
                    0 <= i < failed ==> (world.attempt)(#[trigger] bring_up()[i]) is Ok)
                    && (world.attempt)(#[trigger] bring_up()[failed]) is Err ==> (
                outcome matches Err(FsError::Io(err)) && err.kind == IoErrorKind::Other
                    && err.message@ == (world.attempt)(bring_up()[failed])->Err_0)
        },
{
    host_announces_once(world);
    reveal_with_fuel(HostWorld::brought_up, 6);
    let calls = run_host(world, host_start()).0;
    let made = HostCall::Announce(world.brought_up(bring_up().len()));
    let heard = HostCall::Announce(message_view(announcement));
    let i = choose|i: int| 0 <= i < calls.len() && calls[i] == made;
    let j = choose|j: int| 0 <= j < calls.len() && calls[j] == heard;
    assert(calls[i] is Announce && calls[j] is Announce);
    assert(i == j);
}

/// A volume is told to go away at most once, however often its handle is unmounted or dropped.
pub proof fn stop_is_sent_once<Sender, Receiver>(handle: MountHandleInnerImpl<Sender, Receiver>)
    ensures
        stop_message(stopped(handle)) is None,
        stop_message(awaited(stopped(handle))) is None,
        stopped(stopped(handle)) == stopped(handle),
{
}

/// Telling a volume to go away leaves what its outcome is learned from, and waiting for the
/// outcome leaves what is still to be sent.
pub proof fn stop_and_wait_are_independent<Sender, Receiver>(
    handle: MountHandleInnerImpl<Sender, Receiver>,
)
    ensures
        stopped(handle).done_rx == handle.done_rx,
        stop_message(awaited(handle)) == stop_message(handle),
        stopped(awaited(handle)) == awaited(stopped(handle)),
{
}

/// A volume is mounted as it was asked for: the file system is opened on its own data directory,
/// with its own password provider and cipher, and, once that succeeded, the thread is started for
/// its own mount point. Both are read-only exactly if the volume is.
pub proof fn volume_is_mounted_as_asked_for<Provider, Cipher, Passed>(
    point: MountPointImpl<Provider, Cipher>,
)
    ensures
        mount_start::<Provider, Cipher, Passed>(point) matches Step::Call(
            MountCall::OpenFileSystem { data_dir, password_provider, cipher, read_only },
            opening,
        ) && {
            &&& data_dir == point.data_dir
            &&& password_provider == point.password_provider
            &&& cipher == point.cipher
            &&& read_only == point.read_only
            &&& mount_step::<Provider, Cipher, Passed>(
                opening,
                MountReply::Opened(Ok(())),
            ) matches Step::Call(
                MountCall::StartHost { mountpoint, read_only: ro },
                Mounting::Starting,
            ) && mountpoint == point.mountpoint && ro == point.read_only
        },
{
}

/// Mounting fails as opening the file system fails, and without a thread. After that it succeeds
/// exactly if the thread announces success; a failure that it announces, or that keeps it from
/// announcing anything, is an input/output error of the kind `Other` with that message.
pub proof fn mounting_fails_as_it_was_told<Provider, Cipher, Passed>(
    mountpoint: std::path::PathBuf,
    read_only: bool,
    err: FsError<Passed>,
    message: String,
)
    ensures
        mount_step::<Provider, Cipher, Passed>(
            Mounting::Opening { mountpoint, read_only },
            MountReply::Opened(Err(err)),
        ) matches Step::Done(Err(e)) && e == err,
        mount_step::<Provider, Cipher, Passed>(
            Mounting::Starting,
            MountReply::Announced(Ok(Ok(()))),
        ) matches Step::Done(Ok(_)),
        mount_step::<Provider, Cipher, Passed>(
            Mounting::Starting,
            MountReply::Announced(Ok(Err(message))),
        ) matches Step::Done(Err(FsError::Io(e))) && e.kind is Other && e.message == message,
        mount_step::<Provider, Cipher, Passed>(
            Mounting::Starting,
            MountReply::Announced(Err(message)),
        ) matches Step::Done(Err(FsError::Io(e))) && e.kind is Other && e.message == message,
{
}

/// A handle that can still tell the volume to go away does so through its own sender, and what it
/// waits with stays its own. The owner learns the outcome of the thread as it is, or why there is
/// none.
pub proof fn handle_stops_own_volume<Sender, Receiver>(
    event_tx: Sender,
    done_rx: Option<Receiver>,
    outcome: Result<(), String>,
    message: String,
)
    ensures
        stop_message(MountHandleInnerImpl { event_tx: Some(event_tx), done_rx }) == Some(
            (event_tx, HostEvent::Stop),
        ),
        stop_message(MountHandleInnerImpl::<Sender, Receiver> { event_tx: None, done_rx }) is None,
        stopped(MountHandleInnerImpl { event_tx: Some(event_tx), done_rx }).event_tx is None,
        stopped(MountHandleInnerImpl { event_tx: Some(event_tx), done_rx }).done_rx == done_rx,
        awaited(MountHandleInnerImpl { event_tx: Some(event_tx), done_rx }).done_rx is None,
        awaited(MountHandleInnerImpl { event_tx: Some(event_tx), done_rx }).event_tx == Some(
            event_tx,
        ),
        completion(received_view(Ok(outcome))) == (match outcome {
            Ok(_) => Ok(()),
            Err(text) => Err(text@),
        }),
        completion(received_view(Err(message))) == Err::<(), Seq<char>>(message@),
{
    if let Ok(done) = outcome {
        assert(done == ());
    }
}

} // verus!

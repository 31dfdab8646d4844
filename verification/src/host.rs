//! The thread that serves a mounted volume, from its start to its end.
//!
//! The thread brings the volume up in a fixed order of attempts, announces once whether that
//! succeeded, waits until the volume is to go away, and takes it down again.

use vstd::prelude::*;

use crate::context::WinFsContext;
use crate::request::Step;

verus! {

/// Why a volume is to go away.
#[derive(Debug, Clone, Copy, PartialEq, Eq, Structural)]
pub enum HostEvent {
    /// The owner of the mount asked for it.
    Stop,
    /// Windows no longer serves the volume.
    DispatcherStopped,
}

/// What the thread does next.
#[derive(Debug, PartialEq, Eq)]
pub enum HostCall<Message> {
    /// Loads the driver's library.
    Initialize,
    /// Starts the runtime on which the file system is asked.
    StartRuntime,
    /// Sets the volume up.
    CreateHost,
    /// Puts the volume under its mount point.
    Mount,
    /// Begins to serve the volume.
    Start,
    /// Tells whoever mounts the volume whether it is served now.
    Announce(Result<(), Message>),
    /// Waits for an event.
    AwaitEvent,
    /// Ends serving the volume.
    Stop,
    /// Takes the volume away from its mount point.
    Unmount,
}

pub type HostRequest = HostCall<String>;

/// What came of it.
#[derive(Debug, PartialEq, Eq)]
pub enum HostReply<Message> {
    /// An attempt succeeded or failed.
    Attempted(Result<(), Message>),
    /// Something that cannot fail was done.
    Done,
    /// An event, or `None` if nobody is left who could send one.
    Event(Option<HostEvent>),
}

/// What the thread waits for.
#[derive(Debug, PartialEq, Eq)]
pub enum Hosting<Message> {
    Initializing,
    StartingRuntime,
    CreatingHost,
    Mounting,
    Starting,
    Announcing,
    Waiting,
    Stopping,
    Unmounting,
    Failing { message: Message },
}

/// A step of the thread. The outcome is what the owner of the mount learns at its end.
pub type HostStep<Message> = Step<HostCall<Message>, Hosting<Message>, Result<(), Message>>;

/// The kinds of what can come of a call.
#[derive(Debug, Clone, Copy, PartialEq, Eq, Structural)]
pub enum HostReplyKind {
    Attempted,
    Done,
    Event,
}

/// A result whose error is a message.
pub open spec fn message_view(result: Result<(), String>) -> Result<(), Seq<char>> {
    match result {
        Ok(done) => Ok(done),
        Err(message) => Err(message@),
    }
}

impl View for HostCall<String> {
    type V = HostCall<Seq<char>>;

    open spec fn view(&self) -> HostCall<Seq<char>> {
        match *self {
            HostCall::Initialize => HostCall::Initialize,
            HostCall::StartRuntime => HostCall::StartRuntime,
            HostCall::CreateHost => HostCall::CreateHost,
            HostCall::Mount => HostCall::Mount,
            HostCall::Start => HostCall::Start,
            HostCall::Announce(result) => HostCall::Announce(message_view(result)),
            HostCall::AwaitEvent => HostCall::AwaitEvent,
            HostCall::Stop => HostCall::Stop,
            HostCall::Unmount => HostCall::Unmount,
        }
    }
}

impl View for HostReply<String> {
    type V = HostReply<Seq<char>>;

    open spec fn view(&self) -> HostReply<Seq<char>> {
        match *self {
            HostReply::Attempted(result) => HostReply::Attempted(message_view(result)),
            HostReply::Done => HostReply::Done,
            HostReply::Event(event) => HostReply::Event(event),
        }
    }
}

impl View for Hosting<String> {
    type V = Hosting<Seq<char>>;

    open spec fn view(&self) -> Hosting<Seq<char>> {
        match *self {
            Hosting::Initializing => Hosting::Initializing,
            Hosting::StartingRuntime => Hosting::StartingRuntime,
            Hosting::CreatingHost => Hosting::CreatingHost,
            Hosting::Mounting => Hosting::Mounting,
            Hosting::Starting => Hosting::Starting,
            Hosting::Announcing => Hosting::Announcing,
            Hosting::Waiting => Hosting::Waiting,
            Hosting::Stopping => Hosting::Stopping,
            Hosting::Unmounting => Hosting::Unmounting,
            Hosting::Failing { message } => Hosting::Failing { message: message@ },
        }
    }
}

impl HostStep<String> {
    pub open spec fn view(&self) -> HostStep<Seq<char>> {
        match *self {
            Step::Call(call, state) => Step::Call(call@, state@),
            Step::Done(outcome) => Step::Done(message_view(outcome)),
        }
    }
}

impl<Message> HostCall<Message> {
    /// The kind of what comes of the call.
    pub open spec fn reply_kind(&self) -> HostReplyKind {
        match *self {
            HostCall::Announce(_) => HostReplyKind::Done,
            HostCall::AwaitEvent => HostReplyKind::Event,
            HostCall::Stop => HostReplyKind::Done,
            HostCall::Unmount => HostReplyKind::Done,
            _ => HostReplyKind::Attempted,
        }
    }
}

impl<Message> HostReply<Message> {
    pub open spec fn kind(&self) -> HostReplyKind {
        match *self {
            HostReply::Attempted(_) => HostReplyKind::Attempted,
            HostReply::Done => HostReplyKind::Done,
            HostReply::Event(_) => HostReplyKind::Event,
        }
    }
}

impl<Message> Hosting<Message> {
    /// The kind of what the thread waits for.
    pub open spec fn awaits(&self) -> HostReplyKind {
        match *self {
            Hosting::Announcing => HostReplyKind::Done,
            Hosting::Waiting => HostReplyKind::Event,
            Hosting::Stopping => HostReplyKind::Done,
            Hosting::Unmounting => HostReplyKind::Done,
            Hosting::Failing { .. } => HostReplyKind::Done,
            _ => HostReplyKind::Attempted,
        }
    }
}

/// What the thread begins with.
pub open spec fn host_start() -> HostStep<Seq<char>> {
    Step::Call(HostCall::Initialize, Hosting::Initializing)
}

/// What follows an attempt that succeeded.
pub open spec fn host_after_success(state: Hosting<Seq<char>>) -> HostStep<Seq<char>> {
    match state {
        Hosting::Initializing => Step::Call(HostCall::StartRuntime, Hosting::StartingRuntime),
        Hosting::StartingRuntime => Step::Call(HostCall::CreateHost, Hosting::CreatingHost),
        Hosting::CreatingHost => Step::Call(HostCall::Mount, Hosting::Mounting),
        Hosting::Mounting => Step::Call(HostCall::Start, Hosting::Starting),
        _ => Step::Call(HostCall::Announce(Ok(())), Hosting::Announcing),
    }
}

/// What the thread goes on with. An attempt that fails is announced and ends it. An event ends
/// serving the volume, unless Windows has ended that already, and takes the volume away.
pub open spec fn host_step(state: Hosting<Seq<char>>, reply: HostReply<Seq<char>>) -> HostStep<
    Seq<char>,
> {
    match reply {
        HostReply::Attempted(Ok(_)) => host_after_success(state),
        HostReply::Attempted(Err(message)) => Step::Call(
            HostCall::Announce(Err(message)),
            Hosting::Failing { message },
        ),
        HostReply::Event(Some(HostEvent::Stop)) => Step::Call(HostCall::Stop, Hosting::Stopping),
        HostReply::Event(_) => Step::Call(HostCall::Unmount, Hosting::Unmounting),
        HostReply::Done => match state {
            Hosting::Failing { message } => Step::Done(Err(message)),
            Hosting::Announcing => Step::Call(HostCall::AwaitEvent, Hosting::Waiting),
            Hosting::Stopping => Step::Call(HostCall::Unmount, Hosting::Unmounting),
            _ => Step::Done(Ok(())),
        },
    }
}

impl Hosting<String> {
    /// What the thread begins with.
    pub fn start() -> (step: HostStep<String>)
        ensures
            step@ == host_start(),
            step matches Step::Call(call, state) && state.awaits() == call.reply_kind(),
    {
        Step::Call(HostCall::Initialize, Hosting::Initializing)
    }

    fn succeeded(self) -> (step: HostStep<String>)
        requires
            self.awaits() == HostReplyKind::Attempted,
        ensures
            step@ == host_after_success(self@),
            step matches Step::Call(call, state) && state.awaits() == call.reply_kind(),
    {
        match self {
            Hosting::Initializing => Step::Call(HostCall::StartRuntime, Hosting::StartingRuntime),
            Hosting::StartingRuntime => Step::Call(HostCall::CreateHost, Hosting::CreatingHost),
            Hosting::CreatingHost => Step::Call(HostCall::Mount, Hosting::Mounting),
            Hosting::Mounting => Step::Call(HostCall::Start, Hosting::Starting),
            _ => Step::Call(HostCall::Announce(Ok(())), Hosting::Announcing),
        }
    }

    /// What the thread goes on with.
    pub fn step(self, reply: HostReply<String>) -> (step: HostStep<String>)
        requires
            reply.kind() == self.awaits(),
        ensures
            step@ == host_step(self@, reply@),
            step matches Step::Call(call, state) ==> state.awaits() == call.reply_kind(),
    {
        match reply {
            HostReply::Attempted(Ok(_)) => self.succeeded(),
            HostReply::Attempted(Err(message)) => Step::Call(
                HostCall::Announce(Err(message.clone())),
                Hosting::Failing { message },
            ),
            HostReply::Event(Some(HostEvent::Stop)) => Step::Call(
                HostCall::Stop,
                Hosting::Stopping,
            ),
            HostReply::Event(_) => Step::Call(HostCall::Unmount, Hosting::Unmounting),
            HostReply::Done => match self {
                Hosting::Failing { message } => Step::Done(Err(message)),
                Hosting::Announcing => Step::Call(HostCall::AwaitEvent, Hosting::Waiting),
                Hosting::Stopping => Step::Call(HostCall::Unmount, Hosting::Unmounting),
                _ => Step::Done(Ok(())),
            },
        }
    }
}

impl WinFsContext {
    /// What the thread is told when Windows no longer serves the volume, whether or not that was
    /// in order.
    pub fn dispatcher_stopped(&self, normally: bool) -> (event: HostEvent)
        ensures
            event == HostEvent::DispatcherStopped,
    {
        HostEvent::DispatcherStopped
    }
}

/// What happens around the thread: what comes of each attempt, and the event that it waits for.
pub struct HostWorld {
    pub attempt: spec_fn(HostCall<Seq<char>>) -> Result<(), Seq<char>>,
    pub event: Option<HostEvent>,
}

impl HostWorld {
    /// What comes of a call.
    pub open spec fn answer(self, call: HostCall<Seq<char>>) -> HostReply<Seq<char>> {
        match call.reply_kind() {
            HostReplyKind::Attempted => HostReply::Attempted((self.attempt)(call)),
            HostReplyKind::Done => HostReply::Done,
            HostReplyKind::Event => HostReply::Event(self.event),
        }
    }
}

/// How many calls a thread makes at most from a state on.
pub open spec fn host_calls_left(step: HostStep<Seq<char>>) -> nat {
    match step {
        Step::Call(_, state) => match state {
            Hosting::Initializing => 9,
            Hosting::StartingRuntime => 8,
            Hosting::CreatingHost => 7,
            Hosting::Mounting => 6,
            Hosting::Starting => 5,
            Hosting::Announcing => 4,
            Hosting::Waiting => 3,
            Hosting::Stopping => 2,
            Hosting::Unmounting => 1,
            Hosting::Failing { .. } => 1,
        },
        Step::Done(_) => 0,
    }
}

/// A step as the thread makes it: the call gets the kind of reply that the thread waits for.
pub open spec fn host_step_fits(step: HostStep<Seq<char>>) -> bool {
    step matches Step::Call(call, state) ==> state.awaits() == call.reply_kind()
}

/// The calls that the thread makes, and its outcome.
pub open spec fn run_host(world: HostWorld, step: HostStep<Seq<char>>) -> (
    Seq<HostCall<Seq<char>>>,
    Result<(), Seq<char>>,
)
    decreases host_calls_left(step),
    when host_step_fits(step)
{
    match step {
        Step::Call(call, state) => {
            let (calls, outcome) = run_host(world, host_step(state, world.answer(call)));
            (seq![call] + calls, outcome)
        },
        Step::Done(outcome) => (Seq::empty(), outcome),
    }
}

/// The attempts that bring the volume up, in their order.
pub open spec fn bring_up() -> Seq<HostCall<Seq<char>>> {
    seq![
        HostCall::Initialize,
        HostCall::StartRuntime,
        HostCall::CreateHost,
        HostCall::Mount,
        HostCall::Start,
    ]
}

impl HostWorld {
    /// What the first of the attempts come to: the first failure among them ends them.
    pub open spec fn brought_up(self, attempts: nat) -> Result<(), Seq<char>>
        decreases attempts,
    {
        if attempts == 0 {
            Ok(())
        } else {
            match self.brought_up((attempts - 1) as nat) {
                Ok(_) => (self.attempt)(bring_up()[attempts - 1]),
                Err(message) => Err(message),
            }
        }
    }
}

/// What takes the volume down after an event.
pub open spec fn take_down(event: Option<HostEvent>) -> Seq<HostCall<Seq<char>>> {
    if event == Some(HostEvent::Stop) {
        seq![HostCall::Stop, HostCall::Unmount]
    } else {
        seq![HostCall::Unmount]
    }
}

/// Where every attempt succeeds, the thread announces success once, after the last attempt and
/// before it waits for an event, and then takes the volume down; it ends well.
pub proof fn host_serves_until_event(world: HostWorld)
    requires
        forall|i: int|
            0 <= i < bring_up().len() ==> (world.attempt)(#[trigger] bring_up()[i]) is Ok,
    ensures
        run_host(world, host_start()) == (
            bring_up() + seq![HostCall::Announce(Ok(())), HostCall::AwaitEvent] + take_down(
                world.event,
            ),
            Ok::<(), Seq<char>>(()),
        ),
{
    reveal_with_fuel(run_host, 10);
    assert((world.attempt)(bring_up()[0]) is Ok);
    assert((world.attempt)(bring_up()[1]) is Ok);
    assert((world.attempt)(bring_up()[2]) is Ok);
    assert((world.attempt)(bring_up()[3]) is Ok);
    assert((world.attempt)(bring_up()[4]) is Ok);
    assert(run_host(world, host_start()).0 =~= bring_up() + seq![
        HostCall::Announce(Ok(())),
        HostCall::AwaitEvent,
    ] + take_down(world.event));
}

/// Where an attempt fails, nothing is attempted after it: its message is announced, once, and is
/// the outcome too.
pub proof fn host_announces_first_failure(world: HostWorld, failed: int, message: Seq<char>)
    requires
        0 <= failed < bring_up().len(),
        forall|i: int| 0 <= i < failed ==> (world.attempt)(#[trigger] bring_up()[i]) is Ok,
        (world.attempt)(bring_up()[failed]) == Err::<(), Seq<char>>(message),
    ensures
        run_host(world, host_start()) == (
            bring_up().take(failed + 1).push(HostCall::Announce(Err(message))),
            Err::<(), Seq<char>>(message),
        ),
{
    reveal_with_fuel(run_host, 8);
    assert(0 < failed ==> (world.attempt)(bring_up()[0]) is Ok);
    assert(1 < failed ==> (world.attempt)(bring_up()[1]) is Ok);
    assert(2 < failed ==> (world.attempt)(bring_up()[2]) is Ok);
    assert(3 < failed ==> (world.attempt)(bring_up()[3]) is Ok);
    assert(run_host(world, host_start()).0 =~= bring_up().take(failed + 1).push(
        HostCall::Announce(Err(message)),
    ));
}

/// Whatever happens around it, the thread makes one announcement: what all attempts come to.
pub proof fn host_announces_once(world: HostWorld)
    ensures
        run_host(world, host_start()).0.contains(
            HostCall::Announce(world.brought_up(bring_up().len())),
        ),
        forall|i: int, j: int|
            0 <= i < j < run_host(world, host_start()).0.len() ==> !((#[trigger] run_host(
                world,
                host_start(),
            ).0[i]) is Announce && (#[trigger] run_host(world, host_start()).0[j]) is Announce),
{
    reveal_with_fuel(HostWorld::brought_up, 6);
    let calls = run_host(world, host_start()).0;
    if world.brought_up(5) is Ok {
        host_serves_until_event(world);
        assert(world.brought_up(5)->Ok_0 == ());
        assert(calls[5] == HostCall::Announce(world.brought_up(5)));
    } else {
        let failed = if world.brought_up(1) is Err {
            0int
        } else if world.brought_up(2) is Err {
            1
        } else if world.brought_up(3) is Err {
            2
        } else if world.brought_up(4) is Err {
            3
        } else {
            4
        };
        host_announces_first_failure(world, failed, world.brought_up(5)->Err_0);
        assert(calls[failed + 1] == HostCall::Announce(world.brought_up(5)));
    }
}

/// What is said of a step of the thread is said of its own call and outcome.
pub proof fn host_step_is_seen_as_it_is(step: HostStep<String>)
    ensures
        match step {
            Step::Call(call, state) => step@ matches Step::Call(c, s) && c == call@ && s == state@,
            Step::Done(outcome) => step@ matches Step::Done(o) && o == message_view(outcome),
        },
{
}

/// What is said of an announcement, a reply or a message is said of it as it is.
pub proof fn host_calls_are_seen_as_they_are(call: HostCall<String>, message: String)
    ensures
        message_view(Ok(())) == Ok::<(), Seq<char>>(()),
        message_view(Err(message)) == Err::<(), Seq<char>>(message@),
        match (call, call@) {
            (HostCall::Initialize, HostCall::Initialize) => true,
            (HostCall::StartRuntime, HostCall::StartRuntime) => true,
            (HostCall::CreateHost, HostCall::CreateHost) => true,
            (HostCall::Mount, HostCall::Mount) => true,
            (HostCall::Start, HostCall::Start) => true,
            (HostCall::Announce(result), HostCall::Announce(told)) => told == message_view(result),
            (HostCall::AwaitEvent, HostCall::AwaitEvent) => true,
            (HostCall::Stop, HostCall::Stop) => true,
            (HostCall::Unmount, HostCall::Unmount) => true,
            _ => false,
        },
        HostReply::<String>::Attempted(Err(message))@ == HostReply::Attempted(
            Err::<(), Seq<char>>(message@),
        ),
        HostReply::<String>::Attempted(Ok(()))@ == HostReply::<Seq<char>>::Attempted(Ok(())),
        HostReply::<String>::Done@ is Done,
        HostReply::<String>::Event(Some(HostEvent::Stop))@ == HostReply::<Seq<char>>::Event(
            Some(HostEvent::Stop),
        ),
        HostReply::<String>::Event(Some(HostEvent::DispatcherStopped))@ == HostReply::<
            Seq<char>,
        >::Event(Some(HostEvent::DispatcherStopped)),
        HostReply::<String>::Event(None)@ == HostReply::<Seq<char>>::Event(None),
{
}

/// The thread loads the driver, starts the runtime, sets the volume up, puts it under its mount
/// point and serves it, in this order, each only after the one before succeeded, and then announces
/// success. Whichever of them fails, its own message is announced and is what the thread ends with.
pub proof fn thread_brings_volume_up_in_order(state: Hosting<Seq<char>>, message: Seq<char>)
    requires
        state.awaits() == HostReplyKind::Attempted,
    ensures
        host_start() matches Step::Call(HostCall::Initialize, Hosting::Initializing),
        match state {
            Hosting::Initializing => host_step(
                state,
                HostReply::Attempted(Ok(())),
            ) matches Step::Call(HostCall::StartRuntime, Hosting::StartingRuntime),
            Hosting::StartingRuntime => host_step(
                state,
                HostReply::Attempted(Ok(())),
            ) matches Step::Call(HostCall::CreateHost, Hosting::CreatingHost),
            Hosting::CreatingHost => host_step(
                state,
                HostReply::Attempted(Ok(())),
            ) matches Step::Call(HostCall::Mount, Hosting::Mounting),
            Hosting::Mounting => host_step(state, HostReply::Attempted(Ok(()))) matches Step::Call(
                HostCall::Start,
                Hosting::Starting,
            ),
            Hosting::Starting => host_step(state, HostReply::Attempted(Ok(()))) matches Step::Call(
                HostCall::Announce(Ok(_)),
                Hosting::Announcing,
            ),
            _ => false,
        },
        host_step(state, HostReply::Attempted(Err(message))) matches Step::Call(
            HostCall::Announce(Err(told)),
            Hosting::Failing { message: kept },
        ) && told == message && kept == message,
        host_step(Hosting::Failing { message }, HostReply::Done) matches Step::Done(Err(outcome))
            && outcome == message,
{
}

/// A volume that was announced is served until an event comes. If its owner asks for it, serving
/// ends before the volume is taken away; otherwise it is only taken away. Then the thread ends
/// well.
pub proof fn thread_takes_volume_down_in_order()
    ensures
        host_step(Hosting::Announcing, HostReply::Done) matches Step::Call(
            HostCall::AwaitEvent,
            Hosting::Waiting,
        ),
        host_step(Hosting::Waiting, HostReply::Event(Some(HostEvent::Stop))) matches Step::Call(
            HostCall::Stop,
            Hosting::Stopping,
        ),
        host_step(
            Hosting::Waiting,
            HostReply::Event(Some(HostEvent::DispatcherStopped)),
        ) matches Step::Call(HostCall::Unmount, Hosting::Unmounting),
        host_step(Hosting::Waiting, HostReply::Event(None)) matches Step::Call(
            HostCall::Unmount,
            Hosting::Unmounting,
        ),
        host_step(Hosting::Stopping, HostReply::Done) matches Step::Call(
            HostCall::Unmount,
            Hosting::Unmounting,
        ),
        host_step(Hosting::Unmounting, HostReply::Done) matches Step::Done(Ok(_)),
{
}

} // verus!

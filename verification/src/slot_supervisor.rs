//! The worker of one slot: which process it keeps, which commands it obeys, what it does next.
//!
//! A worker never touches the system itself. It sits in a phase that names the one thing it waits
//! for; the driver does that thing, hands the result in as an event, and carries out the action
//! that comes back before it looks at the next phase.
use vstd::prelude::*;

use crate::pool::{outcome, PoolError, PoolErrorView, SlotState, SlotStatus};

verus! {

/// What a slot worker can be told to do.
pub enum SlotCommand {
    ReserveVm { name: String, mac: String, tap: String },
    MarkVmBooted { started_at: String },
    ReleaseVm,
    ResetVm,
    GetVmStatus,
}

/// A slot and the hypervisor process it holds, if any.
pub struct SlotRuntime<C> {
    pub status: SlotStatus,
    pub child: Option<C>,
}

/// What a slot is before anything has happened to it.
pub open spec fn fresh_status(slot: usize) -> SlotStatus {
    SlotStatus {
        slot,
        generation: 0,
        state: SlotState::Empty,
        name: None,
        mac: None,
        tap: None,
        pid: None,
        started_at: None,
        last_error: None,
    }
}

/// The slot after a machine has been reserved in it.
pub open spec fn reserved(s: SlotStatus, name: String, mac: String, tap: String) -> SlotStatus {
    SlotStatus {
        state: SlotState::Booting,
        name: Some(name),
        mac: Some(mac),
        tap: Some(tap),
        generation: (s.generation + 1) as u64,
        last_error: None,
        started_at: None,
        ..s
    }
}

/// The slot after its machine has been reported booted.
pub open spec fn booted(s: SlotStatus, started_at: String) -> SlotStatus {
    SlotStatus { state: SlotState::Occupied, started_at: Some(started_at), ..s }
}

/// The slot after its machine and its process are gone.
pub open spec fn emptied(s: SlotStatus) -> SlotStatus {
    SlotStatus {
        slot: s.slot,
        generation: (s.generation + 1) as u64,
        state: SlotState::Empty,
        name: None,
        mac: None,
        tap: None,
        pid: None,
        started_at: None,
        last_error: None,
    }
}

/// The slot after its process could not be started or watched.
pub open spec fn failed(s: SlotStatus, error: String) -> SlotStatus {
    SlotStatus { state: SlotState::Failed, last_error: Some(error), pid: None, ..s }
}

/// The slot after its process has ended by itself. A machine that was assigned ends with it.
pub open spec fn exited(s: SlotStatus) -> SlotStatus {
    match s.state {
        SlotState::Booting | SlotState::Occupied => emptied(s),
        SlotState::Empty | SlotState::Failed => SlotStatus { pid: None, ..s },
    }
}

/// What every slot keeps between any two things that happen to it.
pub open spec fn slot_invariant(s: SlotStatus, has_child: bool) -> bool {
    &&& s.state == SlotState::Empty ==> s.name is None && s.mac is None && s.tap is None
        && s.started_at is None
    &&& s.state == SlotState::Booting ==> s.name is Some && s.mac is Some && s.tap is Some
        && s.started_at is None
    &&& s.state == SlotState::Occupied ==> s.name is Some && s.mac is Some && s.tap is Some
        && s.started_at is Some
    &&& s.state == SlotState::Failed ==> !has_child
    &&& s.last_error is Some <==> s.state == SlotState::Failed
    &&& s.pid is Some ==> has_child
}

impl<C> SlotRuntime<C> {
    pub open spec fn wf(self) -> bool {
        slot_invariant(self.status, self.child is Some)
    }
}

/// The states in which a slot is entitled to a process.
pub open spec fn spawnable(state: SlotState) -> bool {
    state != SlotState::Failed
}

/// Whether a slot in this state is entitled to a process.
pub fn should_spawn(state: SlotState) -> (r: bool)
    ensures
        r == spawnable(state),
{
    match state {
        SlotState::Empty | SlotState::Booting | SlotState::Occupied => true,
        SlotState::Failed => false,
    }
}

/// The state that a command asks for and the name under which it is refused in any other.
pub open spec fn command_needs(c: SlotCommand) -> Option<(SlotState, Seq<char>)> {
    match c {
        SlotCommand::ReserveVm { .. } => Some((SlotState::Empty, "claim"@)),
        SlotCommand::MarkVmBooted { .. } => Some((SlotState::Booting, "mark_booted"@)),
        SlotCommand::ReleaseVm => Some((SlotState::Occupied, "release"@)),
        SlotCommand::ResetVm | SlotCommand::GetVmStatus => None,
    }
}

/// The error with which a slot refuses a command, if it does.
pub open spec fn refusal(s: SlotStatus, c: SlotCommand) -> Option<PoolErrorView> {
    match command_needs(c) {
        Some((needed, action)) => if s.state == needed {
            None
        } else {
            Some(PoolErrorView::InvalidTransition { slot: s.slot, from: s.state, action })
        },
        None => None,
    }
}

/// What a command does to a slot that does not refuse it. A reservation waits for its tap device.
pub open spec fn status_after(s: SlotStatus, c: SlotCommand) -> SlotStatus {
    match c {
        SlotCommand::ReserveVm { .. } | SlotCommand::GetVmStatus => s,
        SlotCommand::MarkVmBooted { started_at } => booted(s, started_at),
        SlotCommand::ReleaseVm | SlotCommand::ResetVm => emptied(s),
    }
}

/// The command ends the process of the slot.
pub open spec fn ends_child(c: SlotCommand) -> bool {
    c is ReleaseVm || c is ResetVm
}

/// What the driver has to do, in this order: stop a process, remove the socket file, answer the
/// command that was handed in last.
pub struct SupervisorAction<C> {
    pub stop_child: Option<C>,
    pub remove_socket: bool,
    pub reply: Option<Result<SlotStatus, PoolError>>,
}

/// A `SupervisorAction` with the error by its view.
pub struct ActionView<C> {
    pub stop_child: Option<C>,
    pub remove_socket: bool,
    pub reply: Option<Result<SlotStatus, PoolErrorView>>,
}

impl<C> View for SupervisorAction<C> {
    type V = ActionView<C>;

    open spec fn view(&self) -> ActionView<C> {
        ActionView {
            stop_child: self.stop_child,
            remove_socket: self.remove_socket,
            reply: match self.reply {
                Some(r) => Some(outcome(r)),
                None => None,
            },
        }
    }
}

/// Nothing to do.
pub open spec fn no_action<C>() -> ActionView<C> {
    ActionView { stop_child: None, remove_socket: false, reply: None }
}

/// How far a command got.
pub enum CommandProgress<C> {
    Done(SupervisorAction<C>),
    /// The slot is free; the answer waits for the tap device.
    NeedsTap { name: String, mac: String, tap: String },
}

/// What a command comes to on a slot with this status and child.
pub open spec fn command_action<C>(s: SlotStatus, child: Option<C>, c: SlotCommand) -> ActionView<
    C,
> {
    match refusal(s, c) {
        Some(e) => ActionView { stop_child: None, remove_socket: false, reply: Some(Err(e)) },
        None => ActionView {
            stop_child: if ends_child(c) {
                child
            } else {
                None
            },
            remove_socket: ends_child(c),
            reply: Some(Ok(status_after(s, c))),
        },
    }
}

/// The slot after a command.
pub open spec fn runtime_after_command<C>(r: SlotRuntime<C>, c: SlotCommand) -> SlotRuntime<C> {
    if refusal(r.status, c) is Some {
        r
    } else {
        SlotRuntime {
            status: status_after(r.status, c),
            child: if ends_child(c) {
                None
            } else {
                r.child
            },
        }
    }
}

fn refuse<C>(status: &SlotStatus, action: &'static str) -> (r: SupervisorAction<C>)
    ensures
        r@ == (ActionView::<C> {
            stop_child: None,
            remove_socket: false,
            reply: Some(
                Err(
                    PoolErrorView::InvalidTransition {
                        slot: status.slot,
                        from: status.state,
                        action: action@,
                    },
                ),
            ),
        }),
{
    SupervisorAction {
        stop_child: None,
        remove_socket: false,
        reply: Some(
            Err(
                PoolError::InvalidTransition { slot: status.slot, from: status.state, action },
            ),
        ),
    }
}

fn make_empty(status: &mut SlotStatus)
    requires
        old(status).generation < u64::MAX,
    ensures
        *final(status) == emptied(*old(status)),
{
    status.state = SlotState::Empty;
    status.name = None;
    status.mac = None;
    status.tap = None;
    status.generation = status.generation + 1;
    status.last_error = None;
    status.started_at = None;
    status.pid = None;
}

/// Obeys or refuses a command.
///
/// A reservation of an empty slot is answered by `finish_reservation`, once the tap device is known
/// to be there or not.
pub fn handle_command<C>(command: SlotCommand, runtime: &mut SlotRuntime<C>) -> (r: CommandProgress<
    C,
>)
    requires
        ends_child(command) && refusal(old(runtime).status, command) is None ==> old(
            runtime,
        ).status.generation < u64::MAX,
    ensures
        *final(runtime) == runtime_after_command(*old(runtime), command),
        old(runtime).wf() ==> final(runtime).wf(),
        match command {
            SlotCommand::ReserveVm { name, mac, tap } if old(runtime).status.state
                == SlotState::Empty => r == CommandProgress::<C>::NeedsTap { name, mac, tap },
            _ => r matches CommandProgress::Done(a) && a@ == command_action(
                old(runtime).status,
                old(runtime).child,
                command,
            ),
        },
{
    match command {
        SlotCommand::GetVmStatus => CommandProgress::Done(
            SupervisorAction {
                stop_child: None,
                remove_socket: false,
                reply: Some(Ok(runtime.status.clone())),
            },
        ),
        SlotCommand::ReserveVm { name, mac, tap } => {
            if runtime.status.state == SlotState::Empty {
                CommandProgress::NeedsTap { name, mac, tap }
            } else {
                CommandProgress::Done(refuse(&runtime.status, "claim"))
            }
        },
        SlotCommand::MarkVmBooted { started_at } => {
            if runtime.status.state == SlotState::Booting {
                runtime.status.state = SlotState::Occupied;
                runtime.status.started_at = Some(started_at);
                CommandProgress::Done(
                    SupervisorAction {
                        stop_child: None,
                        remove_socket: false,
                        reply: Some(Ok(runtime.status.clone())),
                    },
                )
            } else {
                CommandProgress::Done(refuse(&runtime.status, "mark_booted"))
            }
        },
        SlotCommand::ReleaseVm => {
            if runtime.status.state == SlotState::Occupied {
                make_empty(&mut runtime.status);
                let stop_child = runtime.child.take();
                CommandProgress::Done(
                    SupervisorAction {
                        stop_child,
                        remove_socket: true,
                        reply: Some(Ok(runtime.status.clone())),
                    },
                )
            } else {
                CommandProgress::Done(refuse(&runtime.status, "release"))
            }
        },
        SlotCommand::ResetVm => {
            make_empty(&mut runtime.status);
            let stop_child = runtime.child.take();
            CommandProgress::Done(
                SupervisorAction {
                    stop_child,
                    remove_socket: true,
                    reply: Some(Ok(runtime.status.clone())),
                },
            )
        },
    }
}

/// Completes a reservation once it is known whether the tap device is ready.
pub fn finish_reservation<C>(
    runtime: &mut SlotRuntime<C>,
    name: String,
    mac: String,
    tap: String,
    tap_ready: Result<(), PoolError>,
) -> (r: Result<SlotStatus, PoolError>)
    requires
        tap_ready is Ok ==> old(runtime).status.generation < u64::MAX,
    ensures
        old(runtime).wf() && old(runtime).status.state == SlotState::Empty ==> final(runtime).wf(),
        final(runtime).child == old(runtime).child,
        match tap_ready {
            Ok(_) => final(runtime).status == reserved(old(runtime).status, name, mac, tap) && r
                == Ok::<SlotStatus, PoolError>(final(runtime).status),
            Err(e) => final(runtime).status == old(runtime).status && r == Err::<
                SlotStatus,
                PoolError,
            >(e),
        },
{
    match tap_ready {
        Ok(_) => {
            runtime.status.state = SlotState::Booting;
            runtime.status.name = Some(name);
            runtime.status.mac = Some(mac);
            runtime.status.tap = Some(tap);
            runtime.status.generation = runtime.status.generation + 1;
            runtime.status.last_error = None;
            runtime.status.started_at = None;
            Ok(runtime.status.clone())
        },
        Err(error) => Err(error),
    }
}

/// How long a worker pauses before it looks at its slot again, in nanoseconds.
pub const WORKER_PAUSE: u128 = 200_000_000;

/// The one thing that a worker waits for.
pub enum SupervisorPhase {
    /// Whether the pool is shutting down.
    ReadShutdown,
    /// The start of a hypervisor process.
    SpawnChild,
    /// A command that is already queued, if there is one.
    TakeCommand,
    /// Whether the process is still there.
    PollChild,
    /// A change of the shutdown signal, a command, or the passing of `WORKER_PAUSE`.
    AwaitWake,
    /// The tap device of a reservation. Queued commands come next if `draining`.
    PrepareTap { name: String, mac: String, tap: String, draining: bool },
    /// The worker is done.
    Ended,
}

/// What a driver reports back.
pub enum SupervisorEvent<C> {
    Shutdown(bool),
    Spawned { child: C, pid: Option<u32> },
    SpawnFailed(String),
    Command(SlotCommand),
    NoCommand,
    ChildExited,
    ChildRunning,
    ChildPollFailed(String),
    /// The signal changed, or nobody is left who could change it.
    ShutdownChanged { abandoned: bool, requested: bool },
    CommandsClosed,
    Tick,
    TapPrepared(Result<(), PoolError>),
}

/// The worker of one slot.
pub struct Supervisor<C> {
    pub runtime: SlotRuntime<C>,
    pub phase: SupervisorPhase,
}

impl<C> Supervisor<C> {
    /// What holds of a worker between two events.
    pub open spec fn wf(self) -> bool {
        &&& !(self.phase is Ended) ==> self.runtime.wf()
        &&& self.phase is SpawnChild ==> self.runtime.child is None && spawnable(
            self.runtime.status.state,
        )
        &&& self.phase is PollChild ==> self.runtime.child is Some
        &&& self.phase is PrepareTap ==> self.runtime.status.state == SlotState::Empty
        &&& self.phase is Ended ==> self.runtime.child is None
    }

    /// The event answers what the worker waits for.
    pub open spec fn expects(self, event: SupervisorEvent<C>) -> bool {
        match self.phase {
            SupervisorPhase::ReadShutdown => event is Shutdown,
            SupervisorPhase::SpawnChild => event is Spawned || event is SpawnFailed,
            SupervisorPhase::TakeCommand => event is Command || event is NoCommand,
            SupervisorPhase::PollChild => event is ChildExited || event is ChildRunning
                || event is ChildPollFailed,
            SupervisorPhase::AwaitWake => event is ShutdownChanged || event is Command
                || event is CommandsClosed || event is Tick,
            SupervisorPhase::PrepareTap { .. } => event is TapPrepared,
            SupervisorPhase::Ended => false,
        }
    }

    /// The event takes a machine out of the slot or puts one in.
    pub open spec fn reassigns(self, event: SupervisorEvent<C>) -> bool {
        match event {
            SupervisorEvent::Command(c) => ends_child(c) && refusal(self.runtime.status, c) is None,
            SupervisorEvent::ChildExited => self.runtime.status.state == SlotState::Booting
                || self.runtime.status.state == SlotState::Occupied,
            SupervisorEvent::TapPrepared(r) => r is Ok,
            _ => false,
        }
    }
}

/// The worker goes on to `phase` with its slot unchanged.
pub open spec fn goes_to<C>(s: Supervisor<C>, phase: SupervisorPhase) -> Supervisor<C> {
    Supervisor { phase, ..s }
}

/// The worker ends; its process, if any, is to be stopped and its socket removed.
pub open spec fn ends<C>(s: Supervisor<C>) -> (Supervisor<C>, ActionView<C>) {
    (
        Supervisor {
            runtime: SlotRuntime { child: None, ..s.runtime },
            phase: SupervisorPhase::Ended,
        },
        ActionView { stop_child: s.runtime.child, remove_socket: true, reply: None },
    )
}

/// The phase that follows a finished command.
pub open spec fn phase_after_command(draining: bool) -> SupervisorPhase {
    if draining {
        SupervisorPhase::TakeCommand
    } else {
        SupervisorPhase::ReadShutdown
    }
}

/// What a command does to a worker.
pub open spec fn obeys<C>(s: Supervisor<C>, c: SlotCommand, draining: bool) -> (
    Supervisor<C>,
    ActionView<C>,
) {
    match c {
        SlotCommand::ReserveVm { name, mac, tap } if s.runtime.status.state == SlotState::Empty => (
            goes_to(s, SupervisorPhase::PrepareTap { name, mac, tap, draining }),
            no_action(),
        ),
        _ => (
            Supervisor {
                runtime: runtime_after_command(s.runtime, c),
                phase: phase_after_command(draining),
            },
            command_action(s.runtime.status, s.runtime.child, c),
        ),
    }
}

/// What an expected event does to a worker.
pub open spec fn supervised<C>(s: Supervisor<C>, event: SupervisorEvent<C>) -> (
    Supervisor<C>,
    ActionView<C>,
) {
    let status = s.runtime.status;
    let removes = ActionView::<C> { stop_child: None, remove_socket: true, reply: None };
    match (s.phase, event) {
        (SupervisorPhase::ReadShutdown, SupervisorEvent::Shutdown(requested)) => if requested {
            ends(s)
        } else if s.runtime.child is None && spawnable(status.state) {
            (goes_to(s, SupervisorPhase::SpawnChild), removes)
        } else {
            (goes_to(s, SupervisorPhase::TakeCommand), no_action())
        },
        (SupervisorPhase::SpawnChild, SupervisorEvent::Spawned { child, pid }) => (
            Supervisor {
                runtime: SlotRuntime {
                    status: SlotStatus { pid, last_error: None, ..status },
                    child: Some(child),
                },
                phase: SupervisorPhase::TakeCommand,
            },
            no_action(),
        ),
        (SupervisorPhase::SpawnChild, SupervisorEvent::SpawnFailed(error)) => (
            Supervisor {
                runtime: SlotRuntime { status: failed(status, error), ..s.runtime },
                phase: SupervisorPhase::TakeCommand,
            },
            no_action(),
        ),
        (SupervisorPhase::TakeCommand, SupervisorEvent::Command(c)) => obeys(s, c, true),
        (SupervisorPhase::TakeCommand, _) => (
            goes_to(
                s,
                if s.runtime.child is Some {
                    SupervisorPhase::PollChild
                } else {
                    SupervisorPhase::AwaitWake
                },
            ),
            no_action(),
        ),
        (SupervisorPhase::PollChild, SupervisorEvent::ChildExited) => (
            Supervisor {
                runtime: SlotRuntime { status: exited(status), child: None },
                phase: SupervisorPhase::AwaitWake,
            },
            removes,
        ),
        (SupervisorPhase::PollChild, SupervisorEvent::ChildPollFailed(error)) => (
            Supervisor {
                runtime: SlotRuntime { status: failed(status, error), child: None },
                phase: SupervisorPhase::AwaitWake,
            },
            removes,
        ),
        (SupervisorPhase::PollChild, _) => (goes_to(s, SupervisorPhase::AwaitWake), no_action()),
        (
            SupervisorPhase::AwaitWake,
            SupervisorEvent::ShutdownChanged { abandoned, requested },
        ) => if abandoned || requested {
            ends(s)
        } else {
            (goes_to(s, SupervisorPhase::ReadShutdown), no_action())
        },
        (SupervisorPhase::AwaitWake, SupervisorEvent::Command(c)) => obeys(s, c, false),
        (SupervisorPhase::AwaitWake, SupervisorEvent::CommandsClosed) => ends(s),
        (SupervisorPhase::AwaitWake, _) => (goes_to(s, SupervisorPhase::ReadShutdown), no_action()),
        (
            SupervisorPhase::PrepareTap { name, mac, tap, draining },
            SupervisorEvent::TapPrepared(Ok(_)),
        ) => {
            let next = reserved(status, name, mac, tap);
            (
                Supervisor {
                    runtime: SlotRuntime { status: next, ..s.runtime },
                    phase: phase_after_command(draining),
                },
                ActionView { stop_child: None, remove_socket: false, reply: Some(Ok(next)) },
            )
        },
        (
            SupervisorPhase::PrepareTap { draining, .. },
            SupervisorEvent::TapPrepared(Err(e)),
        ) => (
            goes_to(s, phase_after_command(draining)),
            ActionView { stop_child: None, remove_socket: false, reply: Some(Err(e@)) },
        ),
        _ => (s, no_action()),
    }
}

impl<C> Supervisor<C> {
    /// The worker of an untouched slot.
    pub fn new(slot: usize) -> (r: Supervisor<C>)
        ensures
            r.wf(),
            r.runtime.status == fresh_status(slot),
            r.runtime.child is None,
            r.phase is ReadShutdown,
    {
        Supervisor {
            runtime: SlotRuntime {
                status: SlotStatus {
                    slot,
                    generation: 0,
                    state: SlotState::Empty,
                    name: None,
                    mac: None,
                    tap: None,
                    pid: None,
                    started_at: None,
                    last_error: None,
                },
                child: None,
            },
            phase: SupervisorPhase::ReadShutdown,
        }
    }

    fn end(&mut self) -> (r: SupervisorAction<C>)
        ensures
            (*final(self), r@) == ends(*old(self)),
    {
        let stop_child = self.runtime.child.take();
        self.phase = SupervisorPhase::Ended;
        SupervisorAction { stop_child, remove_socket: true, reply: None }
    }

    fn obey(&mut self, command: SlotCommand, draining: bool) -> (r: SupervisorAction<C>)
        requires
            ends_child(command) && refusal(old(self).runtime.status, command) is None ==> old(
                self,
            ).runtime.status.generation < u64::MAX,
        ensures
            old(self).runtime.wf() ==> final(self).runtime.wf(),
            (*final(self), r@) == obeys(*old(self), command, draining),
    {
        match handle_command(command, &mut self.runtime) {
            CommandProgress::Done(action) => {
                self.phase = if draining {
                    SupervisorPhase::TakeCommand
                } else {
                    SupervisorPhase::ReadShutdown
                };
                action
            },
            CommandProgress::NeedsTap { name, mac, tap } => {
                self.phase = SupervisorPhase::PrepareTap { name, mac, tap, draining };
                SupervisorAction { stop_child: None, remove_socket: false, reply: None }
            },
        }
    }

    /// Whether the event answers what the worker waits for.
    pub fn is_expected(&self, event: &SupervisorEvent<C>) -> (r: bool)
        ensures
            r == self.expects(*event),
    {
        match (&self.phase, event) {
            (SupervisorPhase::ReadShutdown, SupervisorEvent::Shutdown(_)) => true,
            (SupervisorPhase::SpawnChild, SupervisorEvent::Spawned { .. }) => true,
            (SupervisorPhase::SpawnChild, SupervisorEvent::SpawnFailed(_)) => true,
            (SupervisorPhase::TakeCommand, SupervisorEvent::Command(_)) => true,
            (SupervisorPhase::TakeCommand, SupervisorEvent::NoCommand) => true,
            (SupervisorPhase::PollChild, SupervisorEvent::ChildExited) => true,
            (SupervisorPhase::PollChild, SupervisorEvent::ChildRunning) => true,
            (SupervisorPhase::PollChild, SupervisorEvent::ChildPollFailed(_)) => true,
            (SupervisorPhase::AwaitWake, SupervisorEvent::ShutdownChanged { .. }) => true,
            (SupervisorPhase::AwaitWake, SupervisorEvent::Command(_)) => true,
            (SupervisorPhase::AwaitWake, SupervisorEvent::CommandsClosed) => true,
            (SupervisorPhase::AwaitWake, SupervisorEvent::Tick) => true,
            (SupervisorPhase::PrepareTap { .. }, SupervisorEvent::TapPrepared(_)) => true,
            _ => false,
        }
    }

    /// Whether the event takes a machine out of the slot or puts one in.
    pub fn would_reassign(&self, event: &SupervisorEvent<C>) -> (r: bool)
        ensures
            r == self.reassigns(*event),
    {
        let state = self.runtime.status.state;
        match event {
            SupervisorEvent::Command(SlotCommand::ResetVm) => true,
            SupervisorEvent::Command(SlotCommand::ReleaseVm) => state == SlotState::Occupied,
            SupervisorEvent::ChildExited => state == SlotState::Booting || state
                == SlotState::Occupied,
            SupervisorEvent::TapPrepared(ready) => ready.is_ok(),
            _ => false,
        }
    }

    /// Takes one event in, moves the worker on and says what is to be done before the next.
    pub fn supervise_slot(&mut self, event: SupervisorEvent<C>) -> (r: SupervisorAction<C>)
        requires
            old(self).expects(event),
            old(self).reassigns(event) ==> old(self).runtime.status.generation < u64::MAX,
        ensures
            old(self).wf() ==> final(self).wf(),
            (*final(self), r@) == supervised(*old(self), event),
    {
        let mut phase = SupervisorPhase::Ended;
        core::mem::swap(&mut phase, &mut self.phase);
        let mut action = SupervisorAction { stop_child: None, remove_socket: false, reply: None };
        match (phase, event) {
            (SupervisorPhase::ReadShutdown, SupervisorEvent::Shutdown(requested)) => {
                if requested {
                    return self.end();
                }
                if self.runtime.child.is_none() && should_spawn(self.runtime.status.state) {
                    self.phase = SupervisorPhase::SpawnChild;
                    action.remove_socket = true;
                } else {
                    self.phase = SupervisorPhase::TakeCommand;
                }
            },
            (SupervisorPhase::SpawnChild, SupervisorEvent::Spawned { child, pid }) => {
                self.runtime.status.pid = pid;
                self.runtime.status.last_error = None;
                self.runtime.child = Some(child);
                self.phase = SupervisorPhase::TakeCommand;
            },
            (SupervisorPhase::SpawnChild, SupervisorEvent::SpawnFailed(error)) => {
                self.runtime.status.state = SlotState::Failed;
                self.runtime.status.last_error = Some(error);
                self.runtime.status.pid = None;
                self.phase = SupervisorPhase::TakeCommand;
            },
            (SupervisorPhase::TakeCommand, SupervisorEvent::Command(command)) => {
                self.phase = SupervisorPhase::TakeCommand;
                return self.obey(command, true);
            },
            (SupervisorPhase::TakeCommand, _) => {
                self.phase = if self.runtime.child.is_some() {
                    SupervisorPhase::PollChild
                } else {
                    SupervisorPhase::AwaitWake
                };
            },
            (SupervisorPhase::PollChild, SupervisorEvent::ChildExited) => {
                self.runtime.child = None;
                match self.runtime.status.state {
                    SlotState::Booting | SlotState::Occupied => {
                        make_empty(&mut self.runtime.status);
                    },
                    SlotState::Empty | SlotState::Failed => {
                        self.runtime.status.pid = None;
                    },
                }
                self.phase = SupervisorPhase::AwaitWake;
                action.remove_socket = true;
            },
            (SupervisorPhase::PollChild, SupervisorEvent::ChildPollFailed(error)) => {
                self.runtime.child = None;
                self.runtime.status.pid = None;
                self.runtime.status.state = SlotState::Failed;
                self.runtime.status.last_error = Some(error);
                self.phase = SupervisorPhase::AwaitWake;
                action.remove_socket = true;
            },
            (SupervisorPhase::PollChild, _) => {
                self.phase = SupervisorPhase::AwaitWake;
            },
            (
                SupervisorPhase::AwaitWake,
                SupervisorEvent::ShutdownChanged { abandoned, requested },
            ) => {
                if abandoned || requested {
                    return self.end();
                }
                self.phase = SupervisorPhase::ReadShutdown;
            },
            (SupervisorPhase::AwaitWake, SupervisorEvent::Command(command)) => {
                self.phase = SupervisorPhase::AwaitWake;
                return self.obey(command, false);
            },
            (SupervisorPhase::AwaitWake, SupervisorEvent::CommandsClosed) => {
                return self.end();
            },
            (SupervisorPhase::AwaitWake, _) => {
                self.phase = SupervisorPhase::ReadShutdown;
            },
            (
                SupervisorPhase::PrepareTap { name, mac, tap, draining },
                SupervisorEvent::TapPrepared(ready),
            ) => {
                let reply = finish_reservation(&mut self.runtime, name, mac, tap, ready);
                self.phase = if draining {
                    SupervisorPhase::TakeCommand
                } else {
                    SupervisorPhase::ReadShutdown
                };
                action.reply = Some(reply);
            },
            (other, _) => {
                self.phase = other;
            },
        }
        action
    }
}

/// A slot keeps its number, its generation grows by one exactly when a machine is assigned or taken
/// away, and nothing else changes the name, address and tap device it reports.
pub proof fn law_generation_counts_reassignments<C>(s: Supervisor<C>, event: SupervisorEvent<C>)
    requires
        s.wf(),
        s.expects(event),
        s.reassigns(event) ==> s.runtime.status.generation < u64::MAX,
    ensures
        ({
            let before = s.runtime.status;
            let after = supervised(s, event).0.runtime.status;
            &&& after.slot == before.slot
            &&& after.generation == before.generation + (if s.reassigns(event) {
                1int
            } else {
                0
            })
            &&& !s.reassigns(event) ==> after.name == before.name && after.mac == before.mac
                && after.tap == before.tap
        }),
{
}

/// Whatever happens, a slot stays consistent with its state.
pub proof fn law_worker_stays_consistent<C>(s: Supervisor<C>, event: SupervisorEvent<C>)
    requires
        s.wf(),
        s.expects(event),
        s.reassigns(event) ==> s.runtime.status.generation < u64::MAX,
    ensures
        supervised(s, event).0.wf(),
{
}

/// A worker that ends hands its process over to be stopped and has its socket removed.
pub proof fn law_worker_ends_clean<C>(s: Supervisor<C>, event: SupervisorEvent<C>)
    requires
        s.wf(),
        s.expects(event),
        supervised(s, event).0.phase is Ended,
    ensures
        supervised(s, event).0.runtime.child is None,
        supervised(s, event).1.stop_child == s.runtime.child,
        supervised(s, event).1.remove_socket,
{
}

/// A process never gets lost: it is kept, handed over to be stopped, or was reported gone.
pub proof fn law_no_process_is_lost<C>(s: Supervisor<C>, event: SupervisorEvent<C>)
    requires
        s.wf(),
        s.expects(event),
        s.runtime.child is Some,
    ensures
        ({
            let (after, action) = supervised(s, event);
            ||| after.runtime.child == s.runtime.child && action.stop_child is None
            ||| after.runtime.child is None && action.stop_child == s.runtime.child
            ||| after.runtime.child is None && (event is ChildExited || event is ChildPollFailed)
        }),
{
}

/// A command is answered at once, or when the tap device it waits for is reported; nothing else is
/// answered.
pub proof fn law_each_command_is_answered<C>(s: Supervisor<C>, event: SupervisorEvent<C>)
    requires
        s.wf(),
        s.expects(event),
    ensures
        supervised(s, event).1.reply is Some <==> {
            ||| event is Command && !(supervised(s, event).0.phase is PrepareTap)
            ||| event is TapPrepared
        },
{
}

/// A command that a slot refuses leaves the slot as it was.
pub proof fn law_refused_command_changes_nothing<C>(r: SlotRuntime<C>, c: SlotCommand)
    requires
        refusal(r.status, c) is Some,
    ensures
        runtime_after_command(r, c) == r,
        command_action(r.status, r.child, c).reply == Some(
            Err::<SlotStatus, PoolErrorView>(refusal(r.status, c)->0),
        ),
        command_action(r.status, r.child, c).stop_child is None,
{
}

/// A slot is not claimed twice: one that is not empty refuses every reservation, and nothing but the
/// end of its machine, a release or a reset makes it empty or takes the name from it.
pub proof fn law_slot_is_not_claimed_twice<C>(
    s: Supervisor<C>,
    event: SupervisorEvent<C>,
    name: String,
    mac: String,
    tap: String,
)
    requires
        s.wf(),
        s.expects(event),
        s.runtime.status.state != SlotState::Empty,
    ensures
        refusal(s.runtime.status, SlotCommand::ReserveVm { name, mac, tap }) is Some,
        !s.reassigns(event) ==> {
            let after = supervised(s, event).0.runtime.status;
            after.state != SlotState::Empty && after.name == s.runtime.status.name
        },
{
}

/// The end of the process of an assigned machine returns its slot to the pool, empty.
pub proof fn law_guest_exit_frees_the_slot<C>(s: Supervisor<C>)
    requires
        s.wf(),
        s.phase is PollChild,
        s.runtime.status.state == SlotState::Booting || s.runtime.status.state
            == SlotState::Occupied,
        s.runtime.status.generation < u64::MAX,
    ensures
        ({
            let after = supervised(s, SupervisorEvent::<C>::ChildExited).0.runtime;
            &&& after.status.state == SlotState::Empty
            &&& after.status.name is None
            &&& after.status.pid is None
            &&& after.child is None
        }),
{
}

/// A slot is kept warm: where it has no process and has not failed, its worker starts one as soon as
/// it has paused and is not told to end, and then knows the process.
pub proof fn law_slots_are_kept_warm<C>(s: Supervisor<C>, child: C, pid: Option<u32>)
    requires
        s.wf(),
        s.phase is AwaitWake,
        s.runtime.child is None,
        s.runtime.status.state != SlotState::Failed,
    ensures
        ({
            let paused = supervised(s, SupervisorEvent::<C>::Tick).0;
            let (starting, action) = supervised(paused, SupervisorEvent::<C>::Shutdown(false));
            let started = supervised(starting, SupervisorEvent::Spawned { child, pid }).0;
            &&& starting.phase is SpawnChild
            &&& action.remove_socket
            &&& started.runtime.child == Some(child)
            &&& started.runtime.status == (SlotStatus { pid, last_error: None, ..s.runtime.status })
        }),
{
}

/// A failed slot stays failed until it is reset.
pub proof fn law_failed_until_reset<C>(s: Supervisor<C>, event: SupervisorEvent<C>)
    requires
        s.wf(),
        s.expects(event),
        s.runtime.status.state == SlotState::Failed,
        event != SupervisorEvent::<C>::Command(SlotCommand::ResetVm),
    ensures
        supervised(s, event).0.runtime.status.state == SlotState::Failed,
{
}

/// Reserving an empty slot, booting its machine and releasing it again leaves the slot as it was
/// but for its process number, which is gone, and its generation, which counts both changes.
pub proof fn law_release_undoes_reservation(
    s: SlotStatus,
    name: String,
    mac: String,
    tap: String,
    started_at: String,
)
    requires
        slot_invariant(s, true),
        s.state == SlotState::Empty,
        s.generation < u64::MAX - 1,
    ensures
        ({
            let running = booted(reserved(s, name, mac, tap), started_at);
            &&& refusal(running, SlotCommand::ReleaseVm) is None
            &&& status_after(running, SlotCommand::ReleaseVm) == (SlotStatus {
                generation: (s.generation + 2) as u64,
                pid: None,
                ..s
            })
        }),
{
}

} // verus!

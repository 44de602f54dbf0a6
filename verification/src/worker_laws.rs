//! What each command and each event does to a slot, field by field.
use vstd::prelude::*;

use crate::pool::{PoolError, PoolErrorView, SlotState, SlotStatus};
use crate::service::{READY_DEADLINE, READY_PAUSE};
use crate::slot_supervisor::{
    booted, command_action, emptied, fresh_status, refusal, reserved, runtime_after_command,
    spawnable, supervised, ActionView, SlotCommand, SlotRuntime, Supervisor, SupervisorAction,
    SupervisorEvent, SupervisorPhase, WORKER_PAUSE,
};

verus! {

/// A slot begins empty: nothing is known of it but its number.
pub proof fn law_fresh_slot_is_empty(slot: usize)
    ensures
        fresh_status(slot) == (SlotStatus {
            slot,
            generation: 0,
            state: SlotState::Empty,
            name: None,
            mac: None,
            tap: None,
            pid: None,
            started_at: None,
            last_error: None,
        }),
{
}

/// A reservation puts the machine into the slot and keeps the slot's number and process.
pub proof fn law_reservation_names_the_machine(
    s: SlotStatus,
    name: String,
    mac: String,
    tap: String,
)
    requires
        s.generation < u64::MAX,
    ensures
        ({
            let r = reserved(s, name, mac, tap);
            &&& r.slot == s.slot
            &&& r.generation == s.generation + 1
            &&& r.state == SlotState::Booting
            &&& r.name == Some(name)
            &&& r.mac == Some(mac)
            &&& r.tap == Some(tap)
            &&& r.pid == s.pid
            &&& r.started_at is None
            &&& r.last_error is None
        }),
{
}

/// A slot only changes its state and the time of its boot when its machine has booted.
pub proof fn law_booting_keeps_the_machine(s: SlotStatus, started_at: String)
    ensures
        ({
            let b = booted(s, started_at);
            &&& b.state == SlotState::Occupied
            &&& b.started_at == Some(started_at)
            &&& b.slot == s.slot
            &&& b.generation == s.generation
            &&& b.name == s.name
            &&& b.mac == s.mac
            &&& b.tap == s.tap
            &&& b.pid == s.pid
            &&& b.last_error == s.last_error
        }),
{
}

/// Nothing of a machine is left in a slot that was emptied.
pub proof fn law_emptied_slot_forgets_its_machine(s: SlotStatus)
    requires
        s.generation < u64::MAX,
    ensures
        ({
            let e = emptied(s);
            &&& e.slot == s.slot
            &&& e.generation == s.generation + 1
            &&& e.state == SlotState::Empty
            &&& e.name is None
            &&& e.mac is None
            &&& e.tap is None
            &&& e.pid is None
            &&& e.started_at is None
            &&& e.last_error is None
        }),
{
}

/// Which commands a slot refuses, and how: a reservation unless it is empty, the news of a boot
/// unless it boots, a release unless it is occupied, and nothing else.
pub proof fn law_slot_refuses_what_does_not_fit(
    s: SlotStatus,
    name: String,
    mac: String,
    tap: String,
    started_at: String,
)
    ensures
        refusal(s, SlotCommand::ReserveVm { name, mac, tap }) == (if s.state == SlotState::Empty {
            None
        } else {
            Some(
                PoolErrorView::InvalidTransition {
                    slot: s.slot,
                    from: s.state,
                    action: "claim"@,
                },
            )
        }),
        refusal(s, SlotCommand::MarkVmBooted { started_at }) == (if s.state == SlotState::Booting {
            None
        } else {
            Some(
                PoolErrorView::InvalidTransition {
                    slot: s.slot,
                    from: s.state,
                    action: "mark_booted"@,
                },
            )
        }),
        refusal(s, SlotCommand::ReleaseVm) == (if s.state == SlotState::Occupied {
            None
        } else {
            Some(
                PoolErrorView::InvalidTransition {
                    slot: s.slot,
                    from: s.state,
                    action: "release"@,
                },
            )
        }),
        refusal(s, SlotCommand::ResetVm) is None,
        refusal(s, SlotCommand::GetVmStatus) is None,
{
}

/// A question for the status changes nothing and is answered with the status.
pub proof fn law_status_is_told<C>(r: SlotRuntime<C>)
    ensures
        runtime_after_command(r, SlotCommand::GetVmStatus) == r,
        command_action(r.status, r.child, SlotCommand::GetVmStatus) == (ActionView::<C> {
            stop_child: None,
            remove_socket: false,
            reply: Some(Ok(r.status)),
        }),
{
}

/// A booting machine is marked as booted, at the time that is given, and its process goes on.
pub proof fn law_booted_machine_occupies_its_slot<C>(r: SlotRuntime<C>, started_at: String)
    requires
        r.status.state == SlotState::Booting,
    ensures
        ({
            let after = runtime_after_command(r, SlotCommand::MarkVmBooted { started_at });
            &&& after.child == r.child
            &&& after.status == (SlotStatus {
                state: SlotState::Occupied,
                started_at: Some(started_at),
                ..r.status
            })
            &&& command_action(r.status, r.child, SlotCommand::MarkVmBooted { started_at })
                == (ActionView::<C> {
                stop_child: None,
                remove_socket: false,
                reply: Some(Ok(after.status)),
            })
        }),
{
}

/// Releasing an occupied slot, and resetting any, ends its process, removes its socket and leaves
/// the slot empty; the answer is the slot as it is then.
pub proof fn law_release_and_reset_empty_the_slot<C>(r: SlotRuntime<C>, reset: bool)
    requires
        reset || r.status.state == SlotState::Occupied,
        r.status.generation < u64::MAX,
    ensures
        ({
            let command = if reset {
                SlotCommand::ResetVm
            } else {
                SlotCommand::ReleaseVm
            };
            let after = runtime_after_command(r, command);
            &&& after.child is None
            &&& after.status == (SlotStatus {
                slot: r.status.slot,
                generation: (r.status.generation + 1) as u64,
                state: SlotState::Empty,
                name: None,
                mac: None,
                tap: None,
                pid: None,
                started_at: None,
                last_error: None,
            })
            &&& command_action(r.status, r.child, command) == (ActionView::<C> {
                stop_child: r.child,
                remove_socket: true,
                reply: Some(Ok(after.status)),
            })
        }),
{
}

/// A worker that may not end starts a process where there is none and its slot has not failed, and
/// looks for commands where there is nothing to start; a worker that is told to end does.
pub proof fn law_worker_starts_what_is_missing<C>(s: Supervisor<C>)
    requires
        s.phase is ReadShutdown,
    ensures
        ({
            let (go, action) = supervised(s, SupervisorEvent::<C>::Shutdown(false));
            &&& go.runtime == s.runtime
            &&& action.stop_child is None
            &&& action.reply is None
            &&& s.runtime.child is None && s.runtime.status.state != SlotState::Failed ==> (
            go.phase is SpawnChild && action.remove_socket)
            &&& s.runtime.child is Some || s.runtime.status.state == SlotState::Failed ==> (
            go.phase is TakeCommand && !action.remove_socket)
        }),
        ({
            let (end, action) = supervised(s, SupervisorEvent::<C>::Shutdown(true));
            &&& end.phase is Ended
            &&& end.runtime.status == s.runtime.status
            &&& end.runtime.child is None
            &&& action == (ActionView::<C> {
                stop_child: s.runtime.child,
                remove_socket: true,
                reply: None,
            })
        }),
{
}

/// A process that was started is kept and its number noted; a failed start fails the slot, with the
/// reason, and keeps what is known of its machine.
pub proof fn law_start_is_noted<C>(s: Supervisor<C>, child: C, pid: Option<u32>, error: String)
    requires
        s.phase is SpawnChild,
    ensures
        ({
            let (up, action) = supervised(s, SupervisorEvent::Spawned { child, pid });
            &&& up.phase is TakeCommand
            &&& up.runtime.child == Some(child)
            &&& up.runtime.status == (SlotStatus { pid, last_error: None, ..s.runtime.status })
            &&& action == (ActionView::<C> { stop_child: None, remove_socket: false, reply: None })
        }),
        ({
            let (down, action) = supervised(s, SupervisorEvent::<C>::SpawnFailed(error));
            &&& down.phase is TakeCommand
            &&& down.runtime.child == s.runtime.child
            &&& down.runtime.status == (SlotStatus {
                state: SlotState::Failed,
                last_error: Some(error),
                pid: None,
                ..s.runtime.status
            })
            &&& action == (ActionView::<C> { stop_child: None, remove_socket: false, reply: None })
        }),
{
}

/// Queued commands are obeyed one after the other; once there is none, the process is looked at, or
/// where there is none the worker pauses.
pub proof fn law_queue_is_emptied_first<C>(s: Supervisor<C>, command: SlotCommand)
    requires
        s.phase is TakeCommand,
    ensures
        ({
            let (next, action) = supervised(s, SupervisorEvent::<C>::NoCommand);
            &&& next.runtime == s.runtime
            &&& s.runtime.child is Some ==> next.phase is PollChild
            &&& s.runtime.child is None ==> next.phase is AwaitWake
            &&& action == (ActionView::<C> { stop_child: None, remove_socket: false, reply: None })
        }),
        !(command is ReserveVm && s.runtime.status.state == SlotState::Empty) ==> supervised(
            s,
            SupervisorEvent::<C>::Command(command),
        ) == (
            Supervisor {
                runtime: runtime_after_command(s.runtime, command),
                phase: SupervisorPhase::TakeCommand,
            },
            command_action(s.runtime.status, s.runtime.child, command),
        ),
{
}

/// A process that is there is left alone. One that has ended is gone: an assigned machine ends with
/// it and its slot is empty, any other slot only loses the process. One that cannot be watched fails
/// its slot, with the reason. The socket goes with the process.
pub proof fn law_end_of_a_process_is_noticed<C>(s: Supervisor<C>, error: String)
    requires
        s.phase is PollChild,
        s.runtime.status.generation < u64::MAX,
    ensures
        supervised(s, SupervisorEvent::<C>::ChildRunning) == (
            Supervisor { runtime: s.runtime, phase: SupervisorPhase::AwaitWake },
            ActionView::<C> { stop_child: None, remove_socket: false, reply: None },
        ),
        supervised(s, SupervisorEvent::<C>::ChildExited) == (
            Supervisor {
                runtime: SlotRuntime::<C> {
                    status: if s.runtime.status.state == SlotState::Booting
                        || s.runtime.status.state == SlotState::Occupied {
                        SlotStatus {
                            slot: s.runtime.status.slot,
                            generation: (s.runtime.status.generation + 1) as u64,
                            state: SlotState::Empty,
                            name: None,
                            mac: None,
                            tap: None,
                            pid: None,
                            started_at: None,
                            last_error: None,
                        }
                    } else {
                        SlotStatus { pid: None, ..s.runtime.status }
                    },
                    child: None,
                },
                phase: SupervisorPhase::AwaitWake,
            },
            ActionView::<C> { stop_child: None, remove_socket: true, reply: None },
        ),
        supervised(s, SupervisorEvent::<C>::ChildPollFailed(error)) == (
            Supervisor {
                runtime: SlotRuntime::<C> {
                    status: SlotStatus {
                        state: SlotState::Failed,
                        last_error: Some(error),
                        pid: None,
                        ..s.runtime.status
                    },
                    child: None,
                },
                phase: SupervisorPhase::AwaitWake,
            },
            ActionView::<C> { stop_child: None, remove_socket: true, reply: None },
        ),
{
}

/// A pausing worker goes on when time has passed or the signal asks for nothing, obeys a command,
/// and ends when it is told to, or when nobody is left who could tell it anything.
pub proof fn law_pause_ends<C>(
    s: Supervisor<C>,
    abandoned: bool,
    requested: bool,
    command: SlotCommand,
)
    requires
        s.phase is AwaitWake,
    ensures
        supervised(s, SupervisorEvent::<C>::Tick) == (
            Supervisor { runtime: s.runtime, phase: SupervisorPhase::ReadShutdown },
            ActionView::<C> { stop_child: None, remove_socket: false, reply: None },
        ),
        !abandoned && !requested ==> supervised(
            s,
            SupervisorEvent::<C>::ShutdownChanged { abandoned, requested },
        ) == (
            Supervisor { runtime: s.runtime, phase: SupervisorPhase::ReadShutdown },
            ActionView::<C> { stop_child: None, remove_socket: false, reply: None },
        ),
        abandoned || requested ==> supervised(
            s,
            SupervisorEvent::<C>::ShutdownChanged { abandoned, requested },
        ) == (
            Supervisor {
                runtime: SlotRuntime::<C> { status: s.runtime.status, child: None },
                phase: SupervisorPhase::Ended,
            },
            ActionView::<C> { stop_child: s.runtime.child, remove_socket: true, reply: None },
        ),
        supervised(s, SupervisorEvent::<C>::CommandsClosed) == (
            Supervisor {
                runtime: SlotRuntime::<C> { status: s.runtime.status, child: None },
                phase: SupervisorPhase::Ended,
            },
            ActionView::<C> { stop_child: s.runtime.child, remove_socket: true, reply: None },
        ),
        !(command is ReserveVm && s.runtime.status.state == SlotState::Empty) ==> supervised(
            s,
            SupervisorEvent::<C>::Command(command),
        ) == (
            Supervisor {
                runtime: runtime_after_command(s.runtime, command),
                phase: SupervisorPhase::ReadShutdown,
            },
            command_action(s.runtime.status, s.runtime.child, command),
        ),
{
}

/// A reservation of an empty slot waits for the tap device that it names; once that is ready the
/// machine is in the slot and the answer says so, and where it is not the slot stays as it was and
/// the answer is the reason.
pub proof fn law_reservation_waits_for_its_tap_device<C>(
    s: Supervisor<C>,
    name: String,
    mac: String,
    tap: String,
    error: PoolError,
)
    requires
        s.phase is TakeCommand || s.phase is AwaitWake,
        s.runtime.status.state == SlotState::Empty,
        s.runtime.status.generation < u64::MAX,
    ensures
        ({
            let draining = s.phase is TakeCommand;
            let back = if draining {
                SupervisorPhase::TakeCommand
            } else {
                SupervisorPhase::ReadShutdown
            };
            let nothing = ActionView::<C> { stop_child: None, remove_socket: false, reply: None };
            let (waits, first) = supervised(
                s,
                SupervisorEvent::<C>::Command(SlotCommand::ReserveVm { name, mac, tap }),
            );
            let taken = SlotStatus {
                state: SlotState::Booting,
                name: Some(name),
                mac: Some(mac),
                tap: Some(tap),
                generation: (s.runtime.status.generation + 1) as u64,
                last_error: None,
                started_at: None,
                ..s.runtime.status
            };
            &&& waits.runtime == s.runtime
            &&& waits.phase == (SupervisorPhase::PrepareTap { name, mac, tap, draining })
            &&& first == nothing
            &&& supervised(waits, SupervisorEvent::<C>::TapPrepared(Ok(()))) == (
                Supervisor {
                    runtime: SlotRuntime::<C> { status: taken, child: s.runtime.child },
                    phase: back,
                },
                ActionView::<C> { reply: Some(Ok(taken)), ..nothing },
            )
            &&& supervised(waits, SupervisorEvent::<C>::TapPrepared(Err(error))) == (
                Supervisor { runtime: s.runtime, phase: back },
                ActionView::<C> { reply: Some(Err(error@)), ..nothing },
            )
        }),
{
}

/// Which states entitle a slot to a process.
pub proof fn law_all_but_failed_slots_get_a_process(state: SlotState)
    ensures
        spawnable(state) <==> state == SlotState::Empty || state == SlotState::Booting || state
            == SlotState::Occupied,
{
}

/// Which events a worker can take, by what it waits for.
pub proof fn law_worker_takes_what_it_waits_for<C>(s: Supervisor<C>, event: SupervisorEvent<C>)
    ensures
        s.expects(event) <==> {
            ||| s.phase is ReadShutdown && event is Shutdown
            ||| s.phase is SpawnChild && (event is Spawned || event is SpawnFailed)
            ||| s.phase is TakeCommand && (event is Command || event is NoCommand)
            ||| s.phase is PollChild && (event is ChildExited || event is ChildRunning
                || event is ChildPollFailed)
            ||| s.phase is AwaitWake && (event is ShutdownChanged || event is Command
                || event is CommandsClosed || event is Tick)
            ||| s.phase is PrepareTap && event is TapPrepared
        },
{
}

/// Which events take a machine out of a slot or put one in.
pub proof fn law_machines_change_with_these_events<C>(s: Supervisor<C>, event: SupervisorEvent<C>)
    ensures
        s.reassigns(event) <==> {
            ||| event is Command && event->Command_0 is ResetVm
            ||| event is Command && event->Command_0 is ReleaseVm && s.runtime.status.state
                == SlotState::Occupied
            ||| event is ChildExited && (s.runtime.status.state == SlotState::Booting
                || s.runtime.status.state == SlotState::Occupied)
            ||| event is TapPrepared && event->TapPrepared_0 is Ok
        },
{
}

/// What it means that a slot is consistent with its state.
pub proof fn law_consistent_slot_knows_its_machine<C>(r: SlotRuntime<C>)
    ensures
        r.wf() <==> {
            let s = r.status;
            let assigned = s.name is Some && s.mac is Some && s.tap is Some;
            &&& s.state == SlotState::Empty ==> s.name is None && s.mac is None && s.tap is None
                && s.started_at is None
            &&& s.state == SlotState::Booting ==> assigned && s.started_at is None
            &&& s.state == SlotState::Occupied ==> assigned && s.started_at is Some
            &&& s.state == SlotState::Failed ==> r.child is None
            &&& s.last_error is Some <==> s.state == SlotState::Failed
            &&& s.pid is Some ==> r.child is Some
        },
{
}

/// What it means that a worker is consistent with what it waits for.
pub proof fn law_consistent_worker_knows_its_process<C>(s: Supervisor<C>)
    ensures
        s.wf() <==> {
            &&& s.phase is Ended || s.runtime.wf()
            &&& s.phase is SpawnChild ==> s.runtime.child is None && s.runtime.status.state
                != SlotState::Failed
            &&& s.phase is PollChild ==> s.runtime.child is Some
            &&& s.phase is PrepareTap ==> s.runtime.status.state == SlotState::Empty
            &&& s.phase is Ended ==> s.runtime.child is None
        },
{
}

/// A command that finds the slot in the wrong state changes nothing and has nothing done, but is
/// answered with the error that names it.
pub proof fn law_command_in_the_wrong_state_does_nothing<C>(r: SlotRuntime<C>, c: SlotCommand)
    requires
        c is ReserveVm && r.status.state != SlotState::Empty || c is MarkVmBooted
            && r.status.state != SlotState::Booting || c is ReleaseVm && r.status.state
            != SlotState::Occupied,
    ensures
        runtime_after_command(r, c) == r,
        command_action(r.status, r.child, c) == (ActionView::<C> {
            stop_child: None,
            remove_socket: false,
            reply: Some(
                Err(
                    PoolErrorView::InvalidTransition {
                        slot: r.status.slot,
                        from: r.status.state,
                        action: if c is ReserveVm {
                            "claim"@
                        } else if c is MarkVmBooted {
                            "mark_booted"@
                        } else {
                            "release"@
                        },
                    },
                ),
            ),
        }),
{
}

/// A reservation alone does not change a slot yet.
pub proof fn law_asking_for_a_slot_does_not_change_it<C>(
    r: SlotRuntime<C>,
    name: String,
    mac: String,
    tap: String,
)
    ensures
        runtime_after_command(r, SlotCommand::ReserveVm { name, mac, tap }) == r,
{
}

/// The pauses and deadlines are a fifth of a second for a worker, and for a slot that is waited for
/// a twentieth of a second, for five seconds.
pub proof fn law_times_are_in_nanoseconds()
    ensures
        5 * WORKER_PAUSE == 1_000_000_000,
        20 * READY_PAUSE == 1_000_000_000,
        READY_DEADLINE == 5 * 1_000_000_000,
{
}

/// What a worker wants done is shown with all that it says.
pub proof fn law_worker_actions_are_shown_in_full<C>(
    stop_child: Option<C>,
    remove_socket: bool,
    status: SlotStatus,
    error: PoolError,
)
    ensures
        (SupervisorAction { stop_child, remove_socket, reply: None })@ == (ActionView {
            stop_child,
            remove_socket,
            reply: None,
        }),
        (SupervisorAction { stop_child, remove_socket, reply: Some(Ok(status)) })@ == (ActionView {
            stop_child,
            remove_socket,
            reply: Some(Ok(status)),
        }),
        (SupervisorAction { stop_child, remove_socket, reply: Some(Err(error)) })@ == (ActionView {
            stop_child,
            remove_socket,
            reply: Some(Err(error@)),
        }),
{
}

} // verus!

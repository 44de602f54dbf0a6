use croutond::pool::{PoolError, SlotState, SlotStatus};
use croutond::slot_supervisor::{
    finish_reservation, handle_command, should_spawn, CommandProgress, SlotCommand, SlotRuntime,
    Supervisor, SupervisorAction, SupervisorEvent, SupervisorPhase, WORKER_PAUSE,
};

type Worker = Supervisor<&'static str>;
type Event = SupervisorEvent<&'static str>;

fn reserve() -> SlotCommand {
    SlotCommand::ReserveVm {
        name: "vm".to_string(),
        mac: "02:00".to_string(),
        tap: "tap5".to_string(),
    }
}

fn booted() -> SlotCommand {
    SlotCommand::MarkVmBooted { started_at: "noon".to_string() }
}

fn feed(worker: &mut Worker, event: Event) -> SupervisorAction<&'static str> {
    assert!(worker.is_expected(&event));
    worker.supervise_slot(event)
}

fn reply(action: SupervisorAction<&'static str>) -> SlotStatus {
    action.reply.expect("an answer").expect("obeyed")
}

fn refusal(action: SupervisorAction<&'static str>) -> (usize, SlotState, &'static str) {
    assert!(action.stop_child.is_none());
    assert!(!action.remove_socket);
    match action.reply.expect("an answer") {
        Err(PoolError::InvalidTransition { slot, from, action }) => (slot, from, action),
        other => panic!("unexpected answer: {other:?}"),
    }
}

fn started() -> Worker {
    let mut worker = Worker::new(5);
    let action = feed(&mut worker, Event::Shutdown(false));
    assert!(action.remove_socket && action.stop_child.is_none() && action.reply.is_none());
    assert!(matches!(worker.phase, SupervisorPhase::SpawnChild));
    feed(&mut worker, Event::Spawned { child: "p1", pid: Some(11) });
    assert!(matches!(worker.phase, SupervisorPhase::TakeCommand));
    worker
}

fn occupied() -> Worker {
    let mut worker = started();
    let action = feed(&mut worker, Event::Command(reserve()));
    assert!(action.reply.is_none());
    assert!(matches!(worker.phase, SupervisorPhase::PrepareTap { .. }));
    let status = reply(feed(&mut worker, Event::TapPrepared(Ok(()))));
    assert_eq!(status.state, SlotState::Booting);
    let status = reply(feed(&mut worker, Event::Command(booted())));
    assert_eq!(status.state, SlotState::Occupied);
    worker
}

#[test]
fn failed_slots_get_no_process() {
    assert!(should_spawn(SlotState::Empty));
    assert!(should_spawn(SlotState::Booting));
    assert!(should_spawn(SlotState::Occupied));
    assert!(!should_spawn(SlotState::Failed));
}

#[test]
fn a_new_slot_is_empty() {
    let worker = Worker::new(5);
    let status = worker.runtime.status;
    assert_eq!(status.slot, 5);
    assert_eq!(status.generation, 0);
    assert_eq!(status.state, SlotState::Empty);
    assert!(status.name.is_none() && status.pid.is_none() && status.last_error.is_none());
    assert!(worker.runtime.child.is_none());
}

#[test]
fn a_machine_is_reserved_booted_and_released() {
    let mut worker = occupied();
    {
        let status = &worker.runtime.status;
        assert_eq!(status.name.as_deref(), Some("vm"));
        assert_eq!(status.mac.as_deref(), Some("02:00"));
        assert_eq!(status.tap.as_deref(), Some("tap5"));
        assert_eq!(status.started_at.as_deref(), Some("noon"));
        assert_eq!(status.pid, Some(11));
        assert_eq!(status.generation, 1);
    }
    let action = feed(&mut worker, Event::Command(SlotCommand::ReleaseVm));
    assert_eq!(action.stop_child, Some("p1"));
    assert!(action.remove_socket);
    let status = reply(action);
    assert_eq!(status.state, SlotState::Empty);
    assert_eq!(status.generation, 2);
    assert!(status.name.is_none() && status.mac.is_none() && status.tap.is_none());
    assert!(status.pid.is_none() && status.started_at.is_none() && status.last_error.is_none());
    assert!(worker.runtime.child.is_none());
    assert!(matches!(worker.phase, SupervisorPhase::TakeCommand));
}

#[test]
fn commands_are_refused_in_other_states() {
    let mut worker = started();
    assert_eq!(
        refusal(feed(&mut worker, Event::Command(booted()))),
        (5, SlotState::Empty, "mark_booted")
    );
    assert_eq!(
        refusal(feed(&mut worker, Event::Command(SlotCommand::ReleaseVm))),
        (5, SlotState::Empty, "release")
    );
    let mut worker = occupied();
    assert_eq!(
        refusal(feed(&mut worker, Event::Command(reserve()))),
        (5, SlotState::Occupied, "claim")
    );
    let status = reply(feed(&mut worker, Event::Command(SlotCommand::GetVmStatus)));
    assert_eq!(status.state, SlotState::Occupied);
    assert_eq!(status.generation, 1);
    assert_eq!(worker.runtime.child, Some("p1"));
}

#[test]
fn reset_empties_a_slot_in_any_state() {
    let mut worker = occupied();
    let action = feed(&mut worker, Event::Command(SlotCommand::ResetVm));
    assert_eq!(action.stop_child, Some("p1"));
    assert_eq!(reply(action).state, SlotState::Empty);

    let mut worker = started();
    let action = feed(&mut worker, Event::Command(SlotCommand::ResetVm));
    assert_eq!(action.stop_child, Some("p1"));
    assert_eq!(reply(action).generation, 1);
}

#[test]
fn a_reservation_without_a_tap_device_is_undone() {
    let mut worker = started();
    feed(&mut worker, Event::Command(reserve()));
    let action = feed(&mut worker, Event::TapPrepared(Err(PoolError::Backend("no tap".to_string()))));
    match action.reply {
        Some(Err(PoolError::Backend(message))) => assert_eq!(message, "no tap"),
        other => panic!("unexpected answer: {other:?}"),
    }
    assert_eq!(worker.runtime.status.state, SlotState::Empty);
    assert_eq!(worker.runtime.status.generation, 0);
    assert!(worker.runtime.status.name.is_none());
    assert!(matches!(worker.phase, SupervisorPhase::TakeCommand));
}

#[test]
fn the_end_of_a_guest_frees_its_slot() {
    let mut worker = occupied();
    feed(&mut worker, Event::NoCommand);
    assert!(matches!(worker.phase, SupervisorPhase::PollChild));
    let action = feed(&mut worker, Event::ChildExited);
    assert!(action.remove_socket && action.stop_child.is_none());
    assert_eq!(worker.runtime.status.state, SlotState::Empty);
    assert_eq!(worker.runtime.status.generation, 2);
    assert!(worker.runtime.status.name.is_none() && worker.runtime.status.pid.is_none());
    assert!(worker.runtime.child.is_none());
    assert!(matches!(worker.phase, SupervisorPhase::AwaitWake));
    feed(&mut worker, Event::Tick);
    assert!(matches!(worker.phase, SupervisorPhase::ReadShutdown));
    feed(&mut worker, Event::Shutdown(false));
    assert!(matches!(worker.phase, SupervisorPhase::SpawnChild));
}

#[test]
fn an_idle_process_that_ends_is_replaced() {
    let mut worker = started();
    feed(&mut worker, Event::NoCommand);
    feed(&mut worker, Event::ChildExited);
    assert_eq!(worker.runtime.status.generation, 0);
    assert_eq!(worker.runtime.status.pid, None);
    feed(&mut worker, Event::Tick);
    feed(&mut worker, Event::Shutdown(false));
    feed(&mut worker, Event::Spawned { child: "p2", pid: None });
    assert_eq!(worker.runtime.child, Some("p2"));
    assert_eq!(worker.runtime.status.pid, None);
}

#[test]
fn a_failed_slot_stays_failed_until_it_is_reset() {
    let mut worker = Worker::new(5);
    feed(&mut worker, Event::Shutdown(false));
    feed(&mut worker, Event::SpawnFailed("no program".to_string()));
    assert_eq!(worker.runtime.status.state, SlotState::Failed);
    assert_eq!(worker.runtime.status.last_error.as_deref(), Some("no program"));
    assert_eq!(
        refusal(feed(&mut worker, Event::Command(reserve()))),
        (5, SlotState::Failed, "claim")
    );
    feed(&mut worker, Event::NoCommand);
    assert!(matches!(worker.phase, SupervisorPhase::AwaitWake));
    feed(&mut worker, Event::Tick);
    let action = feed(&mut worker, Event::Shutdown(false));
    assert!(!action.remove_socket);
    assert!(matches!(worker.phase, SupervisorPhase::TakeCommand));
    let status = reply(feed(&mut worker, Event::Command(SlotCommand::ResetVm)));
    assert_eq!(status.state, SlotState::Empty);
    assert!(status.last_error.is_none());
}

#[test]
fn a_process_that_cannot_be_watched_fails_its_slot() {
    let mut worker = occupied();
    feed(&mut worker, Event::NoCommand);
    let action = feed(&mut worker, Event::ChildPollFailed("gone".to_string()));
    assert!(action.remove_socket);
    let status = &worker.runtime.status;
    assert_eq!(status.state, SlotState::Failed);
    assert_eq!(status.last_error.as_deref(), Some("gone"));
    assert_eq!(status.name.as_deref(), Some("vm"));
    assert_eq!(status.generation, 1);
    assert!(status.pid.is_none());
    assert!(worker.runtime.child.is_none());
}

#[test]
fn a_running_process_is_left_alone() {
    let mut worker = occupied();
    feed(&mut worker, Event::NoCommand);
    let action = feed(&mut worker, Event::ChildRunning);
    assert!(!action.remove_socket && action.stop_child.is_none());
    assert!(matches!(worker.phase, SupervisorPhase::AwaitWake));
    let action = feed(&mut worker, Event::Command(SlotCommand::GetVmStatus));
    assert_eq!(reply(action).state, SlotState::Occupied);
    assert!(matches!(worker.phase, SupervisorPhase::ReadShutdown));
}

#[test]
fn workers_end_clean() {
    let endings: [fn() -> Event; 4] = [
        || Event::Shutdown(true),
        || Event::ShutdownChanged { abandoned: true, requested: false },
        || Event::ShutdownChanged { abandoned: false, requested: true },
        || Event::CommandsClosed,
    ];
    for (i, ending) in endings.iter().enumerate() {
        let mut worker = occupied();
        feed(&mut worker, Event::NoCommand);
        feed(&mut worker, Event::ChildRunning);
        if i == 0 {
            feed(&mut worker, Event::Tick);
        }
        let action = feed(&mut worker, ending());
        assert_eq!(action.stop_child, Some("p1"));
        assert!(action.remove_socket);
        assert!(worker.runtime.child.is_none());
        assert!(matches!(worker.phase, SupervisorPhase::Ended));
        assert!(!worker.is_expected(&Event::Tick));
    }
}

#[test]
fn a_change_of_the_signal_that_asks_for_nothing_is_passed_over() {
    let mut worker = started();
    feed(&mut worker, Event::NoCommand);
    feed(&mut worker, Event::ChildRunning);
    feed(&mut worker, Event::ShutdownChanged { abandoned: false, requested: false });
    assert!(matches!(worker.phase, SupervisorPhase::ReadShutdown));
}

#[test]
fn only_events_that_are_waited_for_are_expected() {
    let worker = Worker::new(0);
    assert!(worker.is_expected(&Event::Shutdown(false)));
    assert!(!worker.is_expected(&Event::Tick));
    assert!(!worker.is_expected(&Event::NoCommand));
    let worker = started();
    assert!(worker.is_expected(&Event::NoCommand));
    assert!(!worker.is_expected(&Event::ChildExited));
}

#[test]
fn commands_can_be_handled_one_by_one() {
    let mut runtime: SlotRuntime<u8> = SlotRuntime {
        status: Worker::new(2).runtime.status,
        child: Some(1),
    };
    match handle_command(reserve(), &mut runtime) {
        CommandProgress::NeedsTap { name, mac, tap } => {
            let status = finish_reservation(&mut runtime, name, mac, tap, Ok(())).expect("reserved");
            assert_eq!(status.state, SlotState::Booting);
            assert_eq!(status.generation, 1);
            assert_eq!(runtime.child, Some(1));
        }
        CommandProgress::Done(_) => panic!("a reservation waits for its tap device"),
    }
}

#[test]
fn a_slot_is_kept_warm() {
    let mut worker = occupied();
    feed(&mut worker, Event::Command(SlotCommand::ReleaseVm));
    feed(&mut worker, Event::NoCommand);
    assert!(matches!(worker.phase, SupervisorPhase::AwaitWake));
    feed(&mut worker, Event::Tick);
    let action = feed(&mut worker, Event::Shutdown(false));
    assert!(action.remove_socket);
    assert!(matches!(worker.phase, SupervisorPhase::SpawnChild));
    feed(&mut worker, Event::Spawned { child: "p2", pid: Some(12) });
    assert_eq!(worker.runtime.child, Some("p2"));
    assert_eq!(worker.runtime.status.pid, Some(12));
    assert_eq!(worker.runtime.status.state, SlotState::Empty);
}

#[test]
fn a_slot_is_marked_as_booted_whether_or_not_its_process_is_held() {
    for child in [None, Some(1)] {
        let mut runtime: SlotRuntime<u8> = SlotRuntime {
            status: SlotStatus {
                slot: 2,
                generation: 5,
                state: SlotState::Booting,
                name: Some("a".to_string()),
                mac: Some("02:00:00:00:00:01".to_string()),
                tap: Some("tap2".to_string()),
                pid: Some(42),
                started_at: None,
                last_error: None,
            },
            child,
        };
        let command = SlotCommand::MarkVmBooted { started_at: "t1".to_string() };
        let answer = match handle_command(command, &mut runtime) {
            CommandProgress::Done(action) => {
                assert!(action.stop_child.is_none() && !action.remove_socket);
                action.reply.expect("an answer").expect("obeyed")
            }
            CommandProgress::NeedsTap { .. } => panic!("nothing to wait for"),
        };
        for status in [&answer, &runtime.status] {
            assert_eq!((status.slot, status.generation), (2, 5));
            assert_eq!(status.state, SlotState::Occupied);
            assert_eq!(status.name.as_deref(), Some("a"));
            assert_eq!(status.mac.as_deref(), Some("02:00:00:00:00:01"));
            assert_eq!(status.tap.as_deref(), Some("tap2"));
            assert_eq!(status.pid, Some(42));
            assert_eq!(status.started_at.as_deref(), Some("t1"));
            assert_eq!(status.last_error, None);
        }
        assert_eq!(runtime.child, child);
    }
}

#[test]
fn events_that_reassign_a_slot_are_known_beforehand() {
    let empty = started();
    assert!(empty.would_reassign(&Event::Command(SlotCommand::ResetVm)));
    assert!(!empty.would_reassign(&Event::Command(SlotCommand::ReleaseVm)));
    assert!(!empty.would_reassign(&Event::Command(reserve())));
    assert!(!empty.would_reassign(&Event::Command(SlotCommand::GetVmStatus)));
    assert!(!empty.would_reassign(&Event::ChildExited));
    assert!(empty.would_reassign(&Event::TapPrepared(Ok(()))));
    assert!(!empty.would_reassign(&Event::TapPrepared(Err(PoolError::ChannelClosed))));
    let taken = occupied();
    assert!(taken.would_reassign(&Event::Command(SlotCommand::ReleaseVm)));
    assert!(taken.would_reassign(&Event::ChildExited));
    assert!(!taken.would_reassign(&Event::ChildPollFailed("gone".to_string())));
}

#[test]
fn a_slot_is_not_claimed_twice() {
    let mut worker = occupied();
    feed(&mut worker, Event::NoCommand);
    feed(&mut worker, Event::ChildPollFailed("gone".to_string()));
    assert_eq!(worker.runtime.status.name.as_deref(), Some("vm"));
    assert_eq!(
        refusal(feed(&mut worker, Event::Command(reserve()))),
        (5, SlotState::Failed, "claim")
    );
}

#[test]
fn workers_look_at_their_slots_five_times_a_second() {
    assert_eq!(WORKER_PAUSE, 200_000_000);
}

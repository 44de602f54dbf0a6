//! What holds of the operations on machines as a whole.
use vstd::prelude::*;

use crate::ch_client::HttpMethod;
use crate::error::ApiErrorView;
use crate::json::json_bytes;
use crate::pool::{
    runtime_or_error, PoolError, PoolErrorView, ProxyResponse, SlotState, SlotStatus,
    VmRuntime, VmState,
};
use crate::service::{
    bare_request, create_next, creation_path, delete_next, json_request, mac_of,
    passthrough_next, proxy_action_next, ready_next, refused, CreatePhase, CreateVm, DeletePhase,
    DeleteVm, Passthrough, ProxyAction, ProxyPhase, ReadyEvent, ReadyStepView, ServiceActionView,
    ServiceEvent, READY_DEADLINE, READY_PAUSE,
};
use crate::slot_supervisor::{booted, reserved};
use crate::text::begins_with;
use crate::vm_payload::{backend_error_message, restore_request, vm_request};
use crate::vm_validation::BootConfig;

verus! {

/// A network address has six groups of two digits, and the first says that it is assigned locally.
pub proof fn law_mac_is_assigned_locally(digest: Seq<u8>)
    ensures
        mac_of(digest).len() == 17,
        begins_with(mac_of(digest), "02:"@),
{
    reveal_strlit("02:");
    reveal_strlit(":");
    assert(mac_of(digest).take(3) =~= "02:"@);
}

/// The actions that a creation asks for when these events come in, one after the other.
pub open spec fn create_run(s: CreateVm, events: Seq<ServiceEvent>, started_at: String) -> Seq<
    ServiceActionView<VmRuntime>,
>
    decreases events.len(),
{
    if events.len() == 0 {
        Seq::empty()
    } else {
        let (next, action) = create_next(s, events[0], started_at);
        seq![action] + create_run(next, events.skip(1), started_at)
    }
}

/// The creation of a machine, where nothing fails: the slot is waited for, the machine is created
/// and booted, waited for, and marked with the time at which its slot became ready.
pub proof fn law_creation_boots_the_machine(
    config: BootConfig,
    slot: SlotStatus,
    created: ProxyResponse,
    boot: ProxyResponse,
    marked: SlotStatus,
    runtime: VmRuntime,
    started_at: String,
)
    requires
        config.snapshot_path is None,
        !refused(created),
        !refused(boot),
        runtime_or_error(marked) == Ok::<VmRuntime, PoolErrorView>(runtime),
    ensures
        create_run(
            (CreateVm { config, phase: CreatePhase::Allocating }),
            seq![
                ServiceEvent::Slot(Ok(slot)),
                ServiceEvent::Ready(Ok(())),
                ServiceEvent::Answered(Ok(created)),
                ServiceEvent::Answered(Ok(boot)),
                ServiceEvent::Ready(Ok(())),
                ServiceEvent::Slot(Ok(marked)),
            ],
            started_at,
        ) == seq![
            ServiceActionView::<VmRuntime>::AwaitReady { slot: slot.slot },
            ServiceActionView::Send(
                json_request(
                    slot.slot,
                    "/api/v1/vm.create"@,
                    json_bytes(vm_request(config, slot)),
                ),
            ),
            ServiceActionView::Send(bare_request(slot.slot, HttpMethod::Put, "/api/v1/vm.boot"@)),
            ServiceActionView::AwaitReady { slot: slot.slot },
            ServiceActionView::MarkBooted { slot: slot.slot, started_at },
            ServiceActionView::Finish(Ok(runtime)),
        ],
{
    reveal_with_fuel(create_run, 7);
    let events = seq![
        ServiceEvent::Slot(Ok(slot)),
        ServiceEvent::Ready(Ok(())),
        ServiceEvent::Answered(Ok(created)),
        ServiceEvent::Answered(Ok(boot)),
        ServiceEvent::Ready(Ok(())),
        ServiceEvent::Slot(Ok(marked)),
    ];
    assert(creation_path(config) == "/api/v1/vm.create"@);
    assert(events.skip(1).skip(1) =~= events.skip(2));
    assert(events.skip(2).skip(1) =~= events.skip(3));
    assert(events.skip(3).skip(1) =~= events.skip(4));
    assert(events.skip(4).skip(1) =~= events.skip(5));
    assert(events.skip(5).skip(1) =~= Seq::empty());
}

/// The creation of a machine from a snapshot, where nothing fails: the same, but the machine is
/// restored and not booted.
pub proof fn law_creation_restores_the_machine(
    config: BootConfig,
    slot: SlotStatus,
    restored: ProxyResponse,
    marked: SlotStatus,
    runtime: VmRuntime,
    started_at: String,
)
    requires
        config.snapshot_path is Some,
        !refused(restored),
        runtime_or_error(marked) == Ok::<VmRuntime, PoolErrorView>(runtime),
    ensures
        create_run(
            (CreateVm { config, phase: CreatePhase::Allocating }),
            seq![
                ServiceEvent::Slot(Ok(slot)),
                ServiceEvent::Ready(Ok(())),
                ServiceEvent::Answered(Ok(restored)),
                ServiceEvent::Ready(Ok(())),
                ServiceEvent::Slot(Ok(marked)),
            ],
            started_at,
        ) == seq![
            ServiceActionView::<VmRuntime>::AwaitReady { slot: slot.slot },
            ServiceActionView::Send(
                json_request(
                    slot.slot,
                    "/api/v1/vm.restore"@,
                    json_bytes(restore_request(config)),
                ),
            ),
            ServiceActionView::AwaitReady { slot: slot.slot },
            ServiceActionView::MarkBooted { slot: slot.slot, started_at },
            ServiceActionView::Finish(Ok(runtime)),
        ],
{
    reveal_with_fuel(create_run, 6);
    let events = seq![
        ServiceEvent::Slot(Ok(slot)),
        ServiceEvent::Ready(Ok(())),
        ServiceEvent::Answered(Ok(restored)),
        ServiceEvent::Ready(Ok(())),
        ServiceEvent::Slot(Ok(marked)),
    ];
    assert(creation_path(config) == "/api/v1/vm.restore"@);
    assert(events.skip(1).skip(1) =~= events.skip(2));
    assert(events.skip(2).skip(1) =~= events.skip(3));
    assert(events.skip(3).skip(1) =~= events.skip(4));
    assert(events.skip(4).skip(1) =~= Seq::empty());
}

/// The machine that a creation reports is the one that was asked for: it has the name and the
/// devices that its slot was reserved with, and the time at which its boot began.
pub proof fn law_created_machine_is_the_one_asked_for(
    config: BootConfig,
    free: SlotStatus,
    name: String,
    mac: String,
    tap: String,
    pid: u32,
    started_at: String,
    unused: String,
)
    requires
        free.pid == Some(pid),
    ensures
        create_next(
            (CreateVm { config, phase: CreatePhase::Marking }),
            ServiceEvent::Slot(Ok(booted(reserved(free, name, mac, tap), started_at))),
            unused,
        ).1 == ServiceActionView::Finish(
            Ok(VmRuntime { name, mac, tap, pid, state: VmState::Running, started_at }),
        ),
{
}

/// A refusal by the hypervisor has the slot reset before it is reported, whatever comes of the
/// reset.
pub proof fn law_refused_creation_resets_its_slot(
    config: BootConfig,
    slot: usize,
    started_at: String,
    booting: bool,
    refusal: ProxyResponse,
    reset: Result<SlotStatus, PoolError>,
    unused: String,
)
    requires
        refused(refusal),
    ensures
        ({
            let phase = if booting {
                CreatePhase::Booting { slot, started_at }
            } else {
                CreatePhase::Creating { slot, started_at }
            };
            let (next, action) = create_next(
                CreateVm { config, phase },
                ServiceEvent::Answered(Ok(refusal)),
                unused,
            );
            &&& action == ServiceActionView::<VmRuntime>::Reset { slot }
            &&& create_next(next, ServiceEvent::Slot(reset), unused).1
                == ServiceActionView::<VmRuntime>::Finish(
                Err(ApiErrorView::Backend(backend_error_message(refusal))),
            )
        }),
{
}

/// How many events a creation can still take.
pub open spec fn create_rank(phase: CreatePhase) -> nat {
    match phase {
        CreatePhase::Allocating => 6,
        CreatePhase::AwaitingSlot { .. } => 5,
        CreatePhase::Creating { .. } => 4,
        CreatePhase::Booting { .. } => 3,
        CreatePhase::AwaitingVm { .. } => 2,
        CreatePhase::Marking => 1,
        CreatePhase::CleaningUp { .. } => 1,
        CreatePhase::Done => 0,
    }
}

/// A creation comes to an end: an event is ignored and changes nothing, or brings the end closer,
/// and the end is where the outcome is reported.
pub proof fn law_creation_ends(s: CreateVm, event: ServiceEvent, started_at: String)
    ensures
        ({
            let (next, action) = create_next(s, event, started_at);
            &&& action is Ignore ==> next == s
            &&& !(action is Ignore) ==> create_rank(next.phase) < create_rank(s.phase)
            &&& action is Finish ==> next.phase is Done
            &&& next.phase is Done && !(s.phase is Done) ==> action is Finish
        }),
{
}

/// The slot that a creation has reserved.
pub open spec fn create_slot(phase: CreatePhase) -> Option<usize> {
    match phase {
        CreatePhase::AwaitingSlot { reserved } => Some(reserved.slot),
        CreatePhase::Creating { slot, .. } => Some(slot),
        CreatePhase::Booting { slot, .. } => Some(slot),
        CreatePhase::AwaitingVm { slot, .. } => Some(slot),
        _ => None,
    }
}

/// The slot that an action is about.
pub open spec fn action_slot<T>(action: ServiceActionView<T>) -> Option<usize> {
    match action {
        ServiceActionView::AwaitReady { slot } => Some(slot),
        ServiceActionView::Send(request) => Some(request.slot),
        ServiceActionView::MarkBooted { slot, .. } => Some(slot),
        ServiceActionView::Release { slot } => Some(slot),
        ServiceActionView::Reset { slot } => Some(slot),
        _ => None,
    }
}

/// A creation keeps to the slot that it has reserved.
pub proof fn law_creation_keeps_to_its_slot(s: CreateVm, event: ServiceEvent, started_at: String)
    requires
        create_slot(s.phase) is Some,
    ensures
        ({
            let (next, action) = create_next(s, event, started_at);
            &&& action_slot(action) is Some ==> action_slot(action) == create_slot(s.phase)
            &&& create_slot(next.phase) is Some ==> create_slot(next.phase) == create_slot(s.phase)
        }),
{
}

/// The actions that a deletion asks for when these events come in, one after the other.
pub open spec fn delete_run(s: DeleteVm, events: Seq<ServiceEvent>) -> Seq<ServiceActionView<()>>
    decreases events.len(),
{
    if events.len() == 0 {
        Seq::empty()
    } else {
        let (next, action) = delete_next(s, events[0]);
        seq![action] + delete_run(next, events.skip(1))
    }
}

/// The deletion of a running machine, where nothing fails: it is shut down, then deleted, then its
/// slot is released.
pub proof fn law_deletion_shuts_down_deletes_and_releases(
    name: String,
    status: SlotStatus,
    shutdown: ProxyResponse,
    deleted: ProxyResponse,
    released: SlotStatus,
)
    requires
        status.state == SlotState::Occupied,
        !refused(shutdown),
        !refused(deleted),
    ensures
        delete_run(
            (DeleteVm { name, phase: DeletePhase::Finding }),
            seq![
                ServiceEvent::Found(Ok(Some(status))),
                ServiceEvent::Answered(Ok(shutdown)),
                ServiceEvent::Answered(Ok(deleted)),
                ServiceEvent::Slot(Ok(released)),
            ],
        ) == seq![
            ServiceActionView::<()>::Send(
                bare_request(status.slot, HttpMethod::Put, "/api/v1/vm.shutdown"@),
            ),
            ServiceActionView::Send(
                bare_request(status.slot, HttpMethod::Put, "/api/v1/vm.delete"@),
            ),
            ServiceActionView::Release { slot: status.slot },
            ServiceActionView::Finish(Ok(())),
        ],
{
    reveal_with_fuel(delete_run, 5);
    let events = seq![
        ServiceEvent::Found(Ok(Some(status))),
        ServiceEvent::Answered(Ok(shutdown)),
        ServiceEvent::Answered(Ok(deleted)),
        ServiceEvent::Slot(Ok(released)),
    ];
    assert(events.skip(1).skip(1) =~= events.skip(2));
    assert(events.skip(2).skip(1) =~= events.skip(3));
    assert(events.skip(3).skip(1) =~= Seq::empty());
}

/// A refusal by the hypervisor has the slot reset before it is reported, whatever comes of the
/// reset.
pub proof fn law_refused_deletion_resets_its_slot(
    name: String,
    slot: usize,
    deleting: bool,
    refusal: ProxyResponse,
    reset: Result<SlotStatus, PoolError>,
)
    requires
        refused(refusal),
    ensures
        ({
            let phase = if deleting {
                DeletePhase::Deleting { slot }
            } else {
                DeletePhase::ShuttingDown { slot }
            };
            let (next, action) = delete_next(
                DeleteVm { name, phase },
                ServiceEvent::Answered(Ok(refusal)),
            );
            &&& action == ServiceActionView::<()>::Reset { slot }
            &&& delete_next(next, ServiceEvent::Slot(reset)).1 == ServiceActionView::<()>::Finish(
                Err(ApiErrorView::Backend(backend_error_message(refusal))),
            )
        }),
{
}

/// How many events a deletion can still take.
pub open spec fn delete_rank(phase: DeletePhase) -> nat {
    match phase {
        DeletePhase::Finding => 4,
        DeletePhase::ShuttingDown { .. } => 3,
        DeletePhase::Deleting { .. } => 2,
        DeletePhase::Releasing => 1,
        DeletePhase::CleaningUp { .. } => 1,
        DeletePhase::Done => 0,
    }
}

/// A deletion comes to an end: an event is ignored and changes nothing, or brings the end closer,
/// and the end is where the outcome is reported.
pub proof fn law_deletion_ends(s: DeleteVm, event: ServiceEvent)
    ensures
        ({
            let (next, action) = delete_next(s, event);
            &&& action is Ignore ==> next == s
            &&& !(action is Ignore) ==> delete_rank(next.phase) < delete_rank(s.phase)
            &&& action is Finish ==> next.phase is Done
            &&& next.phase is Done && !(s.phase is Done) ==> action is Finish
        }),
{
}

/// The slot was found and a machine runs in it.
pub open spec fn runs(found: Result<Option<SlotStatus>, PoolError>) -> bool {
    found matches Ok(Some(status)) && status.state == SlotState::Occupied
}

/// The action reports a failure.
pub open spec fn fails<T>(action: ServiceActionView<T>) -> bool {
    action matches ServiceActionView::Finish(Err(_))
}

/// A hypervisor is asked on behalf of a client only for a machine that runs, and then it is the one
/// of the slot that bears the machine's name.
pub proof fn law_only_running_machines_are_asked(
    deletion: DeleteVm,
    action: ProxyAction,
    question: Passthrough,
    found: Result<Option<SlotStatus>, PoolError>,
)
    requires
        deletion.phase is Finding,
        action.phase == ProxyPhase::Finding,
        question.phase == ProxyPhase::Finding,
    ensures
        ({
            let event = ServiceEvent::Found(found);
            let d = delete_next(deletion, event).1;
            let a = proxy_action_next(action, event).1;
            let q = passthrough_next(question, event).1;
            &&& d is Send <==> runs(found)
            &&& a is Send <==> runs(found)
            &&& q is Send <==> runs(found)
            &&& d is Send ==> action_slot(d) == Some(found->Ok_0->0.slot)
            &&& a is Send ==> action_slot(a) == Some(found->Ok_0->0.slot)
            &&& q is Send ==> action_slot(q) == Some(found->Ok_0->0.slot)
            &&& !(d is Send) ==> fails(d)
            &&& !(a is Send) ==> fails(a)
            &&& !(q is Send) ==> fails(q)
        }),
{
}

/// Actions and questions leave the slot of a machine alone, whatever the hypervisor answers, and
/// come to an end.
pub proof fn law_actions_leave_the_slot_alone(
    action: ProxyAction,
    question: Passthrough,
    event: ServiceEvent,
)
    ensures
        ({
            let a = proxy_action_next(action, event);
            let q = passthrough_next(question, event);
            &&& a.1 is Send || a.1 is Finish || a.1 is Ignore
            &&& q.1 is Send || q.1 is Finish || q.1 is Ignore
            &&& a.1 is Send ==> action.phase == ProxyPhase::Finding && a.0.phase
                == ProxyPhase::Sending
            &&& q.1 is Send ==> question.phase == ProxyPhase::Finding && q.0.phase
                == ProxyPhase::Sending
            &&& a.1 is Finish ==> a.0.phase == ProxyPhase::Done && action.phase != ProxyPhase::Done
            &&& q.1 is Finish ==> q.0.phase == ProxyPhase::Done && question.phase
                != ProxyPhase::Done
        }),
{
}

/// An action succeeds exactly when the hypervisor does not refuse it.
pub proof fn law_action_succeeds_unless_refused(action: ProxyAction, response: ProxyResponse)
    requires
        action.phase == ProxyPhase::Sending,
    ensures
        proxy_action_next(action, ServiceEvent::Answered(Ok(response))).1
            == ServiceActionView::<()>::Finish(
            if response.status >= 400 {
                Err(ApiErrorView::Backend(backend_error_message(response)))
            } else {
                Ok(())
            },
        ),
{
}

/// The answer to a question is passed on as it is, also where it is a refusal.
pub proof fn law_answers_are_passed_on(question: Passthrough, response: ProxyResponse)
    requires
        question.phase == ProxyPhase::Sending,
    ensures
        passthrough_next(question, ServiceEvent::Answered(Ok(response))).1
            == ServiceActionView::Finish(Ok(response)),
{
}

/// A slot counts as ready only once a connection to it has come about.
pub proof fn law_ready_only_when_connected(slot: usize, event: ReadyEvent)
    ensures
        ready_next(slot, event) == ReadyStepView::Done(Ok(())) <==> event == ReadyEvent::Connected(
            true,
        ),
{
}

/// A slot is not waited for longer than the deadline: where each pause takes its time, the waiting
/// is over after a hundred of them.
pub proof fn law_waiting_ends(slot: usize, pauses: nat, past: u128)
    requires
        pauses >= 100,
        past >= pauses * READY_PAUSE,
    ensures
        ready_next(slot, ReadyEvent::Elapsed(past)) matches ReadyStepView::Done(Err(_)),
{
    assert(pauses * READY_PAUSE >= 100 * READY_PAUSE) by (nonlinear_arith)
        requires
            pauses >= 100,
    ;
    assert(100 * READY_PAUSE == READY_DEADLINE);
}

} // verus!

//! What each step of an operation does, event by event, and how a machine gets its address.
use vstd::prelude::*;
use vstd::utf8::encode_utf8;

use crate::ch_client::HttpMethod;
use crate::error::{api_error_of, ApiError, ApiErrorView};
use crate::json::{json_bytes, json_value, no_members, JsonView};
use crate::numbers::{decimal, hex_byte};
use crate::pool::{
    runtime_or_error, PoolError, PoolErrorView, ProxyResponse, SlotState, SlotStatus,
    VmRuntime,
};
use crate::service::{
    begins_boot, body_outcome, create_done, create_next, create_on, delete_done, delete_next,
    delete_on, mac_of, mac_of_name, passthrough_next, proxy_action_next, ready_next,
    request_of_body, running_slot, sha256_digest, CreatePhase, CreateVm, DeletePhase, DeleteVm,
    Passthrough, ProxyAction, ProxyPhase, ReadyEvent, ReadyStep, ReadyStepView, ServiceAction,
    ServiceActionView, ServiceEvent, VmRequest, VmRequestView,
};
use crate::text_laws::{hex_value, law_hex_text_stands_for_its_byte};
use crate::vm_payload::{backend_error_message, restore_request, vm_request};
use crate::vm_validation::BootConfig;

verus! {

/// The address of a machine is "02", and then, each after a colon, the first five bytes of the
/// SHA-256 digest of all the UTF-8 bytes of its name, in hexadecimal.
pub proof fn law_address_is_the_digest_of_the_whole_name(name: Seq<char>, k: int)
    requires
        0 <= k < 5,
    ensures
        mac_of_name(name).len() == 17,
        mac_of_name(name)[0] == '0',
        mac_of_name(name)[1] == '2',
        mac_of_name(name)[2 + 3 * k] == ':',
        mac_of_name(name)[3 + 3 * k] == hex_byte(sha256_digest(encode_utf8(name))[k])[0],
        mac_of_name(name)[4 + 3 * k] == hex_byte(sha256_digest(encode_utf8(name))[k])[1],
        hex_value(mac_of_name(name)[3 + 3 * k]) * 16 + hex_value(mac_of_name(name)[4 + 3 * k])
            == sha256_digest(encode_utf8(name))[k],
{
    let digest = sha256_digest(encode_utf8(name));
    reveal_strlit("02:");
    reveal_strlit(":");
    law_hex_text_stands_for_its_byte(digest[0]);
    law_hex_text_stands_for_its_byte(digest[1]);
    law_hex_text_stands_for_its_byte(digest[2]);
    law_hex_text_stands_for_its_byte(digest[3]);
    law_hex_text_stands_for_its_byte(digest[4]);
    assert(mac_of_name(name) == mac_of(digest));
    assert(k == 0 || k == 1 || k == 2 || k == 3 || k == 4);
}

/// The address is made of that digest and of nothing else.
pub proof fn law_address_is_written_in_groups(name: Seq<char>)
    ensures
        ({
            let digest = sha256_digest(encode_utf8(name));
            mac_of_name(name) == "02:"@ + hex_byte(digest[0]) + ":"@ + hex_byte(digest[1]) + ":"@
                + hex_byte(digest[2]) + ":"@ + hex_byte(digest[3]) + ":"@ + hex_byte(digest[4])
        }),
{
}

/// Two machines have the same address exactly when the digests of their names agree in the first
/// five bytes: names whose digests differ there get different addresses.
pub proof fn law_addresses_differ_with_the_digests(one: Seq<char>, other: Seq<char>)
    ensures
        mac_of_name(one) == mac_of_name(other) <==> (forall|k: int|
            0 <= k < 5 ==> #[trigger] sha256_digest(encode_utf8(one))[k] == sha256_digest(
                encode_utf8(other),
            )[k]),
{
    let a = sha256_digest(encode_utf8(one));
    let b = sha256_digest(encode_utf8(other));
    if mac_of_name(one) == mac_of_name(other) {
        assert forall|k: int| 0 <= k < 5 implies #[trigger] a[k] == b[k] by {
            law_address_is_the_digest_of_the_whole_name(one, k);
            law_address_is_the_digest_of_the_whole_name(other, k);
        }
    }
    if forall|k: int| 0 <= k < 5 ==> #[trigger] a[k] == b[k] {
        assert(a[0] == b[0] && a[1] == b[1] && a[2] == b[2] && a[3] == b[3] && a[4] == b[4]);
    }
}

/// Requests are shown with all that they say.
pub proof fn law_requests_are_shown_in_full(
    slot: usize,
    method: HttpMethod,
    path: String,
    body: Vec<u8>,
    kind: &'static str,
)
    ensures
        (VmRequest { slot, method, path, body, content_type: Some(kind) })@ == (VmRequestView {
            slot,
            method,
            path: path@,
            body: body@,
            content_type: Some(kind@),
        }),
        (VmRequest { slot, method, path, body, content_type: None })@ == (VmRequestView {
            slot,
            method,
            path: path@,
            body: body@,
            content_type: None,
        }),
{
}

/// Actions are shown with all that they say.
pub proof fn law_actions_are_shown_in_full<T>(
    name: String,
    mac: String,
    slot: usize,
    request: VmRequest,
    started_at: String,
    value: T,
    error: ApiError,
)
    ensures
        (ServiceAction::<T>::Allocate { name, mac })@ == (ServiceActionView::<T>::Allocate {
            name: name@,
            mac: mac@,
        }),
        (ServiceAction::<T>::FindSlot { name })@ == (ServiceActionView::<T>::FindSlot {
            name: name@,
        }),
        (ServiceAction::<T>::AwaitReady { slot })@ == (ServiceActionView::<T>::AwaitReady { slot }),
        ServiceAction::<T>::Send(request)@ == ServiceActionView::<T>::Send(request@),
        (ServiceAction::<T>::MarkBooted { slot, started_at })@ == (
        ServiceActionView::<T>::MarkBooted { slot, started_at }),
        (ServiceAction::<T>::Release { slot })@ == (ServiceActionView::<T>::Release { slot }),
        (ServiceAction::<T>::Reset { slot })@ == (ServiceActionView::<T>::Reset { slot }),
        ServiceAction::<T>::Finish(Ok(value))@ == ServiceActionView::<T>::Finish(Ok(value)),
        ServiceAction::<T>::Finish(Err(error))@ == ServiceActionView::<T>::Finish(Err(error@)),
        ServiceAction::<T>::Ignore@ == ServiceActionView::<T>::Ignore,
{
}

/// The steps of waiting are shown with all that they say.
pub proof fn law_waiting_steps_are_shown_in_full(pause: u128, error: ApiError)
    ensures
        ReadyStep::AskStatus@ == ReadyStepView::AskStatus,
        ReadyStep::Connect@ == ReadyStepView::Connect,
        ReadyStep::ReadClock@ == ReadyStepView::ReadClock,
        ReadyStep::Sleep(pause)@ == ReadyStepView::Sleep(pause),
        ReadyStep::Done(Ok(()))@ == ReadyStepView::Done(Ok(())),
        ReadyStep::Done(Err(error))@ == ReadyStepView::Done(Err(error@)),
{
}

/// A body that was written is put, as JSON, to the path of the slot; one that could not be written
/// is a failure of the backend, for that reason.
pub proof fn law_written_body_is_put_as_json(
    slot: usize,
    path: Seq<char>,
    body: Vec<u8>,
    reason: String,
)
    ensures
        request_of_body(slot, path, body_outcome(Ok(body))) == Ok::<VmRequestView, ApiErrorView>(
            VmRequestView {
                slot,
                method: HttpMethod::Put,
                path,
                body: body@,
                content_type: Some("application/json"@),
            },
        ),
        request_of_body(slot, path, body_outcome(Err(reason))) == Err::<
            VmRequestView,
            ApiErrorView,
        >(ApiErrorView::Backend(reason@)),
{
}

/// An action without parameters sends an object that has no members.
pub proof fn law_no_parameters_are_no_members()
    ensures
        no_members() == Map::<Seq<char>, JsonView>::empty(),
{
}

/// An operation that is over, or that goes on, is what it is said to be.
pub proof fn law_steps_are_what_they_say(
    config: BootConfig,
    runtime: Result<VmRuntime, ApiErrorView>,
    phase: CreatePhase,
    action: ServiceActionView<VmRuntime>,
    name: String,
    result: Result<(), ApiErrorView>,
    stage: DeletePhase,
    task: ServiceActionView<()>,
)
    ensures
        create_done(config, runtime) == (
            CreateVm { config, phase: CreatePhase::Done },
            ServiceActionView::Finish(runtime),
        ),
        create_on(config, phase, action) == (CreateVm { config, phase }, action),
        delete_done(name, result) == (
            DeleteVm { name, phase: DeletePhase::Done },
            ServiceActionView::Finish(result),
        ),
        delete_on(name, stage, task) == (DeleteVm { name, phase: stage }, task),
{
}

/// A creation that has its slot waits for it, and one that gets none reports why.
pub proof fn law_creation_waits_for_its_slot(
    config: BootConfig,
    slot: SlotStatus,
    error: PoolError,
    unused: String,
)
    ensures
        create_next(
            (CreateVm { config, phase: CreatePhase::Allocating }),
            ServiceEvent::Slot(Ok(slot)),
            unused,
        ) == (
            CreateVm { config, phase: CreatePhase::AwaitingSlot { reserved: slot } },
            ServiceActionView::<VmRuntime>::AwaitReady { slot: slot.slot },
        ),
        create_next(
            (CreateVm { config, phase: CreatePhase::Allocating }),
            ServiceEvent::Slot(Err(error)),
            unused,
        ) == (
            CreateVm { config, phase: CreatePhase::Done },
            ServiceActionView::<VmRuntime>::Finish(Err(api_error_of(error@))),
        ),
{
}

/// A slot that is ready is asked to create the machine, or to restore it where a snapshot is given,
/// with what the configuration and the slot say; the time is kept.
pub proof fn law_ready_slot_is_asked_for_the_machine(
    config: BootConfig,
    slot: SlotStatus,
    started_at: String,
)
    ensures
        create_next(
            (CreateVm { config, phase: CreatePhase::AwaitingSlot { reserved: slot } }),
            ServiceEvent::Ready(Ok(())),
            started_at,
        ) == (
            CreateVm { config, phase: CreatePhase::Creating { slot: slot.slot, started_at } },
            ServiceActionView::<VmRuntime>::Send(
                VmRequestView {
                    slot: slot.slot,
                    method: HttpMethod::Put,
                    path: if config.snapshot_path is Some {
                        "/api/v1/vm.restore"@
                    } else {
                        "/api/v1/vm.create"@
                    },
                    body: if config.snapshot_path is Some {
                        json_bytes(restore_request(config))
                    } else {
                        json_bytes(vm_request(config, slot))
                    },
                    content_type: Some("application/json"@),
                },
            ),
        ),
{
}

/// A machine that was created is booted, one that was restored runs; either is waited for and then
/// marked with the time that was kept, and the slot that comes back is what is reported.
pub proof fn law_created_machine_is_booted_and_marked(
    config: BootConfig,
    slot: usize,
    started_at: String,
    response: ProxyResponse,
    marked: SlotStatus,
    error: PoolError,
    unused: String,
)
    requires
        response.status < 400,
    ensures
        config.snapshot_path is None ==> create_next(
            (CreateVm { config, phase: CreatePhase::Creating { slot, started_at } }),
            ServiceEvent::Answered(Ok(response)),
            unused,
        ) == (
            CreateVm { config, phase: CreatePhase::Booting { slot, started_at } },
            ServiceActionView::<VmRuntime>::Send(
                VmRequestView {
                    slot,
                    method: HttpMethod::Put,
                    path: "/api/v1/vm.boot"@,
                    body: Seq::empty(),
                    content_type: None,
                },
            ),
        ),
        config.snapshot_path is Some ==> create_next(
            (CreateVm { config, phase: CreatePhase::Creating { slot, started_at } }),
            ServiceEvent::Answered(Ok(response)),
            unused,
        ) == (
            CreateVm { config, phase: CreatePhase::AwaitingVm { slot, started_at } },
            ServiceActionView::<VmRuntime>::AwaitReady { slot },
        ),
        create_next(
            (CreateVm { config, phase: CreatePhase::Booting { slot, started_at } }),
            ServiceEvent::Answered(Ok(response)),
            unused,
        ) == (
            CreateVm { config, phase: CreatePhase::AwaitingVm { slot, started_at } },
            ServiceActionView::<VmRuntime>::AwaitReady { slot },
        ),
        create_next(
            (CreateVm { config, phase: CreatePhase::AwaitingVm { slot, started_at } }),
            ServiceEvent::Ready(Ok(())),
            unused,
        ) == (
            CreateVm { config, phase: CreatePhase::Marking },
            ServiceActionView::<VmRuntime>::MarkBooted { slot, started_at },
        ),
        create_next(
            (CreateVm { config, phase: CreatePhase::Marking }),
            ServiceEvent::Slot(Ok(marked)),
            unused,
        ) == (
            CreateVm { config, phase: CreatePhase::Done },
            ServiceActionView::<VmRuntime>::Finish(
                match runtime_or_error(marked) {
                    Ok(runtime) => Ok(runtime),
                    Err(e) => Err(api_error_of(e)),
                },
            ),
        ),
        create_next(
            (CreateVm { config, phase: CreatePhase::Marking }),
            ServiceEvent::Slot(Err(error)),
            unused,
        ) == (
            CreateVm { config, phase: CreatePhase::Done },
            ServiceActionView::<VmRuntime>::Finish(Err(api_error_of(error@))),
        ),
{
}

/// What a creation does when it is refused or fails: a refusal, which is any status from 400 on, has
/// the slot reset before it is reported; a failure to reach the slot is reported at once.
pub proof fn law_failed_creation_is_reported(
    config: BootConfig,
    waiting: CreatePhase,
    slot: usize,
    started_at: String,
    booting: bool,
    refusal: ProxyResponse,
    reset: Result<SlotStatus, PoolError>,
    error: PoolError,
    fault: ApiError,
    unused: String,
)
    requires
        refusal.status >= 400,
        waiting is AwaitingSlot || waiting is AwaitingVm,
    ensures
        ({
            let asked = CreateVm {
                config,
                phase: if booting {
                    CreatePhase::Booting { slot, started_at }
                } else {
                    CreatePhase::Creating { slot, started_at }
                },
            };
            &&& create_next(asked, ServiceEvent::Answered(Ok(refusal)), unused) == (
                CreateVm { config, phase: CreatePhase::CleaningUp { refusal } },
                ServiceActionView::<VmRuntime>::Reset { slot },
            )
            &&& create_next(asked, ServiceEvent::Answered(Err(error)), unused) == (
                CreateVm { config, phase: CreatePhase::Done },
                ServiceActionView::<VmRuntime>::Finish(Err(api_error_of(error@))),
            )
        }),
        create_next(
            (CreateVm { config, phase: CreatePhase::CleaningUp { refusal } }),
            ServiceEvent::Slot(reset),
            unused,
        ) == (
            CreateVm { config, phase: CreatePhase::Done },
            ServiceActionView::<VmRuntime>::Finish(
                Err(ApiErrorView::Backend(backend_error_message(refusal))),
            ),
        ),
        create_next(
            (CreateVm { config, phase: waiting }),
            ServiceEvent::Ready(Err(fault)),
            unused,
        ) == (
            CreateVm { config, phase: CreatePhase::Done },
            ServiceActionView::<VmRuntime>::Finish(Err(fault@)),
        ),
{
}

/// A creation takes no notice of an event that it does not wait for.
pub proof fn law_creation_ignores_other_events(s: CreateVm, event: ServiceEvent, unused: String)
    requires
        event is Slot ==> !(s.phase is Allocating || s.phase is Marking || s.phase is CleaningUp),
        event is Ready ==> !(s.phase is AwaitingSlot || s.phase is AwaitingVm),
        event is Answered ==> !(s.phase is Creating || s.phase is Booting),
    ensures
        create_next(s, event, unused) == (s, ServiceActionView::<VmRuntime>::Ignore),
{
}

/// The boot begins when the slot that was reserved is ready.
pub proof fn law_boot_begins_when_the_slot_is_ready(s: CreateVm, event: ServiceEvent)
    ensures
        begins_boot(s, event) <==> s.phase is AwaitingSlot && event is Ready && event->Ready_0 is Ok,
{
}

/// A machine runs in the slot that was found for it where that is occupied; one for which there is
/// none is not found, and one in any other state is not running.
pub proof fn law_running_slot_is_an_occupied_one(
    name: Seq<char>,
    status: SlotStatus,
    error: PoolErrorView,
)
    ensures
        running_slot(name, Err(error)) == Err::<usize, ApiErrorView>(api_error_of(error)),
        running_slot(name, Ok(None)) == Err::<usize, ApiErrorView>(
            ApiErrorView::NotFound("VM '"@ + name + "'"@ + " not found"@),
        ),
        status.state == SlotState::Occupied ==> running_slot(name, Ok(Some(status))) == Ok::<
            usize,
            ApiErrorView,
        >(status.slot),
        status.state != SlotState::Occupied ==> running_slot(name, Ok(Some(status))) == Err::<
            usize,
            ApiErrorView,
        >(ApiErrorView::Conflict("VM '"@ + name + "'"@ + " is not running"@)),
{
}

/// A deletion goes step by step through shutdown, deletion and release of the slot that was found,
/// and any failure on the way is what it reports.
pub proof fn law_deletion_goes_step_by_step(
    name: String,
    status: SlotStatus,
    slot: usize,
    accepted: ProxyResponse,
    released: SlotStatus,
    error: PoolError,
)
    requires
        accepted.status < 400,
    ensures
        status.state == SlotState::Occupied ==> delete_next(
            (DeleteVm { name, phase: DeletePhase::Finding }),
            ServiceEvent::Found(Ok(Some(status))),
        ) == (
            DeleteVm { name, phase: DeletePhase::ShuttingDown { slot: status.slot } },
            ServiceActionView::<()>::Send(
                VmRequestView {
                    slot: status.slot,
                    method: HttpMethod::Put,
                    path: "/api/v1/vm.shutdown"@,
                    body: Seq::empty(),
                    content_type: None,
                },
            ),
        ),
        status.state != SlotState::Occupied ==> delete_next(
            (DeleteVm { name, phase: DeletePhase::Finding }),
            ServiceEvent::Found(Ok(Some(status))),
        ) == (
            DeleteVm { name, phase: DeletePhase::Done },
            ServiceActionView::<()>::Finish(
                Err(ApiErrorView::Conflict("VM '"@ + name@ + "'"@ + " is not running"@)),
            ),
        ),
        delete_next(
            (DeleteVm { name, phase: DeletePhase::Finding }),
            ServiceEvent::Found(Ok(None)),
        ) == (
            DeleteVm { name, phase: DeletePhase::Done },
            ServiceActionView::<()>::Finish(
                Err(ApiErrorView::NotFound("VM '"@ + name@ + "'"@ + " not found"@)),
            ),
        ),
        delete_next(
            (DeleteVm { name, phase: DeletePhase::Finding }),
            ServiceEvent::Found(Err(error)),
        ) == (
            DeleteVm { name, phase: DeletePhase::Done },
            ServiceActionView::<()>::Finish(Err(api_error_of(error@))),
        ),
        delete_next(
            (DeleteVm { name, phase: DeletePhase::ShuttingDown { slot } }),
            ServiceEvent::Answered(Ok(accepted)),
        ) == (
            DeleteVm { name, phase: DeletePhase::Deleting { slot } },
            ServiceActionView::<()>::Send(
                VmRequestView {
                    slot,
                    method: HttpMethod::Put,
                    path: "/api/v1/vm.delete"@,
                    body: Seq::empty(),
                    content_type: None,
                },
            ),
        ),
        delete_next(
            (DeleteVm { name, phase: DeletePhase::Deleting { slot } }),
            ServiceEvent::Answered(Ok(accepted)),
        ) == (
            DeleteVm { name, phase: DeletePhase::Releasing },
            ServiceActionView::<()>::Release { slot },
        ),
        delete_next(
            (DeleteVm { name, phase: DeletePhase::Releasing }),
            ServiceEvent::Slot(Ok(released)),
        ) == (
            DeleteVm { name, phase: DeletePhase::Done },
            ServiceActionView::<()>::Finish(Ok(())),
        ),
        delete_next(
            (DeleteVm { name, phase: DeletePhase::Releasing }),
            ServiceEvent::Slot(Err(error)),
        ) == (
            DeleteVm { name, phase: DeletePhase::Done },
            ServiceActionView::<()>::Finish(Err(api_error_of(error@))),
        ),
{
}

/// A refused deletion, with any status from 400 on, has the slot reset before it is reported; a
/// failure to reach the slot is reported at once.
pub proof fn law_failed_deletion_is_reported(
    name: String,
    slot: usize,
    deleting: bool,
    refusal: ProxyResponse,
    reset: Result<SlotStatus, PoolError>,
    error: PoolError,
)
    requires
        refusal.status >= 400,
    ensures
        ({
            let asked = DeleteVm {
                name,
                phase: if deleting {
                    DeletePhase::Deleting { slot }
                } else {
                    DeletePhase::ShuttingDown { slot }
                },
            };
            &&& delete_next(asked, ServiceEvent::Answered(Ok(refusal))) == (
                DeleteVm { name, phase: DeletePhase::CleaningUp { refusal } },
                ServiceActionView::<()>::Reset { slot },
            )
            &&& delete_next(asked, ServiceEvent::Answered(Err(error))) == (
                DeleteVm { name, phase: DeletePhase::Done },
                ServiceActionView::<()>::Finish(Err(api_error_of(error@))),
            )
        }),
        delete_next(
            (DeleteVm { name, phase: DeletePhase::CleaningUp { refusal } }),
            ServiceEvent::Slot(reset),
        ) == (
            DeleteVm { name, phase: DeletePhase::Done },
            ServiceActionView::<()>::Finish(
                Err(ApiErrorView::Backend(backend_error_message(refusal))),
            ),
        ),
{
}

/// A deletion takes no notice of an event that it does not wait for.
pub proof fn law_deletion_ignores_other_events(s: DeleteVm, event: ServiceEvent)
    requires
        event is Found ==> !(s.phase is Finding),
        event is Slot ==> !(s.phase is Releasing || s.phase is CleaningUp),
        event is Answered ==> !(s.phase is ShuttingDown || s.phase is Deleting),
    ensures
        delete_next(s, event) == (s, ServiceActionView::<()>::Ignore),
{
}

/// An action is put, with its parameters, to the slot in which its machine runs; it succeeds unless
/// the answer has a status from 400 on, and any other outcome is what it reports.
pub proof fn law_action_is_put_to_the_running_machine(
    s: ProxyAction,
    status: SlotStatus,
    response: ProxyResponse,
    error: PoolError,
)
    ensures
        s.phase == ProxyPhase::Finding && status.state == SlotState::Occupied
            ==> proxy_action_next(s, ServiceEvent::Found(Ok(Some(status)))) == (
            ProxyAction { name: s.name, path: s.path, body: s.body, phase: ProxyPhase::Sending },
            ServiceActionView::<()>::Send(
                VmRequestView {
                    slot: status.slot,
                    method: HttpMethod::Put,
                    path: s.path@,
                    body: json_bytes(json_value(s.body)),
                    content_type: Some("application/json"@),
                },
            ),
        ),
        s.phase == ProxyPhase::Finding && status.state != SlotState::Occupied
            ==> proxy_action_next(s, ServiceEvent::Found(Ok(Some(status)))) == (
            ProxyAction { name: s.name, path: s.path, body: s.body, phase: ProxyPhase::Done },
            ServiceActionView::<()>::Finish(
                Err(ApiErrorView::Conflict("VM '"@ + s.name@ + "'"@ + " is not running"@)),
            ),
        ),
        s.phase == ProxyPhase::Finding ==> proxy_action_next(s, ServiceEvent::Found(Ok(None))) == (
            ProxyAction { name: s.name, path: s.path, body: s.body, phase: ProxyPhase::Done },
            ServiceActionView::<()>::Finish(
                Err(ApiErrorView::NotFound("VM '"@ + s.name@ + "'"@ + " not found"@)),
            ),
        ),
        s.phase == ProxyPhase::Finding ==> proxy_action_next(s, ServiceEvent::Found(Err(error)))
            == (
            ProxyAction { name: s.name, path: s.path, body: s.body, phase: ProxyPhase::Done },
            ServiceActionView::<()>::Finish(Err(api_error_of(error@))),
        ),
        s.phase == ProxyPhase::Sending ==> proxy_action_next(
            s,
            ServiceEvent::Answered(Ok(response)),
        ) == (
            ProxyAction { name: s.name, path: s.path, body: s.body, phase: ProxyPhase::Done },
            ServiceActionView::<()>::Finish(
                if response.status >= 400 {
                    Err(ApiErrorView::Backend(backend_error_message(response)))
                } else {
                    Ok(())
                },
            ),
        ),
        s.phase == ProxyPhase::Sending ==> proxy_action_next(s, ServiceEvent::Answered(Err(error)))
            == (
            ProxyAction { name: s.name, path: s.path, body: s.body, phase: ProxyPhase::Done },
            ServiceActionView::<()>::Finish(Err(api_error_of(error@))),
        ),
{
}

/// A question is put to the slot in which its machine runs, and the answer is what comes out,
/// whatever its status.
pub proof fn law_question_is_put_to_the_running_machine(
    s: Passthrough,
    status: SlotStatus,
    response: ProxyResponse,
    error: PoolError,
)
    ensures
        s.phase == ProxyPhase::Finding && status.state == SlotState::Occupied ==> passthrough_next(
            s,
            ServiceEvent::Found(Ok(Some(status))),
        ) == (
            Passthrough { name: s.name, path: s.path, phase: ProxyPhase::Sending },
            ServiceActionView::<ProxyResponse>::Send(
                VmRequestView {
                    slot: status.slot,
                    method: HttpMethod::Get,
                    path: s.path@,
                    body: Seq::empty(),
                    content_type: None,
                },
            ),
        ),
        s.phase == ProxyPhase::Finding && status.state != SlotState::Occupied ==> passthrough_next(
            s,
            ServiceEvent::Found(Ok(Some(status))),
        ) == (
            Passthrough { name: s.name, path: s.path, phase: ProxyPhase::Done },
            ServiceActionView::<ProxyResponse>::Finish(
                Err(ApiErrorView::Conflict("VM '"@ + s.name@ + "'"@ + " is not running"@)),
            ),
        ),
        s.phase == ProxyPhase::Finding ==> passthrough_next(s, ServiceEvent::Found(Ok(None))) == (
            Passthrough { name: s.name, path: s.path, phase: ProxyPhase::Done },
            ServiceActionView::<ProxyResponse>::Finish(
                Err(ApiErrorView::NotFound("VM '"@ + s.name@ + "'"@ + " not found"@)),
            ),
        ),
        s.phase == ProxyPhase::Finding ==> passthrough_next(s, ServiceEvent::Found(Err(error))) == (
            Passthrough { name: s.name, path: s.path, phase: ProxyPhase::Done },
            ServiceActionView::<ProxyResponse>::Finish(Err(api_error_of(error@))),
        ),
        s.phase == ProxyPhase::Sending ==> passthrough_next(
            s,
            ServiceEvent::Answered(Ok(response)),
        ) == (
            Passthrough { name: s.name, path: s.path, phase: ProxyPhase::Done },
            ServiceActionView::<ProxyResponse>::Finish(Ok(response)),
        ),
        s.phase == ProxyPhase::Sending ==> passthrough_next(s, ServiceEvent::Answered(Err(error)))
            == (
            Passthrough { name: s.name, path: s.path, phase: ProxyPhase::Done },
            ServiceActionView::<ProxyResponse>::Finish(Err(api_error_of(error@))),
        ),
{
}

/// Actions and questions take no notice of an event that they do not wait for.
pub proof fn law_actions_and_questions_ignore_other_events(
    action: ProxyAction,
    question: Passthrough,
    event: ServiceEvent,
)
    ensures
        !(action.phase == ProxyPhase::Finding && event is Found) && !(action.phase
            == ProxyPhase::Sending && event is Answered) ==> proxy_action_next(action, event) == (
            action,
            ServiceActionView::<()>::Ignore,
        ),
        !(question.phase == ProxyPhase::Finding && event is Found) && !(question.phase
            == ProxyPhase::Sending && event is Answered) ==> passthrough_next(question, event) == (
            question,
            ServiceActionView::<ProxyResponse>::Ignore,
        ),
{
}

/// Waiting for a slot, step by step: the slot is asked; with a process a connection is tried, without
/// one or without a connection the clock is read; within five seconds there is a pause of a twentieth
/// of a second before the next round, and after that the waiting fails.
pub proof fn law_waiting_goes_round(
    slot: usize,
    status: SlotStatus,
    error: PoolError,
    past: u128,
)
    ensures
        ready_next(slot, ReadyEvent::Status(Err(error))) == ReadyStepView::Done(
            Err(api_error_of(error@)),
        ),
        status.pid is Some ==> ready_next(slot, ReadyEvent::Status(Ok(status)))
            == ReadyStepView::Connect,
        status.pid is None ==> ready_next(slot, ReadyEvent::Status(Ok(status)))
            == ReadyStepView::ReadClock,
        ready_next(slot, ReadyEvent::Connected(true)) == ReadyStepView::Done(Ok(())),
        ready_next(slot, ReadyEvent::Connected(false)) == ReadyStepView::ReadClock,
        past >= 5_000_000_000 ==> ready_next(slot, ReadyEvent::Elapsed(past))
            == ReadyStepView::Done(
            Err(
                ApiErrorView::Backend(
                    "slot "@ + decimal(slot as nat) + " did not become ready"@,
                ),
            ),
        ),
        past < 5_000_000_000 ==> ready_next(slot, ReadyEvent::Elapsed(past))
            == ReadyStepView::Sleep(50_000_000),
        ready_next(slot, ReadyEvent::Slept) == ReadyStepView::AskStatus,
{
}

} // verus!

//! The requests that clients can make.
use vstd::prelude::*;

use crate::error::{api_error_of, ApiError, ApiErrorView};
use crate::io_error::IoError;
use crate::json::{json_value, no_members, JsonView};
use crate::pool::{
    outcome, running, runtime_named, runtime_of, slot_named, vm_message, vm_text, PoolError,
    PoolErrorView, ProxyResponse, SlotStatus, VmRuntime, VmState,
};
use crate::process_pool::{bears, lemma_slot_named, name_taken, names_unique};
use crate::service::{
    proxy_action_by_name, proxy_action_by_name_with_body, proxy_passthrough_by_name, Passthrough,
    ProxyAction, ProxyPhase, ServiceAction, ServiceActionView,
};
use crate::slot_supervisor::{booted, emptied, reserved};
use crate::vm_payload::{snapshot_request, snapshot_request_body};
use crate::vm_validation::absolute;

verus! {

/// What the daemon says of itself.
#[derive(Debug)]
pub struct HealthResponse {
    pub service: &'static str,
    pub version: String,
    pub pool_size: usize,
    pub pool_in_use: usize,
    pub pool_idle: usize,
}

/// Says how the daemon is.
pub fn health(version: String, pool_size: usize, usage: Result<(usize, usize), PoolError>) -> (r:
    Result<HealthResponse, ApiError>)
    ensures
        match usage {
            Ok((in_use, idle)) => r matches Ok(h) && h.service@ == "croutond"@ && h.version
                == version && h.pool_size == pool_size && h.pool_in_use == in_use && h.pool_idle
                == idle,
            Err(e) => r matches Err(f) && f@ == api_error_of(e@),
        },
{
    match usage {
        Ok((pool_in_use, pool_idle)) => Ok(
            HealthResponse { service: "croutond", version, pool_size, pool_in_use, pool_idle },
        ),
        Err(e) => Err(ApiError::from(e)),
    }
}

/// The error with which a request for metrics fails.
pub fn metrics_failure(error: IoError) -> (r: ApiError)
    ensures
        r@ == ApiErrorView::Backend(error.message@),
{
    ApiError::Backend(error.message)
}

/// What a request to show a machine wants done next.
#[derive(Debug)]
pub enum GetVmStep {
    /// The slot of that name is to be looked up; `explain_missing` takes what was found.
    FindSlot,
    Done(Result<VmRuntime, ApiError>),
}

/// Shows a machine, where a running one was found under its name.
pub fn get_vm(found: Result<Option<VmRuntime>, PoolError>) -> (r: GetVmStep)
    ensures
        match found {
            Ok(Some(runtime)) => r == GetVmStep::Done(Ok(runtime)),
            Ok(None) => r is FindSlot,
            Err(e) => r matches GetVmStep::Done(Err(f)) && f@ == api_error_of(e@),
        },
{
    match found {
        Ok(Some(runtime)) => GetVmStep::Done(Ok(runtime)),
        Ok(None) => GetVmStep::FindSlot,
        Err(e) => GetVmStep::Done(Err(ApiError::from(e))),
    }
}

/// Why a machine that is not running cannot be shown.
pub open spec fn missing_error(
    name: Seq<char>,
    found: Result<Option<SlotStatus>, PoolErrorView>,
) -> ApiErrorView {
    match found {
        Err(e) => api_error_of(e),
        Ok(Some(_)) => ApiErrorView::Conflict(vm_message(name, " is not running"@)),
        Ok(None) => ApiErrorView::NotFound(vm_message(name, " not found"@)),
    }
}

/// Says why a machine that is not running cannot be shown.
pub fn explain_missing(name: &str, found: Result<Option<SlotStatus>, PoolError>) -> (r: ApiError)
    ensures
        r@ == missing_error(name@, outcome(found)),
{
    match found {
        Err(e) => ApiError::from(e),
        Ok(Some(_)) => ApiError::Conflict(vm_text(name, " is not running")),
        Ok(None) => ApiError::NotFound(vm_text(name, " not found")),
    }
}

/// What is shown of a machine when all slots are as listed.
pub open spec fn shown(list: Seq<SlotStatus>, name: Seq<char>) -> Result<VmRuntime, ApiErrorView> {
    match runtime_named(running(list), name) {
        Some(runtime) => Ok(runtime),
        None => Err(missing_error(name, Ok(slot_named(list, name)))),
    }
}

proof fn lemma_running_comes_from_slots(list: Seq<SlotStatus>, i: int)
    requires
        0 <= i < running(list).len(),
    ensures
        exists|j: int|
            0 <= j < list.len() && runtime_of(#[trigger] list[j]) == Some(running(list)[i]),
    decreases list.len(),
{
    if list.len() > 0 {
        let before = list.drop_last();
        if i < running(before).len() {
            lemma_running_comes_from_slots(before, i);
            let j = choose|j: int|
                0 <= j < before.len() && runtime_of(#[trigger] before[j]) == Some(
                    running(before)[i],
                );
            assert(list[j] == before[j]);
        } else {
            assert(runtime_of(list[list.len() - 1]) == Some(running(list)[i]));
        }
    }
}

proof fn lemma_runtime_named(runtimes: Seq<VmRuntime>, name: Seq<char>)
    ensures
        runtime_named(runtimes, name) matches Some(r) ==> r.name@ == name && exists|i: int|
            0 <= i < runtimes.len() && #[trigger] runtimes[i] == r,
    decreases runtimes.len(),
{
    if runtimes.len() > 0 && runtimes[0].name@ != name {
        let rest = runtimes.skip(1);
        lemma_runtime_named(rest, name);
        if let Some(r) = runtime_named(rest, name) {
            let i = choose|i: int| 0 <= i < rest.len() && #[trigger] rest[i] == r;
            assert(runtimes[i + 1] == r);
        }
    }
}

/// A machine is reported as not found exactly when no slot bears its name; a machine that is shown
/// bears the name that was asked for, and one of the slots holds it.
pub proof fn law_not_found_iff_no_slot_bears_the_name(list: Seq<SlotStatus>, name: Seq<char>)
    ensures
        shown(list, name) matches Err(ApiErrorView::NotFound(_)) <==> !name_taken(list, name),
        shown(list, name) matches Ok(vm) ==> vm.name@ == name && exists|j: int|
            0 <= j < list.len() && runtime_of(#[trigger] list[j]) == Some(vm),
{
    lemma_slot_named(list, name);
    lemma_runtime_named(running(list), name);
    if let Some(vm) = runtime_named(running(list), name) {
        let i = choose|i: int| 0 <= i < running(list).len() && #[trigger] running(list)[i] == vm;
        lemma_running_comes_from_slots(list, i);
        let j = choose|j: int|
            0 <= j < list.len() && runtime_of(#[trigger] list[j]) == Some(running(list)[i]);
        assert(bears(list[j], name));
    }
}

proof fn lemma_slots_show_in_running(list: Seq<SlotStatus>, j: int)
    requires
        0 <= j < list.len(),
        runtime_of(list[j]) is Some,
    ensures
        exists|i: int|
            0 <= i < running(list).len() && #[trigger] running(list)[i] == runtime_of(list[j])->0,
    decreases list.len(),
{
    let before = list.drop_last();
    if j < before.len() {
        assert(before[j] == list[j]);
        lemma_slots_show_in_running(before, j);
        let i = choose|i: int|
            0 <= i < running(before).len() && #[trigger] running(before)[i] == runtime_of(
                before[j],
            )->0;
        assert(running(list)[i] == running(before)[i]);
    } else {
        assert(running(list)[running(list).len() - 1] == runtime_of(list[j])->0);
    }
}

proof fn lemma_named_is_found(runtimes: Seq<VmRuntime>, name: Seq<char>, i: int)
    requires
        0 <= i < runtimes.len(),
        runtimes[i].name@ == name,
    ensures
        runtime_named(runtimes, name) is Some,
    decreases runtimes.len(),
{
    if runtimes[0].name@ != name {
        assert(runtimes.skip(1)[i - 1] == runtimes[i]);
        lemma_named_is_found(runtimes.skip(1), name, i - 1);
    }
}

/// A machine that runs in a slot is the one that is shown under its name.
pub proof fn law_running_machine_is_shown(list: Seq<SlotStatus>, at: int)
    requires
        0 <= at < list.len(),
        names_unique(list),
        runtime_of(list[at]) is Some,
    ensures
        shown(list, runtime_of(list[at])->0.name@) == Ok::<VmRuntime, ApiErrorView>(
            runtime_of(list[at])->0,
        ),
{
    let vm = runtime_of(list[at])->0;
    let name = vm.name@;
    lemma_slots_show_in_running(list, at);
    let i = choose|i: int| 0 <= i < running(list).len() && #[trigger] running(list)[i] == vm;
    lemma_named_is_found(running(list), name, i);
    lemma_runtime_named(running(list), name);
    let found = runtime_named(running(list), name)->0;
    let k = choose|k: int| 0 <= k < running(list).len() && #[trigger] running(list)[k] == found;
    lemma_running_comes_from_slots(list, k);
    let j = choose|j: int|
        0 <= j < list.len() && runtime_of(#[trigger] list[j]) == Some(running(list)[k]);
    assert(list[j].name->0@ == list[at].name->0@);
}

/// A machine that was created is shown as it was reported, until its slot changes.
pub proof fn law_created_machine_is_shown(
    list: Seq<SlotStatus>,
    at: int,
    free: SlotStatus,
    name: String,
    mac: String,
    tap: String,
    pid: u32,
    started_at: String,
)
    requires
        0 <= at < list.len(),
        names_unique(list),
        free.pid == Some(pid),
        list[at] == booted(reserved(free, name, mac, tap), started_at),
    ensures
        shown(list, name@) == Ok::<VmRuntime, ApiErrorView>(
            VmRuntime { name, mac, tap, pid, state: VmState::Running, started_at },
        ),
{
    law_running_machine_is_shown(list, at);
}

/// A machine whose slot was released or reset is not found any more.
pub proof fn law_deleted_machine_is_not_found(list: Seq<SlotStatus>, at: int)
    requires
        0 <= at < list.len(),
        names_unique(list),
        list[at].name is Some,
    ensures
        shown(list.update(at, emptied(list[at])), list[at].name->0@) == Err::<
            VmRuntime,
            ApiErrorView,
        >(ApiErrorView::NotFound(vm_message(list[at].name->0@, " not found"@))),
{
    let name = list[at].name->0@;
    let after = list.update(at, emptied(list[at]));
    law_not_found_iff_no_slot_bears_the_name(after, name);
    assert(!name_taken(after, name)) by {
        if name_taken(after, name) {
            let i = choose|i: int| 0 <= i < after.len() && bears(#[trigger] after[i], name);
            assert(i != at);
            assert(after[i] == list[i]);
        }
    }
}

/// An action without parameters has begun.
pub open spec fn plain_action(
    r: (ProxyAction, ServiceAction<()>),
    name: String,
    path: Seq<char>,
) -> bool {
    &&& r.0.name == name
    &&& r.0.path@ == path
    &&& json_value(r.0.body) == JsonView::Object(no_members())
    &&& r.0.phase == ProxyPhase::Finding
    &&& r.1@ == (ServiceActionView::<()>::FindSlot { name: name@ })
}

/// Begins to reboot a machine.
pub fn reboot_vm(name: String) -> (r: (ProxyAction, ServiceAction<()>))
    ensures
        plain_action(r, name, "/api/v1/vm.reboot"@),
{
    proxy_action_by_name(name, "/api/v1/vm.reboot".to_owned())
}

/// Begins to pause a machine.
pub fn pause_vm(name: String) -> (r: (ProxyAction, ServiceAction<()>))
    ensures
        plain_action(r, name, "/api/v1/vm.pause"@),
{
    proxy_action_by_name(name, "/api/v1/vm.pause".to_owned())
}

/// Begins to resume a machine.
pub fn resume_vm(name: String) -> (r: (ProxyAction, ServiceAction<()>))
    ensures
        plain_action(r, name, "/api/v1/vm.resume"@),
{
    proxy_action_by_name(name, "/api/v1/vm.resume".to_owned())
}

/// Begins to write a snapshot of a machine. A destination that is not absolute goes no further.
pub fn snapshot_vm(name: String, dest_path: String) -> (r: Result<
    (ProxyAction, ServiceAction<()>),
    ApiError,
>)
    ensures
        r is Ok <==> absolute(dest_path@),
        r matches Ok(begun) ==> {
            &&& begun.0.name == name
            &&& begun.0.path@ == "/api/v1/vm.snapshot"@
            &&& json_value(begun.0.body) == snapshot_request(dest_path@)
            &&& begun.0.phase == ProxyPhase::Finding
            &&& begun.1@ == (ServiceActionView::<()>::FindSlot { name: name@ })
        },
        r matches Err(e) ==> e@ == (ApiErrorView::Validation {
            field: Some("destPath"@),
            error: "destPath must be absolute"@,
        }),
{
    match snapshot_request_body(dest_path) {
        Ok(body) => Ok(
            proxy_action_by_name_with_body(name, "/api/v1/vm.snapshot".to_owned(), body),
        ),
        Err(e) => Err(e),
    }
}

/// A question has begun.
pub open spec fn plain_question(
    r: (Passthrough, ServiceAction<ProxyResponse>),
    name: String,
    path: Seq<char>,
) -> bool {
    &&& r.0.name == name
    &&& r.0.path@ == path
    &&& r.0.phase == ProxyPhase::Finding
    &&& r.1@ == (ServiceActionView::<ProxyResponse>::FindSlot { name: name@ })
}

/// Begins to ask what a machine is.
pub fn proxy_info(name: String) -> (r: (Passthrough, ServiceAction<ProxyResponse>))
    ensures
        plain_question(r, name, "/api/v1/vm.info"@),
{
    proxy_passthrough_by_name(name, "/api/v1/vm.info".to_owned())
}

/// Begins to ask what a machine has counted.
pub fn proxy_counters(name: String) -> (r: (Passthrough, ServiceAction<ProxyResponse>))
    ensures
        plain_question(r, name, "/api/v1/vm.counters"@),
{
    proxy_passthrough_by_name(name, "/api/v1/vm.counters".to_owned())
}

} // verus!

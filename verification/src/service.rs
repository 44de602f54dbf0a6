//! What a request for a virtual machine does, step by step.
//!
//! An operation never talks to the pool or to a hypervisor itself. It says what is to be done next;
//! the driver does that and hands the result in as an event, until the operation is finished.
use vstd::prelude::*;
use vstd::utf8::encode_utf8;

use crate::ch_client::{opt_str, HttpMethod};
use crate::clock::{timestamp, utc_stamp};
use crate::error::{api_error_of, ApiError, ApiErrorView};
use crate::json::{
    json_bytes, json_empty_object, json_to_vec, json_value, no_members, JsonView,
};
use crate::numbers::{hex_byte, push_hex_byte};
use crate::pool::{
    numbered, numbered_text, outcome, runtime_or_error, vm_message, vm_text, PoolError,
    PoolErrorView, ProxyResponse, SlotState, SlotStatus, VmRuntime,
};
use crate::vm_payload::{
    backend_error_message, create_restore_request_body, create_vm_request_body,
    format_backend_error, restore_request, vm_request,
};
use crate::vm_validation::{config_fault, validate_boot_config, BootConfig};

verus! {

/// The digest that `sha2::Sha256` gives of bytes.
pub uninterp spec fn sha256_digest(bytes: Seq<u8>) -> Seq<u8>;

/// `sha2::Sha256::digest` gives the SHA-256 digest of bytes, which is 32 bytes long.
#[verifier::external_body]
fn sha256(bytes: &Vec<u8>) -> (r: Vec<u8>)
    ensures
        r@ == sha256_digest(bytes@),
        r@.len() == 32,
{
    <sha2::Sha256 as sha2::Digest>::digest(bytes).to_vec()
}

/// The network address made of a digest: its first five bytes, under a prefix for addresses that
/// are assigned locally.
pub open spec fn mac_of(digest: Seq<u8>) -> Seq<char> {
    "02:"@ + hex_byte(digest[0]) + ":"@ + hex_byte(digest[1]) + ":"@ + hex_byte(digest[2]) + ":"@
        + hex_byte(digest[3]) + ":"@ + hex_byte(digest[4])
}

/// Makes a network address of a digest.
pub fn mac_from_digest(digest: &Vec<u8>) -> (r: String)
    requires
        digest@.len() >= 5,
    ensures
        r@ == mac_of(digest@),
        r@ == "02:"@ + hex_byte(digest@[0]) + ":"@ + hex_byte(digest@[1]) + ":"@ + hex_byte(
            digest@[2],
        ) + ":"@ + hex_byte(digest@[3]) + ":"@ + hex_byte(digest@[4]),
{
    let mut out = "02:".to_owned();
    push_hex_byte(&mut out, digest[0]);
    out.append(":");
    push_hex_byte(&mut out, digest[1]);
    out.append(":");
    push_hex_byte(&mut out, digest[2]);
    out.append(":");
    push_hex_byte(&mut out, digest[3]);
    out.append(":");
    push_hex_byte(&mut out, digest[4]);
    out
}

/// The network address of a machine follows from its name.
pub open spec fn mac_of_name(name: Seq<char>) -> Seq<char> {
    mac_of(sha256_digest(encode_utf8(name)))
}

/// The network address of a machine: the first five bytes of the digest of its whole name, under a
/// prefix for addresses that are assigned locally.
pub fn mac_for_name(name: &str) -> (r: String)
    ensures
        r@ == mac_of_name(name@),
        r@ == "02:"@ + hex_byte(sha256_digest(encode_utf8(name@))[0]) + ":"@ + hex_byte(
            sha256_digest(encode_utf8(name@))[1],
        ) + ":"@ + hex_byte(sha256_digest(encode_utf8(name@))[2]) + ":"@ + hex_byte(
            sha256_digest(encode_utf8(name@))[3],
        ) + ":"@ + hex_byte(sha256_digest(encode_utf8(name@))[4]),
{
    mac_from_digest(&sha256(&name.as_bytes_vec()))
}

/// When the boot of a machine began.
pub fn boot_started_at() -> (r: String)
    ensures
        utc_stamp(r@),
{
    timestamp()
}

/// A request to the hypervisor of a slot.
#[derive(Debug)]
pub struct VmRequest {
    pub slot: usize,
    pub method: HttpMethod,
    pub path: String,
    pub body: Vec<u8>,
    pub content_type: Option<&'static str>,
}

/// A `VmRequest` with its texts as sequences.
pub struct VmRequestView {
    pub slot: usize,
    pub method: HttpMethod,
    pub path: Seq<char>,
    pub body: Seq<u8>,
    pub content_type: Option<Seq<char>>,
}

impl View for VmRequest {
    type V = VmRequestView;

    open spec fn view(&self) -> VmRequestView {
        VmRequestView {
            slot: self.slot,
            method: self.method,
            path: self.path@,
            body: self.body@,
            content_type: opt_str(self.content_type),
        }
    }
}

/// What an operation wants done next.
#[derive(Debug)]
pub enum ServiceAction<T> {
    /// A slot is to be allocated for this machine. Answered by `Slot`.
    Allocate { name: String, mac: String },
    /// The slot of that name is to be looked up. Answered by `Found`.
    FindSlot { name: String },
    /// The hypervisor of the slot is to be waited for. Answered by `Ready`.
    AwaitReady { slot: usize },
    /// The request is to be sent. Answered by `Answered`.
    Send(VmRequest),
    /// The machine in the slot is to be marked as booted. Answered by `Slot`.
    MarkBooted { slot: usize, started_at: String },
    /// The slot is to be released. Answered by `Slot`.
    Release { slot: usize },
    /// The slot is to be reset. Answered by `Slot`, whatever came of it.
    Reset { slot: usize },
    /// The operation is over.
    Finish(Result<T, ApiError>),
    /// The event was not what the operation waits for; nothing has changed.
    Ignore,
}

/// A `ServiceAction` with its texts as sequences.
pub enum ServiceActionView<T> {
    Allocate { name: Seq<char>, mac: Seq<char> },
    FindSlot { name: Seq<char> },
    AwaitReady { slot: usize },
    Send(VmRequestView),
    MarkBooted { slot: usize, started_at: String },
    Release { slot: usize },
    Reset { slot: usize },
    Finish(Result<T, ApiErrorView>),
    Ignore,
}

impl<T> View for ServiceAction<T> {
    type V = ServiceActionView<T>;

    open spec fn view(&self) -> ServiceActionView<T> {
        match *self {
            ServiceAction::Allocate { name, mac } => ServiceActionView::Allocate {
                name: name@,
                mac: mac@,
            },
            ServiceAction::FindSlot { name } => ServiceActionView::FindSlot { name: name@ },
            ServiceAction::AwaitReady { slot } => ServiceActionView::AwaitReady { slot },
            ServiceAction::Send(request) => ServiceActionView::Send(request@),
            ServiceAction::MarkBooted { slot, started_at } => ServiceActionView::MarkBooted {
                slot,
                started_at,
            },
            ServiceAction::Release { slot } => ServiceActionView::Release { slot },
            ServiceAction::Reset { slot } => ServiceActionView::Reset { slot },
            ServiceAction::Finish(Ok(v)) => ServiceActionView::Finish(Ok(v)),
            ServiceAction::Finish(Err(e)) => ServiceActionView::Finish(Err(e@)),
            ServiceAction::Ignore => ServiceActionView::Ignore,
        }
    }
}

/// What came of an action.
#[derive(Debug)]
pub enum ServiceEvent {
    Slot(Result<SlotStatus, PoolError>),
    Found(Result<Option<SlotStatus>, PoolError>),
    Ready(Result<(), ApiError>),
    Answered(Result<ProxyResponse, PoolError>),
}

/// The hypervisor refused the request.
pub open spec fn refused(response: ProxyResponse) -> bool {
    response.status >= 400
}

/// A request without a body.
pub open spec fn bare_request(slot: usize, method: HttpMethod, path: Seq<char>) -> VmRequestView {
    VmRequestView { slot, method, path, body: Seq::empty(), content_type: None }
}

/// A request with a JSON body.
pub open spec fn json_request(slot: usize, path: Seq<char>, body: Seq<u8>) -> VmRequestView {
    VmRequestView {
        slot,
        method: HttpMethod::Put,
        path,
        body,
        content_type: Some("application/json"@),
    }
}

fn send_bare<T>(slot: usize, method: HttpMethod, path: &str) -> (r: ServiceAction<T>)
    ensures
        r@ == ServiceActionView::<T>::Send(bare_request(slot, method, path@)),
{
    let body: Vec<u8> = Vec::new();
    proof {
        assert(body@ =~= Seq::empty());
    }
    ServiceAction::Send(
        VmRequest { slot, method, path: path.to_owned(), body, content_type: None },
    )
}

/// The request with a body that was written as JSON; the error where it could not be written.
pub open spec fn request_of_body(
    slot: usize,
    path: Seq<char>,
    written: Result<Seq<u8>, Seq<char>>,
) -> Result<VmRequestView, ApiErrorView> {
    match written {
        Ok(body) => Ok(json_request(slot, path, body)),
        Err(e) => Err(ApiErrorView::Backend(e)),
    }
}

/// The outcome of writing a body, with its texts as sequences.
pub open spec fn body_outcome(r: Result<Vec<u8>, String>) -> Result<Seq<u8>, Seq<char>> {
    match r {
        Ok(bytes) => Ok(bytes@),
        Err(e) => Err(e@),
    }
}

/// Makes the request with a body that was written as JSON.
pub fn request_with_body(slot: usize, path: &str, written: Result<Vec<u8>, String>) -> (r: Result<
    VmRequest,
    ApiError,
>)
    ensures
        match r {
            Ok(request) => request_of_body(slot, path@, body_outcome(written)) == Ok::<
                VmRequestView,
                ApiErrorView,
            >(request@),
            Err(e) => request_of_body(slot, path@, body_outcome(written)) == Err::<
                VmRequestView,
                ApiErrorView,
            >(e@),
        },
{
    match written {
        Ok(body) => Ok(
            VmRequest {
                slot,
                method: HttpMethod::Put,
                path: path.to_owned(),
                body,
                content_type: Some("application/json"),
            },
        ),
        Err(e) => Err(ApiError::Backend(e)),
    }
}

/// What the creation of a machine waits for.
#[derive(Debug)]
pub enum CreatePhase {
    Allocating,
    AwaitingSlot { reserved: SlotStatus },
    Creating { slot: usize, started_at: String },
    Booting { slot: usize, started_at: String },
    AwaitingVm { slot: usize, started_at: String },
    Marking,
    CleaningUp { refusal: ProxyResponse },
    Done,
}

/// The creation of a machine.
#[derive(Debug)]
pub struct CreateVm {
    pub config: BootConfig,
    pub phase: CreatePhase,
}

/// Where a creation stands after an event, and what is to be done next.
pub type CreateStep = (CreateVm, ServiceActionView<VmRuntime>);

/// The creation is over.
pub open spec fn create_done(config: BootConfig, r: Result<VmRuntime, ApiErrorView>) -> CreateStep {
    (CreateVm { config, phase: CreatePhase::Done }, ServiceActionView::Finish(r))
}

/// The creation goes on.
pub open spec fn create_on(
    config: BootConfig,
    phase: CreatePhase,
    action: ServiceActionView<VmRuntime>,
) -> CreateStep {
    (CreateVm { config, phase }, action)
}

/// The request that brings a machine into being: from a snapshot where one is given.
pub open spec fn creation_path(config: BootConfig) -> Seq<char> {
    if config.snapshot_path is Some {
        "/api/v1/vm.restore"@
    } else {
        "/api/v1/vm.create"@
    }
}

/// The body of that request.
pub open spec fn creation_body(config: BootConfig, reserved: SlotStatus) -> JsonView {
    if config.snapshot_path is Some {
        restore_request(config)
    } else {
        vm_request(config, reserved)
    }
}

/// That request, for a reserved slot.
pub open spec fn creation_request(config: BootConfig, reserved: SlotStatus) -> VmRequestView {
    json_request(
        reserved.slot,
        creation_path(config),
        json_bytes(creation_body(config, reserved)),
    )
}

/// What follows when the hypervisor has taken the request that brings a machine into being: a
/// restored machine runs, a created one has to be booted.
pub open spec fn create_accepted(config: BootConfig, slot: usize, started_at: String) -> CreateStep {
    if config.snapshot_path is Some {
        create_on(
            config,
            CreatePhase::AwaitingVm { slot, started_at },
            ServiceActionView::AwaitReady { slot },
        )
    } else {
        create_on(
            config,
            CreatePhase::Booting { slot, started_at },
            ServiceActionView::Send(bare_request(slot, HttpMethod::Put, "/api/v1/vm.boot"@)),
        )
    }
}

/// What follows when the hypervisor has refused: the slot is reset before the refusal is reported.
pub open spec fn create_refused(config: BootConfig, slot: usize, refusal: ProxyResponse) -> CreateStep {
    create_on(
        config,
        CreatePhase::CleaningUp { refusal },
        ServiceActionView::Reset { slot },
    )
}

/// What an event does to a creation. `started_at` is the time at which the slot became ready.
pub open spec fn create_next(s: CreateVm, event: ServiceEvent, started_at: String) -> CreateStep {
    let config = s.config;
    match (s.phase, event) {
        (CreatePhase::Allocating, ServiceEvent::Slot(Ok(reserved))) => create_on(
            config,
            CreatePhase::AwaitingSlot { reserved },
            ServiceActionView::AwaitReady { slot: reserved.slot },
        ),
        (CreatePhase::Allocating, ServiceEvent::Slot(Err(e))) => create_done(
            config,
            Err(api_error_of(e@)),
        ),
        (CreatePhase::AwaitingSlot { reserved }, ServiceEvent::Ready(Ok(_))) => {
            create_on(
                config,
                CreatePhase::Creating { slot: reserved.slot, started_at },
                ServiceActionView::Send(creation_request(config, reserved)),
            )
        },
        (CreatePhase::Creating { slot, started_at }, ServiceEvent::Answered(Ok(response))) => {
            if refused(response) {
                create_refused(config, slot, response)
            } else {
                create_accepted(config, slot, started_at)
            }
        },
        (CreatePhase::Booting { slot, started_at }, ServiceEvent::Answered(Ok(response))) => {
            if refused(response) {
                create_refused(config, slot, response)
            } else {
                create_on(
                    config,
                    CreatePhase::AwaitingVm { slot, started_at },
                    ServiceActionView::AwaitReady { slot },
                )
            }
        },
        (CreatePhase::AwaitingVm { slot, started_at }, ServiceEvent::Ready(Ok(_))) => create_on(
            config,
            CreatePhase::Marking,
            ServiceActionView::MarkBooted { slot, started_at },
        ),
        (CreatePhase::Marking, ServiceEvent::Slot(Ok(status))) => create_done(
            config,
            match runtime_or_error(status) {
                Ok(runtime) => Ok(runtime),
                Err(e) => Err(api_error_of(e)),
            },
        ),
        (CreatePhase::Marking, ServiceEvent::Slot(Err(e))) => create_done(
            config,
            Err(api_error_of(e@)),
        ),
        (CreatePhase::CleaningUp { refusal }, ServiceEvent::Slot(_)) => create_done(
            config,
            Err(ApiErrorView::Backend(backend_error_message(refusal))),
        ),
        (
            CreatePhase::AwaitingSlot { .. } | CreatePhase::AwaitingVm { .. },
            ServiceEvent::Ready(Err(e)),
        ) => create_done(config, Err(e@)),
        (
            CreatePhase::Creating { .. } | CreatePhase::Booting { .. },
            ServiceEvent::Answered(Err(e)),
        ) => create_done(config, Err(api_error_of(e@))),
        _ => (s, ServiceActionView::Ignore),
    }
}

/// The event by which the time of the boot is fixed.
pub open spec fn begins_boot(s: CreateVm, event: ServiceEvent) -> bool {
    s.phase is AwaitingSlot && event matches ServiceEvent::Ready(Ok(_))
}

/// Begins to create a machine. A request that breaks a rule goes no further.
pub fn create_vm(config: BootConfig) -> (r: (CreateVm, ServiceAction<VmRuntime>))
    ensures
        (r.0, r.1@) == (match config_fault(config) {
            Some(e) => create_done(config, Err(e)),
            None => create_on(
                config,
                CreatePhase::Allocating,
                ServiceActionView::Allocate { name: config.name@, mac: mac_of_name(config.name@) },
            ),
        }),
        config_fault(config) is None ==> r.1@ == (ServiceActionView::<VmRuntime>::Allocate {
            name: config.name@,
            mac: "02:"@ + hex_byte(sha256_digest(encode_utf8(config.name@))[0]) + ":"@ + hex_byte(
                sha256_digest(encode_utf8(config.name@))[1],
            ) + ":"@ + hex_byte(sha256_digest(encode_utf8(config.name@))[2]) + ":"@ + hex_byte(
                sha256_digest(encode_utf8(config.name@))[3],
            ) + ":"@ + hex_byte(sha256_digest(encode_utf8(config.name@))[4]),
        }),
{
    if let Err(e) = validate_boot_config(&config) {
        return (CreateVm { config, phase: CreatePhase::Done }, ServiceAction::Finish(Err(e)));
    }
    let name = config.name.clone();
    let mac = mac_for_name(name.as_str());
    (CreateVm { config, phase: CreatePhase::Allocating }, ServiceAction::Allocate { name, mac })
}

fn finish_create(config: BootConfig, result: Result<VmRuntime, ApiError>) -> (r: (
    CreateVm,
    ServiceAction<VmRuntime>,
))
    ensures
        (r.0, r.1@) == create_done(
            config,
            match result {
                Ok(v) => Ok(v),
                Err(e) => Err(e@),
            },
        ),
{
    (CreateVm { config, phase: CreatePhase::Done }, ServiceAction::Finish(result))
}

fn continue_create(config: BootConfig, phase: CreatePhase, action: ServiceAction<VmRuntime>) -> (r: (
    CreateVm,
    ServiceAction<VmRuntime>,
))
    ensures
        (r.0, r.1@) == create_on(config, phase, action@),
{
    (CreateVm { config, phase }, action)
}

impl CreateVm {
    fn request_creation(config: BootConfig, reserved: SlotStatus, started_at: String) -> (r: (
        CreateVm,
        ServiceAction<VmRuntime>,
    ))
        ensures
            (r.0, r.1@) == create_on(
                config,
                CreatePhase::Creating { slot: reserved.slot, started_at },
                ServiceActionView::Send(creation_request(config, reserved)),
            ),
    {
        let restoring = config.snapshot_path.is_some();
        let body = if restoring {
            create_restore_request_body(&config)
        } else {
            create_vm_request_body(&config, &reserved)
        };
        let path = if restoring {
            "/api/v1/vm.restore"
        } else {
            "/api/v1/vm.create"
        };
        let slot: usize = reserved.slot;
        match request_with_body(slot, path, json_to_vec(&body)) {
            Ok(request) => continue_create(
                config,
                CreatePhase::Creating { slot, started_at },
                ServiceAction::Send(request),
            ),
            Err(e) => finish_create(config, Err(e)),
        }
    }

    /// Takes an event in. `started_at` is used if it is the one by which the boot begins.
    pub fn advance_at(self, event: ServiceEvent, started_at: String) -> (r: (
        CreateVm,
        ServiceAction<VmRuntime>,
    ))
        ensures
            (r.0, r.1@) == create_next(self, event, started_at),
    {
        let config = self.config;
        match (self.phase, event) {
            (CreatePhase::Allocating, ServiceEvent::Slot(Ok(reserved))) => {
                let slot: usize = reserved.slot;
                continue_create(
                    config,
                    CreatePhase::AwaitingSlot { reserved },
                    ServiceAction::AwaitReady { slot },
                )
            },
            (CreatePhase::Allocating, ServiceEvent::Slot(Err(e))) => finish_create(
                config,
                Err(ApiError::from(e)),
            ),
            (CreatePhase::AwaitingSlot { reserved }, ServiceEvent::Ready(Ok(_))) => {
                Self::request_creation(config, reserved, started_at)
            },
            (CreatePhase::Creating { slot, started_at }, ServiceEvent::Answered(Ok(response))) => {
                if response.status >= 400 {
                    continue_create(
                        config,
                        CreatePhase::CleaningUp { refusal: response },
                        ServiceAction::Reset { slot },
                    )
                } else if config.snapshot_path.is_some() {
                    continue_create(
                        config,
                        CreatePhase::AwaitingVm { slot, started_at },
                        ServiceAction::AwaitReady { slot },
                    )
                } else {
                    continue_create(
                        config,
                        CreatePhase::Booting { slot, started_at },
                        send_bare(slot, HttpMethod::Put, "/api/v1/vm.boot"),
                    )
                }
            },
            (CreatePhase::Booting { slot, started_at }, ServiceEvent::Answered(Ok(response))) => {
                if response.status >= 400 {
                    continue_create(
                        config,
                        CreatePhase::CleaningUp { refusal: response },
                        ServiceAction::Reset { slot },
                    )
                } else {
                    continue_create(
                        config,
                        CreatePhase::AwaitingVm { slot, started_at },
                        ServiceAction::AwaitReady { slot },
                    )
                }
            },
            (CreatePhase::AwaitingVm { slot, started_at }, ServiceEvent::Ready(Ok(_))) => {
                continue_create(
                    config,
                    CreatePhase::Marking,
                    ServiceAction::MarkBooted { slot, started_at },
                )
            },
            (CreatePhase::Marking, ServiceEvent::Slot(Ok(status))) => {
                let result = match VmRuntime::try_from(&status) {
                    Ok(runtime) => Ok(runtime),
                    Err(e) => Err(ApiError::from(e)),
                };
                finish_create(config, result)
            },
            (CreatePhase::Marking, ServiceEvent::Slot(Err(e))) => finish_create(
                config,
                Err(ApiError::from(e)),
            ),
            (CreatePhase::CleaningUp { refusal }, ServiceEvent::Slot(_)) => finish_create(
                config,
                Err(ApiError::Backend(format_backend_error(&refusal))),
            ),
            (CreatePhase::AwaitingSlot { .. }, ServiceEvent::Ready(Err(e))) => finish_create(
                config,
                Err(e),
            ),
            (CreatePhase::AwaitingVm { .. }, ServiceEvent::Ready(Err(e))) => finish_create(
                config,
                Err(e),
            ),
            (CreatePhase::Creating { .. }, ServiceEvent::Answered(Err(e))) => finish_create(
                config,
                Err(ApiError::from(e)),
            ),
            (CreatePhase::Booting { .. }, ServiceEvent::Answered(Err(e))) => finish_create(
                config,
                Err(ApiError::from(e)),
            ),
            (phase, _) => (CreateVm { config, phase }, ServiceAction::Ignore),
        }
    }

    /// Takes an event in, and looks at the clock if the boot begins with it.
    pub fn advance(self, event: ServiceEvent) -> (r: (CreateVm, ServiceAction<VmRuntime>))
        ensures
            exists|started_at: String|
                (begins_boot(self, event) ==> utc_stamp(started_at@)) && (r.0, r.1@)
                    == #[trigger] create_next(self, event, started_at),
    {
        let begins = match (&self.phase, &event) {
            (CreatePhase::AwaitingSlot { .. }, ServiceEvent::Ready(Ok(_))) => true,
            _ => false,
        };
        let started_at = if begins {
            boot_started_at()
        } else {
            String::new()
        };
        self.advance_at(event, started_at)
    }
}

/// The slot in which a machine runs, going by what was found under its name.
pub open spec fn running_slot(
    name: Seq<char>,
    found: Result<Option<SlotStatus>, PoolErrorView>,
) -> Result<usize, ApiErrorView> {
    match found {
        Err(e) => Err(api_error_of(e)),
        Ok(None) => Err(ApiErrorView::NotFound(vm_message(name, " not found"@))),
        Ok(Some(status)) => if status.state != SlotState::Occupied {
            Err(ApiErrorView::Conflict(vm_message(name, " is not running"@)))
        } else {
            Ok(status.slot)
        },
    }
}

/// Picks the slot in which a machine runs.
pub fn require_running(name: &str, found: Result<Option<SlotStatus>, PoolError>) -> (r: Result<
    usize,
    ApiError,
>)
    ensures
        match r {
            Ok(slot) => running_slot(name@, outcome(found)) == Ok::<usize, ApiErrorView>(slot),
            Err(e) => running_slot(name@, outcome(found)) == Err::<usize, ApiErrorView>(e@),
        },
{
    match found {
        Err(e) => Err(ApiError::from(e)),
        Ok(None) => Err(ApiError::NotFound(vm_text(name, " not found"))),
        Ok(Some(status)) => {
            if status.state != SlotState::Occupied {
                Err(ApiError::Conflict(vm_text(name, " is not running")))
            } else {
                Ok(status.slot)
            }
        },
    }
}

/// What the deletion of a machine waits for.
#[derive(Debug)]
pub enum DeletePhase {
    Finding,
    ShuttingDown { slot: usize },
    Deleting { slot: usize },
    Releasing,
    CleaningUp { refusal: ProxyResponse },
    Done,
}

/// The deletion of a machine.
#[derive(Debug)]
pub struct DeleteVm {
    pub name: String,
    pub phase: DeletePhase,
}

/// Where a deletion stands after an event, and what is to be done next.
pub type DeleteStep = (DeleteVm, ServiceActionView<()>);

/// The deletion is over.
pub open spec fn delete_done(name: String, r: Result<(), ApiErrorView>) -> DeleteStep {
    (DeleteVm { name, phase: DeletePhase::Done }, ServiceActionView::Finish(r))
}

/// The deletion goes on.
pub open spec fn delete_on(
    name: String,
    phase: DeletePhase,
    action: ServiceActionView<()>,
) -> DeleteStep {
    (DeleteVm { name, phase }, action)
}

/// What an event does to a deletion.
pub open spec fn delete_next(s: DeleteVm, event: ServiceEvent) -> DeleteStep {
    let name = s.name;
    match (s.phase, event) {
        (DeletePhase::Finding, ServiceEvent::Found(found)) => match running_slot(
            name@,
            outcome(found),
        ) {
            Err(e) => delete_done(name, Err(e)),
            Ok(slot) => delete_on(
                name,
                DeletePhase::ShuttingDown { slot },
                ServiceActionView::Send(
                    bare_request(slot, HttpMethod::Put, "/api/v1/vm.shutdown"@),
                ),
            ),
        },
        (DeletePhase::ShuttingDown { slot }, ServiceEvent::Answered(Ok(response))) => {
            if refused(response) {
                delete_on(
                    name,
                    DeletePhase::CleaningUp { refusal: response },
                    ServiceActionView::Reset { slot },
                )
            } else {
                delete_on(
                    name,
                    DeletePhase::Deleting { slot },
                    ServiceActionView::Send(
                        bare_request(slot, HttpMethod::Put, "/api/v1/vm.delete"@),
                    ),
                )
            }
        },
        (DeletePhase::Deleting { slot }, ServiceEvent::Answered(Ok(response))) => {
            if refused(response) {
                delete_on(
                    name,
                    DeletePhase::CleaningUp { refusal: response },
                    ServiceActionView::Reset { slot },
                )
            } else {
                delete_on(name, DeletePhase::Releasing, ServiceActionView::Release { slot })
            }
        },
        (
            DeletePhase::ShuttingDown { .. } | DeletePhase::Deleting { .. },
            ServiceEvent::Answered(Err(e)),
        ) => delete_done(name, Err(api_error_of(e@))),
        (DeletePhase::Releasing, ServiceEvent::Slot(Ok(_))) => delete_done(name, Ok(())),
        (DeletePhase::Releasing, ServiceEvent::Slot(Err(e))) => delete_done(
            name,
            Err(api_error_of(e@)),
        ),
        (DeletePhase::CleaningUp { refusal }, ServiceEvent::Slot(_)) => delete_done(
            name,
            Err(ApiErrorView::Backend(backend_error_message(refusal))),
        ),
        _ => (s, ServiceActionView::Ignore),
    }
}

/// Begins to delete a machine.
pub fn delete_vm(name: String) -> (r: (DeleteVm, ServiceAction<()>))
    ensures
        (r.0, r.1@) == delete_on(
            name,
            DeletePhase::Finding,
            ServiceActionView::FindSlot { name: name@ },
        ),
{
    let wanted = name.clone();
    (DeleteVm { name, phase: DeletePhase::Finding }, ServiceAction::FindSlot { name: wanted })
}

fn finish_delete(name: String, result: Result<(), ApiError>) -> (r: (DeleteVm, ServiceAction<()>))
    ensures
        (r.0, r.1@) == delete_done(
            name,
            match result {
                Ok(v) => Ok(v),
                Err(e) => Err(e@),
            },
        ),
{
    (DeleteVm { name, phase: DeletePhase::Done }, ServiceAction::Finish(result))
}

fn continue_delete(name: String, phase: DeletePhase, action: ServiceAction<()>) -> (r: (
    DeleteVm,
    ServiceAction<()>,
))
    ensures
        (r.0, r.1@) == delete_on(name, phase, action@),
{
    (DeleteVm { name, phase }, action)
}

impl DeleteVm {
    /// Takes an event in.
    pub fn advance(self, event: ServiceEvent) -> (r: (DeleteVm, ServiceAction<()>))
        ensures
            (r.0, r.1@) == delete_next(self, event),
    {
        let name = self.name;
        match (self.phase, event) {
            (DeletePhase::Finding, ServiceEvent::Found(found)) => match require_running(
                name.as_str(),
                found,
            ) {
                Err(e) => finish_delete(name, Err(e)),
                Ok(slot) => continue_delete(
                    name,
                    DeletePhase::ShuttingDown { slot },
                    send_bare(slot, HttpMethod::Put, "/api/v1/vm.shutdown"),
                ),
            },
            (DeletePhase::ShuttingDown { slot }, ServiceEvent::Answered(Ok(response))) => {
                if response.status >= 400 {
                    continue_delete(
                        name,
                        DeletePhase::CleaningUp { refusal: response },
                        ServiceAction::Reset { slot },
                    )
                } else {
                    continue_delete(
                        name,
                        DeletePhase::Deleting { slot },
                        send_bare(slot, HttpMethod::Put, "/api/v1/vm.delete"),
                    )
                }
            },
            (DeletePhase::Deleting { slot }, ServiceEvent::Answered(Ok(response))) => {
                if response.status >= 400 {
                    continue_delete(
                        name,
                        DeletePhase::CleaningUp { refusal: response },
                        ServiceAction::Reset { slot },
                    )
                } else {
                    continue_delete(
                        name,
                        DeletePhase::Releasing,
                        ServiceAction::Release { slot },
                    )
                }
            },
            (DeletePhase::ShuttingDown { .. }, ServiceEvent::Answered(Err(e))) => finish_delete(
                name,
                Err(ApiError::from(e)),
            ),
            (DeletePhase::Deleting { .. }, ServiceEvent::Answered(Err(e))) => finish_delete(
                name,
                Err(ApiError::from(e)),
            ),
            (DeletePhase::Releasing, ServiceEvent::Slot(Ok(_))) => finish_delete(name, Ok(())),
            (DeletePhase::Releasing, ServiceEvent::Slot(Err(e))) => finish_delete(
                name,
                Err(ApiError::from(e)),
            ),
            (DeletePhase::CleaningUp { refusal }, ServiceEvent::Slot(_)) => finish_delete(
                name,
                Err(ApiError::Backend(format_backend_error(&refusal))),
            ),
            (phase, _) => (DeleteVm { name, phase }, ServiceAction::Ignore),
        }
    }
}

/// What a request that is passed on to a hypervisor waits for.
#[derive(Debug, Clone, Copy, PartialEq, Eq, Structural)]
pub enum ProxyPhase {
    Finding,
    Sending,
    Done,
}

/// An action on a running machine.
pub struct ProxyAction {
    pub name: String,
    pub path: String,
    pub body: serde_json::Value,
    pub phase: ProxyPhase,
}

/// Where an action stands after an event, and what is to be done next.
pub type ProxyActionStep = (ProxyAction, ServiceActionView<()>);

/// What an event does to an action.
pub open spec fn proxy_action_next(s: ProxyAction, event: ServiceEvent) -> ProxyActionStep {
    let done = ProxyAction { phase: ProxyPhase::Done, ..s };
    match (s.phase, event) {
        (ProxyPhase::Finding, ServiceEvent::Found(found)) => match running_slot(
            s.name@,
            outcome(found),
        ) {
            Err(e) => (done, ServiceActionView::Finish(Err(e))),
            Ok(slot) => (
                ProxyAction { phase: ProxyPhase::Sending, ..s },
                ServiceActionView::Send(
                    json_request(slot, s.path@, json_bytes(json_value(s.body))),
                ),
            ),
        },
        (ProxyPhase::Sending, ServiceEvent::Answered(Err(e))) => (
            done,
            ServiceActionView::Finish(Err(api_error_of(e@))),
        ),
        (ProxyPhase::Sending, ServiceEvent::Answered(Ok(response))) => (
            done,
            ServiceActionView::Finish(
                if refused(response) {
                    Err(ApiErrorView::Backend(backend_error_message(response)))
                } else {
                    Ok(())
                },
            ),
        ),
        _ => (s, ServiceActionView::Ignore),
    }
}

/// Begins an action that has no parameters.
pub fn proxy_action_by_name(name: String, path: String) -> (r: (ProxyAction, ServiceAction<()>))
    ensures
        r.0.name == name,
        r.0.path == path,
        json_value(r.0.body) == JsonView::Object(no_members()),
        r.0.phase == ProxyPhase::Finding,
        r.1@ == (ServiceActionView::<()>::FindSlot { name: name@ }),
{
    proxy_action_by_name_with_body(name, path, json_empty_object())
}

/// Begins an action whose parameters are these.
pub fn proxy_action_by_name_with_body(name: String, path: String, body: serde_json::Value) -> (r: (
    ProxyAction,
    ServiceAction<()>,
))
    ensures
        r.0 == (ProxyAction { name, path, body, phase: ProxyPhase::Finding }),
        r.1@ == (ServiceActionView::<()>::FindSlot { name: name@ }),
{
    let wanted = name.clone();
    (
        ProxyAction { name, path, body, phase: ProxyPhase::Finding },
        ServiceAction::FindSlot { name: wanted },
    )
}

impl ProxyAction {
    /// Takes an event in.
    pub fn advance(self, event: ServiceEvent) -> (r: (ProxyAction, ServiceAction<()>))
        ensures
            (r.0, r.1@) == proxy_action_next(self, event),
    {
        let mut next = self;
        match (next.phase, event) {
            (ProxyPhase::Finding, ServiceEvent::Found(found)) => {
                let slot: usize = match require_running(next.name.as_str(), found) {
                    Ok(slot) => slot,
                    Err(e) => {
                        next.phase = ProxyPhase::Done;
                        return (next, ServiceAction::Finish(Err(e)));
                    },
                };
                match request_with_body(slot, next.path.as_str(), json_to_vec(&next.body)) {
                    Ok(request) => {
                        next.phase = ProxyPhase::Sending;
                        (next, ServiceAction::Send(request))
                    },
                    Err(e) => {
                        next.phase = ProxyPhase::Done;
                        (next, ServiceAction::Finish(Err(e)))
                    },
                }
            },
            (ProxyPhase::Sending, ServiceEvent::Answered(Err(e))) => {
                next.phase = ProxyPhase::Done;
                (next, ServiceAction::Finish(Err(ApiError::from(e))))
            },
            (ProxyPhase::Sending, ServiceEvent::Answered(Ok(response))) => {
                next.phase = ProxyPhase::Done;
                if response.status >= 400 {
                    let error = ApiError::Backend(format_backend_error(&response));
                    (next, ServiceAction::Finish(Err(error)))
                } else {
                    (next, ServiceAction::Finish(Ok(())))
                }
            },
            _ => (next, ServiceAction::Ignore),
        }
    }
}

/// A question to a running machine, whose answer is passed on as it is.
#[derive(Debug)]
pub struct Passthrough {
    pub name: String,
    pub path: String,
    pub phase: ProxyPhase,
}

/// Where a question stands after an event, and what is to be done next.
pub type PassthroughStep = (Passthrough, ServiceActionView<ProxyResponse>);

/// What an event does to a question.
pub open spec fn passthrough_next(s: Passthrough, event: ServiceEvent) -> PassthroughStep {
    let done = Passthrough { phase: ProxyPhase::Done, ..s };
    match (s.phase, event) {
        (ProxyPhase::Finding, ServiceEvent::Found(found)) => match running_slot(
            s.name@,
            outcome(found),
        ) {
            Err(e) => (done, ServiceActionView::Finish(Err(e))),
            Ok(slot) => (
                Passthrough { phase: ProxyPhase::Sending, ..s },
                ServiceActionView::Send(bare_request(slot, HttpMethod::Get, s.path@)),
            ),
        },
        (ProxyPhase::Sending, ServiceEvent::Answered(Err(e))) => (
            done,
            ServiceActionView::Finish(Err(api_error_of(e@))),
        ),
        (ProxyPhase::Sending, ServiceEvent::Answered(Ok(response))) => (
            done,
            ServiceActionView::Finish(Ok(response)),
        ),
        _ => (s, ServiceActionView::Ignore),
    }
}

/// Begins a question.
pub fn proxy_passthrough_by_name(name: String, path: String) -> (r: (
    Passthrough,
    ServiceAction<ProxyResponse>,
))
    ensures
        r.0 == (Passthrough { name, path, phase: ProxyPhase::Finding }),
        r.1@ == (ServiceActionView::<ProxyResponse>::FindSlot { name: name@ }),
{
    let wanted = name.clone();
    (
        Passthrough { name, path, phase: ProxyPhase::Finding },
        ServiceAction::FindSlot { name: wanted },
    )
}

impl Passthrough {
    /// Takes an event in.
    pub fn advance(self, event: ServiceEvent) -> (r: (Passthrough, ServiceAction<ProxyResponse>))
        ensures
            (r.0, r.1@) == passthrough_next(self, event),
    {
        let mut next = self;
        match (next.phase, event) {
            (ProxyPhase::Finding, ServiceEvent::Found(found)) => {
                match require_running(next.name.as_str(), found) {
                    Ok(slot) => {
                        let action = send_bare(slot, HttpMethod::Get, next.path.as_str());
                        next.phase = ProxyPhase::Sending;
                        (next, action)
                    },
                    Err(e) => {
                        next.phase = ProxyPhase::Done;
                        (next, ServiceAction::Finish(Err(e)))
                    },
                }
            },
            (ProxyPhase::Sending, ServiceEvent::Answered(Err(e))) => {
                next.phase = ProxyPhase::Done;
                (next, ServiceAction::Finish(Err(ApiError::from(e))))
            },
            (ProxyPhase::Sending, ServiceEvent::Answered(Ok(response))) => {
                next.phase = ProxyPhase::Done;
                (next, ServiceAction::Finish(Ok(response)))
            },
            _ => (next, ServiceAction::Ignore),
        }
    }
}

/// How long a slot is waited for, in nanoseconds.
pub const READY_DEADLINE: u128 = 5_000_000_000;

/// The pause between two looks at a slot, in nanoseconds.
pub const READY_PAUSE: u128 = 50_000_000;

/// What waiting for a slot wants done next. It begins with `AskStatus`.
#[derive(Debug)]
pub enum ReadyStep {
    /// The slot is to be asked for its status.
    AskStatus,
    /// A connection to the socket of the slot is to be tried.
    Connect,
    /// The time since the waiting began is to be told.
    ReadClock,
    /// This many nanoseconds are to be let pass.
    Sleep(u128),
    /// The waiting is over.
    Done(Result<(), ApiError>),
}

/// A `ReadyStep` with the error by its view.
pub enum ReadyStepView {
    AskStatus,
    Connect,
    ReadClock,
    Sleep(u128),
    Done(Result<(), ApiErrorView>),
}

impl View for ReadyStep {
    type V = ReadyStepView;

    open spec fn view(&self) -> ReadyStepView {
        match *self {
            ReadyStep::AskStatus => ReadyStepView::AskStatus,
            ReadyStep::Connect => ReadyStepView::Connect,
            ReadyStep::ReadClock => ReadyStepView::ReadClock,
            ReadyStep::Sleep(n) => ReadyStepView::Sleep(n),
            ReadyStep::Done(Ok(_)) => ReadyStepView::Done(Ok(())),
            ReadyStep::Done(Err(e)) => ReadyStepView::Done(Err(e@)),
        }
    }
}

/// What came of a step.
#[derive(Debug)]
pub enum ReadyEvent {
    Status(Result<SlotStatus, PoolError>),
    /// Whether the connection came about.
    Connected(bool),
    /// The nanoseconds since the waiting began.
    Elapsed(u128),
    Slept,
}

/// What follows in waiting for a slot. Only a connection shows that its hypervisor can be talked to;
/// it is tried once there is a process.
pub open spec fn ready_next(slot: usize, event: ReadyEvent) -> ReadyStepView {
    match event {
        ReadyEvent::Status(Err(e)) => ReadyStepView::Done(Err(api_error_of(e@))),
        ReadyEvent::Status(Ok(status)) => if status.pid is Some {
            ReadyStepView::Connect
        } else {
            ReadyStepView::ReadClock
        },
        ReadyEvent::Connected(true) => ReadyStepView::Done(Ok(())),
        ReadyEvent::Connected(false) => ReadyStepView::ReadClock,
        ReadyEvent::Elapsed(past) => if past >= READY_DEADLINE {
            ReadyStepView::Done(
                Err(
                    ApiErrorView::Backend(
                        numbered("slot "@, slot as nat, " did not become ready"@),
                    ),
                ),
            )
        } else {
            ReadyStepView::Sleep(READY_PAUSE)
        },
        ReadyEvent::Slept => ReadyStepView::AskStatus,
    }
}

/// Takes in what came of the last step and goes on waiting for a slot.
pub fn wait_for_slot_ready(slot: usize, event: ReadyEvent) -> (r: ReadyStep)
    ensures
        r@ == ready_next(slot, event),
{
    match event {
        ReadyEvent::Status(Err(e)) => ReadyStep::Done(Err(ApiError::from(e))),
        ReadyEvent::Status(Ok(status)) => {
            if status.pid.is_some() {
                ReadyStep::Connect
            } else {
                ReadyStep::ReadClock
            }
        },
        ReadyEvent::Connected(connected) => {
            if connected {
                ReadyStep::Done(Ok(()))
            } else {
                ReadyStep::ReadClock
            }
        },
        ReadyEvent::Elapsed(past) => {
            if past >= READY_DEADLINE {
                ReadyStep::Done(
                    Err(
                        ApiError::Backend(
                            numbered_text("slot ", slot as u64, " did not become ready"),
                        ),
                    ),
                )
            } else {
                ReadyStep::Sleep(READY_PAUSE)
            }
        },
        ReadyEvent::Slept => ReadyStep::AskStatus,
    }
}

} // verus!

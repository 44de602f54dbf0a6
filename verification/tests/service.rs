use std::collections::VecDeque;

use croutond::ch_client::HttpMethod;
use croutond::clock::timestamp;
use croutond::error::ApiError;
use croutond::json::json_empty_object;
use croutond::pool::{PoolError, ProxyResponse, SlotState, SlotStatus, VmRuntime, VmState};
use croutond::service::{
    boot_started_at, create_vm, delete_vm, mac_for_name, mac_from_digest,
    proxy_action_by_name, proxy_action_by_name_with_body, proxy_passthrough_by_name,
    request_with_body, require_running, wait_for_slot_ready, CreatePhase, CreateVm, DeletePhase,
    DeleteVm, ProxyPhase, ReadyEvent, ReadyStep, ServiceAction, ServiceEvent, VmRequest,
    READY_DEADLINE, READY_PAUSE,
};
use croutond::vm_validation::BootConfig;

struct FakePool {
    slot_by_name: Option<SlotStatus>,
    passthrough_response: Option<ProxyResponse>,
    scripted_request_responses: VecDeque<ProxyResponse>,
    request_paths: Vec<String>,
    released_slots: Vec<usize>,
    reset_slots: Vec<usize>,
}

impl FakePool {
    fn occupied_status(name: &str, slot: usize) -> SlotStatus {
        SlotStatus {
            slot,
            generation: 1,
            state: SlotState::Occupied,
            name: Some(name.to_string()),
            mac: Some("02:aa:bb:cc:dd:ee".to_string()),
            tap: Some(format!("tap{slot}")),
            pid: Some(1234),
            started_at: Some("2026-05-30T00:00:00Z".to_string()),
            last_error: None,
        }
    }

    fn with_slot(slot_by_name: Option<SlotStatus>) -> FakePool {
        FakePool {
            slot_by_name,
            passthrough_response: None,
            scripted_request_responses: VecDeque::new(),
            request_paths: Vec::new(),
            released_slots: Vec::new(),
            reset_slots: Vec::new(),
        }
    }

    fn perform<T>(&mut self, action: ServiceAction<T>) -> ServiceEvent {
        match action {
            ServiceAction::FindSlot { name } => ServiceEvent::Found(Ok(self
                .slot_by_name
                .as_ref()
                .filter(|status| status.name.as_deref() == Some(name.as_str()))
                .cloned())),
            ServiceAction::Send(request) => {
                if request.method == HttpMethod::Get {
                    return ServiceEvent::Answered(self.passthrough_response.clone().ok_or_else(
                        || PoolError::Backend("missing passthrough response".to_string()),
                    ));
                }
                self.request_paths.push(format!("PUT {}", request.path));
                ServiceEvent::Answered(self.scripted_request_responses.pop_front().ok_or_else(
                    || PoolError::Backend("missing scripted response".to_string()),
                ))
            }
            ServiceAction::Release { slot } => {
                self.released_slots.push(slot);
                ServiceEvent::Slot(Ok(empty_status(slot, 2)))
            }
            ServiceAction::Reset { slot } => {
                self.reset_slots.push(slot);
                ServiceEvent::Slot(Ok(empty_status(0, 0)))
            }
            _ => panic!("unexpected action"),
        }
    }
}

fn empty_status(slot: usize, generation: u64) -> SlotStatus {
    SlotStatus {
        slot,
        generation,
        state: SlotState::Empty,
        name: None,
        mac: None,
        tap: None,
        pid: None,
        started_at: None,
        last_error: None,
    }
}

fn run_delete(pool: &mut FakePool, name: &str) -> Result<(), ApiError> {
    let (mut operation, mut action) = delete_vm(name.to_string());
    loop {
        if let ServiceAction::Finish(result) = action {
            return result;
        }
        let event = pool.perform(action);
        (operation, action) = operation.advance(event);
    }
}

fn run_action(pool: &mut FakePool, name: &str, path: &str, body: serde_json::Value) -> Result<(), ApiError> {
    let (mut operation, mut action) =
        proxy_action_by_name_with_body(name.to_string(), path.to_string(), body);
    loop {
        if let ServiceAction::Finish(result) = action {
            return result;
        }
        let event = pool.perform(action);
        (operation, action) = operation.advance(event);
    }
}

fn run_passthrough(pool: &mut FakePool, name: &str, path: &str) -> Result<ProxyResponse, ApiError> {
    let (mut operation, mut action) =
        proxy_passthrough_by_name(name.to_string(), path.to_string());
    loop {
        if let ServiceAction::Finish(result) = action {
            return result;
        }
        let event = pool.perform(action);
        (operation, action) = operation.advance(event);
    }
}

fn response(status: u16, body: &[u8]) -> ProxyResponse {
    ProxyResponse { status, content_type: None, body: body.to_vec() }
}

#[test]
fn delete_vm_returns_conflict_for_non_running_vm() {
    let mut pool = FakePool::with_slot(Some(SlotStatus {
        state: SlotState::Booting,
        ..FakePool::occupied_status("vm-a", 3)
    }));

    let error = run_delete(&mut pool, "vm-a").expect_err("expected conflict");

    match error {
        ApiError::Conflict(message) => assert!(message.contains("is not running")),
        other => panic!("unexpected error: {other:?}"),
    }
}

#[test]
fn proxy_action_returns_not_found_for_unknown_vm() {
    let mut pool = FakePool::with_slot(None);

    let error = run_action(&mut pool, "missing", "/api/v1/vm.pause", json_empty_object())
        .expect_err("expected not found");

    match error {
        ApiError::NotFound(message) => assert!(message.contains("not found")),
        other => panic!("unexpected error: {other:?}"),
    }
}

#[test]
fn proxy_passthrough_returns_backend_response_for_running_vm() {
    let mut pool = FakePool::with_slot(Some(FakePool::occupied_status("vm-a", 5)));
    pool.passthrough_response = Some(ProxyResponse {
        status: 200,
        content_type: Some("application/json".to_string()),
        body: br#"{"ok":true}"#.to_vec(),
    });

    let response = run_passthrough(&mut pool, "vm-a", "/api/v1/vm.info")
        .expect("expected passthrough response");

    assert_eq!(response.status, 200);
    assert_eq!(response.content_type.as_deref(), Some("application/json"));
    assert_eq!(response.body, br#"{"ok":true}"#.to_vec());
}

#[test]
fn delete_vm_success_calls_shutdown_then_delete_then_release() {
    let mut pool = FakePool::with_slot(Some(FakePool::occupied_status("vm-a", 7)));
    pool.scripted_request_responses = VecDeque::from(vec![
        ProxyResponse {
            status: 200,
            content_type: None,
            body: Vec::new(),
        },
        ProxyResponse {
            status: 200,
            content_type: None,
            body: Vec::new(),
        },
    ]);

    run_delete(&mut pool, "vm-a").expect("expected delete success");

    assert_eq!(
        pool.request_paths,
        vec!["PUT /api/v1/vm.shutdown", "PUT /api/v1/vm.delete"]
    );
    assert_eq!(pool.released_slots, vec![7]);
}

#[test]
fn proxy_action_returns_backend_error_on_unsuccessful_status() {
    let mut pool = FakePool::with_slot(Some(FakePool::occupied_status("vm-a", 2)));
    pool.scripted_request_responses = VecDeque::from(vec![ProxyResponse {
        status: 500,
        content_type: Some("text/plain".to_string()),
        body: b"boom".to_vec(),
    }]);

    let error = run_action(&mut pool, "vm-a", "/api/v1/vm.pause", json_empty_object())
        .expect_err("expected backend error");

    match error {
        ApiError::Backend(message) => {
            assert!(message.contains("status 500"));
            assert!(message.contains("boom"));
        }
        other => panic!("unexpected error: {other:?}"),
    }
    assert!(pool.reset_slots.is_empty());
    assert!(pool.released_slots.is_empty());
}

#[test]
fn refused_deletion_resets_the_slot() {
    for answers in [vec![response(500, b" no \n")], vec![response(204, b""), response(404, b"no")]] {
        let requests = answers.len();
        let status = answers[requests - 1].status;
        let mut pool = FakePool::with_slot(Some(FakePool::occupied_status("vm-a", 4)));
        pool.scripted_request_responses = VecDeque::from(answers);
        match run_delete(&mut pool, "vm-a") {
            Err(ApiError::Backend(message)) => {
                assert_eq!(message, format!("backend returned status {status}: no"))
            }
            other => panic!("unexpected outcome: {other:?}"),
        }
        assert_eq!(pool.request_paths.len(), requests);
        assert_eq!(pool.reset_slots, vec![4]);
        assert!(pool.released_slots.is_empty());
    }
}

#[test]
fn a_request_that_cannot_be_sent_ends_the_deletion() {
    let mut pool = FakePool::with_slot(Some(FakePool::occupied_status("vm-a", 4)));
    match run_delete(&mut pool, "vm-a") {
        Err(ApiError::Backend(message)) => assert_eq!(message, "missing scripted response"),
        other => panic!("unexpected outcome: {other:?}"),
    }
    assert!(pool.reset_slots.is_empty());
}

#[test]
fn deletion_reports_a_failed_release() {
    let operation = DeleteVm { name: "vm".to_string(), phase: DeletePhase::Releasing };
    let (operation, action) = operation.advance(ServiceEvent::Slot(Err(PoolError::ChannelClosed)));
    assert!(matches!(operation.phase, DeletePhase::Done));
    match action {
        ServiceAction::Finish(Err(ApiError::Backend(message))) => {
            assert_eq!(message, "slot worker channel is closed")
        }
        other => panic!("unexpected action: {other:?}"),
    }
}

#[test]
fn unexpected_events_are_ignored() {
    let (operation, _) = delete_vm("vm".to_string());
    let (operation, action) = operation.advance(ServiceEvent::Ready(Ok(())));
    assert!(matches!(action, ServiceAction::Ignore));
    assert!(matches!(operation.phase, DeletePhase::Finding));

    let (operation, _) = proxy_action_by_name("vm".to_string(), "/x".to_string());
    let (operation, action) = operation.advance(ServiceEvent::Answered(Ok(response(200, b""))));
    assert!(matches!(action, ServiceAction::Ignore));
    assert_eq!(operation.phase, ProxyPhase::Finding);

    let (operation, _) = create_vm(linux_config());
    let (operation, action) = operation.advance(ServiceEvent::Ready(Ok(())));
    assert!(matches!(action, ServiceAction::Ignore));
    assert!(matches!(operation.phase, CreatePhase::Allocating));
}

#[test]
fn actions_carry_their_parameters() {
    let (operation, action) = proxy_action_by_name("vm".to_string(), "/api/v1/vm.pause".to_string());
    match action {
        ServiceAction::FindSlot { name } => assert_eq!(name, "vm"),
        other => panic!("unexpected action: {other:?}"),
    }
    let found = Ok(Some(FakePool::occupied_status("vm", 6)));
    let (operation, action) = operation.advance(ServiceEvent::Found(found));
    let request = sent(action);
    assert_eq!(request.slot, 6);
    assert_eq!(request.method, HttpMethod::Put);
    assert_eq!(request.path, "/api/v1/vm.pause");
    assert_eq!(request.body, b"{}".to_vec());
    assert_eq!(request.content_type, Some("application/json"));
    let (operation, action) = operation.advance(ServiceEvent::Answered(Ok(response(399, b"x"))));
    assert!(matches!(action, ServiceAction::Finish(Ok(()))));
    assert_eq!(operation.phase, ProxyPhase::Done);
}

#[test]
fn refused_questions_are_passed_on() {
    let mut pool = FakePool::with_slot(Some(FakePool::occupied_status("vm-a", 5)));
    pool.passthrough_response = Some(response(500, b"broken"));
    let answer = run_passthrough(&mut pool, "vm-a", "/api/v1/vm.info").expect("an answer");
    assert_eq!(answer.status, 500);
    assert_eq!(answer.body, b"broken".to_vec());
    pool.passthrough_response = None;
    match run_passthrough(&mut pool, "vm-a", "/api/v1/vm.info") {
        Err(ApiError::Backend(message)) => assert_eq!(message, "missing passthrough response"),
        other => panic!("unexpected outcome: {other:?}"),
    }
    match run_passthrough(&mut pool, "vm-b", "/api/v1/vm.info") {
        Err(ApiError::NotFound(message)) => assert_eq!(message, "VM 'vm-b' not found"),
        other => panic!("unexpected outcome: {other:?}"),
    }
}

#[test]
fn only_running_machines_are_asked() {
    let booting = SlotStatus { state: SlotState::Booting, ..FakePool::occupied_status("vm", 1) };
    match require_running("vm", Ok(Some(booting))) {
        Err(ApiError::Conflict(message)) => assert_eq!(message, "VM 'vm' is not running"),
        other => panic!("unexpected outcome: {other:?}"),
    }
    match require_running("vm", Err(PoolError::ChannelClosed)) {
        Err(ApiError::Backend(message)) => assert_eq!(message, "slot worker channel is closed"),
        other => panic!("unexpected outcome: {other:?}"),
    }
    assert_eq!(
        require_running("vm", Ok(Some(FakePool::occupied_status("vm", 9)))).expect("it runs"),
        9
    );
}

fn linux_config() -> BootConfig {
    BootConfig {
        name: "vm-a".to_string(),
        cpus: 1,
        memory_mb: 1,
        boot_mode: "linux".to_string(),
        disks: Vec::new(),
        kernel_path: Some("/k".to_string()),
        initrd_path: None,
        cmdline: None,
        firmware_path: None,
        snapshot_path: None,
    }
}

fn reserved() -> SlotStatus {
    SlotStatus {
        slot: 3,
        generation: 1,
        state: SlotState::Booting,
        name: Some("vm-a".to_string()),
        mac: Some("02:9f:5f:9c:a7:be".to_string()),
        tap: Some("tap3".to_string()),
        pid: Some(77),
        started_at: None,
        last_error: None,
    }
}

fn sent<T>(action: ServiceAction<T>) -> VmRequest {
    match action {
        ServiceAction::Send(request) => request,
        _ => panic!("expected a request"),
    }
}

fn awaited<T>(action: &ServiceAction<T>) -> usize {
    match action {
        ServiceAction::AwaitReady { slot } => *slot,
        _ => panic!("expected waiting"),
    }
}

#[test]
fn creation_boots_the_machine() {
    let (operation, action) = create_vm(linux_config());
    match action {
        ServiceAction::Allocate { name, mac } => {
            assert_eq!(name, "vm-a");
            assert_eq!(mac, "02:9f:5f:9c:a7:be");
        }
        other => panic!("unexpected action: {other:?}"),
    }
    let (operation, action) = operation.advance(ServiceEvent::Slot(Ok(reserved())));
    assert_eq!(awaited(&action), 3);
    let (operation, action) =
        operation.advance_at(ServiceEvent::Ready(Ok(())), "noon".to_string());
    let request = sent(action);
    assert_eq!(request.slot, 3);
    assert_eq!(request.method, HttpMethod::Put);
    assert_eq!(request.path, "/api/v1/vm.create");
    assert_eq!(request.content_type, Some("application/json"));
    assert_eq!(
        String::from_utf8(request.body).expect("JSON is text"),
        concat(&[
            r#"{"cpus":{"boot_vcpus":1,"max_vcpus":1},"disks":[],"memory":{"size":1048576},"#,
            r#""net":[{"mac":"02:9f:5f:9c:a7:be","tap":"tap3"}],"#,
            r#""payload":{"cmdline":null,"initramfs":null,"kernel":"/k"},"#,
            r#""rng":{"src":"/dev/urandom"}}"#,
        ])
    );
    let (operation, action) = operation.advance(ServiceEvent::Answered(Ok(response(204, b""))));
    let request = sent(action);
    assert_eq!(request.slot, 3);
    assert_eq!(request.path, "/api/v1/vm.boot");
    assert_eq!(request.method, HttpMethod::Put);
    assert!(request.body.is_empty());
    assert_eq!(request.content_type, None);
    let (operation, action) = operation.advance(ServiceEvent::Answered(Ok(response(200, b""))));
    assert_eq!(awaited(&action), 3);
    let (operation, action) = operation.advance(ServiceEvent::Ready(Ok(())));
    match action {
        ServiceAction::MarkBooted { slot, started_at } => {
            assert_eq!(slot, 3);
            assert_eq!(started_at, "noon");
        }
        other => panic!("unexpected action: {other:?}"),
    }
    let marked = SlotStatus {
        state: SlotState::Occupied,
        started_at: Some("noon".to_string()),
        ..reserved()
    };
    let (operation, action) = operation.advance(ServiceEvent::Slot(Ok(marked)));
    assert!(matches!(operation.phase, CreatePhase::Done));
    let runtime = finished(action).expect("the machine runs");
    assert_eq!(runtime.name, "vm-a");
    assert_eq!(runtime.mac, "02:9f:5f:9c:a7:be");
    assert_eq!(runtime.tap, "tap3");
    assert_eq!(runtime.pid, 77);
    assert_eq!(runtime.state, VmState::Running);
    assert_eq!(runtime.started_at, "noon");
}

fn concat(parts: &[&str]) -> String {
    parts.concat()
}

fn finished<T>(action: ServiceAction<T>) -> Result<T, ApiError> {
    match action {
        ServiceAction::Finish(result) => result,
        _ => panic!("expected the end"),
    }
}

fn backend_message(result: Result<VmRuntime, ApiError>) -> String {
    match result {
        Err(ApiError::Backend(message)) => message,
        other => panic!("unexpected outcome: {other:?}"),
    }
}

#[test]
fn creation_restores_a_snapshot_without_booting() {
    let mut config = linux_config();
    config.snapshot_path = Some("/snap".to_string());
    let (operation, _) = create_vm(config);
    let (operation, _) = operation.advance(ServiceEvent::Slot(Ok(reserved())));
    let (operation, action) = operation.advance(ServiceEvent::Ready(Ok(())));
    let request = sent(action);
    assert_eq!(request.path, "/api/v1/vm.restore");
    assert_eq!(request.body, br#"{"source_url":"file:///snap"}"#.to_vec());
    let (operation, action) = operation.advance(ServiceEvent::Answered(Ok(response(200, b""))));
    assert_eq!(awaited(&action), 3);
    let (_, action) = operation.advance(ServiceEvent::Ready(Ok(())));
    match action {
        ServiceAction::MarkBooted { slot, started_at } => {
            assert_eq!(slot, 3);
            assert!(started_at.ends_with("+00:00"));
        }
        other => panic!("unexpected action: {other:?}"),
    }
}

#[test]
fn invalid_requests_reserve_nothing() {
    let mut config = linux_config();
    config.cpus = 0;
    let (operation, action) = create_vm(config);
    assert!(matches!(operation.phase, CreatePhase::Done));
    match finished(action) {
        Err(ApiError::Validation { field, .. }) => assert_eq!(field.as_deref(), Some("cpus")),
        other => panic!("unexpected outcome: {other:?}"),
    }
}

#[test]
fn refused_creation_resets_its_slot() {
    for booting in [false, true] {
        let phase = if booting {
            CreatePhase::Booting { slot: 3, started_at: "noon".to_string() }
        } else {
            CreatePhase::Creating { slot: 3, started_at: "noon".to_string() }
        };
        let operation = CreateVm { config: linux_config(), phase };
        let (operation, action) =
            operation.advance(ServiceEvent::Answered(Ok(response(400, b"bad\n"))));
        assert!(matches!(action, ServiceAction::Reset { slot: 3 }));
        let (operation, action) =
            operation.advance(ServiceEvent::Slot(Err(PoolError::ChannelClosed)));
        assert!(matches!(operation.phase, CreatePhase::Done));
        assert_eq!(backend_message(finished(action)), "backend returned status 400: bad");
    }
}

#[test]
fn creation_reports_failures_without_cleaning_up() {
    let (operation, _) = create_vm(linux_config());
    let (_, action) = operation.advance(ServiceEvent::Slot(Err(PoolError::NoAvailableSlot)));
    match finished(action) {
        Err(ApiError::PoolExhausted(message)) => assert_eq!(message, "pool exhausted"),
        other => panic!("unexpected outcome: {other:?}"),
    }

    let phases = [
        CreatePhase::Creating { slot: 3, started_at: String::new() },
        CreatePhase::Booting { slot: 3, started_at: String::new() },
    ];
    for phase in phases {
        let operation = CreateVm { config: linux_config(), phase };
        let lost = PoolError::Backend("lost".to_string());
        let (_, action) = operation.advance(ServiceEvent::Answered(Err(lost)));
        assert_eq!(backend_message(finished(action)), "lost");
    }

    let phases = [
        CreatePhase::AwaitingSlot { reserved: reserved() },
        CreatePhase::AwaitingVm { slot: 3, started_at: String::new() },
    ];
    for phase in phases {
        let operation = CreateVm { config: linux_config(), phase };
        let late = ApiError::Backend("late".to_string());
        let (_, action) = operation.advance(ServiceEvent::Ready(Err(late)));
        assert_eq!(backend_message(finished(action)), "late");
    }

    let operation = CreateVm { config: linux_config(), phase: CreatePhase::Marking };
    let (_, action) = operation.advance(ServiceEvent::Slot(Err(PoolError::SlotNotFound(3))));
    match finished(action) {
        Err(ApiError::NotFound(message)) => assert_eq!(message, "slot 3 does not exist"),
        other => panic!("unexpected outcome: {other:?}"),
    }

    let operation = CreateVm { config: linux_config(), phase: CreatePhase::Marking };
    let (_, action) = operation.advance(ServiceEvent::Slot(Ok(reserved())));
    match finished(action) {
        Err(ApiError::Conflict(message)) => assert_eq!(
            message,
            "slot 3 cannot perform convert_runtime from state Booting"
        ),
        other => panic!("unexpected outcome: {other:?}"),
    }
}

#[test]
fn bodies_that_cannot_be_written_fail_the_request() {
    match request_with_body(1, "/p", Err("no".to_string())) {
        Err(ApiError::Backend(message)) => assert_eq!(message, "no"),
        other => panic!("unexpected outcome: {other:?}"),
    }
    let request = request_with_body(1, "/p", Ok(vec![1, 2])).expect("a body");
    assert_eq!(request.body, vec![1, 2]);
}

#[test]
fn addresses_follow_from_names() {
    assert_eq!(mac_for_name("vm-a"), "02:9f:5f:9c:a7:be");
    assert_eq!(mac_for_name(""), "02:e3:b0:c4:42:98");
    assert_eq!(mac_for_name("ä"), "02:33:e6:d7:3f:ee");
    assert_eq!(mac_from_digest(&vec![0, 9, 10, 159, 255, 7]), "02:00:09:0a:9f:ff");
    assert_eq!(mac_for_name("any name").len(), 17);
    assert!(mac_for_name("any name").starts_with("02:"));
}

#[test]
fn the_time_is_told_in_utc() {
    for stamp in [timestamp(), boot_started_at()] {
        assert!(stamp.len() >= 25, "{stamp}");
        assert!(stamp.ends_with("+00:00"), "{stamp}");
        let shape: String = stamp
            .chars()
            .map(|c| if c.is_ascii_digit() { '0' } else { c })
            .collect();
        let (day, rest) = shape.split_at(19);
        assert_eq!(day, "0000-00-00T00:00:00", "{stamp}");
        let fraction = rest.strip_suffix("+00:00").expect("the offset of UTC");
        assert!(matches!(fraction, "" | ".000" | ".000000" | ".000000000"), "{stamp}");
    }
}

#[test]
fn a_slot_is_ready_once_it_can_be_connected_to() {
    let status = reserved();
    assert!(matches!(wait_for_slot_ready(3, ReadyEvent::Status(Ok(status))), ReadyStep::Connect));
    let status = SlotStatus { pid: None, ..reserved() };
    assert!(matches!(wait_for_slot_ready(3, ReadyEvent::Status(Ok(status))), ReadyStep::ReadClock));
    assert!(matches!(
        wait_for_slot_ready(3, ReadyEvent::Connected(true)),
        ReadyStep::Done(Ok(()))
    ));
    assert!(matches!(
        wait_for_slot_ready(3, ReadyEvent::Connected(false)),
        ReadyStep::ReadClock
    ));
    assert!(matches!(wait_for_slot_ready(3, ReadyEvent::Slept), ReadyStep::AskStatus));
    match wait_for_slot_ready(3, ReadyEvent::Status(Err(PoolError::SlotNotFound(3)))) {
        ReadyStep::Done(Err(ApiError::NotFound(message))) => {
            assert_eq!(message, "slot 3 does not exist")
        }
        other => panic!("unexpected step: {other:?}"),
    }
}

#[test]
fn waiting_ends_at_the_deadline() {
    assert_eq!((READY_DEADLINE, READY_PAUSE), (5_000_000_000, 50_000_000));
    match wait_for_slot_ready(12, ReadyEvent::Elapsed(READY_DEADLINE - 1)) {
        ReadyStep::Sleep(pause) => assert_eq!(pause, READY_PAUSE),
        other => panic!("unexpected step: {other:?}"),
    }
    for past in [READY_DEADLINE, 100 * READY_PAUSE, u128::MAX] {
        match wait_for_slot_ready(12, ReadyEvent::Elapsed(past)) {
            ReadyStep::Done(Err(ApiError::Backend(message))) => {
                assert_eq!(message, "slot 12 did not become ready")
            }
            other => panic!("unexpected step: {other:?}"),
        }
    }
}

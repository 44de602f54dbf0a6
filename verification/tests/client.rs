use croutond::api::{
    explain_missing, get_vm, health, metrics_failure, pause_vm, proxy_counters, proxy_info,
    reboot_vm, resume_vm, snapshot_vm, GetVmStep,
};
use croutond::ch_client::{
    io_invalid_input, io_other, response_to_proxy_response, unix_http_request, HttpMethod,
};
use croutond::error::ApiError;
use croutond::io_error::{IoError, IoErrorKind};
use croutond::pool::{PoolError, SlotState, SlotStatus, VmRuntime, VmState};
use croutond::service::{ProxyPhase, ServiceAction};

#[test]
fn requests_are_made_for_one_connection() {
    let request = unix_http_request(HttpMethod::Get, "", Vec::new(), None);
    assert_eq!(request.method, HttpMethod::Get);
    assert_eq!(request.uri, "/");
    assert_eq!(
        request.headers,
        vec![
            ("host".to_string(), "localhost".to_string()),
            ("connection".to_string(), "close".to_string()),
        ]
    );
    assert!(request.body.is_empty());
    let request = unix_http_request(HttpMethod::Put, "/x", vec![1], Some("text/plain"));
    assert_eq!(request.uri, "/x");
    assert_eq!(request.headers[2], ("content-type".to_string(), "text/plain".to_string()));
    assert_eq!(request.body, vec![1]);
}

#[test]
fn responses_keep_a_type_that_can_be_shown() {
    let kept = response_to_proxy_response(200, Some(b"text/\tx ~".to_vec()), vec![9]);
    assert_eq!(kept.status, 200);
    assert_eq!(kept.content_type.as_deref(), Some("text/\tx ~"));
    assert_eq!(kept.body, vec![9]);
    for hidden in [vec![31], vec![b'a', 127], vec![0xc3, 0xa4]] {
        assert_eq!(response_to_proxy_response(200, Some(hidden), Vec::new()).content_type, None);
    }
    assert_eq!(response_to_proxy_response(200, None, Vec::new()).content_type, None);
    assert_eq!(
        response_to_proxy_response(200, Some(Vec::new()), Vec::new()).content_type.as_deref(),
        Some("")
    );
}

#[test]
fn failures_have_a_kind() {
    let error = io_other("lost".to_string());
    assert_eq!((error.kind, error.message.as_str()), (IoErrorKind::Other, "lost"));
    let error = io_invalid_input("bad".to_string());
    assert_eq!((error.kind, error.message.as_str()), (IoErrorKind::InvalidInput, "bad"));
}

#[test]
fn errors_are_answered_with_their_status() {
    let (status, body) = ApiError::Validation {
        field: Some("name".to_string()),
        error: "name is required".to_string(),
    }
    .into_response();
    assert_eq!(status, 400);
    assert_eq!(body.error, "name is required");
    assert_eq!(body.field.as_deref(), Some("name"));
    let answers = [
        (ApiError::NotFound("a".to_string()), 404),
        (ApiError::Conflict("a".to_string()), 409),
        (ApiError::PoolExhausted("a".to_string()), 503),
        (ApiError::Backend("a".to_string()), 500),
        (ApiError::Validation { field: None, error: "a".to_string() }, 400),
    ];
    for (error, expected) in answers {
        let (status, body) = error.into_response();
        assert_eq!(status, expected);
        assert_eq!(body.error, "a");
        assert_eq!(body.field, None);
    }
}

#[test]
fn errors_of_the_pool_are_shown_to_clients() {
    let text = |error: PoolError| ApiError::from(error).into_response();
    let (status, body) = text(PoolError::SlotNotFound(3));
    assert_eq!((status, body.error.as_str()), (404, "slot 3 does not exist"));
    let (status, body) = text(PoolError::VmNotFound("a".to_string()));
    assert_eq!((status, body.error.as_str()), (404, "VM 'a' not found"));
    let (status, body) = text(PoolError::VmAlreadyRunning("a".to_string()));
    assert_eq!((status, body.error.as_str()), (409, "VM 'a' is already running"));
    let (status, body) = text(PoolError::NoAvailableSlot);
    assert_eq!((status, body.error.as_str()), (503, "pool exhausted"));
    let (status, body) = text(PoolError::InvalidTransition {
        slot: 1,
        from: SlotState::Empty,
        action: "release",
    });
    assert_eq!((status, body.error.as_str()), (409, "slot 1 cannot perform release from state Empty"));
    let (status, body) = text(PoolError::ChannelClosed);
    assert_eq!((status, body.error.as_str()), (500, "slot worker channel is closed"));
    let (status, body) = text(PoolError::Backend("x".to_string()));
    assert_eq!((status, body.error.as_str()), (500, "x"));
}

#[test]
fn health_shows_the_pool() {
    let answer = health("1.2.3".to_string(), 4, Ok((1, 3))).expect("counted");
    assert_eq!(answer.service, "croutond");
    assert_eq!(answer.version, "1.2.3");
    assert_eq!((answer.pool_size, answer.pool_in_use, answer.pool_idle), (4, 1, 3));
    assert!(matches!(
        health(String::new(), 4, Err(PoolError::ChannelClosed)),
        Err(ApiError::Backend(_))
    ));
}

#[test]
fn metrics_that_cannot_be_read_fail_in_the_backend() {
    let error = IoError { kind: IoErrorKind::InvalidData, message: "missing uptime".to_string() };
    match metrics_failure(error) {
        ApiError::Backend(message) => assert_eq!(message, "missing uptime"),
        other => panic!("unexpected error: {other:?}"),
    }
}

fn slot() -> SlotStatus {
    SlotStatus {
        slot: 0,
        generation: 1,
        state: SlotState::Booting,
        name: Some("vm".to_string()),
        mac: None,
        tap: None,
        pid: None,
        started_at: None,
        last_error: None,
    }
}

#[test]
fn machines_are_shown_or_explained() {
    let vm = VmRuntime {
        name: "vm".to_string(),
        mac: String::new(),
        tap: String::new(),
        pid: 1,
        state: VmState::Running,
        started_at: String::new(),
    };
    match get_vm(Ok(Some(vm))) {
        GetVmStep::Done(Ok(shown)) => assert_eq!(shown.name, "vm"),
        other => panic!("unexpected step: {other:?}"),
    }
    assert!(matches!(get_vm(Ok(None)), GetVmStep::FindSlot));
    assert!(matches!(
        get_vm(Err(PoolError::ChannelClosed)),
        GetVmStep::Done(Err(ApiError::Backend(_)))
    ));
    match explain_missing("vm", Ok(Some(slot()))) {
        ApiError::Conflict(message) => assert_eq!(message, "VM 'vm' is not running"),
        other => panic!("unexpected error: {other:?}"),
    }
    match explain_missing("vm", Ok(None)) {
        ApiError::NotFound(message) => assert_eq!(message, "VM 'vm' not found"),
        other => panic!("unexpected error: {other:?}"),
    }
    assert!(matches!(
        explain_missing("vm", Err(PoolError::NoAvailableSlot)),
        ApiError::PoolExhausted(_)
    ));
}

#[test]
fn actions_are_sent_to_their_paths() {
    let begun = [
        (reboot_vm("vm".to_string()), "/api/v1/vm.reboot"),
        (pause_vm("vm".to_string()), "/api/v1/vm.pause"),
        (resume_vm("vm".to_string()), "/api/v1/vm.resume"),
    ];
    for ((operation, action), path) in begun {
        assert_eq!(operation.name, "vm");
        assert_eq!(operation.path, path);
        assert_eq!(operation.body.to_string(), "{}");
        assert_eq!(operation.phase, ProxyPhase::Finding);
        match action {
            ServiceAction::FindSlot { name } => assert_eq!(name, "vm"),
            other => panic!("unexpected action: {other:?}"),
        }
    }
    let (operation, _) = proxy_info("vm".to_string());
    assert_eq!(operation.path, "/api/v1/vm.info");
    let (operation, _) = proxy_counters("vm".to_string());
    assert_eq!(operation.path, "/api/v1/vm.counters");
}

#[test]
fn snapshots_need_an_absolute_destination() {
    let (operation, _) = snapshot_vm("vm".to_string(), "/s".to_string()).expect("absolute");
    assert_eq!(operation.path, "/api/v1/vm.snapshot");
    assert_eq!(operation.body.to_string(), r#"{"destPath":"/s"}"#);
    match snapshot_vm("vm".to_string(), "s".to_string()) {
        Err(ApiError::Validation { field, error }) => {
            assert_eq!(field.as_deref(), Some("destPath"));
            assert_eq!(error, "destPath must be absolute");
        }
        _ => panic!("the destination is not absolute"),
    }
}

use croutond::ch_client::HttpMethod;
use croutond::io_error::{IoError, IoErrorKind};
use croutond::pool::{
    find_empty_slot, find_runtime_named, find_slot_named, format_slot_summary, pool_occupancy,
    running_vms, runtime_from_slot_status, PoolError, PoolOccupancy, ProxyResponse, SlotState,
    SlotStatus, VmRuntime, VmState,
};
use croutond::paths::parent_directory;
use croutond::process_pool::{
    initialize_slot, AllocationStep, ListingStep, ProcessPool, SlotLaunch,
};
use croutond::api::{explain_missing, get_vm, GetVmStep};
use croutond::error::ApiError;
use croutond::slot_supervisor::{SlotCommand, Supervisor, SupervisorEvent};

const SECOND: u128 = 1_000_000_000;

fn status(slot: usize, state: SlotState, name: Option<&str>) -> SlotStatus {
    let assigned = name.is_some();
    SlotStatus {
        slot,
        generation: 1,
        state,
        name: name.map(|n| n.to_string()),
        mac: if assigned { Some("02:aa".to_string()) } else { None },
        tap: if assigned { Some(format!("tap{slot}")) } else { None },
        pid: Some(100 + slot as u32),
        started_at: if state == SlotState::Occupied { Some("noon".to_string()) } else { None },
        last_error: None,
    }
}

fn pool(min: usize, max: usize) -> (ProcessPool, Vec<SlotLaunch>) {
    ProcessPool::spawn(
        min,
        max,
        15 * SECOND,
        "ch".to_string(),
        vec![b"-v".to_vec()],
        Some("br0".to_string()),
        b"/run/vms".to_vec(),
    )
    .expect("the limits are in order")
}

#[test]
fn a_pool_starts_at_its_smallest_size() {
    let (pool, workers) = pool(2, 3);
    assert_eq!(pool.size(), 2);
    assert_eq!((pool.min_pool_size, pool.max_pool_size), (2, 3));
    assert_eq!(pool.last_scale_down_at, None);
    assert_eq!(workers.len(), 2);
    assert_eq!(workers[1].slot, 1);
    assert_eq!(workers[1].program, "ch");
    assert_eq!(workers[1].bridge.as_deref(), Some("br0"));
    assert_eq!(workers[1].api_socket, b"/run/vms/vmm1.sock".to_vec());
    assert_eq!(
        workers[1].args,
        vec![b"-v".to_vec(), b"--api-socket".to_vec(), b"/run/vms/vmm1.sock".to_vec()]
    );
}

#[test]
fn limits_that_are_out_of_order_are_refused() {
    let refused = ProcessPool::spawn(4, 3, SECOND, String::new(), Vec::new(), None, Vec::new());
    match refused {
        Err(IoError { kind, message }) => {
            assert_eq!(kind, IoErrorKind::InvalidInput);
            assert_eq!(message, "max_pool_size (3) must be >= min_pool_size (4)");
        }
        Ok(_) => panic!("the limits are out of order"),
    }
}

#[test]
fn sockets_lie_in_the_directory_of_the_pool() {
    let socket = |base: &[u8], slot: usize| {
        initialize_slot(slot, &String::new(), &Vec::new(), &None, &base.to_vec()).api_socket
    };
    assert_eq!(socket(b"/tmp", 0), b"/tmp/vmm0.sock".to_vec());
    assert_eq!(socket(b"/tmp/", 12), b"/tmp/vmm12.sock".to_vec());
    assert_eq!(socket(b"", 3), b"vmm3.sock".to_vec());
    assert_eq!(socket(b"/", 3), b"/vmm3.sock".to_vec());
    assert_eq!(socket(b"\xff", 3), b"\xff/vmm3.sock".to_vec());
    assert_ne!(socket(b"/tmp", 1), socket(b"/tmp", 11));
    let (pool, _) = pool(1, 1);
    assert_eq!(pool.vm_socket_path(9), b"/run/vms/vmm9.sock".to_vec());
}

#[test]
fn a_pool_grows_after_its_last_slot() {
    let (mut pool, _) = pool(2, 9);
    let workers = pool.extend(3);
    assert_eq!(pool.size(), 5);
    let slots: Vec<usize> = workers.iter().map(|w| w.slot).collect();
    assert_eq!(slots, vec![2, 3, 4]);
    assert_eq!(workers[2].api_socket, b"/run/vms/vmm4.sock".to_vec());
}

#[test]
fn commands_are_addressed_to_existing_slots() {
    let (pool, _) = pool(2, 2);
    assert!(matches!(pool.get_vm_slot_status(1), Ok(SlotCommand::GetVmStatus)));
    assert!(matches!(pool.release_vm_slot(0), Ok(SlotCommand::ReleaseVm)));
    assert!(matches!(pool.reset_vm_slot(0), Ok(SlotCommand::ResetVm)));
    match pool.reserve_vm_slot(1, "n".to_string(), "m".to_string(), "t".to_string()) {
        Ok(SlotCommand::ReserveVm { name, mac, tap }) => {
            assert_eq!((name.as_str(), mac.as_str(), tap.as_str()), ("n", "m", "t"))
        }
        _ => panic!("unexpected outcome"),
    }
    match pool.mark_vm_slot_booted(1, "noon".to_string()) {
        Ok(SlotCommand::MarkVmBooted { started_at }) => assert_eq!(started_at, "noon"),
        _ => panic!("unexpected outcome"),
    }
    assert!(matches!(pool.get_vm_slot_status(2), Err(PoolError::SlotNotFound(2))));
    assert!(matches!(pool.reset_vm_slot(7), Err(PoolError::SlotNotFound(7))));
}

#[test]
fn a_worker_that_is_gone_has_closed_its_channel() {
    assert!(matches!(ProcessPool::settle(None), Err(PoolError::ChannelClosed)));
    let answer = ProcessPool::settle(Some(Ok(status(4, SlotState::Empty, None)))).expect("answered");
    assert_eq!(answer.slot, 4);
    assert!(matches!(
        ProcessPool::settle(Some(Err(PoolError::NoAvailableSlot))),
        Err(PoolError::NoAvailableSlot)
    ));
}

#[test]
fn a_listing_asks_every_slot_in_order() {
    let (pool, _) = pool(2, 2);
    let mut step = pool.start_listing();
    let mut asked = Vec::new();
    let listing = loop {
        step = match step {
            ListingStep::Ask { slot, so_far } => {
                asked.push(slot);
                pool.list_vm_slots(so_far, Ok(status(slot, SlotState::Empty, None)))
            }
            ListingStep::Done(listing) => break listing.expect("all answered"),
        };
    };
    assert_eq!(asked, vec![0, 1]);
    assert_eq!(listing.iter().map(|s| s.slot).collect::<Vec<usize>>(), vec![0, 1]);

    match pool.list_vm_slots(Vec::new(), Err(PoolError::ChannelClosed)) {
        ListingStep::Done(Err(PoolError::ChannelClosed)) => {}
        _ => panic!("the first failure ends the listing"),
    }

    let (empty, _) = ProcessPool::spawn(0, 0, 0, String::new(), Vec::new(), None, Vec::new())
        .expect("an empty pool");
    match empty.start_listing() {
        ListingStep::Done(Ok(list)) => assert!(list.is_empty()),
        _ => panic!("there is nobody to ask"),
    }
}

fn mixed() -> Vec<SlotStatus> {
    vec![
        status(0, SlotState::Occupied, Some("a")),
        status(1, SlotState::Empty, None),
        status(2, SlotState::Booting, Some("b")),
        status(3, SlotState::Failed, None),
        status(4, SlotState::Empty, None),
        status(5, SlotState::Occupied, Some("c")),
    ]
}

#[test]
fn slots_are_counted_by_their_state() {
    let counts = pool_occupancy(&mixed());
    assert_eq!(
        counts,
        PoolOccupancy { size: 6, occupied: 2, booting: 1, empty: 2, failed: 1 }
    );
    assert_eq!(counts.occupied + counts.booting + counts.empty + counts.failed, counts.size);
    assert_eq!(ProcessPool::pool_usage(Ok(mixed())).expect("counted"), (4, 2));
    assert!(matches!(
        ProcessPool::pool_usage(Err(PoolError::ChannelClosed)),
        Err(PoolError::ChannelClosed)
    ));
}

#[test]
fn slots_are_summarised_in_one_line() {
    assert_eq!(
        format_slot_summary(&mixed()),
        "0:Occupied(a),1:Empty(-),2:Booting(b),3:Failed(-),4:Empty(-),5:Occupied(c)"
    );
    assert_eq!(format_slot_summary(&Vec::new()), "");
}

#[test]
fn machines_are_found_by_name() {
    assert_eq!(find_slot_named(&mixed(), "b").expect("there").slot, 2);
    assert!(find_slot_named(&mixed(), "x").is_none());
    assert_eq!(find_empty_slot(&mixed()), Some(1));
    assert_eq!(find_empty_slot(&vec![status(0, SlotState::Failed, None)]), None);
    let vms = running_vms(&mixed());
    assert_eq!(vms.iter().map(|vm| vm.name.as_str()).collect::<Vec<&str>>(), vec!["a", "c"]);
    assert_eq!(find_runtime_named(&vms, "c").expect("it runs").pid, 105);
    assert!(find_runtime_named(&vms, "b").is_none());

    let found = ProcessPool::find_vm_slot_status_by_name(Ok(mixed()), "b").expect("listed");
    assert_eq!(found.expect("there").slot, 2);
    let found = ProcessPool::find_vm_runtime_by_name(Ok(mixed()), "b").expect("listed");
    assert!(found.is_none());
    let found = ProcessPool::find_vm_runtime_by_name(Ok(mixed()), "a").expect("listed");
    assert_eq!(found.expect("it runs").tap, "tap0");
    assert_eq!(ProcessPool::list_running_vms(Ok(mixed())).expect("listed").len(), 2);
    assert!(ProcessPool::list_running_vms(Err(PoolError::ChannelClosed)).is_err());
}

#[test]
fn only_complete_machines_are_shown() {
    let whole = status(5, SlotState::Occupied, Some("c"));
    let vm = runtime_from_slot_status(&whole).expect("it runs");
    assert_eq!(vm.name, "c");
    assert_eq!(vm.state, VmState::Running);
    assert_eq!(VmRuntime::try_from(&whole).expect("it runs").pid, 105);

    let message = |status: SlotStatus| match VmRuntime::try_from(&status) {
        Err(PoolError::Backend(message)) => {
            assert!(runtime_from_slot_status(&status).is_none());
            message
        }
        other => panic!("unexpected outcome: {other:?}"),
    };
    assert_eq!(message(SlotStatus { name: None, mac: None, ..whole.clone() }), "missing VM name");
    assert_eq!(message(SlotStatus { mac: None, tap: None, ..whole.clone() }), "missing MAC address");
    assert_eq!(message(SlotStatus { tap: None, pid: None, ..whole.clone() }), "missing tap device");
    assert_eq!(message(SlotStatus { pid: None, started_at: None, ..whole.clone() }), "missing pid");
    assert_eq!(message(SlotStatus { started_at: None, ..whole.clone() }), "missing started_at");
    match VmRuntime::try_from(&status(2, SlotState::Booting, Some("b"))) {
        Err(PoolError::InvalidTransition { slot, from, action }) => {
            assert_eq!((slot, from, action), (2, SlotState::Booting, "convert_runtime"))
        }
        other => panic!("unexpected outcome: {other:?}"),
    }
}

#[test]
fn errors_of_the_pool_read_well() {
    let transition = PoolError::InvalidTransition {
        slot: 3,
        from: SlotState::Booting,
        action: "release",
    };
    assert_eq!(transition.to_text(), "slot 3 cannot perform release from state Booting");
    assert_eq!(PoolError::SlotNotFound(12).to_text(), "slot 12 does not exist");
    assert_eq!(PoolError::VmNotFound("a".to_string()).to_text(), "VM 'a' not found");
    assert_eq!(PoolError::VmAlreadyRunning("a".to_string()).to_text(), "VM 'a' is already running");
    assert_eq!(PoolError::NoAvailableSlot.to_text(), "pool is exhausted");
    assert_eq!(PoolError::ChannelClosed.to_text(), "slot worker channel is closed");
    assert_eq!(PoolError::Backend("x".to_string()).to_text(), "backend request failed: x");
}

fn listed(step: AllocationStep) -> croutond::process_pool::Allocation {
    match step {
        AllocationStep::List(allocation) => allocation,
        _ => panic!("expected another listing"),
    }
}

#[test]
fn the_first_empty_slot_is_reserved() {
    let (mut pool, _) = pool(6, 6);
    let wanted = ProcessPool::start_allocation("new".to_string(), "02:bb".to_string());
    let checked = listed(pool.allocate_vm_slot(wanted, Ok(mixed())));
    assert!(checked.name_checked);
    match pool.allocate_vm_slot(checked, Ok(mixed())) {
        AllocationStep::Reserve { slot, name, mac, tap } => {
            assert_eq!(slot, 1);
            assert_eq!((name.as_str(), mac.as_str(), tap.as_str()), ("new", "02:bb", "tap1"));
            assert!(pool.reserve_vm_slot(slot, name, mac, tap).is_ok());
        }
        _ => panic!("a slot is empty"),
    }
    assert_eq!(pool.size(), 6);
}

#[test]
fn a_name_that_is_taken_is_refused() {
    let (mut pool, _) = pool(6, 6);
    for name in ["a", "b"] {
        let wanted = ProcessPool::start_allocation(name.to_string(), String::new());
        match pool.allocate_vm_slot(wanted, Ok(mixed())) {
            AllocationStep::Failed(PoolError::VmAlreadyRunning(taken)) => assert_eq!(taken, name),
            _ => panic!("the name is taken"),
        }
    }
}

#[test]
fn a_full_pool_grows_up_to_its_limit() {
    let (mut pool, _) = pool(1, 2);
    let full = || vec![status(0, SlotState::Occupied, Some("a"))];
    let wanted = ProcessPool::start_allocation("new".to_string(), "02:bb".to_string());
    let checked = listed(pool.allocate_vm_slot(wanted, Ok(full())));
    let allocation = match pool.allocate_vm_slot(checked, Ok(full())) {
        AllocationStep::Grow { allocation, workers } => {
            assert_eq!(workers.len(), 1);
            assert_eq!(workers[0].slot, 1);
            allocation
        }
        _ => panic!("the pool may grow"),
    };
    assert_eq!(pool.size(), 2);
    let mut grown = full();
    grown.push(status(1, SlotState::Failed, None));
    match pool.allocate_vm_slot(allocation, Ok(grown)) {
        AllocationStep::Failed(PoolError::NoAvailableSlot) => {}
        _ => panic!("the pool is exhausted"),
    }
    assert_eq!(pool.size(), 2);
}

#[test]
fn an_allocation_reports_a_failed_listing() {
    let (mut pool, _) = pool(1, 2);
    let wanted = ProcessPool::start_allocation("new".to_string(), String::new());
    match pool.allocate_vm_slot(wanted, Err(PoolError::ChannelClosed)) {
        AllocationStep::Failed(PoolError::ChannelClosed) => {}
        _ => panic!("the listing failed"),
    }
}

#[test]
fn a_pool_shrinks_by_its_last_empty_slot() {
    let (mut pool, _) = pool(1, 3);
    assert_eq!(pool.autoscale_tick(0), None);
    pool.extend(2);
    assert_eq!(pool.autoscale_tick(0), Some(2));
    assert!(!pool.scale_down(Ok(status(2, SlotState::Booting, Some("b")))).expect("told"));
    assert_eq!(pool.size(), 3);
    assert!(matches!(
        pool.scale_down(Err(PoolError::ChannelClosed)),
        Err(PoolError::ChannelClosed)
    ));
    assert_eq!(pool.size(), 3);
    assert!(pool.scale_down(Ok(status(2, SlotState::Empty, None))).expect("told"));
    assert_eq!(pool.size(), 2);
    pool.finish_scale_down(100 * SECOND);
    assert_eq!(pool.last_scale_down_at, Some(100 * SECOND));
}

#[test]
fn the_cooldown_is_kept() {
    let (mut pool, _) = pool(1, 3);
    pool.extend(2);
    pool.finish_scale_down(100 * SECOND);
    assert_eq!(pool.autoscale_tick(100 * SECOND), None);
    assert_eq!(pool.autoscale_tick(115 * SECOND - 1), None);
    assert_eq!(pool.autoscale_tick(90 * SECOND), None);
    assert_eq!(pool.autoscale_tick(115 * SECOND), Some(2));
}

#[test]
fn a_shut_down_pool_has_no_slots() {
    let (mut pool, _) = pool(2, 3);
    assert_eq!(pool.shutdown(), 2);
    assert_eq!(pool.size(), 0);
    assert!(matches!(pool.get_vm_slot_status(0), Err(PoolError::SlotNotFound(0))));
}

#[test]
fn requests_go_to_the_socket_of_their_slot() {
    let (pool, _) = pool(2, 3);
    let sent = pool.proxy_vm_request(1, HttpMethod::Get, "/api/v1/vm.info", Vec::new());
    assert_eq!(sent.socket_path, b"/run/vms/vmm1.sock".to_vec());
    assert_eq!(sent.request.uri, "/api/v1/vm.info");
    assert_eq!(sent.request.headers.len(), 2);
    let sent = pool.proxy_vm_request_with_content_type(
        0,
        HttpMethod::Put,
        "",
        vec![7],
        Some("application/json"),
    );
    assert_eq!(sent.request.method, HttpMethod::Put);
    assert_eq!(sent.request.uri, "/");
    assert_eq!(sent.request.body, vec![7]);
    assert_eq!(
        sent.request.headers[2],
        ("content-type".to_string(), "application/json".to_string())
    );
}

#[test]
fn requests_that_cannot_be_sent_fail_in_the_backend() {
    let lost = IoError { kind: IoErrorKind::Other, message: "lost".to_string() };
    match ProcessPool::proxy_outcome(Err(lost)) {
        Err(PoolError::Backend(message)) => assert_eq!(message, "lost"),
        other => panic!("unexpected outcome: {other:?}"),
    }
    let response = ProxyResponse { status: 500, content_type: None, body: vec![1] };
    assert_eq!(ProcessPool::proxy_outcome(Ok(response)).expect("answered").status, 500);
}

fn names(workers: &[Supervisor<u8>]) -> Vec<&str> {
    workers.iter().filter_map(|w| w.runtime.status.name.as_deref()).collect()
}

#[test]
fn names_stay_unique_and_tap_devices_distinct() {
    let (mut pool, _) = pool(2, 2);
    let mut workers: Vec<Supervisor<u8>> = Vec::new();
    for slot in 0..2 {
        let mut worker: Supervisor<u8> = Supervisor::new(slot);
        worker.supervise_slot(SupervisorEvent::Shutdown(false));
        worker.supervise_slot(SupervisorEvent::Spawned { child: 1, pid: Some(1) });
        workers.push(worker);
    }
    for name in ["a", "b", "a"] {
        let mut allocation = ProcessPool::start_allocation(name.to_string(), String::new());
        loop {
            let listing = workers.iter().map(|w| w.runtime.status.clone()).collect();
            match pool.allocate_vm_slot(allocation, Ok(listing)) {
                AllocationStep::List(next) => allocation = next,
                AllocationStep::Reserve { slot, name, mac, tap } => {
                    let command = SlotCommand::ReserveVm { name, mac, tap };
                    workers[slot].supervise_slot(SupervisorEvent::Command(command));
                    workers[slot].supervise_slot(SupervisorEvent::TapPrepared(Ok(())));
                    break;
                }
                AllocationStep::Failed(PoolError::VmAlreadyRunning(taken)) => {
                    assert_eq!(taken, "a");
                    break;
                }
                _ => panic!("unexpected step"),
            }
        }
    }
    assert_eq!(names(&workers), vec!["a", "b"]);
    assert_ne!(workers[0].runtime.status.tap, workers[1].runtime.status.tap);
    workers[0].supervise_slot(SupervisorEvent::NoCommand);
    workers[0].supervise_slot(SupervisorEvent::ChildExited);
    assert_eq!(names(&workers), vec!["b"]);
}

#[test]
fn a_machine_is_missing_exactly_when_no_slot_bears_its_name() {
    let shown = |name: &str| match get_vm(ProcessPool::find_vm_runtime_by_name(Ok(mixed()), name)) {
        GetVmStep::Done(result) => result,
        GetVmStep::FindSlot => {
            let found = ProcessPool::find_vm_slot_status_by_name(Ok(mixed()), name);
            Err(explain_missing(name, found))
        }
    };
    assert_eq!(shown("a").expect("it runs").name, "a");
    assert!(matches!(shown("b"), Err(ApiError::Conflict(_))));
    assert!(matches!(shown("x"), Err(ApiError::NotFound(_))));
}

#[test]
fn a_created_machine_is_shown_until_it_is_deleted() {
    let mut worker: Supervisor<u8> = Supervisor::new(0);
    worker.supervise_slot(SupervisorEvent::Shutdown(false));
    worker.supervise_slot(SupervisorEvent::Spawned { child: 1, pid: Some(9) });
    let shown = |worker: &Supervisor<u8>| {
        let listing = || Ok(vec![worker.runtime.status.clone()]);
        match get_vm(ProcessPool::find_vm_runtime_by_name(listing(), "vm")) {
            GetVmStep::Done(result) => result,
            GetVmStep::FindSlot => {
                Err(explain_missing("vm", ProcessPool::find_vm_slot_status_by_name(listing(), "vm")))
            }
        }
    };
    assert!(matches!(shown(&worker), Err(ApiError::NotFound(_))));
    worker.supervise_slot(SupervisorEvent::Command(SlotCommand::ReserveVm {
        name: "vm".to_string(),
        mac: "02:aa".to_string(),
        tap: "tap0".to_string(),
    }));
    worker.supervise_slot(SupervisorEvent::TapPrepared(Ok(())));
    assert!(matches!(shown(&worker), Err(ApiError::Conflict(_))));
    worker.supervise_slot(SupervisorEvent::Command(SlotCommand::MarkVmBooted {
        started_at: "noon".to_string(),
    }));
    let vm = shown(&worker).expect("it runs");
    assert_eq!((vm.name.as_str(), vm.mac.as_str(), vm.tap.as_str()), ("vm", "02:aa", "tap0"));
    assert_eq!((vm.pid, vm.started_at.as_str()), (9, "noon"));
    worker.supervise_slot(SupervisorEvent::Command(SlotCommand::ReleaseVm));
    assert!(matches!(shown(&worker), Err(ApiError::NotFound(_))));
}

#[test]
fn directories_are_found_as_in_the_standard_library() {
    let pieces = ["", "/", ".", "..", "a", "vmm1.sock", ".a", "b."];
    let mut paths: Vec<String> = Vec::new();
    for a in pieces {
        for b in pieces {
            for c in pieces {
                for d in pieces {
                    paths.push([a, b, c, d].concat());
                    paths.push([a, b, c, d].join("/"));
                }
            }
        }
    }
    for path in paths {
        let expected = std::path::Path::new(&path)
            .parent()
            .map(|p| p.to_str().expect("text").as_bytes().to_vec());
        assert_eq!(parent_directory(&path.as_bytes().to_vec()), expected, "{path:?}");
    }
}

#[test]
fn hypervisors_are_told_their_slot_and_directory() {
    let told = |base: &[u8], slot: usize| {
        initialize_slot(slot, &String::new(), &Vec::new(), &None, &base.to_vec()).environment()
    };
    let pairs = |slot: &str, path: &str| {
        vec![
            ("VMM_SLOT".to_string(), slot.to_string()),
            ("VMM_PATH".to_string(), path.to_string()),
        ]
    };
    assert_eq!(told(b"/run/vms", 12), pairs("12", "/run/vms"));
    assert_eq!(told(b"/run/vms//./", 0), pairs("0", "/run/vms"));
    assert_eq!(told(b"/", 1), pairs("1", "/"));
    assert_eq!(told(b"", 1), pairs("1", ""));
    assert_eq!(told(b"/\xff", 1), pairs("1", "/\u{fffd}"));
    let mut launch = initialize_slot(3, &String::new(), &Vec::new(), &None, &Vec::new());
    launch.api_socket = b"/".to_vec();
    assert_eq!(launch.environment(), pairs("3", "/"));
}

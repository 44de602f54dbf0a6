use croutond::error::ApiError;
use croutond::json::json_empty_object;
use croutond::pool::{ProxyResponse, SlotState, SlotStatus};
use croutond::vm_payload::{
    backend_error_text, create_restore_request_body, create_vm_request_body, disk_image_type,
    format_backend_error, snapshot_request_body,
};
use croutond::vm_validation::{BootConfig, MAX_MEMORY_MB};
use serde_json::Value;

fn base_linux_config() -> BootConfig {
    BootConfig {
        name: "vm-b".to_string(),
        cpus: 4,
        memory_mb: 1024,
        boot_mode: "linux".to_string(),
        disks: vec![
            "/var/lib/vms/os.qcow2".to_string(),
            "/var/lib/vms/data.raw".to_string(),
            "/var/lib/vms/misc.img".to_string(),
        ],
        kernel_path: Some("/var/lib/vms/vmlinux".to_string()),
        initrd_path: Some("/var/lib/vms/initrd".to_string()),
        cmdline: Some("console=ttyS0".to_string()),
        firmware_path: None,
        snapshot_path: None,
    }
}

fn reserved_slot() -> SlotStatus {
    SlotStatus {
        slot: 1,
        generation: 10,
        state: SlotState::Booting,
        name: Some("vm-b".to_string()),
        mac: Some("02:aa:bb:cc:dd:ee".to_string()),
        tap: Some("tap1".to_string()),
        pid: Some(42),
        started_at: None,
        last_error: None,
    }
}

#[test]
fn linux_payload_contains_expected_fields_and_disk_types() {
    let payload = create_vm_request_body(&base_linux_config(), &reserved_slot());

    assert_eq!(payload["cpus"]["boot_vcpus"], Value::from(4));
    assert_eq!(payload["memory"]["size"], Value::from(1024_u64 << 20));
    assert_eq!(payload["net"][0]["tap"], Value::from("tap1"));
    assert_eq!(payload["net"][0]["mac"], Value::from("02:aa:bb:cc:dd:ee"));
    assert_eq!(payload["payload"]["kernel"], Value::from("/var/lib/vms/vmlinux"));

    let disks = payload["disks"].as_array().expect("disks should be array");
    assert_eq!(disks[0]["image_type"], Value::from("Qcow2"));
    assert_eq!(disks[1]["image_type"], Value::from("Raw"));
    assert!(disks[2].get("image_type").is_none());
}

#[test]
fn restore_payload_contains_file_url() {
    let mut config = base_linux_config();
    config.snapshot_path = Some("/var/lib/vms/snaps/vm-b.snap".to_string());

    let payload = create_restore_request_body(&config);
    assert_eq!(
        payload["source_url"],
        Value::from("file:///var/lib/vms/snaps/vm-b.snap")
    );
}

#[test]
fn backend_error_formats_status_and_trimmed_body() {
    let response = ProxyResponse {
        status: 500,
        content_type: Some("text/plain".to_string()),
        body: b"  failure details\n".to_vec(),
    };

    let message = format_backend_error(&response);
    assert_eq!(message, "backend returned status 500: failure details");
}

#[test]
fn backend_error_formats_status_only_for_empty_body() {
    let response = ProxyResponse {
        status: 404,
        content_type: None,
        body: Vec::new(),
    };

    let message = format_backend_error(&response);
    assert_eq!(message, "backend returned status 404");
}

#[test]
fn linux_payload_is_written_in_full() {
    let payload = create_vm_request_body(&base_linux_config(), &reserved_slot());
    let expected = concat_lines(&[
        r#"{"cpus":{"boot_vcpus":4,"max_vcpus":4},"#,
        r#""disks":[{"image_type":"Qcow2","path":"/var/lib/vms/os.qcow2"},"#,
        r#"{"image_type":"Raw","path":"/var/lib/vms/data.raw"},"#,
        r#"{"path":"/var/lib/vms/misc.img"}],"#,
        r#""memory":{"size":1073741824},"#,
        r#""net":[{"mac":"02:aa:bb:cc:dd:ee","tap":"tap1"}],"#,
        r#""payload":{"cmdline":"console=ttyS0","initramfs":"/var/lib/vms/initrd","#,
        r#""kernel":"/var/lib/vms/vmlinux"},"#,
        r#""rng":{"src":"/dev/urandom"}}"#,
    ]);
    assert_eq!(payload.to_string(), expected);
}

fn concat_lines(parts: &[&str]) -> String {
    parts.concat()
}

#[test]
fn uefi_payload_holds_only_the_firmware() {
    let mut config = base_linux_config();
    config.boot_mode = "Uefi".to_string();
    config.firmware_path = Some("/fw/OVMF.fd".to_string());
    let payload = create_vm_request_body(&config, &reserved_slot());
    assert_eq!(payload["payload"].to_string(), r#"{"firmware":"/fw/OVMF.fd"}"#);
    config.firmware_path = None;
    let payload = create_vm_request_body(&config, &reserved_slot());
    assert_eq!(payload["payload"].to_string(), r#"{"firmware":null}"#);
}

#[test]
fn unknown_network_details_are_null() {
    let mut slot = reserved_slot();
    slot.tap = None;
    slot.mac = None;
    let payload = create_vm_request_body(&base_linux_config(), &slot);
    assert_eq!(payload["net"].to_string(), r#"[{"mac":null,"tap":null}]"#);
}

#[test]
fn memory_is_told_in_bytes() {
    let mut config = base_linux_config();
    config.memory_mb = 1;
    let payload = create_vm_request_body(&config, &reserved_slot());
    assert_eq!(payload["memory"]["size"], Value::from(1_048_576_u64));
    config.memory_mb = MAX_MEMORY_MB;
    let payload = create_vm_request_body(&config, &reserved_slot());
    assert_eq!(payload["memory"]["size"], Value::from(18_446_744_073_708_503_040_u64));
}

#[test]
fn restore_payload_without_a_snapshot_is_null() {
    let payload = create_restore_request_body(&base_linux_config());
    assert_eq!(payload.to_string(), r#"{"source_url":null}"#);
}

#[test]
fn disk_image_type_goes_by_the_extension() {
    assert_eq!(disk_image_type("/a/b.qcow2"), Some("Qcow2"));
    assert_eq!(disk_image_type("/a/b.QCOW"), Some("Qcow2"));
    assert_eq!(disk_image_type("/a/b.Raw"), Some("Raw"));
    assert_eq!(disk_image_type("/a/b.tar.raw"), Some("Raw"));
    assert_eq!(disk_image_type("/a/b.raw/"), Some("Raw"));
    assert_eq!(disk_image_type("/a/b.raw/./"), Some("Raw"));
    assert_eq!(disk_image_type("/a/b.raw/."), Some("Raw"));
    assert_eq!(disk_image_type("/a/b.raw/.."), None);
    assert_eq!(disk_image_type("/a.raw/b"), None);
    assert_eq!(disk_image_type("/a/.raw"), None);
    assert_eq!(disk_image_type("/a/b."), None);
    assert_eq!(disk_image_type("/a/b.img"), None);
    assert_eq!(disk_image_type("raw"), None);
    assert_eq!(disk_image_type(""), None);
    assert_eq!(disk_image_type("/"), None);
}

#[test]
fn disk_image_type_agrees_with_the_file_system_notion_of_an_extension() {
    let paths = [
        "/a/b.raw", "b.raw", ".raw", "..raw", "a..raw", "/a/..", "..", "/x.raw/..", "/x.raw/.",
        "/x.raw//", "a/./b.raw/./.", "/./.", ".", "a.", "a.raw.", "/ä.raw", "x.räw", "a/.raw/b",
        "...", "./.raw", "/..raw", "x/.",
    ];
    for path in paths {
        let expected = match std::path::Path::new(path)
            .extension()
            .and_then(|e| e.to_str())
            .map(|e| e.to_ascii_lowercase())
            .as_deref()
        {
            Some("qcow2") | Some("qcow") => Some("Qcow2"),
            Some("raw") => Some("Raw"),
            _ => None,
        };
        assert_eq!(disk_image_type(path), expected, "{path}");
    }
}

#[test]
fn snapshot_request_names_an_absolute_destination() {
    let body = snapshot_request_body("/var/snap".to_string()).expect("an absolute path is taken");
    assert_eq!(body.to_string(), r#"{"destPath":"/var/snap"}"#);
    match snapshot_request_body("snap".to_string()) {
        Err(ApiError::Validation { field, error }) => {
            assert_eq!(field.as_deref(), Some("destPath"));
            assert_eq!(error, "destPath must be absolute");
        }
        other => panic!("unexpected outcome: {other:?}"),
    }
}

#[test]
fn the_empty_object_has_no_members() {
    assert_eq!(json_empty_object().to_string(), "{}");
}

#[test]
fn backend_error_reads_bytes_that_are_not_text() {
    let response = ProxyResponse {
        status: 502,
        content_type: None,
        body: vec![b'a', 0xff, b'b'],
    };
    assert_eq!(format_backend_error(&response), "backend returned status 502: a\u{fffd}b");
}

#[test]
fn backend_error_without_words_shows_the_status_alone() {
    assert_eq!(backend_error_text(500, " \r\n\t"), "backend returned status 500");
    assert_eq!(backend_error_text(65535, "x"), "backend returned status 65535: x");
}

use croutond::error::ApiError;
use croutond::vm_validation::{validate_boot_config, BootConfig, MAX_MEMORY_MB};

fn base_linux_config() -> BootConfig {
    BootConfig {
        name: "vm-a".to_string(),
        cpus: 2,
        memory_mb: 512,
        boot_mode: "linux".to_string(),
        disks: vec!["/var/lib/vms/disk.qcow2".to_string()],
        kernel_path: Some("/var/lib/vms/vmlinux".to_string()),
        initrd_path: Some("/var/lib/vms/initrd".to_string()),
        cmdline: Some("console=ttyS0".to_string()),
        firmware_path: None,
        snapshot_path: None,
    }
}

fn rejected(config: &BootConfig) -> (String, String) {
    match validate_boot_config(config) {
        Err(ApiError::Validation { field, error }) => (field.expect("a field is named"), error),
        other => panic!("unexpected outcome: {other:?}"),
    }
}

fn pair(field: &str, error: &str) -> (String, String) {
    (field.to_string(), error.to_string())
}

#[test]
fn accepts_valid_linux_config() {
    let config = base_linux_config();
    assert!(validate_boot_config(&config).is_ok());
}

#[test]
fn rejects_empty_name() {
    let mut config = base_linux_config();
    config.name = "  ".to_string();

    let error = validate_boot_config(&config).expect_err("expected name validation error");
    match error {
        ApiError::Validation { field, error } => {
            assert_eq!(field.as_deref(), Some("name"));
            assert_eq!(error, "name is required");
        }
        other => panic!("unexpected error: {other:?}"),
    }
}

#[test]
fn rejects_linux_without_kernel_when_not_restoring() {
    let mut config = base_linux_config();
    config.kernel_path = None;

    let error = validate_boot_config(&config).expect_err("expected kernelPath validation");
    match error {
        ApiError::Validation { field, error } => {
            assert_eq!(field.as_deref(), Some("kernelPath"));
            assert_eq!(error, "kernelPath is required when bootMode=linux");
        }
        other => panic!("unexpected error: {other:?}"),
    }
}

#[test]
fn rejects_relative_disk_path() {
    let mut config = base_linux_config();
    config.disks = vec!["relative/disk.raw".to_string()];

    let error = validate_boot_config(&config).expect_err("expected disks validation");
    match error {
        ApiError::Validation { field, .. } => {
            assert_eq!(field.as_deref(), Some("disks"));
        }
        other => panic!("unexpected error: {other:?}"),
    }
}

#[test]
fn allows_restore_without_linux_or_uefi_specific_boot_files() {
    let mut config = base_linux_config();
    config.kernel_path = None;
    config.snapshot_path = Some("/var/lib/vms/snapshots/vm-a.snap".to_string());

    assert!(validate_boot_config(&config).is_ok());
}

#[test]
fn rejects_zero_cpus_and_memory() {
    let mut config = base_linux_config();
    config.cpus = 0;
    assert_eq!(rejected(&config), pair("cpus", "cpus must be greater than zero"));
    config.cpus = 1;
    config.memory_mb = 0;
    assert_eq!(rejected(&config), pair("memoryMb", "memoryMb must be greater than zero"));
}

#[test]
fn boot_mode_is_checked_without_regard_to_case() {
    let mut config = base_linux_config();
    config.boot_mode = "\t ".to_string();
    assert_eq!(rejected(&config), pair("bootMode", "bootMode is required"));
    config.boot_mode = "bios".to_string();
    assert_eq!(rejected(&config), pair("bootMode", "bootMode must be one of: linux, uefi"));
    config.boot_mode = " linux".to_string();
    assert_eq!(rejected(&config), pair("bootMode", "bootMode must be one of: linux, uefi"));
    config.boot_mode = "LiNuX".to_string();
    assert!(validate_boot_config(&config).is_ok());
}

#[test]
fn memory_is_bounded_by_its_size_in_bytes() {
    let mut config = base_linux_config();
    config.memory_mb = MAX_MEMORY_MB;
    assert_eq!(config.memory_mb, u64::MAX >> 20);
    assert!(validate_boot_config(&config).is_ok());
    config.memory_mb = MAX_MEMORY_MB + 1;
    assert_eq!(rejected(&config), pair("memoryMb", "memoryMb is too large"));
}

#[test]
fn uefi_needs_firmware_unless_restoring() {
    let mut config = base_linux_config();
    config.boot_mode = "UEFI".to_string();
    config.kernel_path = None;
    assert_eq!(
        rejected(&config),
        pair("firmwarePath", "firmwarePath is required when bootMode=uefi")
    );
    config.firmware_path = Some("/fw/OVMF.fd".to_string());
    assert!(validate_boot_config(&config).is_ok());
    config.firmware_path = None;
    config.snapshot_path = Some("/snap".to_string());
    assert!(validate_boot_config(&config).is_ok());
}

#[test]
fn every_given_path_has_to_be_absolute() {
    let mut config = base_linux_config();
    config.disks = vec!["/a".to_string(), "b/c".to_string(), "d".to_string()];
    assert_eq!(rejected(&config), pair("disks", "disk path 'b/c' must be absolute"));

    let mut config = base_linux_config();
    config.kernel_path = Some("vmlinux".to_string());
    assert_eq!(rejected(&config), pair("kernelPath", "kernelPath must be absolute"));

    let mut config = base_linux_config();
    config.initrd_path = Some("".to_string());
    assert_eq!(rejected(&config), pair("initrdPath", "initrdPath must be absolute"));

    let mut config = base_linux_config();
    config.firmware_path = Some("./fw".to_string());
    assert_eq!(rejected(&config), pair("firmwarePath", "firmwarePath must be absolute"));

    let mut config = base_linux_config();
    config.snapshot_path = Some("snap".to_string());
    assert_eq!(rejected(&config), pair("snapshotPath", "snapshotPath must be absolute"));
}

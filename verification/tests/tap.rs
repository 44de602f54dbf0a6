use croutond::net_tap::{
    attach_tap_to_bridge, ensure_tap_device, is_tap_exists_error, refused_attachment,
    CommandOutput, TapStep,
};
use croutond::pool::PoolError;

fn message(error: PoolError) -> String {
    match error {
        PoolError::Backend(message) => message,
        other => panic!("unexpected error: {other:?}"),
    }
}

#[test]
fn existing_devices_are_recognised() {
    assert!(is_tap_exists_error("File exists (os error 17)"));
    assert!(is_tap_exists_error("tap0 ALREADY EXISTS"));
    assert!(is_tap_exists_error("ioctl: Device or resource busy"));
    assert!(!is_tap_exists_error("Operation not permitted"));
    assert!(!is_tap_exists_error("file  exists"));
    assert!(!is_tap_exists_error(""));
}

#[test]
fn an_existing_device_will_do() {
    for created in [Ok(()), Err("File exists".to_string())] {
        match ensure_tap_device("tap3", Some("br0"), created.clone()).expect("the device is there") {
            TapStep::Attach(args) => {
                assert_eq!(args, vec!["link", "set", "dev", "tap3", "master", "br0"])
            }
            other => panic!("unexpected step: {other:?}"),
        }
        assert!(matches!(ensure_tap_device("tap3", None, created), Ok(TapStep::Ready)));
    }
}

#[test]
fn a_device_that_cannot_be_created_is_reported() {
    let error = ensure_tap_device("tap3", Some("br0"), Err("Operation not permitted".to_string()))
        .expect_err("no device");
    assert_eq!(message(error), "failed to create tap interface 'tap3': Operation not permitted");
}

#[test]
fn attachment_reports_what_was_said() {
    let output = |success: bool, stderr: &[u8]| CommandOutput {
        success,
        status: "exit status: 2".to_string(),
        stderr: stderr.to_vec(),
    };
    assert!(attach_tap_to_bridge("tap3", "br0", Ok(output(true, b"warning"))).is_ok());
    assert_eq!(
        message(attach_tap_to_bridge("tap3", "br0", Ok(output(false, b" no bridge\n"))).expect_err("failed")),
        "failed to attach tap interface 'tap3' to bridge 'br0': no bridge"
    );
    assert_eq!(
        message(attach_tap_to_bridge("tap3", "br0", Ok(output(false, b" \n"))).expect_err("failed")),
        "failed to attach tap interface 'tap3' to bridge 'br0': ip link exited with status exit status: 2"
    );
    assert_eq!(
        message(attach_tap_to_bridge("tap3", "br0", Ok(output(false, b"\xff"))).expect_err("failed")),
        "failed to attach tap interface 'tap3' to bridge 'br0': \u{fffd}"
    );
    assert_eq!(
        message(attach_tap_to_bridge("tap3", "br0", Err("no ip".to_string())).expect_err("failed")),
        "failed to attach tap interface 'tap3' to bridge 'br0': no ip"
    );
    assert_eq!(
        message(refused_attachment("t", "b", "", "s")),
        "failed to attach tap interface 't' to bridge 'b': ip link exited with status s"
    );
}

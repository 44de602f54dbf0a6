use croutond::demo_vm::{handle_connection, parse_api_socket};
use croutond::process_pool::initialize_slot;

fn args(list: &[&str]) -> Vec<Vec<u8>> {
    list.iter().map(|a| a.as_bytes().to_vec()).collect()
}

#[test]
fn the_socket_follows_its_flag() {
    assert_eq!(
        parse_api_socket(&args(&["demo-vm", "-v", "--api-socket", "/a", "--api-socket", "/b"])),
        Ok(b"/a".to_vec())
    );
    assert_eq!(
        parse_api_socket(&args(&["demo-vm", "--api-socket", "--api-socket"])),
        Ok(b"--api-socket".to_vec())
    );
    assert_eq!(
        parse_api_socket(&args(&["demo-vm", "--api-socket"])),
        Err("missing value for --api-socket".to_string())
    );
    for given in [&[][..], &["demo-vm"][..], &["--api-socket", "/a"][..], &["demo-vm", "--api-socket=/a"][..]] {
        assert_eq!(
            parse_api_socket(&args(given)),
            Err("missing required argument --api-socket <PATH>".to_string())
        );
    }
}

#[test]
fn a_stand_in_finds_the_socket_of_its_slot() {
    let launch = initialize_slot(
        7,
        &"demo-vm".to_string(),
        &args(&["-v"]),
        &None,
        &b"/run/vms".to_vec(),
    );
    let mut given = args(&["demo-vm"]);
    given.extend(launch.args);
    assert_eq!(parse_api_socket(&given), Ok(b"/run/vms/vmm7.sock".to_vec()));
    assert_eq!(launch.api_socket, b"/run/vms/vmm7.sock".to_vec());
}

#[test]
fn every_request_is_answered_alike() {
    assert_eq!(
        handle_connection("3"),
        "HTTP/1.1 200 OK\r\ncontent-type: application/json\r\ncontent-length: 41\r\nconnection: close\r\n\r\n{\"status\":\"ok\",\"vm\":\"demo-vm\",\"slot\":\"3\"}"
    );
    let answer = handle_connection("ä");
    let (head, body) = answer.split_once("\r\n\r\n").expect("a head and a body");
    assert!(head.contains(&format!("content-length: {}\r\n", body.len())));
}

use ipc_transport::address::pipe_address;
use ipc_transport::address::remove_if_sock_exist;
use ipc_transport::address::str_has_prefix;

#[test]
fn unix_address_yields_socket_path() {
    let r = remove_if_sock_exist("unix:///tmp/ttrpc-test");
    assert_eq!(r, Some("/tmp/ttrpc-test".to_string()));
}

#[test]
fn pipe_address_yields_no_path() {
    let addr = r"\\.\pipe\mio-named-pipe-test";
    assert!(pipe_address(addr));
    assert_eq!(remove_if_sock_exist(addr), None);
}

#[test]
fn bare_path_is_neither() {
    assert!(!pipe_address("/tmp/plain"));
    assert_eq!(remove_if_sock_exist("/tmp/plain"), None);
}

#[test]
fn prefix_checks() {
    assert!(str_has_prefix("unix:///a", "unix://"));
    assert!(str_has_prefix("unix://", "unix://"));
    assert!(!str_has_prefix("unix:/", "unix://"));
    assert!(!str_has_prefix("UNIX:///a", "unix://"));
    assert!(str_has_prefix("anything", ""));
    assert!(!str_has_prefix("", "x"));
}

#[test]
fn empty_unix_address_yields_empty_path() {
    assert_eq!(remove_if_sock_exist("unix://"), Some(String::new()));
}

use safe_gui_core::launcher::{
    add_network_args, get_files_args, interpret_add_output, interpret_get_output,
    interpret_networks_output, interpret_put_output, interpret_remove_output,
    interpret_switch_output, networks_list_args, put_files_args, remove_network_args,
    switch_network_args, CmdError,
};

#[test]
fn argument_vectors_are_exact() {
    assert_eq!(networks_list_args(), vec!["networks", "--json"]);
    assert_eq!(add_network_args("n", "/tmp/map"), vec!["networks", "add", "n", "/tmp/map"]);
    assert_eq!(switch_network_args("n"), vec!["networks", "switch", "n"]);
    assert_eq!(remove_network_args("n"), vec!["networks", "remove", "n"]);
    assert_eq!(put_files_args("/tmp/f"), vec!["networks", "files", "put", "/tmp/f"]);
    assert_eq!(get_files_args("safe://x", "."), vec!["networks", "files", "get", "safe://x", "."]);
}

#[test]
fn networks_output_success_parses() {
    let out = br#"[{"current":true,"name":"main","genesis_key":"G1","network_info":"1.2.3.4:1234"}]"#;
    let v = interpret_networks_output(true, out).unwrap();
    assert_eq!(v.len(), 1);
    assert_eq!(v[0].name, "main");
}

#[test]
fn networks_output_failures() {
    assert!(matches!(interpret_networks_output(false, b"[]"), Err(CmdError::FetchFailed)));
    assert!(matches!(interpret_networks_output(true, b"[\xff]"), Err(CmdError::NotUtf8)));
    assert!(matches!(interpret_networks_output(true, b"not json"), Err(CmdError::ParseFailed)));
}

#[test]
fn add_output_goes_by_exit_status() {
    assert!(interpret_add_output(true).is_ok());
    let e = interpret_add_output(false).unwrap_err();
    assert!(matches!(e, CmdError::AddFailed));
    assert_eq!(e.message(), "Error: failed to add network");
}

#[test]
fn switch_output_success_is_ok() {
    assert!(interpret_switch_output(true, b"", "n").is_ok());
    // stderr is not even consulted on success
    assert!(interpret_switch_output(true, b"with name", "n").is_ok());
}

#[test]
fn switch_failure_with_marker_names_the_network() {
    let e = interpret_switch_output(false, b"no network with name whatever", "mynet").unwrap_err();
    match &e {
        CmdError::NoSuchNetworkSwitch { name } => assert_eq!(name, "mynet"),
        _ => panic!("expected the missing-network error"),
    }
    assert_eq!(
        e.message(),
        "Error: failed to switch network. No network with name mynet found!"
    );
}

#[test]
fn switch_failure_without_marker() {
    let e = interpret_switch_output(false, b"something broke", "n").unwrap_err();
    assert!(matches!(e, CmdError::SwitchFailed));
    assert_eq!(e.message(), "Error: failed to switch network");
}

#[test]
fn switch_failure_with_bad_stderr() {
    let e = interpret_switch_output(false, b"\xff\xfe", "n").unwrap_err();
    assert!(matches!(e, CmdError::NotUtf8));
}

#[test]
fn remove_marker_wins_even_on_success_status() {
    // stdout is scanned for the marker before the exit status is consulted
    let e = interpret_remove_output(true, b"no network with name x", "net").unwrap_err();
    match &e {
        CmdError::NoSuchNetworkRemove { name } => assert_eq!(name, "net"),
        _ => panic!("expected the missing-network error"),
    }
    assert_eq!(
        e.message(),
        "Error: failed to remove network. No network with name net found!"
    );
}

#[test]
fn remove_failure_and_success() {
    assert!(interpret_remove_output(true, b"done", "n").is_ok());
    let e = interpret_remove_output(false, b"", "n").unwrap_err();
    assert!(matches!(e, CmdError::RemoveFailed));
    assert_eq!(e.message(), "Error: failed to remove network");
}

#[test]
fn put_output_hands_back_stdout() {
    let out = interpret_put_output(true, b"stored at safe://abc\n").unwrap();
    assert_eq!(out, "stored at safe://abc\n");
    let e = interpret_put_output(false, b"").unwrap_err();
    assert!(matches!(e, CmdError::PutFailed));
    assert_eq!(e.message(), "Error: failed to put file");
    assert!(matches!(interpret_put_output(true, b"\xff"), Err(CmdError::NotUtf8)));
}

#[test]
fn get_output_goes_by_exit_status() {
    assert!(interpret_get_output(true).is_ok());
    let e = interpret_get_output(false).unwrap_err();
    assert!(matches!(e, CmdError::GetFailed));
    // a failed download is reported with the upload wording
    assert_eq!(e.message(), "Error: failed to put file");
}

#[test]
fn remaining_error_messages() {
    assert_eq!(CmdError::FetchFailed.message(), "Error: failed to fetch networks");
    assert_eq!(CmdError::NotUtf8.message(), "Error: output was not valid UTF-8");
    assert_eq!(
        CmdError::ParseFailed.message(),
        "Error: failed to parse the networks listing"
    );
}

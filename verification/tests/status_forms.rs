use safe_gui_core::forms::{
    status_added, status_get_ok, status_put_ok, status_removed, status_switched, AddNetworkForm,
    GetForm, NameForm, PutForm,
};
use safe_gui_core::status::{LogBuffer, StatusBoard, StatusMessage};
use safe_gui_core::tailer::{status_home_dir_unavailable, status_log_file_unavailable};

#[test]
fn board_shows_latest_message() {
    let mut board = StatusBoard::new();
    assert!(board.latest.is_none());
    board.poll(Some(StatusMessage::info("one")));
    assert_eq!(board.latest.as_ref().unwrap().text, "one");
    board.poll(None);
    assert_eq!(board.latest.as_ref().unwrap().text, "one");
    board.poll(Some(StatusMessage::error("two")));
    let latest = board.latest.as_ref().unwrap();
    assert_eq!(latest.text, "two");
    assert!(latest.is_error);
}

#[test]
fn log_buffer_appends_in_order() {
    let mut buf = LogBuffer::new();
    buf.receive("a".to_string());
    buf.receive("b".to_string());
    buf.receive("c".to_string());
    assert_eq!(buf.lines, vec!["a", "b", "c"]);
}

#[test]
fn add_form_flags_empty_fields() {
    let mut f = AddNetworkForm::new();
    assert!(f.submit().is_none());
    assert!(f.name_error);
    assert!(f.path_error);

    f.name = "n".to_string();
    assert!(f.submit().is_none());
    assert!(!f.name_error);
    assert!(f.path_error);

    f.path = "/tmp/map".to_string();
    let args = f.submit().unwrap();
    assert_eq!(args, vec!["networks", "add", "n", "/tmp/map"]);
    assert!(!f.name_error);
    assert!(!f.path_error);

    f.clear();
    assert!(f.name.is_empty());
    assert!(f.path.is_empty());
}

#[test]
fn name_form_flags_empty_name() {
    let mut f = NameForm::new();
    assert!(f.submit().is_none());
    assert!(f.name_error);
    f.name = "beta".to_string();
    assert_eq!(f.submit().unwrap(), "beta");
    assert!(!f.name_error);
    f.clear();
    assert!(f.name.is_empty());
}

#[test]
fn put_form_flags_empty_path() {
    let mut f = PutForm::new();
    assert!(f.submit().is_none());
    assert!(f.path_error);
    f.path = "/tmp/f".to_string();
    assert_eq!(f.submit().unwrap(), vec!["networks", "files", "put", "/tmp/f"]);
    f.clear();
    assert!(f.path.is_empty());
}

#[test]
fn get_form_defaults_and_validation() {
    let mut f = GetForm::new();
    assert_eq!(f.dst, ".");
    assert!(f.submit().is_none());
    assert!(f.url_error);
    f.url = "safe://x".to_string();
    f.dst = "/tmp/out".to_string();
    assert_eq!(
        f.submit().unwrap(),
        vec!["networks", "files", "get", "safe://x", "/tmp/out"]
    );
    f.clear();
    assert!(f.url.is_empty());
    assert_eq!(f.dst, "/tmp/out");
}

#[test]
fn success_status_texts() {
    let m = status_added("n1");
    assert_eq!(m.text, "Success: Added a network with name n1");
    assert!(!m.is_error);
    let m = status_switched("n2");
    assert_eq!(m.text, "Success: Switched to network: n2");
    assert!(!m.is_error);
    let m = status_removed("n3");
    assert_eq!(m.text, "Success: Removed network: n3");
    assert!(!m.is_error);
    let m = status_put_ok();
    assert_eq!(m.text, "Successfully added file to the network");
    assert!(!m.is_error);
    let m = status_get_ok();
    assert_eq!(m.text, "Successfully retrieved files from the network");
    assert!(!m.is_error);
}

#[test]
fn tailer_status_texts() {
    let m = status_log_file_unavailable();
    assert_eq!(m.text, "Error: cannot open log file");
    assert!(m.is_error);
    let m = status_home_dir_unavailable();
    assert_eq!(m.text, "Error: cannot find home dir");
    assert!(m.is_error);
}

use safe_gui_core::lifecycle::{Lifecycle, NodeState, StartDecision, StopDecision};

#[test]
fn start_idle_with_network_launches() {
    let mut lc = Lifecycle::new();
    assert_eq!(lc.state(), NodeState::Idle);
    assert!(!lc.tailer_active());

    let d = lc.start(&Some("main".to_string()));
    let plan = match d {
        StartDecision::Launch(p) => p,
        _ => panic!("expected a launch decision"),
    };
    assert_eq!(plan.command, "safe");
    assert_eq!(plan.args, vec!["node", "join", "--network-name", "main"]);
    assert_eq!(plan.env_key, "RUST_LOG");
    assert_eq!(plan.env_value, "sn_node,sn_interface=trace");
    assert!(plan.capture_stdout);

    let m = lc.launched(Ok(()));
    assert_eq!(lc.state(), NodeState::Running);
    assert!(lc.tailer_active());
    assert_eq!(m.text, "Node is running!");
    assert!(!m.is_error);
}

#[test]
fn start_without_network_refused() {
    let lc = Lifecycle::new();
    let d = lc.start(&None);
    match d {
        StartDecision::Refuse(m) => {
            assert_eq!(m.text, "Error: No default network set");
            assert!(m.is_error);
        }
        _ => panic!("expected a refusal"),
    }
    assert_eq!(lc.state(), NodeState::Idle);
    assert!(!lc.tailer_active());
}

#[test]
fn start_while_running_is_noop() {
    let mut lc = Lifecycle::new();
    let _ = lc.start(&Some("main".to_string()));
    let _ = lc.launched(Ok(()));
    let d = lc.start(&Some("other".to_string()));
    assert!(matches!(d, StartDecision::AlreadyRunning));
    assert_eq!(lc.state(), NodeState::Running);
}

#[test]
fn launch_failure_stays_idle() {
    let mut lc = Lifecycle::new();
    let d = lc.start(&Some("main".to_string()));
    let plan = match d {
        StartDecision::Launch(p) => p,
        _ => panic!("expected a launch decision"),
    };
    assert_eq!(plan.args, vec!["node", "join", "--network-name", "main"]);

    // the subprocess exited with status 1: the launch is reported, nothing runs
    let m = lc.launched(Err("exit status: 1".to_string()));
    assert_eq!(m.text, "Error: exit status: 1");
    assert!(m.is_error);
    assert_eq!(lc.state(), NodeState::Idle);
    assert!(!lc.tailer_active());
}

#[test]
fn stop_while_running_tears_down() {
    let mut lc = Lifecycle::new();
    let _ = lc.start(&Some("main".to_string()));
    let _ = lc.launched(Ok(()));

    let d = lc.stop();
    assert!(matches!(d, StopDecision::TearDown));
    assert_eq!(lc.state(), NodeState::Idle);
    assert!(!lc.tailer_active());

    let ok = Lifecycle::teardown_statuses(true);
    assert_eq!(ok.len(), 1);
    assert_eq!(ok[0].text, "Node has been stopped!");
    assert!(!ok[0].is_error);

    let failed = Lifecycle::teardown_statuses(false);
    assert_eq!(failed.len(), 2);
    assert_eq!(failed[0].text, "Error: Failed to kill node");
    assert!(failed[0].is_error);
    assert_eq!(failed[1].text, "Node has been stopped!");
    assert!(!failed[1].is_error);
}

#[test]
fn stop_while_idle_is_noop() {
    let mut lc = Lifecycle::new();
    let d = lc.stop();
    assert!(matches!(d, StopDecision::AlreadyIdle));
    assert_eq!(lc.state(), NodeState::Idle);
    assert!(!lc.tailer_active());
}

#[test]
fn stop_twice_stays_idle() {
    let mut lc = Lifecycle::new();
    let _ = lc.start(&Some("main".to_string()));
    let _ = lc.launched(Ok(()));
    let first = lc.stop();
    assert!(matches!(first, StopDecision::TearDown));
    let second = lc.stop();
    assert!(matches!(second, StopDecision::AlreadyIdle));
    assert_eq!(lc.state(), NodeState::Idle);
}
